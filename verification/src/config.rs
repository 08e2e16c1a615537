use vstd::prelude::*;

verus! {

/// Process-wide configuration, fixed at startup and read-only afterwards.
///
/// `duration` is the classification sensitivity: the probe reports a proxy
/// when the adjusted TLS-layer RTT exceeds the TCP-layer RTT by more than
/// `duration * 1000` microseconds.
pub struct Args {
    /// Address the listener binds, e.g. `0.0.0.0:8443`.
    pub addr: String,
    /// Path of the PEM certificate chain.
    pub cert: String,
    /// Path of the PEM private key.
    pub key: String,
    /// Log verbosity directive.
    pub log_level: String,
    /// Classification threshold, in thousands of microseconds.
    pub duration: i32,
}

impl Default for Args {
    /// The defaults the probe starts with when no option is given.
    fn default() -> (a: Args)
        ensures
            a.addr@ == "0.0.0.0:8443"@,
            a.cert@ == "./server.crt"@,
            a.key@ == "./server.key"@,
            a.log_level@ == "info"@,
            a.duration == 10,
    {
        Args {
            addr: "0.0.0.0:8443".to_owned(),
            cert: "./server.crt".to_owned(),
            key: "./server.key".to_owned(),
            log_level: "info".to_owned(),
            duration: 10,
        }
    }
}

} // verus!
