use vstd::prelude::*;
use crate::stats::MeanRatio;

verus! {

/// The classification rule.
///
/// A connection is judged proxied when the adjusted TLS-layer RTT exceeds
/// the TCP-layer RTT by more than `duration * 1000` microseconds.  The
/// adjusted RTT is the exact rational `sum / count`, so with `count > 0` the
/// rule `sum/count − tcp_rtt > duration·1000` is the integer comparison
/// below, after multiplying through by `count`.
pub open spec fn is_proxy_decision(sum: int, count: int, tcp_rtt: int, duration: int) -> bool {
    sum - count * tcp_rtt > count * duration * 1000
}

/// The verdict reported for one request: the proxy decision and the peer's
/// IP address.
pub struct Verdict {
    pub is_proxy: bool,
    pub ip: String,
}

/// Decides whether the measured RTT gap betrays an intercepting proxy.
///
/// `adjusted` is the adjusted mean of the TLS-layer samples (microseconds),
/// `tcp_rtt` the kernel's smoothed TCP RTT (microseconds), and `duration`
/// the configured sensitivity threshold.  Each request is classified
/// independently; there is no smoothing across requests.
pub fn classify(adjusted: &MeanRatio, tcp_rtt: u32, duration: i32) -> (b: bool)
    requires
        adjusted.wf(),
    ensures
        b == is_proxy_decision(
            adjusted.sum as int,
            adjusted.count as int,
            tcp_rtt as int,
            duration as int,
        ),
{
    let count = adjusted.count as i128;
    proof {
        assert(0 <= (count as int) * (tcp_rtt as int) <= 0x1_0000_0000 * 0x1_0000_0000)
            by (nonlinear_arith)
            requires
                0 <= (count as int) < 0x1_0000_0000,
                0 <= (tcp_rtt as int) < 0x1_0000_0000,
        ;
        assert(-0x1_0000_0000 * 0x8000_0000 <= (count as int) * (duration as int)
            <= 0x1_0000_0000 * 0x8000_0000) by (nonlinear_arith)
            requires
                0 <= (count as int) < 0x1_0000_0000,
                -0x8000_0000 <= (duration as int) <= 0x7fff_ffff,
        ;
    }
    let lhs: i128 = adjusted.sum as i128 - count * (tcp_rtt as i128);
    let rhs: i128 = count * (duration as i128) * 1000;
    lhs > rhs
}

} // verus!
