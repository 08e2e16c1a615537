use vstd::prelude::*;
use vstd::string::StrSliceExecFns;
use vstd::string::StringExecFns;
use crate::classify::{classify, is_proxy_decision, Verdict};
use crate::stats::{adjusted_count, adjusted_sum, detect_anomalies, MAX_SAMPLES};

verus! {

/// Numerator of the outlier threshold multiplier the probe filters with.
pub const OUTLIER_THRESHOLD_NUM: u32 = 1;

/// Denominator of the outlier threshold multiplier: the filter flags samples
/// more than half a standard deviation away from the mean.
pub const OUTLIER_THRESHOLD_DEN: u32 = 2;

/// How a request is answered, before any body is computed.
#[derive(Clone, Copy, Debug, PartialEq, Eq, Structural)]
pub struct ResponsePlan {
    /// HTTP status code.
    pub status: u16,
    /// Whether the response declares a JSON content type.
    pub json_content_type: bool,
    /// Whether the permissive cross-origin header is sent.  It always is.
    pub cors: bool,
    /// Whether the headers are sent with the body deferred, to be computed
    /// and streamed afterwards.  A plan without a deferred body has no body
    /// at all.
    pub defer_body: bool,
}

/// Whether `path` is the root path, the only resource the probe serves.
pub fn is_root_path(path: &str) -> (b: bool)
    ensures
        b == (path@ == "/"@),
{
    proof {
        reveal_strlit("/");
    }
    if path.unicode_len() != 1 {
        false
    } else if path.get_char(0) == '/' {
        proof {
            assert(path@ =~= "/"@);
        }
        true
    } else {
        false
    }
}

/// Dispatches a request on its path alone; the method is not consulted.
///
/// The root path is answered 200 with a JSON body to follow; every other
/// path is answered 404 with no body.  Both answers carry the permissive
/// cross-origin header.
pub fn route(path: &str) -> (p: ResponsePlan)
    ensures
        p.cors,
        path@ == "/"@ ==> p.status == 200 && p.json_content_type && p.defer_body,
        path@ != "/"@ ==> p.status == 404 && !p.json_content_type && !p.defer_body,
{
    if is_root_path(path) {
        ResponsePlan { status: 200, json_content_type: true, cors: true, defer_body: true }
    } else {
        ResponsePlan { status: 404, json_content_type: false, cors: true, defer_body: false }
    }
}

/// Characters that can stand in a JSON string without escaping.  A peer's
/// IP address text never needs more.
pub open spec fn json_safe(s: Seq<char>) -> bool {
    forall|i: int|
        0 <= i < s.len() ==> s[i] != '"' && s[i] != '\\' && (s[i] as u32) >= 0x20
}

/// The serialized verdict object: `{"ip":"<ip>","is_proxy":<bool>}`.
pub open spec fn verdict_json_view(is_proxy: bool, ip: Seq<char>) -> Seq<char> {
    "{\"ip\":\""@ + ip + "\",\"is_proxy\":"@ + (if is_proxy {
        "true"@
    } else {
        "false"@
    }) + "}"@
}

/// Serializes a verdict to the JSON body sent on the root path.
pub fn verdict_json(v: &Verdict) -> (r: String)
    requires
        json_safe(v.ip@),
    ensures
        r@ == verdict_json_view(v.is_proxy, v.ip@),
{
    let mut r = "{\"ip\":\"".to_owned();
    r.append(v.ip.as_str());
    r.append("\",\"is_proxy\":");
    if v.is_proxy {
        r.append("true");
    } else {
        r.append("false");
    }
    r.append("}");
    r
}

/// The detection pipeline of one root-path request, from freshly taken
/// measurements to the verdict.
///
/// Filters the TLS-layer samples with the probe's half-standard-deviation
/// threshold, then classifies the adjusted mean against the kernel TCP RTT
/// and the configured `duration` threshold.
pub fn evaluate(samples: &Vec<i32>, tcp_rtt: u32, duration: i32, peer_ip: String) -> (v: Verdict)
    requires
        1 <= samples@.len() <= MAX_SAMPLES,
    ensures
        v.ip == peer_ip,
        v.is_proxy == is_proxy_decision(
            adjusted_sum(samples@, OUTLIER_THRESHOLD_NUM as int, OUTLIER_THRESHOLD_DEN as int),
            adjusted_count(samples@, OUTLIER_THRESHOLD_NUM as int, OUTLIER_THRESHOLD_DEN as int),
            tcp_rtt as int,
            duration as int,
        ),
{
    let (adjusted, _variance, _outliers) = detect_anomalies(
        samples,
        OUTLIER_THRESHOLD_NUM,
        OUTLIER_THRESHOLD_DEN,
    );
    let is_proxy = classify(&adjusted, tcp_rtt, duration);
    Verdict { is_proxy, ip: peer_ip }
}

/// The whole body computation of a root-path request: evaluate the
/// measurements and serialize the verdict.
pub fn root_response_body(
    samples: &Vec<i32>,
    tcp_rtt: u32,
    duration: i32,
    peer_ip: String,
) -> (body: String)
    requires
        1 <= samples@.len() <= MAX_SAMPLES,
        json_safe(peer_ip@),
    ensures
        body@ == verdict_json_view(
            is_proxy_decision(
                adjusted_sum(samples@, OUTLIER_THRESHOLD_NUM as int, OUTLIER_THRESHOLD_DEN as int),
                adjusted_count(samples@, OUTLIER_THRESHOLD_NUM as int, OUTLIER_THRESHOLD_DEN as int),
                tcp_rtt as int,
                duration as int,
            ),
            peer_ip@,
        ),
{
    let verdict = evaluate(samples, tcp_rtt, duration, peer_ip);
    verdict_json(&verdict)
}

} // verus!
