use vstd::prelude::*;

verus! {

/// Folds the outcome of the kernel TCP statistics query into the value the
/// detection pipeline uses.
///
/// The runtime issues a read-only socket-option query for the kernel's
/// smoothed TCP RTT (microseconds) and reports `Some(rtt)` on success and
/// `None` when the query failed (for example on a closed or invalid
/// descriptor).  A failed query is deliberately folded to zero rather than an
/// error: extraction failures are silent and indistinguishable from a
/// genuinely near-zero kernel RTT.
pub fn rtt_or_default(query: Option<u32>) -> (r: u32)
    ensures
        match query {
            Option::Some(v) => r == v,
            Option::None => r == 0,
        },
{
    match query {
        Option::Some(v) => v,
        Option::None => 0,
    }
}

} // verus!
