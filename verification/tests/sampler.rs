use proxy_probe::sampler::{PingOutcome, Sampler, SAMPLE_COUNT};
use proxy_probe::tcp::rtt_or_default;

#[test]
fn successful_operation_yields_exactly_ten_ordered_samples() {
    let mut sampler = Sampler::new();
    let mut next: i32 = 1;
    while sampler.needs_ping() {
        sampler.record(PingOutcome::Reply(next * 100));
        next += 1;
    }
    let samples = sampler.into_samples().expect("all round trips succeeded");
    assert_eq!(samples.len(), SAMPLE_COUNT);
    assert_eq!(samples, vec![100, 200, 300, 400, 500, 600, 700, 800, 900, 1000]);
}

#[test]
fn failure_on_third_round_trip_yields_no_samples() {
    let mut sampler = Sampler::new();
    sampler.record(PingOutcome::Reply(120));
    sampler.record(PingOutcome::Reply(130));
    sampler.record(PingOutcome::Failed);
    // The operation is over: no further round trip is owed, and the whole
    // sample set is discarded.
    assert!(!sampler.needs_ping());
    assert_eq!(sampler.into_samples(), None);
}

#[test]
fn incomplete_operation_yields_no_samples() {
    let mut sampler = Sampler::new();
    sampler.record(PingOutcome::Reply(120));
    assert!(sampler.needs_ping());
    assert_eq!(sampler.into_samples(), None);
}

#[test]
fn kernel_rtt_query_failure_reads_as_zero() {
    assert_eq!(rtt_or_default(None), 0);
    assert_eq!(rtt_or_default(Some(1234)), 1234);
}
