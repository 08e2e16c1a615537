use proxy_probe::classify::{classify, Verdict};
use proxy_probe::stats::MeanRatio;

#[test]
fn large_gap_is_a_proxy() {
    // 50000 - 2000 = 48000 > 10 * 1000.
    let adjusted = MeanRatio { sum: 50000, count: 1 };
    assert!(classify(&adjusted, 2000, 10));
}

#[test]
fn small_gap_is_not_a_proxy() {
    // 5000 - 4500 = 500 <= 10 * 1000.
    let adjusted = MeanRatio { sum: 5000, count: 1 };
    assert!(!classify(&adjusted, 4500, 10));
}

#[test]
fn gap_equal_to_threshold_is_not_a_proxy() {
    // The comparison is strict: 12000 - 2000 == 10 * 1000.
    let adjusted = MeanRatio { sum: 12000, count: 1 };
    assert!(!classify(&adjusted, 2000, 10));
}

#[test]
fn fractional_adjusted_mean_is_compared_exactly() {
    // 909/9 = 101: 101 - 90 = 11 > 0 * 1000, but not > 1 * 1000.
    let adjusted = MeanRatio { sum: 909, count: 9 };
    assert!(classify(&adjusted, 90, 0));
    assert!(!classify(&adjusted, 90, 1));
}

#[test]
fn verdict_pairs_decision_with_peer_ip() {
    let v = Verdict { is_proxy: true, ip: String::from("10.0.0.1") };
    assert!(v.is_proxy);
    assert_eq!(v.ip, "10.0.0.1");
}
