use proxy_probe::classify::Verdict;
use proxy_probe::request::{evaluate, is_root_path, root_response_body, route, verdict_json};

#[test]
fn root_path_is_recognized() {
    assert!(is_root_path("/"));
    assert!(!is_root_path(""));
    assert!(!is_root_path("/index.html"));
    assert!(!is_root_path("//"));
}

#[test]
fn non_root_paths_get_404_with_cors_and_no_body() {
    for path in ["/metrics", "/favicon.ico", "", "/./"] {
        let plan = route(path);
        assert_eq!(plan.status, 404);
        assert!(plan.cors);
        assert!(!plan.json_content_type);
        assert!(!plan.defer_body);
    }
}

#[test]
fn root_path_gets_200_json_with_deferred_body() {
    let plan = route("/");
    assert_eq!(plan.status, 200);
    assert!(plan.cors);
    assert!(plan.json_content_type);
    assert!(plan.defer_body);
}

#[test]
fn verdict_serializes_to_the_exact_json_object() {
    let verdict = Verdict { is_proxy: false, ip: String::from("1.2.3.4") };
    assert_eq!(verdict_json(&verdict), "{\"ip\":\"1.2.3.4\",\"is_proxy\":false}");
    let verdict = Verdict { is_proxy: true, ip: String::from("::1") };
    assert_eq!(verdict_json(&verdict), "{\"ip\":\"::1\",\"is_proxy\":true}");
}

#[test]
fn body_deserializes_into_exactly_is_proxy_and_ip() {
    let samples = vec![100, 102, 101, 103, 99, 101, 100, 250, 102, 101];
    let body = root_response_body(&samples, 2000, 10, String::from("192.0.2.7"));
    let value: serde_json::Value = serde_json::from_str(&body).expect("body is valid JSON");
    let object = value.as_object().expect("body is a JSON object");
    assert_eq!(object.len(), 2);
    assert_eq!(object.get("is_proxy").and_then(|v| v.as_bool()), Some(false));
    assert_eq!(object.get("ip").and_then(|v| v.as_str()), Some("192.0.2.7"));
}

#[test]
fn pipeline_reports_a_proxy_on_a_large_gap() {
    // Adjusted TLS RTT 50000 against TCP RTT 2000 with threshold 10.
    let samples = vec![50000; 10];
    let verdict = evaluate(&samples, 2000, 10, String::from("10.1.2.3"));
    assert!(verdict.is_proxy);
    assert_eq!(verdict.ip, "10.1.2.3");
}

#[test]
fn pipeline_reports_no_proxy_on_a_small_gap() {
    let samples = vec![5000; 10];
    let verdict = evaluate(&samples, 4500, 10, String::from("10.1.2.3"));
    assert!(!verdict.is_proxy);
}

#[test]
fn pipeline_excludes_the_spike_before_deciding() {
    // With the spike excluded the adjusted mean is 101, far below the
    // threshold; the unfiltered mean 115.9 would still be below it, but the
    // outlier-heavy reverse case flips on filtering.
    let samples = vec![100, 102, 101, 103, 99, 101, 100, 250, 102, 101];
    let verdict = evaluate(&samples, 90, 0, String::from("10.9.9.9"));
    // 101 - 90 = 11 > 0: flagged with a zero threshold.
    assert!(verdict.is_proxy);
    let verdict = evaluate(&samples, 101, 0, String::from("10.9.9.9"));
    // 101 - 101 = 0: not strictly greater.
    assert!(!verdict.is_proxy);
}
