use proxy_probe::config::Args;

#[test]
fn defaults_match_the_documented_startup_values() {
    let args = Args::default();
    assert_eq!(args.addr, "0.0.0.0:8443");
    assert_eq!(args.cert, "./server.crt");
    assert_eq!(args.key, "./server.key");
    assert_eq!(args.log_level, "info");
    assert_eq!(args.duration, 10);
}
