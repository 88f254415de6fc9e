use torchflower::transport::parse_raknet_timeout_millis;

#[test]
fn raknet_timeout_default_is_milliseconds_not_seconds() {
    assert_eq!(parse_raknet_timeout_millis(None), 60_000);
    assert_eq!(parse_raknet_timeout_millis(Some("20")), 60_000);
    assert_eq!(parse_raknet_timeout_millis(Some("20000")), 20_000);
}
