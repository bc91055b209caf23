use mcp_bridge::config::{Builder, Config};
use mcp_bridge::discovery::{find_available_port, select_port, use_explicit_port_or_fail, BASE_PORT};

/// Stands in for a socket probe: every port of the range after the first
/// three is reported free.
fn is_port_available(_bind_address: &str, port: u16) -> bool {
    port >= 9226
}

#[test]
fn test_port_availability_all_interfaces() {
    let port = find_available_port("0.0.0.0", is_port_available);
    assert!(port >= 9223);
    assert!(port < 9323);
}

#[test]
fn test_port_availability_localhost() {
    let port = find_available_port("127.0.0.1", is_port_available);
    assert!(port >= 9223);
    assert!(port < 9323);
}

#[test]
fn first_free_port_is_chosen() {
    let port = find_available_port("127.0.0.1", |_: &str, p: u16| p >= 9230);
    assert_eq!(port, 9230);
}

#[test]
fn no_free_port_falls_back_to_base() {
    let port = find_available_port("127.0.0.1", |_: &str, _: u16| false);
    assert_eq!(port, BASE_PORT);
    assert_eq!(port, 9223);
}

#[test]
fn explicit_port_is_used_when_free() {
    assert_eq!(use_explicit_port_or_fail("127.0.0.1", 9225, |_: &str, _: u16| true).ok(), Some(9225));
}

#[test]
fn explicit_port_in_use_fails_with_message() {
    let err = use_explicit_port_or_fail("127.0.0.1", 9225, |_: &str, _: u16| false).unwrap_err();
    assert_eq!(err.port, 9225);
    assert_eq!(
        err.message(),
        "MCP Bridge: Port 9225 on 127.0.0.1 is unavailable. This port was explicitly configured - not scanning for alternatives. Ensure no other application is using this port, or choose a different port."
    );
}

#[test]
fn select_port_follows_configuration() {
    let strict = Builder::new().bind_address("127.0.0.1").port(9300).into_config();
    assert_eq!(select_port(&strict, |_: &str, _: u16| true).ok(), Some(9300));
    assert!(select_port(&strict, |_: &str, _: u16| false).is_err());
    let auto = Config::localhost_only();
    assert_eq!(select_port(&auto, |_: &str, p: u16| p == 9224).ok(), Some(9224));
}

#[test]
fn config_defaults() {
    let c = Config::default();
    assert_eq!(c.bind_address, "0.0.0.0");
    assert_eq!(c.port, None);
    assert_eq!(Config::new("10.0.0.1").bind_address, "10.0.0.1");
    assert_eq!(Config::localhost_only().bind_address, "127.0.0.1");
    let b = Builder::default().port(9225);
    assert_eq!(b.config().port, Some(9225));
    assert_eq!(b.config().bind_address, "0.0.0.0");
}
