use tcp_proxy::config::{Config, Endpoint, IpAddress, DEFAULT_CONNECT_TIMEOUT_MS};

fn local(port: u16) -> Endpoint {
    Endpoint { ip: IpAddress::V4 { a: 127, b: 0, c: 0, d: 1 }, port }
}

#[test]
fn defaults_are_five_seconds_and_unbounded_session() {
    let cfg = Config::with_defaults(local(5001), local(9000));
    assert_eq!(cfg.connect_timeout_ms, DEFAULT_CONNECT_TIMEOUT_MS);
    assert_eq!(cfg.connect_timeout_ms, 5000);
    assert_eq!(cfg.session_timeout_ms, 0);
    assert_eq!(cfg.listen, local(5001));
    assert_eq!(cfg.remote, local(9000));
}

#[test]
fn explicit_timeouts_are_kept() {
    let cfg = Config::new(local(5001), local(9000), 2000, 200);
    assert_eq!(cfg.connect_timeout_ms, 2000);
    assert_eq!(cfg.session_timeout_ms, 200);
}

#[test]
fn session_expired_at_or_after_the_bound() {
    let cfg = Config::new(local(1), local(2), 5000, 200);
    assert!(!cfg.session_expired(0));
    assert!(!cfg.session_expired(199));
    assert!(cfg.session_expired(200));
    assert!(cfg.session_expired(201));
}

#[test]
fn session_never_expires_when_disabled() {
    let cfg = Config::new(local(1), local(2), 5000, 0);
    assert!(!cfg.session_expired(0));
    assert!(!cfg.session_expired(200));
    assert!(!cfg.session_expired(u64::MAX));
}

#[test]
fn ipv6_endpoint_holds_its_segments() {
    let ep = Endpoint {
        ip: IpAddress::V6 { s0: 0, s1: 0, s2: 0, s3: 0, s4: 0, s5: 0, s6: 0, s7: 1 },
        port: 9000,
    };
    let cfg = Config::with_defaults(ep, local(9000));
    assert_eq!(cfg.listen, ep);
}
