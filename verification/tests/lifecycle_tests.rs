use tcp_proxy::config::{Config, Endpoint, IpAddress};
use tcp_proxy::conn::{CloseKind, ConnEvent, Connection, Phase};

fn cfg_with_session(session_timeout_ms: u64) -> Config {
    let ep = Endpoint { ip: IpAddress::V4 { a: 127, b: 0, c: 0, d: 1 }, port: 9000 };
    Config::new(ep, ep, 5000, session_timeout_ms)
}

#[test]
fn fresh_connection_is_connecting_with_nothing_relayed() {
    let c = Connection::open(7);
    assert_eq!(c.id, 7);
    assert_eq!(c.phase, Phase::Connecting);
    assert_eq!(c.client_to_remote, 0);
    assert_eq!(c.remote_to_client, 0);
    assert!(!c.is_closed());
    assert_eq!(c.final_stats(), None);
}

#[test]
fn connect_refused_closes_with_zero_bytes() {
    let cfg = cfg_with_session(0);
    let c = Connection::open(1).step(cfg, ConnEvent::ConnectFailed);
    assert_eq!(c.phase, Phase::Closed { kind: CloseKind::ConnectFailed });
    assert!(c.is_closed());
    assert_eq!(c.client_to_remote, 0);
    assert_eq!(c.remote_to_client, 0);
    assert_eq!(c.final_stats(), None);
}

#[test]
fn connect_timeout_closes_with_zero_bytes_and_distinct_kind() {
    let cfg = cfg_with_session(0);
    let c = Connection::open(1).step(cfg, ConnEvent::ConnectTimedOut);
    assert_eq!(c.phase, Phase::Closed { kind: CloseKind::ConnectTimedOut });
    assert_ne!(c.phase, Phase::Closed { kind: CloseKind::ConnectFailed });
    assert_eq!(c.client_to_remote, 0);
    assert_eq!(c.remote_to_client, 0);
    assert_eq!(c.final_stats(), None);
}

#[test]
fn successful_session_reports_exact_byte_counts() {
    let cfg = cfg_with_session(0);
    let c = Connection::open(3)
        .step(cfg, ConnEvent::ConnectOk)
        .step(cfg, ConnEvent::ClientBytes { n: 5 })
        .step(cfg, ConnEvent::RemoteBytes { n: 7 })
        .step(cfg, ConnEvent::ClientBytes { n: 3 })
        .step(cfg, ConnEvent::ClientEof)
        .step(cfg, ConnEvent::RemoteBytes { n: 2 })
        .step(cfg, ConnEvent::RemoteEof);
    assert_eq!(c.phase, Phase::Closed { kind: CloseKind::Normal });
    assert_eq!(c.final_stats(), Some((8, 9)));
    assert_eq!(c.id, 3);
}

#[test]
fn half_closed_connection_still_drains_the_other_direction() {
    let cfg = cfg_with_session(0);
    let c = Connection::open(1)
        .step(cfg, ConnEvent::ConnectOk)
        .step(cfg, ConnEvent::ClientEof);
    assert_eq!(c.phase, Phase::Relaying);
    assert!(!c.is_closed());
    let c = c
        .step(cfg, ConnEvent::RemoteBytes { n: 4 })
        .step(cfg, ConnEvent::RemoteEof);
    assert_eq!(c.phase, Phase::Closed { kind: CloseKind::Normal });
    assert_eq!(c.final_stats(), Some((0, 4)));
}

#[test]
fn session_timer_closes_an_open_relay_when_bounded() {
    let cfg = cfg_with_session(200);
    let c = Connection::open(1)
        .step(cfg, ConnEvent::ConnectOk)
        .step(cfg, ConnEvent::ClientBytes { n: 10 })
        .step(cfg, ConnEvent::SessionTimerFired);
    assert_eq!(c.phase, Phase::Closed { kind: CloseKind::SessionTimedOut });
    assert_ne!(c.phase, Phase::Closed { kind: CloseKind::Normal });
    assert_eq!(c.final_stats(), None);
}

#[test]
fn session_timer_is_ignored_when_unbounded() {
    let cfg = cfg_with_session(0);
    let before = Connection::open(1)
        .step(cfg, ConnEvent::ConnectOk)
        .step(cfg, ConnEvent::ClientBytes { n: 10 });
    let after = before.step(cfg, ConnEvent::SessionTimerFired);
    assert_eq!(after, before);
    assert_eq!(after.phase, Phase::Relaying);
}

#[test]
fn io_error_closes_without_final_stats() {
    let cfg = cfg_with_session(0);
    let c = Connection::open(1)
        .step(cfg, ConnEvent::ConnectOk)
        .step(cfg, ConnEvent::ClientBytes { n: 10 })
        .step(cfg, ConnEvent::IoFailed);
    assert_eq!(c.phase, Phase::Closed { kind: CloseKind::IoError });
    assert_eq!(c.final_stats(), None);
}

#[test]
fn closed_is_terminal_under_every_event() {
    let cfg = cfg_with_session(200);
    let closed = Connection::open(1).step(cfg, ConnEvent::ConnectFailed);
    let events = [
        ConnEvent::ConnectOk,
        ConnEvent::ConnectFailed,
        ConnEvent::ConnectTimedOut,
        ConnEvent::ClientBytes { n: 9 },
        ConnEvent::RemoteBytes { n: 9 },
        ConnEvent::ClientEof,
        ConnEvent::RemoteEof,
        ConnEvent::IoFailed,
        ConnEvent::SessionTimerFired,
    ];
    for ev in events {
        assert_eq!(closed.step(cfg, ev), closed);
    }
}

#[test]
fn bytes_after_eof_are_not_counted() {
    let cfg = cfg_with_session(0);
    let c = Connection::open(1)
        .step(cfg, ConnEvent::ConnectOk)
        .step(cfg, ConnEvent::ClientEof)
        .step(cfg, ConnEvent::ClientBytes { n: 50 });
    assert_eq!(c.client_to_remote, 0);
    assert_eq!(c.phase, Phase::Relaying);
}

#[test]
fn relay_events_before_connect_change_nothing() {
    let cfg = cfg_with_session(0);
    let fresh = Connection::open(1);
    let c = fresh.step(cfg, ConnEvent::ClientBytes { n: 5 });
    assert_eq!(c, fresh);
    let c = fresh.step(cfg, ConnEvent::SessionTimerFired);
    assert_eq!(c, fresh);
}
