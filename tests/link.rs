use slimevr_wrangler::{Link, KEEPALIVE_TIMEOUT_MS, RETRY_INTERVAL_MS};

#[test]
fn first_handshake_is_due_at_once() {
    let l = Link::new(1000);
    assert!(!l.connected);
    assert!(l.handshake_due(1000));
}

#[test]
fn handshakes_are_spaced_by_the_retry_interval() {
    assert_eq!(RETRY_INTERVAL_MS, 3000);
    let mut l = Link::new(0);
    l.record_handshake(500);
    assert!(!l.handshake_due(500));
    assert!(!l.handshake_due(3499));
    assert!(l.handshake_due(3500));
    // a clock reading before the attempt counts as no time passed
    assert!(!l.handshake_due(100));
}

#[test]
fn no_handshake_while_connected() {
    let mut l = Link::new(0);
    l.on_datagram(10, false);
    assert!(l.connected);
    assert!(!l.handshake_due(100_000));
}

#[test]
fn any_datagram_connects() {
    let mut l = Link::new(0);
    l.on_datagram(7, false);
    assert!(l.connected);
    assert_eq!(l.last_ping, 0);
}

#[test]
fn keepalive_expires_after_timeout_without_ping() {
    assert_eq!(KEEPALIVE_TIMEOUT_MS, 3000);
    let mut l = Link::new(0);
    l.on_datagram(1000, true);
    assert_eq!(l.last_ping, 1000);
    l.on_datagram(2500, false);
    l.expire(3999);
    assert!(l.connected);
    l.on_datagram(3999, false);
    l.expire(4000);
    assert!(!l.connected);
}

#[test]
fn ping_restarts_keepalive() {
    let mut l = Link::new(0);
    l.on_datagram(1000, true);
    l.on_datagram(3500, true);
    l.expire(5000);
    assert!(l.connected);
    l.expire(6500);
    assert!(!l.connected);
}
