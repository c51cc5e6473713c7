use spot_execution::binance_truth::PrivateStreamState;
use spot_execution::identifiers::{ClientId, UnixNanos};
use spot_execution::private_stream::PrivateStreamHealthHandle;

#[test]
fn reconnect_invalidates_ready_generation() {
    let mut handle = PrivateStreamHealthHandle::new(ClientId::new("BINANCE-SPOT"));
    let first = handle.begin_reconnect();
    handle.authenticated(first);
    handle.subscribed(first);
    assert!(handle.ready(first, UnixNanos(1)));

    let second = handle.begin_reconnect();
    let health = handle.snapshot();
    assert_eq!(second, first + 1);
    assert_eq!(health.state, PrivateStreamState::Reconciling);
    assert!(!health.authenticated);
    assert!(!health.subscribed);
    assert!(!handle.ready(first, UnixNanos(2)));
}

#[test]
fn failed_dispatch_generation_cannot_be_promoted() {
    let mut handle = PrivateStreamHealthHandle::new(ClientId::new("BINANCE-FUTURES"));
    let generation = handle.begin_reconnect();
    handle.authenticated(generation);
    handle.subscribed(generation);
    handle.fail(generation, "dispatch ended");

    assert!(!handle.ready(generation, UnixNanos(3)));
    assert_eq!(handle.snapshot().state, PrivateStreamState::Failed);
}

#[test]
fn a_fresh_handle_is_not_connected() {
    let handle = PrivateStreamHealthHandle::new(ClientId::new("BINANCE-SPOT"));
    let health = handle.snapshot();
    assert_eq!(health.client_id.as_str(), "BINANCE-SPOT");
    assert_eq!(health.state, PrivateStreamState::Stale);
    assert_eq!(health.generation, 0);
    assert_eq!(health.last_heartbeat, None);
    assert_eq!(health.detail, Some("not connected".to_string()));
    assert_eq!(handle.current_generation(), 0);
}

#[test]
fn promotion_needs_both_steps_in_either_order() {
    let mut handle = PrivateStreamHealthHandle::new(ClientId::new("BINANCE-SPOT"));
    let generation = handle.begin_reconnect();
    assert_eq!(
        handle.snapshot().detail,
        Some("private stream generation changed".to_string())
    );
    assert!(!handle.ready(generation, UnixNanos(1)));
    handle.subscribed(generation);
    assert!(!handle.ready(generation, UnixNanos(2)));
    handle.authenticated(generation);
    assert!(handle.ready(generation, UnixNanos(3)));
    let health = handle.snapshot();
    assert_eq!(health.state, PrivateStreamState::Ready);
    assert_eq!(health.last_heartbeat, Some(UnixNanos(3)));
    assert_eq!(health.detail, None);
    assert!(!handle.ready(generation, UnixNanos(4)));
}

#[test]
fn reports_of_other_generations_are_void() {
    let mut handle = PrivateStreamHealthHandle::new(ClientId::new("BINANCE-SPOT"));
    let generation = handle.begin_reconnect();
    let before = handle.snapshot();
    handle.authenticated(generation + 1);
    handle.subscribed(generation + 1);
    handle.heartbeat(generation + 1, UnixNanos(9));
    handle.stale(generation + 1, "late");
    handle.fail(generation + 1, "late");
    assert_eq!(handle.snapshot(), before);
    handle.heartbeat(generation, UnixNanos(9));
    assert_eq!(handle.snapshot().last_heartbeat, Some(UnixNanos(9)));
    handle.stale(generation, "gone");
    assert_eq!(handle.snapshot().state, PrivateStreamState::Stale);
    assert_eq!(handle.snapshot().detail, Some("gone".to_string()));
}

#[test]
fn a_generation_is_promoted_once() {
    let mut handle = PrivateStreamHealthHandle::new(ClientId::new("BINANCE-SPOT"));
    let generation = handle.begin_reconnect();
    assert_eq!(generation, 1);
    handle.authenticated(generation);
    handle.subscribed(generation);
    assert!(handle.ready(generation, UnixNanos(1)));
    handle.stale(generation, "gone");
    assert_eq!(handle.snapshot().detail, Some("gone".to_string()));
    handle.authenticated(generation);
    handle.subscribed(generation);
    handle.heartbeat(generation, UnixNanos(2));
    assert!(!handle.ready(generation, UnixNanos(3)));
    let next = handle.begin_reconnect();
    handle.authenticated(next);
    handle.subscribed(next);
    assert!(!handle.ready(generation, UnixNanos(4)));
    assert!(handle.ready(next, UnixNanos(5)));
}
