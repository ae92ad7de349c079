use charades::liveness::heartbeat_tick;
use charades::liveness::on_session_event;
use charades::liveness::HeartbeatAction;
use charades::liveness::SessionAction;
use charades::liveness::SessionEvent;
use charades::liveness::CLIENT_TIMEOUT_SECS;
use charades::liveness::HEARTBEAT_INTERVAL_SECS;
use charades::coordinator::on_connect;
use charades::coordinator::on_heartbeat_timeout;
use charades::errors::ApiError;
use charades::messages::ClientMessage;
use charades::messages::ServerMessage;
use charades::models::User;
use charades::registry::ConnectionHandle;
use charades::registry::ConnectionRegistry;

fn user(id: &str) -> User {
    User { id: id.to_string(), name: None, created_at: 0 }
}

#[test]
fn timer_constants() {
    assert_eq!(HEARTBEAT_INTERVAL_SECS, 5);
    assert_eq!(CLIENT_TIMEOUT_SECS, 10);
}

#[test]
fn silent_connection_times_out() {
    assert_eq!(heartbeat_tick(0, 11), HeartbeatAction::Disconnect);
    assert_eq!(heartbeat_tick(100, 250), HeartbeatAction::Disconnect);
}

#[test]
fn live_connection_is_pinged_not_dropped() {
    assert_eq!(heartbeat_tick(0, 10), HeartbeatAction::Ping);
    assert_eq!(heartbeat_tick(0, 0), HeartbeatAction::Ping);
    assert_eq!(heartbeat_tick(7, 12), HeartbeatAction::Ping);
    // a clock reading from before the last signal never disconnects
    assert_eq!(heartbeat_tick(50, 3), HeartbeatAction::Ping);
}

#[test]
fn timeout_unregisters_and_announces_exactly_once() {
    let mut registry = ConnectionRegistry::new();
    on_connect(&mut registry, &"a".to_string(), &"R1".to_string(), 0);
    on_connect(&mut registry, &"b".to_string(), &"R1".to_string(), 0);
    assert_eq!(heartbeat_tick(0, CLIENT_TIMEOUT_SECS + 1), HeartbeatAction::Disconnect);

    let store: Result<Vec<User>, ApiError> = Ok(vec![user("a"), user("b")]);
    let cache: Result<Vec<String>, ApiError> = Err(ApiError::internal("down".to_string()));
    let result = on_heartbeat_timeout(&mut registry, &"a".to_string(), &store, cache);

    assert!(!registry.user_id_in_current_sessions(&"a".to_string()));
    let update = result.outcome.unwrap();
    assert_eq!(
        update,
        ServerMessage::UsersUpdate { online_users: vec![user("b")], offline_users: vec![user("a")] }
    );
    let to_b = registry.drain_outbox(&"b".to_string());
    assert_eq!(to_b.len(), 1);
    assert_eq!(to_b, vec![update]);
}

#[test]
fn liveness_signals_reset_and_reply() {
    assert_eq!(on_session_event(SessionEvent::Ping), (true, SessionAction::ReplyPong));
    assert_eq!(on_session_event(SessionEvent::Pong), (true, SessionAction::Ignore));
}

#[test]
fn parsed_payload_is_forwarded_and_counts_as_liveness() {
    let event = SessionEvent::Text {
        parsed: Some(ClientMessage::AddWord { word: "apple".to_string() }),
    };
    assert_eq!(
        on_session_event(event),
        (true, SessionAction::Forward {
            message: ClientMessage::AddWord { word: "apple".to_string() },
        })
    );
}

#[test]
fn malformed_payload_is_dropped_silently() {
    assert_eq!(
        on_session_event(SessionEvent::Text { parsed: None }),
        (true, SessionAction::Ignore)
    );
    assert_eq!(on_session_event(SessionEvent::Binary), (true, SessionAction::Ignore));
}

#[test]
fn closing_events_stop_the_connection() {
    assert_eq!(on_session_event(SessionEvent::Close), (false, SessionAction::CloseAndStop));
    assert_eq!(on_session_event(SessionEvent::Continuation), (false, SessionAction::Stop));
    assert_eq!(on_session_event(SessionEvent::StreamError), (false, SessionAction::Stop));
    assert_eq!(on_session_event(SessionEvent::Nop), (false, SessionAction::Ignore));
}

#[test]
fn last_registration_wins() {
    let mut registry = ConnectionRegistry::new();
    let a = "a".to_string();
    registry.register(ConnectionHandle::new(a.clone(), "R1".to_string(), 0));
    registry.send(&a, ServerMessage::AddWord { number_of_words: 1 });
    // the same user connects again: the fresh handle supersedes the old one
    registry.register(ConnectionHandle::new(a.clone(), "R1".to_string(), 5));
    registry.send(&a, ServerMessage::AddWord { number_of_words: 2 });

    let delivered = registry.drain_outbox(&a);
    assert_eq!(delivered, vec![ServerMessage::AddWord { number_of_words: 2 }]);
    assert!(registry.user_id_in_current_sessions(&a));
}

#[test]
fn send_to_unregistered_id_is_a_no_op() {
    let mut registry = ConnectionRegistry::new();
    registry.send(&"ghost".to_string(), ServerMessage::Empty);
    assert!(registry.drain_outbox(&"ghost".to_string()).is_empty());
}

#[test]
fn unregister_is_idempotent() {
    let mut registry = ConnectionRegistry::new();
    let a = "a".to_string();
    registry.register(ConnectionHandle::new(a.clone(), "R1".to_string(), 0));
    registry.unregister(&a);
    assert!(!registry.user_id_in_current_sessions(&a));
    registry.unregister(&a);
    assert!(!registry.user_id_in_current_sessions(&a));
}

#[test]
fn drain_empties_the_queue() {
    let mut registry = ConnectionRegistry::new();
    let a = "a".to_string();
    registry.register(ConnectionHandle::new(a.clone(), "R1".to_string(), 0));
    registry.send(&a, ServerMessage::Empty);
    assert_eq!(registry.drain_outbox(&a).len(), 1);
    assert!(registry.drain_outbox(&a).is_empty());
}

#[test]
fn broadcast_excludes_the_excluded_and_the_unlisted() {
    let mut registry = ConnectionRegistry::new();
    for id in ["a", "b", "c"] {
        registry.register(ConnectionHandle::new(id.to_string(), "R1".to_string(), 0));
    }
    let members = vec!["a".to_string(), "b".to_string()];
    let excluded = "a".to_string();
    registry.broadcast_to_members(
        &members,
        &ServerMessage::AddWord { number_of_words: 7 },
        Some(&excluded),
    );
    assert!(registry.drain_outbox(&"a".to_string()).is_empty());
    assert_eq!(
        registry.drain_outbox(&"b".to_string()),
        vec![ServerMessage::AddWord { number_of_words: 7 }]
    );
    assert!(registry.drain_outbox(&"c".to_string()).is_empty());
}

#[test]
fn record_liveness_keeps_the_queue() {
    let mut registry = ConnectionRegistry::new();
    let a = "a".to_string();
    registry.register(ConnectionHandle::new(a.clone(), "R1".to_string(), 0));
    registry.send(&a, ServerMessage::Empty);
    registry.record_liveness(&a, 42);
    assert_eq!(registry.drain_outbox(&a), vec![ServerMessage::Empty]);
}
