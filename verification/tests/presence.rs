use charades::coordinator::compute_presence;
use charades::coordinator::handle_update_users;
use charades::coordinator::on_connect;
use charades::coordinator::on_disconnect;
use charades::coordinator::resolve_room_members;
use charades::coordinator::MemberSource;
use charades::errors::ApiError;
use charades::errors::ServerError;
use charades::messages::ServerMessage;
use charades::models::User;
use charades::registry::ConnectionRegistry;

fn user(id: &str) -> User {
    User { id: id.to_string(), name: Some(format!("name of {id}")), created_at: 1_700_000_000 }
}

fn connect(registry: &mut ConnectionRegistry, id: &str, room: &str) {
    let canonical = on_connect(registry, &id.to_string(), &room.to_string(), 0);
    assert_eq!(canonical, id.to_string());
}

#[test]
fn presence_partitions_members_by_registration() {
    let mut registry = ConnectionRegistry::new();
    connect(&mut registry, "a", "R1");
    let members = vec![user("a"), user("b"), user("c")];
    let (online, offline) = compute_presence(&members, &registry);
    assert_eq!(online, vec![user("a")]);
    assert_eq!(offline, vec![user("b"), user("c")]);
    assert_eq!(online.len() + offline.len(), members.len());
}

#[test]
fn presence_of_empty_member_list_is_empty() {
    let registry = ConnectionRegistry::new();
    let (online, offline) = compute_presence(&vec![], &registry);
    assert!(online.is_empty());
    assert!(offline.is_empty());
}

#[test]
fn everyone_offline_without_connections() {
    let registry = ConnectionRegistry::new();
    let members = vec![user("a"), user("b")];
    let (online, offline) = compute_presence(&members, &registry);
    assert!(online.is_empty());
    assert_eq!(offline, vec![user("a"), user("b")]);
}

#[test]
fn update_users_reports_partition() {
    let mut registry = ConnectionRegistry::new();
    connect(&mut registry, "a", "R1");
    connect(&mut registry, "b", "R1");
    let fetched: Result<Vec<User>, ApiError> = Ok(vec![user("a"), user("b"), user("c")]);
    let msg = handle_update_users(&fetched, &registry).unwrap();
    assert_eq!(
        msg,
        ServerMessage::UsersUpdate {
            online_users: vec![user("a"), user("b")],
            offline_users: vec![user("c")],
        }
    );
}

#[test]
fn update_users_degrades_silently_on_store_error() {
    let registry = ConnectionRegistry::new();
    let fetched: Result<Vec<User>, ApiError> =
        Err(ApiError::internal("store unreachable".to_string()));
    let res = handle_update_users(&fetched, &registry);
    assert_eq!(res, Err(ServerError::Silent));
}

#[test]
fn cache_hit_resolves_from_cache() {
    let store: Result<Vec<User>, ApiError> = Ok(vec![user("a")]);
    let cache: Result<Vec<String>, ApiError> = Ok(vec!["x".to_string(), "y".to_string()]);
    let (ids, source) = resolve_room_members(cache, &store);
    assert_eq!(ids, vec!["x".to_string(), "y".to_string()]);
    assert_eq!(source, MemberSource::Cache);
}

#[test]
fn cache_error_falls_back_to_store() {
    let store: Result<Vec<User>, ApiError> = Ok(vec![user("a"), user("b")]);
    let cache: Result<Vec<String>, ApiError> =
        Err(ApiError::internal("cache down".to_string()));
    let (ids, source) = resolve_room_members(cache, &store);
    assert_eq!(ids, vec!["a".to_string(), "b".to_string()]);
    assert_eq!(source, MemberSource::Store);
}

#[test]
fn both_tiers_failing_resolves_to_nobody() {
    let store: Result<Vec<User>, ApiError> =
        Err(ApiError::internal("store down".to_string()));
    let cache: Result<Vec<String>, ApiError> =
        Err(ApiError::internal("cache down".to_string()));
    let (ids, source) = resolve_room_members(cache, &store);
    assert!(ids.is_empty());
    assert_eq!(source, MemberSource::Store);
}

#[test]
fn disconnect_updates_presence_and_reaches_only_the_remaining() {
    let mut registry = ConnectionRegistry::new();
    connect(&mut registry, "a", "R1");
    connect(&mut registry, "b", "R1");
    let store: Result<Vec<User>, ApiError> = Ok(vec![user("a"), user("b")]);
    let cache: Result<Vec<String>, ApiError> =
        Err(ApiError::internal("cache down".to_string()));

    let result = on_disconnect(&mut registry, &"a".to_string(), &store, cache);

    assert!(!registry.user_id_in_current_sessions(&"a".to_string()));
    assert!(registry.user_id_in_current_sessions(&"b".to_string()));
    let update = result.outcome.unwrap();
    assert_eq!(
        update,
        ServerMessage::UsersUpdate {
            online_users: vec![user("b")],
            offline_users: vec![user("a")],
        }
    );
    assert_eq!(result.source, MemberSource::Store);
    assert_eq!(result.targets, vec!["a".to_string(), "b".to_string()]);

    let to_b = registry.drain_outbox(&"b".to_string());
    assert_eq!(to_b, vec![update]);
    let to_a = registry.drain_outbox(&"a".to_string());
    assert!(to_a.is_empty());
}

#[test]
fn disconnect_with_cache_hit_uses_cached_targets() {
    let mut registry = ConnectionRegistry::new();
    connect(&mut registry, "a", "R1");
    connect(&mut registry, "b", "R1");
    let store: Result<Vec<User>, ApiError> = Ok(vec![user("a"), user("b")]);
    let cache: Result<Vec<String>, ApiError> = Ok(vec!["b".to_string()]);

    let result = on_disconnect(&mut registry, &"a".to_string(), &store, cache);
    assert_eq!(result.source, MemberSource::Cache);
    assert_eq!(result.targets, vec!["b".to_string()]);
    let to_b = registry.drain_outbox(&"b".to_string());
    assert_eq!(to_b.len(), 1);
}
