use ultrafast_mcp_sequential_thinking::session::CapacityError;
use ultrafast_mcp_sequential_thinking::session::SessionManager;
use ultrafast_mcp_sequential_thinking::session::SessionManagerConfig;
use ultrafast_mcp_sequential_thinking::session::SessionManagerStats;
use ultrafast_mcp_sequential_thinking::session::SessionMetadata;
use ultrafast_mcp_sequential_thinking::session::SessionPriority;
use ultrafast_mcp_sequential_thinking::session::SessionStatus;
use ultrafast_mcp_sequential_thinking::session::ThinkingSession;
use ultrafast_mcp_sequential_thinking::thinking::ThoughtData;
use ultrafast_mcp_sequential_thinking::time::Timestamp;

fn stamp(t: chrono::DateTime<chrono::Utc>) -> Timestamp {
    Timestamp::new(t.timestamp(), t.timestamp_subsec_nanos())
}

fn manager_with_limit(max_sessions: usize) -> SessionManager {
    SessionManager::with_config(SessionManagerConfig { max_sessions, ..Default::default() })
}

#[test]
fn test_session_creation() {
    let session = ThinkingSession::new("test-session".to_string(), "Test Session".to_string());
    assert_eq!(session.id(), "test-session");
    assert_eq!(session.title(), "Test Session");
    assert_eq!(session.status(), &SessionStatus::Active);
    assert_eq!(session.priority(), &SessionPriority::Normal);
}

#[test]
fn test_session_metadata() {
    let mut session = ThinkingSession::new("test-session".to_string(), "Test Session".to_string());

    session.set_priority(SessionPriority::High);
    assert_eq!(session.priority(), &SessionPriority::High);

    session.add_tag("important".to_string());
    assert!(session.metadata.tags.contains(&"important".to_string()));

    session.set_custom_data("key".to_string(), serde_json::Value::from("value"));
    assert_eq!(session.get_custom_data("key"), Some(&serde_json::Value::from("value")));
}

#[test]
fn test_session_manager() {
    let mut manager = SessionManager::new();

    let session_id = manager.create_session("Test Session".to_string()).unwrap();
    assert!(!session_id.is_empty());

    let session = manager.get_session(&session_id);
    assert!(session.is_some());

    let session_ids = manager.list_session_ids();
    assert_eq!(session_ids.len(), 1);
    assert!(session_ids.contains(&session_id));
}

#[test]
fn test_session_cleanup() {
    let mut manager = SessionManager::new();

    let session_id = manager.create_session("Test Session".to_string()).unwrap();

    if let Some(mut session) = manager.get_session(&session_id) {
        session.metadata.expires_at = Some(stamp(chrono::Utc::now() - chrono::Duration::hours(1)));
        manager.update_session(&session_id, session);
    }

    let expired_count = manager.cleanup_expired_sessions();
    assert_eq!(expired_count, 1);

    let session = manager.get_session(&session_id);
    assert!(session.is_none());
}

#[test]
fn scenario_capacity_of_one() {
    let mut manager = manager_with_limit(1);
    assert_eq!(manager.create_session_as("a".to_string(), "a".to_string(), Timestamp::new(1, 0)), Ok("a".to_string()));
    let refused = manager.create_session_as("b".to_string(), "b".to_string(), Timestamp::new(2, 0));
    assert_eq!(refused, Err(CapacityError { max_sessions: 1 }));
    assert_eq!(refused.unwrap_err().message(), "Maximum number of sessions reached");
    assert_eq!(manager.list_session_ids(), vec!["a".to_string()]);
    assert!(manager.remove_session("a"));
    assert_eq!(manager.create_session_as("b".to_string(), "b".to_string(), Timestamp::new(3, 0)), Ok("b".to_string()));
    assert_eq!(manager.list_session_ids(), vec!["b".to_string()]);
    let stats = manager.get_stats();
    assert_eq!(stats.total_sessions_created, 2);
    assert_eq!(stats.active_sessions, 1);
}

#[test]
fn capacity_with_random_names() {
    let mut manager = manager_with_limit(2);
    let first = manager.create_session("one".to_string()).unwrap();
    let second = manager.create_session("two".to_string()).unwrap();
    assert_ne!(first, second);
    assert_eq!(first.chars().count(), 36);
    assert!(manager.create_session("three".to_string()).is_err());
    assert_eq!(manager.get_stats().total_sessions_created, 2);
    assert!(manager.remove_session(&first));
    assert!(!manager.remove_session(&first));
    assert!(manager.create_session("three".to_string()).is_ok());
    assert_eq!(manager.get_stats().total_sessions_created, 3);
    assert_eq!(manager.get_stats().active_sessions, 2);
}

#[test]
fn limit_of_zero_refuses_everything() {
    let mut manager = manager_with_limit(0);
    assert_eq!(
        manager.create_session("x".to_string()),
        Err(CapacityError { max_sessions: 0 })
    );
    assert_eq!(manager.get_stats(), SessionManagerStats::default());
}

#[test]
fn unknown_names_give_absent_results() {
    let mut manager = SessionManager::new();
    assert!(manager.get_session("nobody").is_none());
    assert!(!manager.remove_session("nobody"));
    assert_eq!(manager.get_stats().active_sessions, 0);
    assert_eq!(manager.cleanup_expired_sessions(), 0);
    assert!(manager.list_active_sessions().is_empty());
    assert!(manager.list_session_ids().is_empty());
}

#[test]
fn update_replaces_the_whole_entry_and_inserts_unknown_names() {
    let mut manager = SessionManager::new();
    let now = Timestamp::new(50, 0);
    manager.create_session_as("a".to_string(), "first".to_string(), now).unwrap();
    let mut changed = manager.get_session("a").unwrap();
    assert_eq!(changed.metadata.created_at, now);
    assert_eq!(changed.metadata.last_modified, now);
    changed.metadata.title = "second".to_string();
    changed.engine.process_thought(ThoughtData::new("t".to_string(), 1, 1)).unwrap();
    assert!(manager.update_session("a", changed));
    let stored = manager.get_session("a").unwrap();
    assert_eq!(stored.title(), "second");
    assert_eq!(stored.get_thoughts().len(), 0);
    let snapshot = manager.snapshot();
    assert_eq!(snapshot.len(), 1);
    assert_eq!(snapshot[0].0, "a");
    assert_eq!(snapshot[0].1.thoughts.len(), 1);
    assert_eq!(snapshot[0].1.stats.total_thoughts, 1);
    assert_eq!(snapshot[0].1.metadata.title, "second");

    let extra = ThinkingSession::new("other".to_string(), "extra".to_string());
    assert!(!manager.update_session("b", extra));
    assert_eq!(manager.list_session_ids(), vec!["a".to_string(), "b".to_string()]);
    assert_eq!(manager.get_session("b").unwrap().id(), "other");
    assert_eq!(manager.get_stats().total_sessions_created, 1);
    assert_eq!(manager.get_stats().active_sessions, 1);
}

#[test]
fn sweep_removes_exactly_the_expired() {
    let mut manager = SessionManager::new();
    let now = Timestamp::new(1000, 500);
    let statuses = [
        ("past-active", Some(Timestamp::new(999, 0)), SessionStatus::Active),
        ("never", None, SessionStatus::Active),
        ("past-completed", Some(Timestamp::new(1000, 499)), SessionStatus::Completed),
        ("exactly-now", Some(Timestamp::new(1000, 500)), SessionStatus::Active),
        ("past-cancelled", Some(Timestamp::new(-5, 0)), SessionStatus::Cancelled),
        ("future", Some(Timestamp::new(1000, 501)), SessionStatus::Paused),
        ("past-paused", Some(Timestamp::new(0, 0)), SessionStatus::Paused),
    ];
    for (name, expires_at, status) in statuses {
        manager.create_session_as(name.to_string(), name.to_string(), Timestamp::new(1, 0)).unwrap();
        let mut session = manager.get_session(name).unwrap();
        session.metadata.expires_at = expires_at;
        session.metadata.status = status;
        manager.update_session(name, session);
    }
    assert_eq!(manager.get_stats().active_sessions, 7);
    let removed = manager.cleanup_expired_sessions_at(now);
    assert_eq!(removed, 4);
    assert_eq!(
        manager.list_session_ids(),
        vec!["never".to_string(), "exactly-now".to_string(), "future".to_string()]
    );
    let stats = manager.get_stats();
    assert_eq!(stats.total_sessions_completed, 1);
    assert_eq!(stats.total_sessions_cancelled, 1);
    assert_eq!(stats.total_sessions_expired, 2);
    assert_eq!(stats.active_sessions, 3);
    assert_eq!(stats.total_sessions_created, 7);
    let kept = manager.get_session("future").unwrap();
    assert_eq!(kept.metadata.expires_at, Some(Timestamp::new(1000, 501)));
    assert_eq!(kept.status(), &SessionStatus::Paused);
    assert_eq!(manager.cleanup_expired_sessions_at(now), 0);
    assert_eq!(manager.cleanup_expired_sessions_at(Timestamp::new(1001, 0)), 2);
    assert_eq!(manager.list_session_ids(), vec!["never".to_string()]);
}

#[test]
fn active_sessions_are_active_and_unexpired() {
    let mut manager = SessionManager::new();
    let now = Timestamp::new(1000, 0);
    for (name, expires_at, status) in [
        ("a", None, SessionStatus::Active),
        ("b", Some(Timestamp::new(999, 999_999_999)), SessionStatus::Active),
        ("c", Some(Timestamp::new(2000, 0)), SessionStatus::Active),
        ("d", None, SessionStatus::Paused),
        ("e", None, SessionStatus::Expired),
    ] {
        manager.create_session_as(name.to_string(), name.to_string(), Timestamp::new(1, 0)).unwrap();
        let mut session = manager.get_session(name).unwrap();
        session.metadata.expires_at = expires_at;
        session.metadata.status = status;
        manager.update_session(name, session);
    }
    let active = manager.list_active_sessions_at(now);
    let names: Vec<&str> = active.iter().map(|s| s.id()).collect();
    assert_eq!(names, vec!["a", "c"]);
    assert_eq!(manager.list_session_ids().len(), 5);
}

#[test]
fn session_expiry_and_activity() {
    let mut session = ThinkingSession::new_at("s".to_string(), "t".to_string(), Timestamp::new(10, 0));
    assert!(!session.is_expired());
    assert!(session.is_active());
    assert!(!session.is_expired_at(Timestamp::new(i64::MAX, 0)));
    session.metadata.expires_at = Some(Timestamp::new(20, 5));
    assert!(!session.is_expired_at(Timestamp::new(20, 5)));
    assert!(session.is_expired_at(Timestamp::new(20, 6)));
    assert!(session.is_expired_at(Timestamp::new(21, 0)));
    assert!(!session.is_expired_at(Timestamp::new(19, 999)));
    assert!(session.is_active_at(Timestamp::new(20, 5)));
    assert!(!session.is_active_at(Timestamp::new(20, 6)));
    assert!(session.is_expired());
    assert!(!session.is_active());
    session.metadata.expires_at = Some(stamp(chrono::Utc::now() + chrono::Duration::hours(1)));
    assert!(!session.is_expired());
    assert!(session.is_active());
    session.set_status(SessionStatus::Paused);
    assert_eq!(session.status(), &SessionStatus::Paused);
    assert!(!session.is_active());
    assert!(session.metadata.last_modified.after(&Timestamp::new(10, 0)));
    assert_eq!(session.metadata.created_at, Timestamp::new(10, 0));
}

#[test]
fn tags_are_added_once_and_removed_everywhere() {
    let mut session = ThinkingSession::new("s".to_string(), "t".to_string());
    session.add_tag("x".to_string());
    session.add_tag("y".to_string());
    session.add_tag("x".to_string());
    assert_eq!(session.metadata.tags, vec!["x".to_string(), "y".to_string()]);
    assert!(session.has_tag("y"));
    assert!(!session.has_tag("z"));
    session.metadata.tags.push("x".to_string());
    session.metadata.tags.push("z".to_string());
    session.remove_tag("x");
    assert_eq!(session.metadata.tags, vec!["y".to_string(), "z".to_string()]);
    session.remove_tag("absent");
    assert_eq!(session.metadata.tags, vec!["y".to_string(), "z".to_string()]);
}

#[test]
fn custom_data_is_replaced_under_the_same_key() {
    let mut session = ThinkingSession::new("s".to_string(), "t".to_string());
    assert_eq!(session.get_custom_data("k"), None);
    session.set_custom_data("k".to_string(), serde_json::Value::from(1));
    session.set_custom_data("k".to_string(), serde_json::Value::from(2));
    assert_eq!(session.get_custom_data("k"), Some(&serde_json::Value::from(2)));
    assert_eq!(session.metadata.custom_data.len(), 1);
}

#[test]
fn session_reads_its_engine() {
    let mut session = ThinkingSession::with_metadata("s".to_string(), SessionMetadata::default());
    assert_eq!(session.title(), "");
    session.engine.process_thought(ThoughtData::revision("r".to_string(), 2, 1)).unwrap();
    assert_eq!(session.get_thoughts().len(), 1);
    assert_eq!(session.get_thoughts()[0].thought, "r");
    assert_eq!(session.get_stats().total_revisions, 1);
    assert_eq!(session.get_progress().current_thought, 2);
    let copy = session.clone();
    assert_eq!(copy.id(), "s");
    assert_eq!(copy.get_thoughts().len(), 0);
}

#[test]
fn persistence_file_follows_the_settings() {
    let manager = SessionManager::new();
    assert_eq!(manager.persistence_file(), None);
    assert_eq!(manager.config().max_sessions, 100);
    assert_eq!(manager.config().session_timeout, 3600);
    assert!(manager.config().auto_cleanup);
    assert_eq!(manager.config().cleanup_interval, 300);
    assert_eq!(manager.config().persistence_dir, "./sessions");
    let manager = SessionManager::with_config(SessionManagerConfig {
        persist_sessions: true,
        persistence_dir: "/tmp/data".to_string(),
        ..Default::default()
    });
    assert_eq!(manager.persistence_file(), Some("/tmp/data/sessions.json".to_string()));
}

#[test]
fn restored_sessions_have_metadata_only() {
    let mut manager = manager_with_limit(1);
    let mut metadata = SessionMetadata::default();
    metadata.title = "kept".to_string();
    metadata.status = SessionStatus::Completed;
    manager.restore_session("r1".to_string(), metadata.clone());
    manager.restore_session("r2".to_string(), metadata);
    assert_eq!(manager.list_session_ids(), vec!["r1".to_string(), "r2".to_string()]);
    let session = manager.get_session("r1").unwrap();
    assert_eq!(session.title(), "kept");
    assert_eq!(session.status(), &SessionStatus::Completed);
    assert_eq!(session.get_thoughts().len(), 0);
    assert_eq!(manager.get_stats(), SessionManagerStats::default());
    assert!(manager.create_session("more".to_string()).is_err());
}

#[test]
fn session_age_and_duration() {
    let mut session = ThinkingSession::new_at("s".to_string(), "t".to_string(), Timestamp::new(10, 500));
    assert_eq!(session.duration(), 0);
    assert_eq!(session.age_at(Timestamp::new(12, 100)), 1_999_999_600);
    assert_eq!(session.age_at(Timestamp::new(9, 0)), -1_000_000_500);
    session.metadata.last_modified = Timestamp::new(11, 0);
    assert_eq!(session.duration(), 999_999_500);
    assert!(session.age() > 0);
    let far = Timestamp::new(i64::MAX, u32::MAX);
    let near = Timestamp::new(i64::MIN, 0);
    assert_eq!(
        far.nanoseconds_since(&near),
        (i64::MAX as i128 - i64::MIN as i128) * 1_000_000_000 + u32::MAX as i128
    );
}
