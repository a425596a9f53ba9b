use chronicle_core::session::{Session, SessionConfig, SessionManager, SessionState};

const MINUTE: i64 = 60_000;

#[test]
fn test_session_lifecycle() {
    let mut session = Session::new("test.md".to_string());

    // Initially inactive
    assert_eq!(session.state, SessionState::Inactive);
    assert_eq!(session.current_duration_minutes(0), 0);

    // First edit starts session
    session.record_edit(1_000);
    assert_eq!(session.state, SessionState::Active);
    assert!(session.started_at.is_some());

    // End session
    session.end(2_000);
    assert_eq!(session.state, SessionState::Ended);
    assert!(session.ended_at.is_some());

    // Edit after end is annotation
    session.record_edit(3_000);
    assert_eq!(session.annotation_count, 1);
}

#[test]
fn test_inactivity_timeout() {
    let config = SessionConfig { inactivity_timeout_minutes: 0, max_duration_minutes: 120 };

    let mut session = Session::new("test.md".to_string());
    session.start(1_000);

    // A zero inactivity timeout fires at the very next check
    assert!(session.check_timeouts(1_010, &config));
    assert_eq!(session.state, SessionState::Ended);
}

#[test]
fn test_session_manager() {
    let mut manager = SessionManager::default();

    manager.open_note("test.md", None);

    // Initially inactive
    let info = manager.get_session_info().unwrap();
    assert_eq!(info.state, SessionState::Inactive);

    // Edit starts session
    manager.record_edit();
    let info = manager.get_session_info().unwrap();
    assert_eq!(info.state, SessionState::Active);

    // End session
    manager.end_session();
    let info = manager.get_session_info().unwrap();
    assert_eq!(info.state, SessionState::Ended);
}

#[test]
fn test_edit_then_end_freezes_zero_minutes() {
    let mut session = Session::new("note.md".to_string());
    session.record_edit(5_000);
    session.end(5_000);
    assert_eq!(session.state, SessionState::Ended);
    assert_eq!(session.duration_minutes, 0);
    session.record_edit(6_000);
    assert_eq!(session.annotation_count, 1);
    assert_eq!(session.state, SessionState::Ended);
    assert_eq!(session.last_annotation_at, Some(6_000));
}

#[test]
fn test_max_duration_timeout() {
    let config = SessionConfig { inactivity_timeout_minutes: 15, max_duration_minutes: 120 };
    let mut session = Session::new("note.md".to_string());
    session.start(0);
    // keep editing so inactivity never fires
    session.record_edit(119 * MINUTE);
    assert!(!session.check_timeouts(119 * MINUTE, &config));
    session.record_edit(120 * MINUTE);
    assert!(session.check_timeouts(120 * MINUTE, &config));
    assert_eq!(session.state, SessionState::Ended);
    assert_eq!(session.duration_minutes, 120);
}

#[test]
fn test_live_duration_while_active() {
    let mut session = Session::new("note.md".to_string());
    session.start(0);
    assert_eq!(session.current_duration_minutes(5 * MINUTE), 5);
    assert_eq!(session.current_duration_minutes(5 * MINUTE + 59_999), 5);
    assert_eq!(session.current_duration_minutes(6 * MINUTE), 6);
}

#[test]
fn test_end_is_noop_unless_active() {
    let mut session = Session::new("note.md".to_string());
    session.end(1_000);
    assert_eq!(session.state, SessionState::Inactive);
    assert!(session.ended_at.is_none());

    let mut ended = Session::from_ended("note.md".to_string(), 0, 60_000, 1, 0, None);
    ended.end(90_000);
    assert_eq!(ended.ended_at, Some(60_000));
    assert_eq!(ended.duration_minutes, 1);
}

#[test]
fn test_from_ended_restores_session() {
    let s = Session::from_ended("a.md".to_string(), 1_000, 61_000, 1, 2, Some(70_000));
    assert_eq!(s.state, SessionState::Ended);
    assert_eq!(s.started_at, Some(1_000));
    assert_eq!(s.ended_at, Some(61_000));
    assert_eq!(s.last_edit_at, Some(61_000));
    assert_eq!(s.duration_minutes, 1);
    assert_eq!(s.annotation_count, 2);
    assert_eq!(s.last_annotation_at, Some(70_000));
}

#[test]
fn test_manager_close_note_ends_and_takes() {
    let mut manager = SessionManager::new(SessionConfig::default());
    manager.open_note("n.md", None);
    manager.record_edit();
    let closed = manager.close_note().unwrap();
    assert_eq!(closed.state, SessionState::Ended);
    assert!(manager.get_session().is_none());
}

#[test]
fn test_manager_open_note_prefers_existing() {
    let mut manager = SessionManager::new(SessionConfig::default());
    let restored = Session::from_ended("n.md".to_string(), 0, 60_000, 1, 0, None);
    manager.open_note("n.md", Some(restored));
    let info = manager.get_session_info().unwrap();
    assert_eq!(info.state, SessionState::Ended);
    assert_eq!(info.duration_minutes, 1);
}
