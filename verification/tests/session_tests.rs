use focus_agent::session::{
    resolve_start_outcome, ActiveSessionInfo, SessionError, SessionId, SessionLifecycleManager,
    StartResponse,
};

fn offline_info(task: Option<&str>, now: u64) -> ActiveSessionInfo {
    resolve_start_outcome(None, task.map(|t| t.to_string()), now)
}

#[test]
fn offline_start_yields_a_locally_tagged_session() {
    let info = offline_info(Some("task-1"), 1234);
    assert_eq!(info.start_time_s, 1234);
    assert_eq!(info.task_id, Some("task-1".to_string()));
    match info.session_id {
        SessionId::Local(id) => assert_eq!(id.len(), 36),
        SessionId::Remote(_) => panic!("offline start must fall back to a local id"),
    }
}

#[test]
fn remote_start_adopts_the_remote_identity() {
    let resp = StartResponse {
        session_id: "abc-123".to_string(),
        start_time: "1970-01-01T00:01:40+00:00".to_string(),
    };
    let info = resolve_start_outcome(Some(resp), None, 5555);
    assert_eq!(info.session_id, SessionId::Remote("abc-123".to_string()));
    assert_eq!(info.start_time_s, 100);
    assert_eq!(info.task_id, None);
}

#[test]
fn remote_start_honours_the_timezone_offset() {
    let resp = StartResponse {
        session_id: "zoned".to_string(),
        start_time: "1970-01-01T02:00:00+01:00".to_string(),
    };
    let info = resolve_start_outcome(Some(resp), None, 0);
    assert_eq!(info.start_time_s, 3600);
}

#[test]
fn malformed_remote_time_falls_back_to_local() {
    let resp = StartResponse {
        session_id: "abc-123".to_string(),
        start_time: "not a timestamp".to_string(),
    };
    let info = resolve_start_outcome(Some(resp), None, 777);
    assert!(matches!(info.session_id, SessionId::Local(_)));
    assert_eq!(info.start_time_s, 777);
}

#[test]
fn pre_epoch_remote_time_falls_back_to_local() {
    let resp = StartResponse {
        session_id: "old".to_string(),
        start_time: "1969-12-31T23:59:00+00:00".to_string(),
    };
    let info = resolve_start_outcome(Some(resp), None, 42);
    assert!(matches!(info.session_id, SessionId::Local(_)));
    assert_eq!(info.start_time_s, 42);
}

#[test]
fn second_start_is_rejected_while_active() {
    let mut m = SessionLifecycleManager::new();
    assert!(m.check_can_start().is_ok());
    let info = offline_info(None, 10);
    assert!(m.commit_start(info, true).is_ok());
    assert_eq!(m.check_can_start(), Err(SessionError::AlreadyActive));
}

#[test]
fn end_with_no_active_session_is_rejected() {
    let m = SessionLifecycleManager::new();
    match m.read_active_session() {
        Err(e) => assert_eq!(e, SessionError::NoActiveSession),
        Ok(_) => panic!("a fresh manager has no session to end"),
    }
}

#[test]
fn start_then_end_returns_to_no_session() {
    let mut m = SessionLifecycleManager::new();
    assert!(m.check_can_start().is_ok());
    let info = offline_info(Some("focus"), 900);
    assert!(m.commit_start(info, true).is_ok());

    let read = m.read_active_session().expect("session must be active");
    assert_eq!(read.start_time_s, 900);

    assert!(m.commit_end(true).is_ok());
    assert!(m.read_active_session().is_err());
    assert!(m.check_can_start().is_ok());
}

#[test]
fn failed_persistence_leaves_no_session_installed() {
    let mut m = SessionLifecycleManager::new();
    let info = offline_info(None, 5);
    assert_eq!(m.commit_start(info, false), Err(SessionError::PersistenceFailure));
    assert!(m.read_active_session().is_err());
}

#[test]
fn failed_delete_keeps_the_session() {
    let mut m = SessionLifecycleManager::new();
    let info = offline_info(None, 5);
    assert!(m.commit_start(info, true).is_ok());
    assert_eq!(m.commit_end(false), Err(SessionError::PersistenceFailure));
    assert!(m.read_active_session().is_ok());
}
