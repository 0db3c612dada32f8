//! Sessions.

use cruise::clock::{
    current_iso8601, current_timestamp_id, parse_iso8601_secs, seconds_to_datetime,
};
use cruise::session::{SessionManager, SessionPhase, SessionState, WorkspaceMode};

fn make_completed_session() -> SessionState {
    let mut s = SessionState::new(
        "20260309100000".to_string(),
        String::from("/repo"),
        "cruise.yaml".to_string(),
        "some task".to_string(),
    );
    s.phase = SessionPhase::Completed;
    s.current_step = Some("final-step".to_string());
    s.completed_at = Some("2026-03-09T10:00:00Z".to_string());
    s.pr_url = Some("https://github.com/owner/repo/pull/42".to_string());
    s.worktree_path = Some(String::from("/tmp/worktree"));
    s.worktree_branch = Some("cruise/20260309100000-some-task".to_string());
    s
}

#[test]
fn test_timestamp_id_format() {
    let id = current_timestamp_id();
    assert_eq!(id.len(), 14);
    assert!(id.chars().all(|c| c.is_ascii_digit()));
}

#[test]
fn test_iso8601_format() {
    let ts = current_iso8601();
    assert!(ts.ends_with('Z'));
    assert!(ts.contains('T'));
    assert_eq!(ts.len(), 20);
}

#[test]
fn test_parse_iso8601_roundtrip() {
    let secs = 1_741_270_200_u64;
    let (year, month, day, h, m, s) = seconds_to_datetime(secs);
    let iso = format!("{year:04}-{month:02}-{day:02}T{h:02}:{m:02}:{s:02}Z");
    let parsed = parse_iso8601_secs(&iso).unwrap_or_else(|| panic!("unexpected None"));
    assert_eq!(parsed, secs);
}

#[test]
fn test_parse_iso8601_known_date() {
    let secs =
        parse_iso8601_secs("2026-03-06T00:00:00Z").unwrap_or_else(|| panic!("unexpected None"));
    let (year, month, day, h, m, s) = seconds_to_datetime(secs);
    assert_eq!(year, 2026);
    assert_eq!(month, 3);
    assert_eq!(day, 6);
    assert_eq!(h, 0);
    assert_eq!(m, 0);
    assert_eq!(s, 0);
}

#[test]
fn test_reset_to_planned_from_completed() {
    let mut s = make_completed_session();
    let orig_id = s.id.clone();
    let orig_input = s.input.clone();
    let orig_created_at = s.created_at.clone();
    let orig_base_dir = s.base_dir.clone();
    let orig_config_source = s.config_source.clone();

    s.reset_to_planned();

    assert!(matches!(s.phase, SessionPhase::Planned));
    assert!(s.current_step.is_none());
    assert!(s.completed_at.is_none());
    assert!(s.pr_url.is_none());
    assert_eq!(s.worktree_path, Some(String::from("/tmp/worktree")));
    assert_eq!(
        s.worktree_branch,
        Some("cruise/20260309100000-some-task".to_string())
    );
    assert_eq!(s.id, orig_id);
    assert_eq!(s.input, orig_input);
    assert_eq!(s.created_at, orig_created_at);
    assert_eq!(s.base_dir, orig_base_dir);
    assert_eq!(s.config_source, orig_config_source);
}

#[test]
fn test_reset_to_planned_from_running() {
    let mut s = SessionState::new(
        "20260309110000".to_string(),
        String::from("/repo"),
        "cruise.yaml".to_string(),
        "running task".to_string(),
    );
    s.phase = SessionPhase::Running;
    s.current_step = Some("implement".to_string());
    s.worktree_path = Some(String::from("/tmp/wt2"));
    s.worktree_branch = Some("cruise/20260309110000-running-task".to_string());

    s.reset_to_planned();

    assert!(matches!(s.phase, SessionPhase::Planned));
    assert!(s.current_step.is_none());
    assert!(s.completed_at.is_none());
    assert_eq!(s.worktree_path, Some(String::from("/tmp/wt2")));
    assert_eq!(
        s.worktree_branch,
        Some("cruise/20260309110000-running-task".to_string())
    );
}

#[test]
fn test_suspended_phase_label() {
    let phase = SessionPhase::Suspended;

    let label = phase.label();

    assert_eq!(label, "Suspended");
}

#[test]
fn test_suspended_is_runnable() {
    let phase = SessionPhase::Suspended;

    assert!(
        phase.is_runnable(),
        "Suspended should be runnable (resumable)"
    );
}

#[test]
fn test_reset_to_planned_preserves_workspace_mode_and_target_branch() {
    let mut s = SessionState::new(
        "20260310120000".to_string(),
        String::from("/repo"),
        "cruise.yaml".to_string(),
        "direct mode task".to_string(),
    );
    s.phase = SessionPhase::Running;
    s.current_step = Some("implement".to_string());
    s.workspace_mode = WorkspaceMode::CurrentBranch;
    s.target_branch = Some("feature/my-branch".to_string());

    s.reset_to_planned();

    assert!(matches!(s.phase, SessionPhase::Planned));
    assert!(s.current_step.is_none());
    assert_eq!(s.workspace_mode, WorkspaceMode::CurrentBranch);
    assert_eq!(s.target_branch.as_deref(), Some("feature/my-branch"));
}

#[test]
fn test_session_new_starts_in_awaiting_approval() {
    let s = SessionState::new(
        "20260311100000".to_string(),
        String::from("/repo"),
        "cruise.yaml".to_string(),
        "some task".to_string(),
    );

    assert!(
        matches!(s.phase, SessionPhase::AwaitingApproval),
        "new session should start in AwaitingApproval, got {:?}",
        s.phase
    );
}

#[test]
fn test_awaiting_approval_is_not_runnable() {
    let phase = SessionPhase::AwaitingApproval;

    assert!(
        !phase.is_runnable(),
        "AwaitingApproval should not be runnable"
    );
}

#[test]
fn test_awaiting_approval_label_is_distinct() {
    let phase = SessionPhase::AwaitingApproval;

    let label = phase.label();
    assert_eq!(label, "Awaiting Approval");
    assert_ne!(label, SessionPhase::Planned.label());
    assert_ne!(label, SessionPhase::Running.label());
    assert_ne!(label, SessionPhase::Completed.label());
    assert_ne!(label, SessionPhase::Failed("x".to_string()).label());
}

#[test]
fn test_approve_from_awaiting_approval() {
    let mut s = SessionState::new(
        "20260311500000".to_string(),
        String::from("/repo"),
        "cruise.yaml".to_string(),
        "task".to_string(),
    );
    assert!(matches!(s.phase, SessionPhase::AwaitingApproval));

    s.approve();

    assert!(
        matches!(s.phase, SessionPhase::Planned),
        "approve should set phase to Planned, got {:?}",
        s.phase
    );
}

#[test]
fn test_session_state_config_path_defaults_to_none_on_new() {
    let state = SessionState::new(
        "20260314120000".to_string(),
        String::from("/repo"),
        "cruise.yaml".to_string(),
        "task".to_string(),
    );
    assert!(state.config_path.is_none());
}

#[test]
fn test_session_list_sorted() {
    let manager = SessionManager::new("/home/user/.cruise".to_string(), false);
    let mut stored: Vec<SessionState> = Vec::new();
    for id in ["20260306100000", "20260306120000", "20260306090000"] {
        let state = SessionState::new(
            id.to_string(),
            String::from("/repo"),
            "cruise.yaml".to_string(),
            "task".to_string(),
        );
        stored.push(state);
    }
    let sessions = manager.list(&stored);
    assert_eq!(sessions.len(), 3);
    assert_eq!(sessions[0].id, "20260306090000");
    assert_eq!(sessions[1].id, "20260306100000");
    assert_eq!(sessions[2].id, "20260306120000");
}

#[test]
fn test_session_list_empty() {
    let manager = SessionManager::new("/home/user/.cruise".to_string(), false);
    let mut stored: Vec<SessionState> = Vec::new();
    let sessions = manager.list(&stored);
    assert!(sessions.is_empty());
}

#[test]
fn test_session_pending_filters() {
    let manager = SessionManager::new("/home/user/.cruise".to_string(), false);
    let mut stored: Vec<SessionState> = Vec::new();

    let mut planned = SessionState::new(
        "20260306100000".to_string(),
        String::from("/repo"),
        "cruise.yaml".to_string(),
        "task1".to_string(),
    );
    planned.phase = SessionPhase::Planned;
    stored.push(planned);

    let mut completed = SessionState::new(
        "20260306110000".to_string(),
        String::from("/repo"),
        "cruise.yaml".to_string(),
        "task2".to_string(),
    );
    completed.phase = SessionPhase::Completed;
    stored.push(completed);

    let mut failed = SessionState::new(
        "20260306120000".to_string(),
        String::from("/repo"),
        "cruise.yaml".to_string(),
        "task3".to_string(),
    );
    failed.phase = SessionPhase::Failed("some error".to_string());
    stored.push(failed);

    let mut running = SessionState::new(
        "20260306130000".to_string(),
        String::from("/repo"),
        "cruise.yaml".to_string(),
        "task4".to_string(),
    );
    running.phase = SessionPhase::Running;
    stored.push(running);

    let pending = manager.pending(&manager.list(&stored));
    assert_eq!(pending.len(), 3);
    let ids: Vec<&str> = pending.iter().map(|s| s.id.as_str()).collect();
    assert!(ids.contains(&"20260306100000"), "Planned should be pending");
    assert!(ids.contains(&"20260306120000"), "Failed should be pending");
    assert!(ids.contains(&"20260306130000"), "Running should be pending");
    assert!(
        !ids.contains(&"20260306110000"),
        "Completed should not be pending"
    );
}

#[test]
fn test_session_planned_returns_only_planned() {
    let manager = SessionManager::new("/home/user/.cruise".to_string(), false);
    let mut stored: Vec<SessionState> = Vec::new();

    let mut planned = SessionState::new(
        "20260308100000".to_string(),
        String::from("/repo"),
        "cruise.yaml".to_string(),
        "planned-task".to_string(),
    );
    planned.phase = SessionPhase::Planned;
    stored.push(planned);

    let mut completed = SessionState::new(
        "20260308110000".to_string(),
        String::from("/repo"),
        "cruise.yaml".to_string(),
        "completed-task".to_string(),
    );
    completed.phase = SessionPhase::Completed;
    stored.push(completed);

    let mut failed = SessionState::new(
        "20260308120000".to_string(),
        String::from("/repo"),
        "cruise.yaml".to_string(),
        "failed-task".to_string(),
    );
    failed.phase = SessionPhase::Failed("error".to_string());
    stored.push(failed);

    let mut running = SessionState::new(
        "20260308130000".to_string(),
        String::from("/repo"),
        "cruise.yaml".to_string(),
        "running-task".to_string(),
    );
    running.phase = SessionPhase::Running;
    stored.push(running);

    let result = manager.planned(&manager.list(&stored));

    assert_eq!(result.len(), 1);
    assert_eq!(result[0].id, "20260308100000");
    assert!(matches!(result[0].phase, SessionPhase::Planned));
}

#[test]
fn test_session_planned_empty_when_none_planned() {
    let manager = SessionManager::new("/home/user/.cruise".to_string(), false);
    let mut stored: Vec<SessionState> = Vec::new();

    let mut completed = SessionState::new(
        "20260308200000".to_string(),
        String::from("/repo"),
        "cruise.yaml".to_string(),
        "done".to_string(),
    );
    completed.phase = SessionPhase::Completed;
    stored.push(completed);

    let result = manager.planned(&manager.list(&stored));

    assert!(result.is_empty());
}

#[test]
fn test_session_planned_multiple_planned() {
    let manager = SessionManager::new("/home/user/.cruise".to_string(), false);
    let mut stored: Vec<SessionState> = Vec::new();

    for (id, input) in [
        ("20260308300000", "task-a"),
        ("20260308310000", "task-b"),
        ("20260308320000", "task-c"),
    ] {
        let mut s = SessionState::new(
            id.to_string(),
            String::from("/repo"),
            "cruise.yaml".to_string(),
            input.to_string(),
        );
        s.phase = SessionPhase::Planned;
        stored.push(s);
    }

    let result = manager.planned(&manager.list(&stored));

    assert_eq!(result.len(), 3);
    let ids: Vec<&str> = result.iter().map(|s| s.id.as_str()).collect();
    assert!(ids.contains(&"20260308300000"));
    assert!(ids.contains(&"20260308310000"));
    assert!(ids.contains(&"20260308320000"));
}

#[test]
fn test_pending_includes_suspended() {
    let manager = SessionManager::new("/home/user/.cruise".to_string(), false);
    let mut stored: Vec<SessionState> = Vec::new();

    let mut suspended = SessionState::new(
        "20260310110000".to_string(),
        String::from("/repo"),
        "cruise.yaml".to_string(),
        "suspended-task".to_string(),
    );
    suspended.phase = SessionPhase::Suspended;
    stored.push(suspended);

    let mut completed = SessionState::new(
        "20260310120000".to_string(),
        String::from("/repo"),
        "cruise.yaml".to_string(),
        "completed-task".to_string(),
    );
    completed.phase = SessionPhase::Completed;
    stored.push(completed);

    let pending = manager.pending(&manager.list(&stored));

    let ids: Vec<&str> = pending.iter().map(|s| s.id.as_str()).collect();
    assert!(
        ids.contains(&"20260310110000"),
        "Suspended should be in pending"
    );
    assert!(
        !ids.contains(&"20260310120000"),
        "Completed should not be in pending"
    );
}

#[test]
fn test_run_all_candidates_returns_planned_and_suspended_only() {
    let manager = SessionManager::new("/home/user/.cruise".to_string(), false);
    let mut stored: Vec<SessionState> = Vec::new();

    for (id, phase) in [
        ("20260310200000", SessionPhase::Planned),
        ("20260310200001", SessionPhase::Suspended),
        ("20260310200002", SessionPhase::Running),
        ("20260310200003", SessionPhase::Completed),
        ("20260310200004", SessionPhase::Failed("err".to_string())),
    ] {
        let mut s = SessionState::new(
            id.to_string(),
            String::from("/repo"),
            "cruise.yaml".to_string(),
            "task".to_string(),
        );
        s.phase = phase;
        stored.push(s);
    }

    let candidates = manager.run_all_candidates(&manager.list(&stored));

    assert_eq!(
        candidates.len(),
        2,
        "only Planned and Suspended should be candidates"
    );
    let ids: Vec<&str> = candidates.iter().map(|s| s.id.as_str()).collect();
    assert!(
        ids.contains(&"20260310200000"),
        "Planned should be included"
    );
    assert!(
        ids.contains(&"20260310200001"),
        "Suspended should be included"
    );
    assert!(
        !ids.contains(&"20260310200002"),
        "Running should NOT be included"
    );
    assert!(
        !ids.contains(&"20260310200003"),
        "Completed should NOT be included"
    );
    assert!(
        !ids.contains(&"20260310200004"),
        "Failed should NOT be included"
    );
}

#[test]
fn test_run_all_candidates_empty_when_none_qualify() {
    let manager = SessionManager::new("/home/user/.cruise".to_string(), false);
    let mut stored: Vec<SessionState> = Vec::new();

    let mut s = SessionState::new(
        "20260310210000".to_string(),
        String::from("/repo"),
        "cruise.yaml".to_string(),
        "done".to_string(),
    );
    s.phase = SessionPhase::Completed;
    stored.push(s);

    let candidates = manager.run_all_candidates(&manager.list(&stored));

    assert!(
        candidates.is_empty(),
        "no candidates when only Completed exists"
    );
}

#[test]
fn test_pending_excludes_awaiting_approval() {
    let manager = SessionManager::new("/home/user/.cruise".to_string(), false);
    let mut stored: Vec<SessionState> = Vec::new();

    let awaiting = SessionState::new(
        "20260311200000".to_string(),
        String::from("/repo"),
        "cruise.yaml".to_string(),
        "unapproved".to_string(),
    );
    stored.push(awaiting);

    let mut planned = SessionState::new(
        "20260311200001".to_string(),
        String::from("/repo"),
        "cruise.yaml".to_string(),
        "approved".to_string(),
    );
    planned.phase = SessionPhase::Planned;
    stored.push(planned);

    let mut running = SessionState::new(
        "20260311200002".to_string(),
        String::from("/repo"),
        "cruise.yaml".to_string(),
        "running".to_string(),
    );
    running.phase = SessionPhase::Running;
    stored.push(running);

    let pending = manager.pending(&manager.list(&stored));

    let ids: Vec<&str> = pending.iter().map(|s| s.id.as_str()).collect();
    assert!(
        !ids.contains(&"20260311200000"),
        "AwaitingApproval should NOT be in pending: {ids:?}"
    );
    assert!(
        ids.contains(&"20260311200001"),
        "Planned should be in pending: {ids:?}"
    );
    assert!(
        ids.contains(&"20260311200002"),
        "Running should be in pending: {ids:?}"
    );
}

#[test]
fn test_planned_excludes_awaiting_approval() {
    let manager = SessionManager::new("/home/user/.cruise".to_string(), false);
    let mut stored: Vec<SessionState> = Vec::new();

    let awaiting = SessionState::new(
        "20260311300000".to_string(),
        String::from("/repo"),
        "cruise.yaml".to_string(),
        "not yet approved".to_string(),
    );
    stored.push(awaiting);

    let mut approved = SessionState::new(
        "20260311300001".to_string(),
        String::from("/repo"),
        "cruise.yaml".to_string(),
        "approved task".to_string(),
    );
    approved.phase = SessionPhase::Planned;
    stored.push(approved);

    let result = manager.planned(&manager.list(&stored));

    assert_eq!(result.len(), 1);
    assert_eq!(result[0].id, "20260311300001");
    assert!(
        !result.iter().any(|s| s.id == "20260311300000"),
        "AwaitingApproval should NOT appear in planned()"
    );
}
