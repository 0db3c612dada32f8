//! The list of sessions.

use cruise::list_cmd::{
    approve_session, approved_notice, chosen_action, done_notice, format_session_date, format_session_label,
    format_suffix, pick_session, pr_to_open, session_actions, session_to_json, ListAction,
};
use cruise::run_cmd::session_run::MenuAnswer;
use cruise::session::{SessionManager, SessionPhase, SessionState};
use cruise::span::plain_text;

fn make_session(id: &str, input: &str, phase: SessionPhase) -> SessionState {
    let mut s = SessionState::new(
        id.to_string(),
        String::from("/tmp"),
        "cruise.yaml".to_string(),
        input.to_string(),
    );
    s.phase = phase;
    s
}

#[test]
fn test_format_session_date_standard_id_returns_mm_dd_hh_mm() {
    let id = "20260306143000";

    let result = format_session_date(id);

    assert_eq!(result, "03/06 14:30");
}

#[test]
fn test_format_session_date_twelve_digit_id_is_accepted() {
    let id = "202603061430";

    let result = format_session_date(id);

    assert_eq!(result, "03/06 14:30");
}

#[test]
fn test_format_session_date_midnight() {
    let id = "20260101000000";

    let result = format_session_date(id);

    assert_eq!(result, "01/01 00:00");
}

#[test]
fn test_session_actions_planned_has_run_and_replan() {
    let session = make_session("20260306143000", "task", SessionPhase::Planned);

    let actions = session_actions(&session);

    assert!(
        actions.contains(&"Run"),
        "Planned should have Run: {actions:?}"
    );
    assert!(
        actions.contains(&"Replan"),
        "Planned should have Replan: {actions:?}"
    );
    assert!(
        actions.contains(&"Delete"),
        "should always have Delete: {actions:?}"
    );
    assert!(
        actions.contains(&"Back"),
        "should always have Back: {actions:?}"
    );
}

#[test]
fn test_session_actions_planned_has_no_resume() {
    let session = make_session("20260306143000", "task", SessionPhase::Planned);

    let actions = session_actions(&session);

    assert!(
        !actions.contains(&"Resume"),
        "Planned should NOT have Resume: {actions:?}"
    );
}

#[test]
fn test_session_actions_running_has_resume_not_replan() {
    let session = make_session("20260306143000", "task", SessionPhase::Running);

    let actions = session_actions(&session);

    assert!(
        actions.contains(&"Resume"),
        "Running should have Resume: {actions:?}"
    );
    assert!(
        !actions.contains(&"Replan"),
        "Running should NOT have Replan: {actions:?}"
    );
    assert!(
        !actions.contains(&"Run"),
        "Running should NOT have Run (use Resume): {actions:?}"
    );
}

#[test]
fn test_session_actions_failed_has_run_not_replan() {
    let session = make_session(
        "20260306143000",
        "task",
        SessionPhase::Failed("some error".to_string()),
    );

    let actions = session_actions(&session);

    assert!(
        actions.contains(&"Run"),
        "Failed should have Run: {actions:?}"
    );
    assert!(
        !actions.contains(&"Replan"),
        "Failed should NOT have Replan: {actions:?}"
    );
}

#[test]
fn test_session_actions_completed_has_no_run_no_replan_has_reset() {
    let session = make_session("20260306143000", "task", SessionPhase::Completed);

    let actions = session_actions(&session);

    assert!(
        !actions.contains(&"Run"),
        "Completed should NOT have Run: {actions:?}"
    );
    assert!(
        !actions.contains(&"Resume"),
        "Completed should NOT have Resume: {actions:?}"
    );
    assert!(
        !actions.contains(&"Replan"),
        "Completed should NOT have Replan: {actions:?}"
    );
    assert!(
        actions.contains(&"Reset to Planned"),
        "Completed should have Reset to Planned: {actions:?}"
    );
    assert!(
        actions.contains(&"Delete"),
        "should always have Delete: {actions:?}"
    );
    assert!(
        actions.contains(&"Back"),
        "should always have Back: {actions:?}"
    );
}

#[test]
fn test_session_actions_planned_run_before_replan() {
    let session = make_session("20260306143000", "task", SessionPhase::Planned);

    let actions = session_actions(&session);

    let run_pos = actions
        .iter()
        .position(|&a| a == "Run")
        .unwrap_or_else(|| panic!("unexpected None"));
    let replan_pos = actions
        .iter()
        .position(|&a| a == "Replan")
        .unwrap_or_else(|| panic!("unexpected None"));
    assert!(
        run_pos < replan_pos,
        "Run should come before Replan in actions list"
    );
}

#[test]
fn test_session_actions_delete_and_back_always_at_end() {
    let sessions = [
        make_session("20260306143000", "task", SessionPhase::AwaitingApproval),
        make_session("20260306143000", "task", SessionPhase::Planned),
        make_session("20260306143000", "task", SessionPhase::Running),
        make_session("20260306143000", "task", SessionPhase::Completed),
        make_session(
            "20260306143000",
            "task",
            SessionPhase::Failed("err".to_string()),
        ),
    ];

    for session in &sessions {
        let phase = &session.phase;
        let actions = session_actions(session);
        let len = actions.len();

        assert!(
            len >= 2,
            "actions must have at least 2 items for {phase:?}: {actions:?}"
        );
        assert_eq!(
            actions[len - 1],
            "Back",
            "Back should be last for {phase:?}: {actions:?}"
        );
        assert_eq!(
            actions[len - 2],
            "Delete",
            "Delete should be second-to-last for {phase:?}: {actions:?}"
        );
    }
}

#[test]
fn test_format_suffix_running_with_step_returns_step_bracket() {
    let mut s = make_session("20260306143000", "add feature", SessionPhase::Running);
    s.current_step = Some("implement".to_string());

    let result = format_suffix(&s);

    assert_eq!(result, " [implement]");
}

#[test]
fn test_format_suffix_running_without_step_returns_empty() {
    let s = make_session("20260306143000", "add feature", SessionPhase::Running);

    let result = format_suffix(&s);

    assert_eq!(result, "");
}

#[test]
fn test_format_suffix_completed_with_pr_url_returns_pr_number() {
    let mut s = make_session("20260306143000", "add feature", SessionPhase::Completed);
    s.pr_url = Some("https://github.com/owner/repo/pull/42".to_string());

    let result = format_suffix(&s);

    assert_eq!(result, " PR#42");
}

#[test]
fn test_format_suffix_completed_without_pr_url_returns_empty() {
    let s = make_session("20260306143000", "add feature", SessionPhase::Completed);

    let result = format_suffix(&s);

    assert_eq!(result, "");
}

#[test]
fn test_format_suffix_planned_returns_empty() {
    let s = make_session("20260306143000", "add feature", SessionPhase::Planned);

    let result = format_suffix(&s);

    assert_eq!(result, "");
}

#[test]
fn test_format_suffix_failed_returns_empty() {
    let s = make_session(
        "20260306143000",
        "add feature",
        SessionPhase::Failed("timeout".to_string()),
    );

    let result = format_suffix(&s);

    assert_eq!(result, "");
}

#[test]
fn test_format_session_label_planned_contains_icon_date_phase_input() {
    let s = make_session(
        "20260306143000",
        "add hello world feature",
        SessionPhase::Planned,
    );

    let label = plain_text(&format_session_label(&s));

    assert!(label.contains('●'), "should contain ● icon: {label}");
    assert!(
        label.contains("03/06 14:30"),
        "should contain date: {label}"
    );
    assert!(label.contains("Planned"), "should contain phase: {label}");
    assert!(
        label.contains("add hello world feature"),
        "should contain input: {label}"
    );
}

#[test]
fn test_format_session_label_running_contains_running_icon_and_step() {
    let mut s = make_session("20260307150000", "implement auth", SessionPhase::Running);
    s.current_step = Some("test".to_string());

    let label = plain_text(&format_session_label(&s));

    assert!(label.contains('▶'), "should contain ▶ icon: {label}");
    assert!(label.contains("Running"), "should contain Running: {label}");
    assert!(label.contains("[test]"), "should contain step: {label}");
}

#[test]
fn test_format_session_label_completed_with_pr_contains_checkmark_and_pr() {
    let mut s = make_session("20260307090000", "refactor db", SessionPhase::Completed);
    s.pr_url = Some("https://github.com/owner/repo/pull/42".to_string());

    let label = plain_text(&format_session_label(&s));

    assert!(label.contains('✓'), "should contain ✓ icon: {label}");
    assert!(
        label.contains("Completed"),
        "should contain Completed: {label}"
    );
    assert!(label.contains("PR#42"), "should contain PR#42: {label}");
}

#[test]
fn test_format_session_label_failed_contains_cross_icon() {
    let s = make_session(
        "20260307103000",
        "fix login bug",
        SessionPhase::Failed("exit 1".to_string()),
    );

    let label = plain_text(&format_session_label(&s));

    assert!(label.contains('✗'), "should contain ✗ icon: {label}");
    assert!(label.contains("Failed"), "should contain Failed: {label}");
}

#[test]
fn test_format_session_label_long_input_is_truncated() {
    let long_input = "a".repeat(200);
    let s = make_session("20260306143000", &long_input, SessionPhase::Planned);

    let label = plain_text(&format_session_label(&s));

    assert!(
        label.contains('…'),
        "long input should be truncated: {label}"
    );
}

#[test]
fn test_format_session_label_prefers_title_over_input() {
    let mut s = make_session(
        "20260306143000",
        "raw task input that should not be the primary label",
        SessionPhase::Planned,
    );
    s.title = Some("Generated session title".to_string());

    let label = plain_text(&format_session_label(&s));

    assert!(
        label.contains("Generated session title"),
        "should contain generated title: {label}"
    );
    assert!(
        !label.contains("raw task input that should not be the primary label"),
        "should not contain raw input when title is present: {label}"
    );
}

#[test]
fn test_format_session_label_falls_back_to_input_when_title_missing() {
    let s = make_session(
        "20260306143000",
        "raw task input remains visible",
        SessionPhase::Planned,
    );

    let label = plain_text(&format_session_label(&s));

    assert!(
        label.contains("raw task input remains visible"),
        "should contain raw input fallback: {label}"
    );
}

#[test]
fn test_session_actions_suspended_exact() {
    assert_eq!(
        session_actions(&make_session("test", "test", SessionPhase::Suspended)),
        vec!["Resume", "Reset to Planned", "Delete", "Back"]
    );
}

#[test]
fn test_format_suffix_suspended_with_step_returns_step_bracket() {
    let mut s = make_session("20260310143000", "add feature", SessionPhase::Suspended);
    s.current_step = Some("implement".to_string());

    let result = format_suffix(&s);

    assert_eq!(result, " [implement]");
}

#[test]
fn test_format_suffix_suspended_without_step_returns_empty() {
    let s = make_session("20260310143000", "add feature", SessionPhase::Suspended);

    let result = format_suffix(&s);

    assert_eq!(result, "");
}

#[test]
fn test_format_session_label_suspended_contains_phase_and_step() {
    let mut s = make_session("20260310150000", "fix auth", SessionPhase::Suspended);
    s.current_step = Some("test".to_string());

    let label = plain_text(&format_session_label(&s));

    assert!(
        label.contains("Suspended"),
        "should contain Suspended: {label}"
    );
    assert!(label.contains("[test]"), "should contain step: {label}");
}

#[test]
fn test_session_actions_delete_and_back_always_at_end_including_suspended() {
    let phases = [
        SessionPhase::Planned,
        SessionPhase::Running,
        SessionPhase::Completed,
        SessionPhase::Failed("err".to_string()),
        SessionPhase::Suspended,
    ];

    for phase in &phases {
        let actions = session_actions(&make_session("test", "test", phase.clone()));
        let len = actions.len();

        assert!(
            len >= 2,
            "actions must have at least 2 items for {phase:?}: {actions:?}"
        );
        assert_eq!(
            actions[len - 1],
            "Back",
            "Back should be last for {phase:?}: {actions:?}"
        );
        assert_eq!(
            actions[len - 2],
            "Delete",
            "Delete should be second-to-last for {phase:?}: {actions:?}"
        );
    }
}

#[test]
fn test_session_actions_planned_exact() {
    let session = make_session("20260306143000", "task", SessionPhase::Planned);
    assert_eq!(
        session_actions(&session),
        vec!["Run", "Replan", "Delete", "Back"]
    );
}

#[test]
fn test_session_actions_running_has_reset_to_planned() {
    let session = make_session("20260306143000", "task", SessionPhase::Running);
    assert_eq!(
        session_actions(&session),
        vec!["Resume", "Reset to Planned", "Delete", "Back"]
    );
}

#[test]
fn test_session_actions_completed_has_reset_to_planned() {
    let session = make_session("20260306143000", "task", SessionPhase::Completed);
    assert_eq!(
        session_actions(&session),
        vec!["Reset to Planned", "Delete", "Back"]
    );
}

#[test]
fn test_session_actions_failed_has_run_and_reset_to_planned() {
    let session = make_session(
        "20260306143000",
        "task",
        SessionPhase::Failed("exit 1".to_string()),
    );
    assert_eq!(
        session_actions(&session),
        vec!["Run", "Reset to Planned", "Delete", "Back"]
    );
}

#[test]
fn test_session_actions_completed_with_pr_url_exact_order() {
    let mut session = make_session("20260306143000", "task", SessionPhase::Completed);
    session.pr_url = Some("https://github.com/owner/repo/pull/10".to_string());

    let actions = session_actions(&session);

    assert_eq!(
        actions,
        vec!["Open PR", "Reset to Planned", "Delete", "Back"]
    );
}

#[test]
fn test_session_actions_awaiting_approval_has_approve() {
    let session = make_session("20260311100000", "task", SessionPhase::AwaitingApproval);

    let actions = session_actions(&session);

    assert!(
        actions.contains(&"Approve"),
        "AwaitingApproval should have Approve: {actions:?}"
    );
}

#[test]
fn test_session_actions_awaiting_approval_has_no_run_no_resume() {
    let session = make_session("20260311100000", "task", SessionPhase::AwaitingApproval);

    let actions = session_actions(&session);

    assert!(
        !actions.contains(&"Run"),
        "AwaitingApproval should NOT have Run: {actions:?}"
    );
    assert!(
        !actions.contains(&"Resume"),
        "AwaitingApproval should NOT have Resume: {actions:?}"
    );
}

#[test]
fn test_session_actions_awaiting_approval_exact_order() {
    let session = make_session("20260311100000", "task", SessionPhase::AwaitingApproval);

    assert_eq!(session_actions(&session), vec!["Approve", "Delete", "Back"]);
}

#[test]
fn test_format_session_label_awaiting_approval_contains_phase_text() {
    let s = make_session(
        "20260311100000",
        "pending task",
        SessionPhase::AwaitingApproval,
    );

    let label = plain_text(&format_session_label(&s));

    assert!(
        label.contains("Awaiting Approval"),
        "label should contain 'Awaiting Approval': {label}"
    );
    assert!(label.contains('○'), "label should contain ○ icon: {label}");
    assert!(
        label.contains("pending task"),
        "label should contain input: {label}"
    );
}

#[test]
fn test_format_session_label_awaiting_approval_not_planned_text() {
    let s = make_session(
        "20260311100001",
        "some task",
        SessionPhase::AwaitingApproval,
    );

    let label = plain_text(&format_session_label(&s));

    assert!(
        !label.contains("Planned"),
        "AwaitingApproval label should NOT contain 'Planned': {label}"
    );
}

#[test]
fn test_format_session_label_multiline_input_shows_first_line_only() {
    let s = make_session(
        "20260306143000",
        "line1\nline2\nline3",
        SessionPhase::Planned,
    );

    let label = plain_text(&format_session_label(&s));

    assert!(
        label.contains("line1"),
        "label must contain first line: {label}"
    );
    assert!(
        !label.contains("line2"),
        "label must NOT contain second line: {label}"
    );
    assert!(
        !label.contains("line3"),
        "label must NOT contain third line: {label}"
    );
}

#[test]
fn test_format_session_label_multiline_input_does_not_contain_newline_char() {
    let s = make_session(
        "20260306143000",
        "implement feature\nwith extra detail",
        SessionPhase::Planned,
    );

    let label = plain_text(&format_session_label(&s));

    assert!(
        !label.contains('\n'),
        "label must not contain newline character: {label:?}"
    );
}

#[test]
fn test_session_to_json_failed_phase_has_phase_string_and_error() {
    let session = make_session(
        "20260306143000",
        "task",
        SessionPhase::Failed("db error".to_string()),
    );

    let dto = session_to_json(session);

    assert_eq!(dto.phase, "Failed");
    assert_eq!(dto.phase_error, Some("db error".to_string()));
}

#[test]
fn test_session_to_json_all_non_failed_phases_have_null_phase_error() {
    let cases = [
        (SessionPhase::AwaitingApproval, "AwaitingApproval"),
        (SessionPhase::Planned, "Planned"),
        (SessionPhase::Running, "Running"),
        (SessionPhase::Completed, "Completed"),
        (SessionPhase::Suspended, "Suspended"),
    ];

    for (phase, expected_str) in cases {
        let session = make_session("20260306143000", "task", phase);
        let dto = session_to_json(session);

        assert_eq!(
            dto.phase, expected_str,
            "phase string mismatch for {expected_str}"
        );
        assert_eq!(
            dto.phase_error, None,
            "phase_error should be None for {expected_str}"
        );
    }
}

#[test]
fn test_session_to_json_path_fields_are_strings() {
    let mut session = make_session("20260306143000", "task", SessionPhase::Planned);
    session.worktree_path = Some(String::from("/tmp/worktree"));
    session.config_path = Some(String::from("/home/user/config.yaml"));

    let dto = session_to_json(session);

    assert_eq!(dto.base_dir, "/tmp");
    assert_eq!(dto.worktree_path, Some("/tmp/worktree".to_string()));
    assert_eq!(dto.config_path, Some("/home/user/config.yaml".to_string()));
}

#[test]
fn test_session_to_json_null_optional_paths_are_none() {
    let session = make_session("20260306143000", "task", SessionPhase::Planned);
    let dto = session_to_json(session);
    assert_eq!(dto.worktree_path, None);
    assert_eq!(dto.config_path, None);
}

#[test]
fn test_session_to_json_id_and_input_are_preserved() {
    let session = make_session(
        "20260306143000",
        "my task description",
        SessionPhase::Planned,
    );
    let dto = session_to_json(session);
    assert_eq!(dto.id, "20260306143000");
    assert_eq!(dto.input, "my task description");
}

#[test]
fn actions_are_chosen_by_name() {
    let chosen = |name: &str| {
        chosen_action(&MenuAnswer::Chosen(name.to_string())).unwrap_or_else(|e| panic!("{e:?}"))
    };
    for (name, action) in [
        ("Approve", ListAction::Approve),
        ("Run", ListAction::Run),
        ("Resume", ListAction::Run),
        ("Replan", ListAction::Replan),
        ("Open PR", ListAction::OpenPr),
        ("Reset to Planned", ListAction::Reset),
        ("Delete", ListAction::Delete),
        ("Back", ListAction::Back),
    ] {
        assert_eq!(chosen(name), action);
    }
    assert_eq!(
        chosen_action(&MenuAnswer::Cancelled).unwrap_or_else(|e| panic!("{e:?}")),
        ListAction::Back
    );
    assert!(chosen_action(&MenuAnswer::Failed("no tty".to_string())).is_err());
}

#[test]
fn a_session_is_approved_with_a_title() {
    let manager = SessionManager::new("/base".to_string(), false);
    let new = || {
        SessionState::new(
            "7".to_string(),
            "/repo".to_string(),
            "cruise.yaml".to_string(),
            "task".to_string(),
        )
    };
    let mut s = new();
    let warning = approve_session(&manager, &mut s, Ok("# Title".to_string()));
    assert_eq!(warning, None);
    assert_eq!(
        plain_text(&approved_notice("7")),
        "✓ Session 7 approved. Run with: cruise run 7"
    );
    assert_eq!(s.title.as_deref(), Some("Title"));
    assert_eq!(s.phase, SessionPhase::Planned);
    let mut s = new();
    let warning = approve_session(&manager, &mut s, Err("gone".to_string()));
    assert_eq!(
        warning.as_deref(),
        Some(
            "warning: failed to refresh session title: \
             failed to read generated plan /base/sessions/7/plan.md: gone"
        )
    );
    assert_eq!(s.phase, SessionPhase::Planned);
}

#[test]
fn sessions_are_picked_by_label() {
    let new = |id: &str| {
        SessionState::new(
            id.to_string(),
            "/repo".to_string(),
            "cruise.yaml".to_string(),
            "task".to_string(),
        )
    };
    let sessions = vec![new("1"), new("2")];
    let labels = vec!["first".to_string(), "second".to_string()];
    let picked = pick_session(&sessions, &labels, &MenuAnswer::Chosen("second".to_string()))
        .unwrap_or_else(|e| panic!("{e:?}"));
    assert_eq!(picked.map(|s| s.id), Some("2".to_string()));
    assert!(pick_session(&sessions, &labels, &MenuAnswer::Cancelled)
        .unwrap_or_else(|e| panic!("{e:?}"))
        .is_none());
    assert!(pick_session(&sessions, &labels, &MenuAnswer::Chosen("no".to_string())).is_err());
    let mut s = new("1");
    assert!(pr_to_open(&s).is_err());
    s.pr_url = Some("https://example.com/pull/1".to_string());
    assert_eq!(
        pr_to_open(&s).unwrap_or_else(|e| panic!("{e:?}")),
        "https://example.com/pull/1"
    );
    assert_eq!(
        plain_text(&done_notice("1", " deleted.")),
        "✓ Session 1 deleted."
    );
}
