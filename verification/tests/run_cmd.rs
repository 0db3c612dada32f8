//! Running sessions.

use cruise::config::DEFAULT_PR_LANGUAGE;
use cruise::error::CruiseError;
use cruise::run_cmd::pr_text::{parse_pr_metadata, strip_code_block};
use cruise::run_cmd::pull_request::extract_last_path_segment;
use cruise::run_cmd::run_all::format_run_all_summary;
use cruise::run_cmd::session_run::{apply_run_result_to_session, build_pr_prompt};
use cruise::session::{SessionPhase, SessionState};
use cruise::span::plain_text;
use cruise::variable::VariableStore;

const TEMPLATE: &str = "Describe the changes of {plan} in {pr.language}.";

fn make_pr_prompt_vars() -> VariableStore {
    let mut vars = VariableStore::new("test input".to_string());
    vars.set_named_file("plan", String::from("plan.md"));
    vars
}

fn make_session(input: &str, phase: SessionPhase, pr_url: Option<&str>) -> SessionState {
    let mut s = SessionState::new(
        "20260101000000".to_string(),
        String::from("/tmp"),
        "test.yaml".to_string(),
        input.to_string(),
    );
    s.phase = phase;
    s.pr_url = pr_url.map(str::to_string);
    s
}

#[test]
fn test_extract_last_path_segment_github_pr_url() {
    let url = "https://github.com/owner/repo/pull/42";
    let result = extract_last_path_segment(url);
    assert_eq!(result, Some("42".to_string()));
}

#[test]
fn the_query_of_a_url_holds_no_segment() {
    for (url, segment) in [
        ("https://github.com/o/r/pull/42?from=a/b", Some("42")),
        ("https://github.com/o/r/pull/42?", Some("42")),
        ("https://github.com/o/r/pull/?x=1", None),
        ("https://github.com/o/r/pull/", None),
        ("42", Some("42")),
        ("", None),
    ] {
        assert_eq!(extract_last_path_segment(url).as_deref(), segment, "{url}");
    }
}

#[test]
fn test_build_pr_prompt_includes_configured_pr_language() {
    let language = "Japanese";
    let mut vars = make_pr_prompt_vars();

    let prompt = build_pr_prompt(&mut vars, language, TEMPLATE).unwrap_or_else(|e| panic!("{e:?}"));

    assert!(
        prompt.contains("Japanese"),
        "prompt should include configured language: {prompt}"
    );
    assert!(
        prompt.contains("plan.md"),
        "prompt should continue resolving existing variables: {prompt}"
    );
}

#[test]
fn test_build_pr_prompt_defaults_blank_pr_language_to_english() {
    let language = "   ";
    let mut vars = make_pr_prompt_vars();

    let prompt = build_pr_prompt(&mut vars, language, TEMPLATE).unwrap_or_else(|e| panic!("{e:?}"));

    assert!(
        prompt.contains(DEFAULT_PR_LANGUAGE),
        "prompt should include the default language: {prompt}"
    );
}

#[test]
fn test_parse_pr_metadata_standard_frontmatter() {
    let output = r#"---
title: "feat: Add user icon registration feature"
---
## Overview
Enabled users to upload icon images.

## Background
Previously, emojis were used as user icons."#;
    let (title, body) = parse_pr_metadata(output);
    assert_eq!(title, "feat: Add user icon registration feature");
    assert_eq!(
        body.trim(),
        "## Overview\nEnabled users to upload icon images.\n\n## Background\nPreviously, emojis were used as user icons."
    );
}

#[test]
fn test_parse_pr_metadata_wrapped_in_markdown_code_block() {
    let output =
        "```md\n---\ntitle: \"fix: Resolve login bug\"\n---\nFixed the login issue.\n```";
    let (title, body) = parse_pr_metadata(output);
    assert_eq!(title, "fix: Resolve login bug");
    assert_eq!(body.trim(), "Fixed the login issue.");
}

#[test]
fn test_parse_pr_metadata_title_without_quotes() {
    let output = "---\ntitle: feat: Add feature without quotes\n---\nBody text here.";
    let (title, body) = parse_pr_metadata(output);
    assert_eq!(title, "feat: Add feature without quotes");
    assert_eq!(body.trim(), "Body text here.");
}

#[test]
fn test_parse_pr_metadata_no_frontmatter_returns_empty() {
    let output = "This is just a plain text response without frontmatter.";
    let (title, body) = parse_pr_metadata(output);
    assert_eq!(title, "");
    assert_eq!(body, "");
}

#[test]
fn test_parse_pr_metadata_missing_title_field_returns_empty() {
    let output = "---\nauthor: someone\n---\nBody without title.";
    let (title, body) = parse_pr_metadata(output);
    assert_eq!(title, "");
    assert_eq!(body, "");
}

#[test]
fn test_parse_pr_metadata_empty_body_after_frontmatter() {
    let output = "---\ntitle: \"chore: Update deps\"\n---\n";
    let (title, body) = parse_pr_metadata(output);
    assert_eq!(title, "chore: Update deps");
    assert_eq!(body.trim(), "");
}

#[test]
fn test_parse_pr_metadata_only_closing_delimiter_missing_returns_empty() {
    let output = "---\ntitle: \"feat: something\"\nBody without closing delimiter.";
    let (title, body) = parse_pr_metadata(output);
    assert_eq!(title, "");
    assert_eq!(body, "");
}

#[test]
fn test_parse_pr_metadata_wrapped_in_plain_code_block() {
    let output = "```\n---\ntitle: \"docs: Update README\"\n---\nUpdated documentation.\n```";
    let (title, body) = parse_pr_metadata(output);
    assert_eq!(title, "docs: Update README");
    assert_eq!(body.trim(), "Updated documentation.");
}

#[test]
fn test_parse_pr_metadata_with_preamble_then_frontmatter() {
    let output = "Here is the PR information:\n---\ntitle: \"feat: Add new feature\"\n---\nThis adds a new feature.";
    let (title, body) = parse_pr_metadata(output);
    assert_eq!(title, "feat: Add new feature");
    assert_eq!(body.trim(), "This adds a new feature.");
}

#[test]
fn test_parse_pr_metadata_with_preamble_then_code_block() {
    let output = "Here is the PR information:\n```md\n---\ntitle: \"fix: Fix the bug\"\n---\nFixed the critical bug.\n```";
    let (title, body) = parse_pr_metadata(output);
    assert_eq!(title, "fix: Fix the bug");
    assert_eq!(body.trim(), "Fixed the critical bug.");
}

#[test]
fn test_parse_pr_metadata_with_multiline_preamble() {
    let output = "I have reviewed the changes.\nBased on the commits, here is the PR:\n\n---\ntitle: \"refactor: Clean up code\"\n---\nRefactored the core module.";
    let (title, body) = parse_pr_metadata(output);
    assert_eq!(title, "refactor: Clean up code");
    assert_eq!(body.trim(), "Refactored the core module.");
}

#[test]
fn test_parse_pr_metadata_heading_format() {
    let output = "# feat: Add user icon registration feature\n## Overview\nEnabled users to upload icon images.";
    let (title, body) = parse_pr_metadata(output);
    assert_eq!(title, "feat: Add user icon registration feature");
    assert_eq!(
        body.trim(),
        "## Overview\nEnabled users to upload icon images."
    );
}

#[test]
fn test_parse_pr_metadata_heading_format_in_code_block() {
    let output = "```md\n# fix: Resolve login bug\nFixed the login issue.\n```";
    let (title, body) = parse_pr_metadata(output);
    assert_eq!(title, "fix: Resolve login bug");
    assert_eq!(body.trim(), "Fixed the login issue.");
}

#[test]
fn test_parse_pr_metadata_empty_input_returns_empty() {
    let (title, body) = parse_pr_metadata("");
    assert_eq!(title, "");
    assert_eq!(body, "");
}

#[test]
fn test_parse_pr_metadata_whitespace_only_returns_empty() {
    let (title, body) = parse_pr_metadata("   \n  \n  ");
    assert_eq!(title, "");
    assert_eq!(body, "");
}

#[test]
fn test_strip_code_block_with_preamble() {
    let input = "Some intro text\n```\n---\ntitle: test\n---\nbody\n```";
    let result = strip_code_block(input);
    assert_eq!(result.trim(), "---\ntitle: test\n---\nbody");
}

#[test]
fn test_strip_code_block_no_code_block_unchanged() {
    let input = "Just plain text here.";
    let result = strip_code_block(input);
    assert_eq!(result, "Just plain text here.");
}

#[test]
fn test_format_run_all_summary_empty_returns_empty_string() {
    let results: Vec<SessionState> = vec![];

    let summary = plain_text(&format_run_all_summary(&results));

    assert!(
        summary.is_empty(),
        "expected empty string, got: {summary:?}"
    );
}

#[test]
fn test_format_run_all_summary_single_completed_with_pr() {
    let results = vec![make_session(
        "add login feature",
        SessionPhase::Completed,
        Some("https://github.com/org/repo/pull/42"),
    )];

    let summary = plain_text(&format_run_all_summary(&results));

    assert!(
        summary.contains("add login feature"),
        "summary should contain input: {summary}"
    );
    assert!(
        summary.contains("https://github.com/org/repo/pull/42"),
        "summary should contain PR URL: {summary}"
    );
    assert!(
        !summary.contains("Failed") && !summary.contains("✗"),
        "completed session should not show failure: {summary}"
    );
}

#[test]
fn test_format_run_all_summary_single_completed_without_pr() {
    let results = vec![make_session(
        "refactor database layer",
        SessionPhase::Completed,
        None,
    )];

    let summary = plain_text(&format_run_all_summary(&results));

    assert!(
        summary.contains("refactor database layer"),
        "summary should contain input: {summary}"
    );
    assert!(
        !summary.contains("Failed") && !summary.contains("✗"),
        "completed session should not show failure: {summary}"
    );
}

#[test]
fn test_format_run_all_summary_single_failed_session() {
    let results = vec![make_session(
        "fix login bug",
        SessionPhase::Failed("CI timeout".to_string()),
        None,
    )];

    let summary = plain_text(&format_run_all_summary(&results));

    assert!(
        summary.contains("fix login bug"),
        "summary should contain input: {summary}"
    );
    assert!(
        summary.contains("Failed: CI timeout"),
        "summary should contain failure prefix and error message: {summary}"
    );
}

#[test]
fn test_format_run_all_summary_mixed_results() {
    let results = vec![
        make_session(
            "add auth module",
            SessionPhase::Completed,
            Some("https://github.com/org/repo/pull/10"),
        ),
        make_session(
            "fix broken test",
            SessionPhase::Failed("build error".to_string()),
            None,
        ),
    ];

    let summary = plain_text(&format_run_all_summary(&results));

    assert!(
        summary.contains("add auth module"),
        "summary should contain first input: {summary}"
    );
    assert!(
        summary.contains("https://github.com/org/repo/pull/10"),
        "summary should contain PR URL: {summary}"
    );
    assert!(
        summary.contains("fix broken test"),
        "summary should contain second input: {summary}"
    );
    assert!(
        summary.contains("Failed: build error"),
        "summary should contain failure prefix and error message for second session: {summary}"
    );
}

#[test]
fn test_format_run_all_summary_mixed_with_completed_no_pr() {
    let results = vec![
        make_session(
            "add auth module",
            SessionPhase::Completed,
            Some("https://github.com/org/repo/pull/10"),
        ),
        make_session("refactor cache layer", SessionPhase::Completed, None),
        make_session(
            "fix broken test",
            SessionPhase::Failed("CI timeout".to_string()),
            None,
        ),
    ];

    let summary = plain_text(&format_run_all_summary(&results));

    assert!(
        summary.contains("add auth module"),
        "summary should contain first session: {summary}"
    );
    assert!(
        summary.contains("https://github.com/org/repo/pull/10"),
        "summary should show PR URL for success: {summary}"
    );

    assert!(
        summary.contains("refactor cache layer"),
        "summary should contain second session: {summary}"
    );
    let refactor_line = summary
        .lines()
        .find(|l| l.contains("refactor cache layer"))
        .unwrap_or_else(|| panic!("refactor cache layer line not found in summary"));
    assert!(
        !refactor_line.contains("Failed") && !refactor_line.contains("✗"),
        "completed session should not show failure, got: {refactor_line:?}"
    );

    let failed_line = summary
        .lines()
        .find(|l| l.contains("fix broken test"))
        .unwrap_or_else(|| panic!("fix broken test line not found in summary"));
    assert!(
        failed_line.contains("Failed: CI timeout"),
        "failed session should show failure prefix and error message, got: {failed_line:?}"
    );
}

#[test]
fn test_format_run_all_summary_long_input_is_truncated() {
    let long_input = "a".repeat(200);
    let results = vec![make_session(&long_input, SessionPhase::Completed, None)];

    let summary = plain_text(&format_run_all_summary(&results));

    for line in summary.lines() {
        assert!(
            line.chars().count() <= 300,
            "line too long ({} chars): {line}",
            line.chars().count()
        );
    }
}

#[test]
fn test_apply_run_result_completed_sets_completed_phase() {
    let mut session = make_session("some task", SessionPhase::Running, None);
    apply_run_result_to_session(&mut session, &Ok(()));
    assert!(
        matches!(session.phase, SessionPhase::Completed),
        "Expected Completed, got {:?}",
        session.phase
    );
}

#[test]
fn test_apply_run_result_step_paused_keeps_running_phase() {
    let mut session = make_session("some task", SessionPhase::Running, None);
    apply_run_result_to_session(&mut session, &Err(CruiseError::StepPaused));
    assert!(
        matches!(session.phase, SessionPhase::Running),
        "Expected Running after StepPaused, got {:?}",
        session.phase
    );
}

#[test]
fn test_apply_run_result_other_error_sets_failed_phase() {
    let mut session = make_session("some task", SessionPhase::Running, None);
    apply_run_result_to_session(
        &mut session,
        &Err(CruiseError::CommandError("some failure".to_string())),
    );
    assert!(
        matches!(session.phase, SessionPhase::Failed(_)),
        "Expected Failed, got {:?}",
        session.phase
    );
}

#[test]
fn test_apply_run_result_step_paused_does_not_set_completed_at() {
    let mut session = make_session("some task", SessionPhase::Running, None);
    apply_run_result_to_session(&mut session, &Err(CruiseError::StepPaused));
    assert!(
        session.completed_at.is_none(),
        "completed_at should not be set on pause"
    );
}

#[test]
fn test_apply_run_result_completed_sets_completed_at() {
    let mut session = make_session("some task", SessionPhase::Running, None);
    apply_run_result_to_session(&mut session, &Ok(()));
    assert!(
        session.completed_at.is_some(),
        "completed_at should be set on completion"
    );
}

#[test]
fn test_apply_run_result_failed_sets_completed_at() {
    let mut session = make_session("some task", SessionPhase::Running, None);
    apply_run_result_to_session(&mut session, &Err(CruiseError::Other("fatal".to_string())));
    assert!(
        session.completed_at.is_some(),
        "completed_at should be set on failure"
    );
}

#[test]
fn test_format_run_all_summary_suspended_session_shows_suspended_indicator() {
    let results = vec![make_session("add feature", SessionPhase::Suspended, None)];

    let summary = plain_text(&format_run_all_summary(&results));
    let summary_plain = summary;

    assert!(
        summary_plain.contains("add feature"),
        "summary should contain input: {summary_plain}"
    );
    assert!(
        summary_plain.contains("Suspended"),
        "summary should contain Suspended indicator: {summary_plain}"
    );
    assert!(
        !summary_plain.is_empty(),
        "summary should not be empty: {summary_plain}"
    );
}

#[test]
fn test_format_run_all_summary_mixed_with_suspended() {
    let results = vec![
        make_session(
            "task a",
            SessionPhase::Completed,
            Some("https://github.com/org/repo/pull/1"),
        ),
        make_session("task b", SessionPhase::Suspended, None),
        make_session(
            "task c",
            SessionPhase::Failed("build error".to_string()),
            None,
        ),
    ];

    let summary = plain_text(&format_run_all_summary(&results));
    let summary_plain = summary;

    assert!(
        summary_plain.contains("task a"),
        "summary should contain task a: {summary_plain}"
    );
    assert!(
        summary_plain.contains("task b"),
        "summary should contain task b: {summary_plain}"
    );
    assert!(
        summary_plain.contains("task c"),
        "summary should contain task c: {summary_plain}"
    );
    assert!(
        summary_plain.contains("=== Run All Summary (3 sessions) ==="),
        "header should show correct count: {summary_plain}"
    );
    assert!(
        summary_plain.contains("Suspended"),
        "summary should distinguish Suspended from Failed: {summary_plain}"
    );
    assert!(
        summary_plain.contains("Failed"),
        "summary should show Failed reason: {summary_plain}"
    );
}
