//! The decisions around the run of a session.

use cruise::engine::ExecutionResult;
use cruise::error::CruiseError;
use cruise::run_cmd::pull_request::{
    advance, ensure_gh_available, extract_last_path_segment, first_stage, gh_output_line,
    parse_commit_count, CommitOutcome, PrAdvance, PrAttemptOutcome, PrJob, PrStage, ToolReply,
};
use cruise::run_cmd::run_all::{run_all_notice, RunAll};
use cruise::run_cmd::session_run::{
    check_run_args, chosen_session, conflict_choice, conflict_labels, describe_pr,
    effective_workspace_mode, ensure_runnable, load_run_all_result_state,
    note_pr_attempt, outcome_line, prompt_workspace_mode, resolve_conflict, resume_message,
    save_session_state_with_conflict_resolution, select_pending_session, single_result,
    workspace_labels, MenuAnswer, ModeChoice, PendingChoice, PrFollowUp,
    SaveStep, SessionStateConflictChoice, WorkspaceOverride,
};
use cruise::session::{
    SessionFileContents, SessionManager, SessionPhase, SessionState, SessionStateFingerprint,
    WorkspaceMode, WorktreeContext,
};
use cruise::span::{plain_text, Tone};
use cruise::variable::VariableStore;
use cruise::workspace::ExecutionWorkspace;

fn manager() -> SessionManager {
    SessionManager::new("/home/user/.cruise".to_string(), false)
}

fn make_session(id: &str, phase: SessionPhase) -> SessionState {
    let mut s = SessionState::new(
        id.to_string(),
        "/repo".to_string(),
        "cruise.yaml".to_string(),
        "task".to_string(),
    );
    s.phase = phase;
    s
}

fn parsed(bytes: &[u8], state: &SessionState) -> SessionFileContents {
    SessionFileContents::Parsed {
        state: Box::new(state.clone()),
        fingerprint: SessionStateFingerprint::from_bytes(bytes),
    }
}

#[test]
fn test_prompt_workspace_mode_returns_worktree_when_noninteractive() {
    assert_eq!(
        prompt_workspace_mode(&None).unwrap_or_else(|e| panic!("{e:?}")),
        WorkspaceMode::Worktree,
        "non-interactive should default to Worktree"
    );
}

#[test]
fn test_prompt_workspace_mode_returns_current_branch_via_test_env() {
    let answer = MenuAnswer::Chosen(workspace_labels().1.to_string());
    assert_eq!(
        prompt_workspace_mode(&Some(answer)).unwrap_or_else(|e| panic!("{e:?}")),
        WorkspaceMode::CurrentBranch
    );
}

#[test]
fn test_prompt_workspace_mode_returns_worktree_via_test_env() {
    let answer = MenuAnswer::Chosen(workspace_labels().0.to_string());
    assert_eq!(
        prompt_workspace_mode(&Some(answer)).unwrap_or_else(|e| panic!("{e:?}")),
        WorkspaceMode::Worktree
    );
}

#[test]
fn leaving_the_workspace_menu_stops_the_run() {
    match prompt_workspace_mode(&Some(MenuAnswer::Cancelled)) {
        Err(e) => assert_eq!(e.message(), "workspace mode selection cancelled"),
        Ok(m) => panic!("{m:?}"),
    }
    match prompt_workspace_mode(&Some(MenuAnswer::Failed("no tty".to_string()))) {
        Err(e) => assert_eq!(e.message(), "selection error: no tty"),
        Ok(m) => panic!("{m:?}"),
    }
}

#[test]
fn the_user_is_asked_for_a_workspace_only_at_the_start() {
    let mut s = make_session("1", SessionPhase::Planned);
    assert_eq!(
        effective_workspace_mode(WorkspaceOverride::RespectSession, &s),
        ModeChoice::Ask
    );
    s.workspace_mode = WorkspaceMode::CurrentBranch;
    assert_eq!(
        effective_workspace_mode(WorkspaceOverride::RespectSession, &s),
        ModeChoice::Fixed(WorkspaceMode::CurrentBranch)
    );
    assert_eq!(
        effective_workspace_mode(WorkspaceOverride::ForceWorktree, &s),
        ModeChoice::Fixed(WorkspaceMode::Worktree)
    );
    s.workspace_mode = WorkspaceMode::Worktree;
    s.current_step = Some("implement".to_string());
    assert_eq!(
        effective_workspace_mode(WorkspaceOverride::RespectSession, &s),
        ModeChoice::Fixed(WorkspaceMode::Worktree)
    );
}

#[test]
fn test_run_all_errors_when_session_and_all_both_specified() {
    let id = Some("20260309000000".to_string());
    match check_run_args(true, &id) {
        Err(e) => assert_eq!(e.message(), "Cannot specify both --all and a session ID"),
        Ok(()) => panic!("expected an error"),
    }
    assert!(check_run_args(false, &id).is_ok());
    assert!(check_run_args(true, &None).is_ok());
}

#[test]
fn sessions_that_wait_for_approval_are_not_run() {
    let s = make_session("7", SessionPhase::AwaitingApproval);
    match ensure_runnable("7", &s) {
        Err(e) => assert_eq!(
            e.message(),
            "Session 7 is in 'Awaiting Approval' phase and cannot be run. Approve it first with `cruise list`."
        ),
        Ok(()) => panic!("expected an error"),
    }
    assert!(ensure_runnable("7", &make_session("7", SessionPhase::Planned)).is_ok());
}

#[test]
fn an_unchanged_state_is_saved() {
    let s = make_session("7", SessionPhase::Running);
    let expected = SessionStateFingerprint::from_bytes(b"mine");
    assert!(matches!(
        save_session_state_with_conflict_resolution(
            &manager(),
            &s,
            &parsed(b"mine", &s),
            &expected,
            false
        ),
        SaveStep::Save
    ));
}

#[test]
fn test_run_current_branch_conflict_noninteractive_returns_error_without_prompt() {
    let s = make_session("7", SessionPhase::Running);
    let expected = SessionStateFingerprint::from_bytes(b"mine");
    match save_session_state_with_conflict_resolution(
        &manager(),
        &s,
        &parsed(b"theirs", &s),
        &expected,
        false,
    ) {
        SaveStep::Refused(CruiseError::SessionStateConflict(m)) => assert_eq!(
            m,
            "/home/user/.cruise/sessions/7/state.json changed externally while the session was running"
        ),
        other => panic!("{other:?}"),
    }
}

#[test]
fn test_run_current_branch_conflict_noninteractive_preserves_missing_state_file() {
    let s = make_session("7", SessionPhase::Running);
    let expected = SessionStateFingerprint::from_bytes(b"mine");
    match save_session_state_with_conflict_resolution(
        &manager(),
        &s,
        &SessionFileContents::Missing,
        &expected,
        false,
    ) {
        SaveStep::Refused(CruiseError::SessionStateConflict(m)) => {
            assert!(m.ends_with("state.json was deleted while the session was running"))
        }
        other => panic!("{other:?}"),
    }
}

#[test]
fn test_run_current_branch_conflict_overwrite_continues_and_logs_choice() {
    let s = make_session("7", SessionPhase::Running);
    let expected = SessionStateFingerprint::from_bytes(b"mine");
    let step = save_session_state_with_conflict_resolution(
        &manager(),
        &s,
        &parsed(b"theirs", &s),
        &expected,
        true,
    );
    let message = match step {
        SaveStep::Ask(m) => m,
        other => panic!("{other:?}"),
    };
    let choice = conflict_choice(&MenuAnswer::Chosen(conflict_labels().1.to_string()))
        .unwrap_or_else(|e| panic!("{e:?}"));
    assert_eq!(choice, SessionStateConflictChoice::Overwrite);
    assert!(resolve_conflict(choice, message).is_ok());
}

#[test]
fn test_run_current_branch_conflict_abort_preserves_external_state() {
    for answer in [
        MenuAnswer::Chosen(conflict_labels().0.to_string()),
        MenuAnswer::Cancelled,
    ] {
        let choice = conflict_choice(&answer).unwrap_or_else(|e| panic!("{e:?}"));
        match resolve_conflict(choice, "changed".to_string()) {
            Err(CruiseError::SessionStateConflictAborted(m)) => assert_eq!(m, "changed"),
            other => panic!("{other:?}"),
        }
    }
    assert!(conflict_choice(&MenuAnswer::Failed("x".to_string())).is_err());
}

#[test]
fn test_run_all_preserves_invalid_external_state_without_failing_summary_reload() {
    let s = make_session("7", SessionPhase::Running);
    let contents = SessionFileContents::Invalid {
        fingerprint: SessionStateFingerprint::from_bytes(b"{"),
        error: "EOF".to_string(),
    };
    let r = load_run_all_result_state(&manager(), &s, contents);
    assert_eq!(
        r.phase,
        SessionPhase::Failed(
            "/home/user/.cruise/sessions/7/state.json changed externally and now contains invalid JSON: EOF"
                .to_string()
        )
    );
    assert!(r.completed_at.is_some());
    let done = make_session("7", SessionPhase::Completed);
    assert_eq!(
        load_run_all_result_state(&manager(), &s, parsed(b"{}", &done)),
        done
    );
}

#[test]
fn a_paused_session_is_no_failure() {
    let (result, notice) = single_result(Err(CruiseError::StepPaused));
    assert!(result.is_ok());
    assert_eq!(notice, Some("Session paused. Resume with `cruise run`."));
    let (result, notice) = single_result(Err(CruiseError::NotGitRepository));
    assert!(matches!(result, Err(CruiseError::NotGitRepository)));
    assert_eq!(notice, None);
}

#[test]
fn the_log_tells_how_a_run_ended() {
    assert_eq!(
        outcome_line(&Ok(ExecutionResult {
            run: 3,
            skipped: 1,
            failed: 0
        })),
        "✓ completed — run: 3, skipped: 1, failed: 0"
    );
    assert_eq!(outcome_line(&Err(CruiseError::Interrupted)), "⏸ cancelled");
    assert_eq!(
        outcome_line(&Err(CruiseError::StepNotFound("a".to_string()))),
        "✗ failed: step not found: a"
    );
}

#[test]
fn resuming_is_announced() {
    let mut s = make_session("7", SessionPhase::Suspended);
    assert!(resume_message(&s).is_none());
    s.current_step = Some("test".to_string());
    let spans = resume_message(&s).unwrap_or_else(|| panic!("no message"));
    assert_eq!(plain_text(&spans), "↺ Resuming from step: test");
    assert_eq!(spans[0].tone, Tone::Cyan);
    s.phase = SessionPhase::Failed("x".to_string());
    let spans = resume_message(&s).unwrap_or_else(|| panic!("no message"));
    assert_eq!(plain_text(&spans), "↺ Retrying from failed step: test");
    s.phase = SessionPhase::Planned;
    assert!(resume_message(&s).is_none());
}

#[test]
fn the_workspace_is_announced() {
    let ws = ExecutionWorkspace::Worktree {
        ctx: worktree(),
        reused: true,
    };
    assert_eq!(plain_text(&ws.notice()), "→ worktree: /wt (reused)");
    assert_eq!(ws.path(), "/wt");
    let ws = ExecutionWorkspace::CurrentBranch {
        path: "/repo".to_string(),
    };
    assert_eq!(plain_text(&ws.notice()), "→ current branch: /repo");
}

// Pull requests

fn worktree() -> WorktreeContext {
    WorktreeContext {
        path: "/wt".to_string(),
        branch: "cruise/7".to_string(),
        original_dir: "/repo".to_string(),
    }
}

fn exited(success: bool, stdout: &str, stderr: &str) -> ToolReply {
    ToolReply::Exited {
        success,
        stdout: stdout.as_bytes().to_vec(),
        stderr: stderr.as_bytes().to_vec(),
    }
}

/// Calls the commands of an attempt one after the other and hands back the given replies.
fn attempt(
    message: &str,
    title: &str,
    body: &str,
    replies: Vec<ToolReply>,
) -> (Vec<String>, PrAdvance) {
    let job = PrJob::new(worktree(), message, title, body);
    let mut stage = first_stage();
    let mut calls = Vec::new();
    for reply in replies {
        let call = job.call(&stage);
        calls.push(format!(
            "{}$ {} {}",
            call.dir,
            call.program,
            call.args.join(" ")
        ));
        match advance(stage, &reply) {
            PrAdvance::Next(next) => stage = next,
            end => return (calls, end),
        }
    }
    panic!("the attempt did not end: {calls:?}");
}

fn up_to_create(committed: bool) -> Vec<ToolReply> {
    let mut replies = vec![exited(true, "", ""), exited(!committed, "", "")];
    if committed {
        replies.push(exited(true, "", ""));
    }
    replies.push(exited(true, "abc\n", ""));
    replies.push(exited(true, "abc\n", ""));
    replies.push(exited(true, "1\n", ""));
    replies.push(exited(true, "", ""));
    replies
}

#[test]
fn test_attempt_pr_creation_skips_gh_when_branch_has_no_commits() {
    let (calls, end) = attempt(
        "add feature",
        "",
        "",
        vec![
            exited(true, "", ""),
            exited(true, "", ""),
            exited(true, "abc\n", ""),
            exited(true, "abc\n", ""),
            exited(true, "0\n", ""),
        ],
    );
    assert!(matches!(
        end,
        PrAdvance::Done(PrAttemptOutcome::SkippedNoCommits)
    ));
    assert!(calls.iter().all(|c| !c.contains("$ gh ")));
}

#[test]
fn test_attempt_pr_creation_commits_changes_before_calling_gh() {
    let mut replies = up_to_create(true);
    replies.push(exited(true, "https://github.com/o/r/pull/7\n", ""));
    let (calls, end) = attempt("add feature", "", "", replies);
    assert_eq!(
        calls,
        vec![
            "/wt$ git add -A",
            "/wt$ git diff --cached --quiet",
            "/wt$ git commit -m add feature",
            "/repo$ git rev-parse HEAD",
            "/wt$ git merge-base HEAD abc",
            "/wt$ git rev-list --count abc..HEAD",
            "/wt$ git push -u origin cruise/7",
            "/wt$ gh pr create --head cruise/7 --draft --fill",
        ]
    );
    match end {
        PrAdvance::Done(PrAttemptOutcome::Created {
            url,
            commit_outcome,
        }) => {
            assert_eq!(url, "https://github.com/o/r/pull/7");
            assert_eq!(commit_outcome, CommitOutcome::Created);
        }
        other => panic!("{other:?}"),
    }
}

#[test]
fn test_attempt_pr_creation_reuses_existing_branch_commits() {
    let mut replies = up_to_create(false);
    replies.push(exited(false, "", "a pull request already exists"));
    replies.push(exited(true, "https://github.com/o/r/pull/8\n", ""));
    let (calls, end) = attempt("add feature", "", "", replies);
    assert!(!calls.iter().any(|c| c.contains("git commit")));
    assert_eq!(
        calls.last().map(String::as_str),
        Some("/wt$ gh pr view cruise/7 --json url --jq .url")
    );
    assert!(matches!(
        end,
        PrAdvance::Done(PrAttemptOutcome::Created {
            commit_outcome: CommitOutcome::NoChanges,
            ..
        })
    ));
}

#[test]
fn test_attempt_pr_creation_uses_pr_title_as_commit_message_when_title_is_present() {
    let job = PrJob::new(worktree(), "raw input", "  feat: title  ", "body");
    assert_eq!(job.commit_message, "feat: title");
    assert_eq!(
        job.call(&PrStage::Create(CommitOutcome::Created)).args[5..],
        ["--title", "feat: title", "--body", "body"]
    );
}

#[test]
fn test_attempt_pr_creation_falls_back_to_message_when_pr_title_is_empty() {
    let job = PrJob::new(worktree(), "raw input", "", "");
    assert_eq!(job.commit_message, "raw input");
}

#[test]
fn test_attempt_pr_creation_treats_whitespace_only_title_as_empty() {
    let job = PrJob::new(worktree(), "raw input", "   ", "");
    assert_eq!(job.commit_message, "raw input");
    assert_eq!(
        job.call(&PrStage::Create(CommitOutcome::Created)).args[5..],
        ["--fill"]
    );
}

#[test]
fn failures_on_the_way_are_told() {
    let failed = |replies| match attempt("m", "", "", replies).1 {
        PrAdvance::Failed(e) => e.message(),
        other => panic!("{other:?}"),
    };
    assert_eq!(
        failed(vec![exited(false, "", "denied\n")]),
        "git add -A failed: denied"
    );
    assert_eq!(
        failed(vec![ToolReply::Unavailable("gone".to_string())]),
        "failed to run git add: gone"
    );
    assert_eq!(
        failed(vec![
            exited(true, "", ""),
            ToolReply::Unavailable("gone".to_string())
        ]),
        "failed to run git diff: gone"
    );
    assert_eq!(
        failed(vec![
            exited(true, "", ""),
            exited(true, "", ""),
            exited(true, " \n", "")
        ]),
        "git rev-parse HEAD failed: command produced no stdout"
    );
    assert_eq!(
        failed(vec![
            exited(true, "", ""),
            exited(true, "", ""),
            exited(true, "abc", ""),
            ToolReply::Unavailable("gone".to_string())
        ]),
        "failed to run git merge-base HEAD abc: gone"
    );
    assert_eq!(
        failed(vec![
            exited(true, "", ""),
            exited(true, "", ""),
            exited(true, "abc", ""),
            exited(true, "abc", ""),
            exited(true, "many", "")
        ]),
        "failed to parse branch commit count from `many`: invalid digit found in string"
    );
}

#[test]
fn a_pull_request_that_cannot_be_created_is_told() {
    let mut replies = up_to_create(true);
    replies.push(exited(false, "", "no remote"));
    replies.push(exited(false, "", "not found"));
    match attempt("m", "", "", replies).1 {
        PrAdvance::Done(PrAttemptOutcome::CreateFailed { error, .. }) => assert_eq!(
            error,
            "gh pr create failed: no remote; gh pr view also failed: not found"
        ),
        other => panic!("{other:?}"),
    }
}

#[test]
fn counts_are_numbers() {
    assert_eq!(
        parse_commit_count("12").unwrap_or_else(|e| panic!("{e:?}")),
        12
    );
    assert!(parse_commit_count("-1").is_err());
    for (text, reason) in [
        ("", "cannot parse integer from empty string"),
        ("+", "invalid digit found in string"),
        ("1x", "invalid digit found in string"),
        (
            "99999999999999999999999999",
            "number too large to fit in target type",
        ),
        (
            "99999999999999999999999999x",
            "number too large to fit in target type",
        ),
    ] {
        match parse_commit_count(text) {
            Err(e) => {
                assert!(e.message().ends_with(reason), "{}", e.message());
                let std_reason = text.parse::<usize>().map_or_else(|e| e.to_string(), |_| String::new());
                assert_eq!(reason, std_reason);
            }
            Ok(n) => panic!("{n}"),
        }
    }
}

#[test]
fn segments_of_urls() {
    assert_eq!(
        extract_last_path_segment("https://github.com/o/r/pull/42?tab=files#top"),
        Some("42".to_string())
    );
    assert_eq!(extract_last_path_segment("https://github.com/o/r/"), None);
    assert_eq!(extract_last_path_segment("42"), Some("42".to_string()));
    assert_eq!(extract_last_path_segment("a/?x"), None);
    assert_eq!(extract_last_path_segment(""), None);
}

#[test]
fn gh_says_something_or_nothing() {
    assert_eq!(gh_output_line(b" url \n"), Some("url".to_string()));
    assert_eq!(gh_output_line(b" \n"), None);
    assert!(ensure_gh_available(&exited(true, "gh version", "")).is_ok());
    for reply in [
        exited(false, "", ""),
        ToolReply::Unavailable("gone".to_string()),
    ] {
        match ensure_gh_available(&reply) {
            Err(e) => assert_eq!(
                e.message(),
                "gh CLI is not installed. Install it from https://cli.github.com/"
            ),
            Ok(()) => panic!("expected an error"),
        }
    }
}

#[test]
fn a_pull_request_reaches_the_variables_and_the_session() {
    let mut vars = VariableStore::new("input".to_string());
    let mut s = make_session("7", SessionPhase::Running);
    let outcome = PrAttemptOutcome::Created {
        url: "https://github.com/o/r/pull/42".to_string(),
        commit_outcome: CommitOutcome::Created,
    };
    let report = outcome.report().unwrap_or_else(|| panic!("no report"));
    assert_eq!(plain_text(&report), "✓ Changes committed");
    match note_pr_attempt(outcome, "cruise/7", &mut vars, &mut s) {
        Ok(PrFollowUp::RunAfterSteps(spans)) => assert_eq!(
            plain_text(&spans),
            "✓ PR created: https://github.com/o/r/pull/42"
        ),
        other => panic!("{other:?}"),
    }
    assert_eq!(
        vars.resolve("{pr.number} {pr.url}")
            .unwrap_or_else(|e| panic!("{e:?}")),
        "42 https://github.com/o/r/pull/42"
    );
    assert_eq!(s.pr_url.as_deref(), Some("https://github.com/o/r/pull/42"));
}

#[test]
fn a_branch_without_commits_fails_the_run() {
    let mut vars = VariableStore::new("input".to_string());
    let mut s = make_session("7", SessionPhase::Running);
    assert!(PrAttemptOutcome::SkippedNoCommits.report().is_none());
    match note_pr_attempt(PrAttemptOutcome::SkippedNoCommits, "cruise/7", &mut vars, &mut s) {
        Err(e) => assert_eq!(
            e.message(),
            "cannot create PR for cruise/7: branch has no commits beyond its base; make changes and rerun `cruise run`"
        ),
        other => panic!("{other:?}"),
    }
    let failed = PrAttemptOutcome::CreateFailed {
        error: "no remote".to_string(),
        commit_outcome: CommitOutcome::NoChanges,
    };
    assert_eq!(
        failed.report().map(|r| plain_text(&r)).as_deref(),
        Some("→ No new changes to commit; using existing branch commits")
    );
    match note_pr_attempt(failed, "cruise/7", &mut vars, &mut s) {
        Ok(PrFollowUp::Warn(m)) => assert_eq!(m, "warning: PR creation failed: no remote"),
        other => panic!("{other:?}"),
    }
    assert!(s.pr_url.is_none());
}

#[test]
fn an_answer_without_a_title_is_shown() {
    let d = describe_pr("---\ntitle: \"T\"\n---\nB");
    assert_eq!((d.title.as_str(), d.body.as_str()), ("T", "B"));
    assert!(d.notice.is_none());
    let long = "x".repeat(600);
    let d = describe_pr(&long);
    assert_eq!((d.title.as_str(), d.body.as_str()), ("", ""));
    let notice = plain_text(&d.notice.unwrap_or_else(|| panic!("no notice")));
    assert_eq!(
        notice,
        format!(
            "⚠ Failed to parse PR metadata from LLM output (first 500 chars):\n{}",
            "x".repeat(500)
        )
    );
    assert!(describe_pr("  \n").notice.is_none());
    for untitled in ["---\ntitle: \"\"\n---\nB", "---\ntitle:\n---\nB", "\n"] {
        let d = describe_pr(untitled);
        assert_eq!((d.title.as_str(), d.body.as_str()), ("", ""), "{untitled:?}");
    }
}

// Choosing and running many

#[test]
fn a_single_pending_session_is_taken() {
    match select_pending_session(&vec![]) {
        Err(e) => assert_eq!(e.message(), "No pending sessions. Run `cruise plan` first."),
        Ok(c) => panic!("{c:?}"),
    }
    match select_pending_session(&vec![make_session("7", SessionPhase::Planned)]) {
        Ok(PendingChoice::Only { id, notice }) => {
            assert_eq!(id, "7");
            assert_eq!(plain_text(&notice), "→ Selected session: 7 — task");
        }
        other => panic!("{other:?}"),
    }
}

#[test]
fn one_of_many_pending_sessions_is_chosen() {
    let pending = vec![
        make_session("7", SessionPhase::Planned),
        make_session("8", SessionPhase::Suspended),
    ];
    let labels = match select_pending_session(&pending) {
        Ok(PendingChoice::Menu(labels)) => labels,
        other => panic!("{other:?}"),
    };
    assert_eq!(labels, vec!["7 | Planned | task", "8 | Suspended | task"]);
    assert_eq!(
        chosen_session(&pending, &labels, &MenuAnswer::Chosen(labels[1].clone()))
            .unwrap_or_else(|e| panic!("{e:?}")),
        "8"
    );
    for (answer, text) in [
        (MenuAnswer::Cancelled, "session selection cancelled"),
        (MenuAnswer::Failed("x".to_string()), "selection error: x"),
        (
            MenuAnswer::Chosen("9".to_string()),
            "selected session not found: 9",
        ),
    ] {
        match chosen_session(&pending, &labels, &answer) {
            Err(e) => assert_eq!(e.message(), text),
            Ok(id) => panic!("{id}"),
        }
    }
}

#[test]
fn test_run_all_picks_up_session_added_while_first_session_is_running() {
    let mut all = vec![make_session("1", SessionPhase::Planned)];
    let mut run = RunAll::new();
    let first = run
        .next(&manager(), &all)
        .unwrap_or_else(|| panic!("nothing to run"));
    assert_eq!(first.id, "1");
    all.push(make_session("2", SessionPhase::Suspended));
    all.push(make_session("3", SessionPhase::Failed("x".to_string())));
    run.record(make_session("1", SessionPhase::Completed), &Ok(()));
    let second = run
        .next(&manager(), &all)
        .unwrap_or_else(|| panic!("nothing to run"));
    assert_eq!(second.id, "2");
    run.record(make_session("2", SessionPhase::Completed), &Ok(()));
    assert!(run.next(&manager(), &all).is_none());
    assert_eq!(run.results().len(), 2);
}

#[test]
fn test_run_all_returns_ok_when_no_planned_sessions() {
    let mut run = RunAll::new();
    assert!(run
        .next(&manager(), &vec![make_session("1", SessionPhase::Completed)])
        .is_none());
    assert!(run.results().is_empty());
}

#[test]
fn an_interruption_stops_the_others() {
    let all = vec![
        make_session("1", SessionPhase::Planned),
        make_session("2", SessionPhase::Planned),
    ];
    let mut run = RunAll::new();
    assert!(run.next(&manager(), &all).is_some());
    run.record(
        make_session("1", SessionPhase::Suspended),
        &Err(CruiseError::Interrupted),
    );
    assert!(run.next(&manager(), &all).is_none());
}

#[test]
fn the_end_of_each_session_is_told() {
    assert_eq!(run_all_notice("1", &Ok(())), None);
    assert_eq!(run_all_notice("1", &Err(CruiseError::Interrupted)), None);
    assert_eq!(
        run_all_notice("1", &Err(CruiseError::StepPaused)).as_deref(),
        Some("session 1 paused by user")
    );
    assert_eq!(
        run_all_notice("1", &Err(CruiseError::Other("boom".to_string()))).as_deref(),
        Some("warning: session 1 encountered an error: boom")
    );
}
