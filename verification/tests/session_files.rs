//! State files, clean-up, directories and logs of sessions.

use cruise::clock::parse_iso8601_secs;
use cruise::error::CruiseError;
use cruise::session::{
    cruise_home, get_cruise_home, judge_pr, pr_to_check, CleanupReport, CleanupVerdict, GhReply,
    Listing, SessionEntry, SessionFileContents, SessionLogger, SessionManager, SessionPhase, SessionState,
    SessionStateFingerprint, StateRead, WorkspaceMode,
};

fn manager() -> SessionManager {
    SessionManager::new("/home/user/.cruise".to_string(), false)
}

fn make_state(id: &str) -> SessionState {
    SessionState::new(
        id.to_string(),
        "/repo".to_string(),
        "cruise.yaml".to_string(),
        "task".to_string(),
    )
}

fn read_back(bytes: &[u8], state: &SessionState) -> StateRead {
    StateRead::Read {
        bytes: bytes.to_vec(),
        parsed: Ok(state.clone()),
    }
}

#[test]
fn test_session_create_and_load() {
    let id = "20260306143000".to_string();
    let state = SessionState::new(
        id.clone(),
        "/repo".to_string(),
        "cruise.yaml".to_string(),
        "add hello world".to_string(),
    );
    let loaded = manager()
        .load(&id, read_back(b"{}", &state))
        .unwrap_or_else(|e| panic!("{e:?}"));
    assert_eq!(loaded.id, id);
    assert_eq!(loaded.input, "add hello world");
    assert!(matches!(loaded.phase, SessionPhase::AwaitingApproval));
    assert!(loaded.current_step.is_none());
    assert_eq!(loaded.title, None);
    assert_eq!(loaded.workspace_mode, WorkspaceMode::Worktree);
    assert_eq!(loaded.target_branch, None);
    assert!(loaded.pr_url.is_none());
}

#[test]
fn test_load_with_fingerprint_matches_inspected_file() {
    let id = "20260310130000";
    let state = manager().save(&make_state(id));
    let bytes = b"{\"id\":\"20260310130000\"}";
    let (loaded, load_fingerprint) = manager()
        .load_with_fingerprint(id, read_back(bytes, &state))
        .unwrap_or_else(|e| panic!("{e:?}"));
    let inspected = manager()
        .inspect_state_file(id, read_back(bytes, &state))
        .unwrap_or_else(|e| panic!("{e:?}"));
    assert_eq!(loaded.id, state.id);
    assert_eq!(loaded.phase, state.phase);
    assert!(loaded.updated_at.is_some());
    match inspected {
        SessionFileContents::Parsed {
            state: inspected_state,
            fingerprint,
        } => {
            assert_eq!(*inspected_state, loaded);
            assert!(fingerprint.same(&load_fingerprint));
        }
        other => panic!("expected parsed contents, got {other:?}"),
    }
}

#[test]
fn test_inspect_state_file_returns_invalid_for_malformed_json() {
    let read = || StateRead::Read {
        bytes: b"{not valid json".to_vec(),
        parsed: Err("key must be a string".to_string()),
    };
    let inspected = manager()
        .inspect_state_file("20260310130002", read())
        .unwrap_or_else(|e| panic!("{e:?}"));
    match inspected {
        SessionFileContents::Invalid { fingerprint, error } => {
            assert!(
                !error.is_empty(),
                "invalid JSON inspection should include a parse error"
            );
            let again = manager()
                .inspect_state_file("20260310130002", read())
                .unwrap_or_else(|e| panic!("{e:?}"))
                .fingerprint()
                .unwrap_or_else(|| panic!("no fingerprint"));
            assert!(fingerprint.same(&again));
        }
        other => panic!("expected invalid contents, got {other:?}"),
    }
}

#[test]
fn test_inspect_state_file_returns_missing_for_absent_file() {
    let inspected = manager()
        .inspect_state_file("20260310130003", StateRead::NotFound("no file".to_string()))
        .unwrap_or_else(|e| panic!("{e:?}"));
    assert!(matches!(inspected, SessionFileContents::Missing));
    assert!(inspected.fingerprint().is_none());
}

#[test]
fn unreadable_states_are_errors() {
    let m = manager();
    for read in [
        StateRead::NotFound("gone".to_string()),
        StateRead::Failed("gone".to_string()),
    ] {
        match m.load("7", read) {
            Err(CruiseError::SessionError(text)) => {
                assert_eq!(text, "failed to load session 7: gone")
            }
            other => panic!("{other:?}"),
        }
    }
    match m.load(
        "7",
        StateRead::Read {
            bytes: vec![],
            parsed: Err("EOF".to_string()),
        },
    ) {
        Err(e) => assert_eq!(e.message(), "session error: failed to parse session 7: EOF"),
        Ok(s) => panic!("{s:?}"),
    }
    match m.inspect_state_file("7", StateRead::Failed("denied".to_string())) {
        Err(e) => assert_eq!(
            e.message(),
            "session error: failed to inspect session 7: denied"
        ),
        Ok(c) => panic!("{c:?}"),
    }
}

#[test]
fn fingerprints_tell_bytes_apart() {
    let a = SessionStateFingerprint::from_bytes(b"one");
    let b = SessionStateFingerprint::from_bytes(b"two");
    assert!(a.same(&SessionStateFingerprint::from_bytes(b"one")));
    assert!(!a.same(&b));
}

#[test]
fn saving_stamps_the_state() {
    let state = make_state("20260306150000");
    let saved = manager().save(&state);
    let stamp = saved
        .updated_at
        .clone()
        .unwrap_or_else(|| panic!("no stamp"));
    assert!(parse_iso8601_secs(&stamp).is_some());
    assert_eq!(
        SessionState {
            updated_at: None,
            ..saved
        },
        state
    );
}

#[test]
fn sessions_have_their_places() {
    let m = manager();
    assert_eq!(m.sessions_dir(), "/home/user/.cruise/sessions");
    assert_eq!(m.worktrees_dir(), "/home/user/.cruise/worktrees");
    assert_eq!(m.session_dir("7"), "/home/user/.cruise/sessions/7");
    assert_eq!(m.state_path("7"), "/home/user/.cruise/sessions/7/state.json");
    assert_eq!(m.run_log_path("7"), "/home/user/.cruise/sessions/7/run.log");
    let mut state = make_state("7");
    assert_eq!(
        state.plan_path(&m.sessions_dir(), false),
        "/home/user/.cruise/sessions/7/plan.md"
    );
    assert_eq!(
        m.config_file_path(&state),
        "/home/user/.cruise/sessions/7/config.yaml"
    );
    state.config_path = Some("/repo/cruise.yaml".to_string());
    assert_eq!(m.config_file_path(&state), "/repo/cruise.yaml");
}

#[test]
fn the_home_directory_is_where_the_user_lives() {
    assert_eq!(
        cruise_home(Some("/home/user".to_string()), false),
        Some("/home/user/.cruise".to_string())
    );
    assert_eq!(cruise_home(None, false), None);
    assert!(get_cruise_home(None, false).is_err());
    assert_eq!(
        get_cruise_home(Some("/root".to_string()), false).unwrap_or_else(|e| panic!("{e:?}")),
        "/root/.cruise"
    );
}

#[test]
fn a_worktree_is_used_if_it_exists() {
    let mut state = make_state("7");
    assert!(state.worktree_context(true).is_none());
    state.worktree_path = Some("/wt".to_string());
    state.worktree_branch = Some("cruise/7".to_string());
    assert!(state.worktree_context(false).is_none());
    let ctx = state
        .worktree_context(true)
        .unwrap_or_else(|| panic!("no worktree"));
    assert_eq!(
        (ctx.path.as_str(), ctx.branch.as_str(), ctx.original_dir.as_str()),
        ("/wt", "cruise/7", "/repo")
    );
}

fn replied(success: bool, stdout: &str, stderr: &str) -> GhReply {
    GhReply::Output {
        success,
        stdout: stdout.as_bytes().to_vec(),
        stderr: stderr.as_bytes().to_vec(),
    }
}

#[test]
fn sessions_go_with_their_pull_requests() {
    let mut report = CleanupReport::default();
    for (reply, goes) in [
        (replied(true, "MERGED\n", ""), true),
        (replied(true, "closed\n", ""), true),
        (replied(true, "OPEN\n", ""), false),
        (replied(false, "", "no pull request"), false),
        (GhReply::NotRun("not found".to_string()), false),
    ] {
        let verdict = judge_pr("7", &reply);
        assert_eq!(matches!(verdict, CleanupVerdict::Delete), goes);
        report.count(&verdict);
    }
    assert_eq!((report.deleted, report.skipped), (2, 3));
    match judge_pr("7", &replied(false, "", " no pull request\n")) {
        CleanupVerdict::Keep(Some(warning)) => assert_eq!(
            warning,
            "warning: gh pr view failed for 7: no pull request"
        ),
        other => panic!("{other:?}"),
    }
}

#[test]
fn only_completed_sessions_are_cleaned_up() {
    let mut state = make_state("7");
    state.pr_url = Some("https://github.com/o/r/pull/1".to_string());
    assert_eq!(pr_to_check(&state), None);
    state.phase = SessionPhase::Completed;
    assert_eq!(pr_to_check(&state), state.pr_url);
}

#[test]
fn test_session_logger_line_format_has_timestamp_prefix() {
    let logger = SessionLogger::new("/tmp/run.log".to_string());
    assert_eq!(logger.path(), "/tmp/run.log");
    let entry = logger.entry("step one");
    assert!(entry.starts_with('['));
    assert!(entry.ends_with("] step one\n"));
    assert_eq!(entry.len(), "[2026-03-06T14:30:00Z] step one\n".len());
}

#[test]
fn bytes_that_are_no_text_are_read_anyway() {
    let reply = GhReply::Output {
        success: false,
        stdout: vec![],
        stderr: vec![b'o', 0xff, b'k'],
    };
    match judge_pr("7", &reply) {
        CleanupVerdict::Keep(Some(w)) => {
            assert_eq!(w, "warning: gh pr view failed for 7: o\u{fffd}k")
        }
        other => panic!("{other:?}"),
    }
}

#[test]
fn test_session_save_updates_state() {
    let id = "20260306150000";
    let mut state = make_state(id);
    state.phase = SessionPhase::Running;
    state.current_step = Some("implement".to_string());
    let written = manager().save(&state);
    let loaded = manager()
        .load(id, read_back(b"{}", &written))
        .unwrap_or_else(|e| panic!("{e:?}"));
    assert!(matches!(loaded.phase, SessionPhase::Running));
    assert_eq!(loaded.current_step, Some("implement".to_string()));
}

#[test]
fn test_session_load_config_config_path_not_found_returns_error() {
    let mut state = make_state("20260314120005");
    state.config_path = Some("/nonexistent/cruise.yaml".to_string());
    let path = manager().config_file_path(&state);
    assert_eq!(path, "/nonexistent/cruise.yaml");
    assert_eq!(
        SessionManager::config_unreadable(&path, "gone").message(),
        "failed to read session config /nonexistent/cruise.yaml: gone"
    );
}

fn entry(name: &str, is_dir: bool, read: StateRead) -> SessionEntry {
    SessionEntry {
        name: name.to_string(),
        is_dir,
        read,
    }
}

#[test]
fn what_is_found_is_listed() {
    let parsed = |id: &str| read_back(b"", &make_state(id));
    let broken = StateRead::Read {
        bytes: vec![],
        parsed: Err("EOF".to_string()),
    };
    let Listing { sessions, warnings } = manager().list_found(&vec![
        entry("20260302000000", true, parsed("20260302000000")),
        entry("notes.txt", false, StateRead::Failed("not a directory".to_string())),
        entry("empty", true, StateRead::NotFound("gone".to_string())),
        entry("20260301000000", true, parsed("20260301000000")),
        entry("broken", true, broken),
        entry("locked", true, StateRead::Failed("denied".to_string())),
    ]);
    let ids: Vec<&str> = sessions.iter().map(|s| s.id.as_str()).collect();
    assert_eq!(ids, vec!["20260301000000", "20260302000000"]);
    assert_eq!(
        warnings,
        vec![
            "warning: session error: failed to load session empty: gone",
            "warning: session error: failed to parse session broken: EOF",
            "warning: session error: failed to load session locked: denied",
        ]
    );
    assert!(manager().list_found(&vec![]).sessions.is_empty());
}

#[test]
fn new_sessions_have_identifiers_of_their_own() {
    let mut in_use = Vec::new();
    for _ in 0..3 {
        let before = in_use.clone();
        let id = SessionManager::new_session_id(&mut in_use);
        assert_eq!(id.len(), 14);
        assert!(!before.contains(&id));
        assert_eq!(in_use.last(), Some(&id));
        assert_eq!(in_use.len(), before.len() + 1);
    }
}
