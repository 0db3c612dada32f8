//! Messages of errors.

use cruise::error::CruiseError;

fn text(s: &str) -> String {
    s.to_string()
}

#[test]
fn every_error_has_a_message() {
    let all = vec![
        (CruiseError::ConfigNotFound(text("a.yaml")), "config file not found: a.yaml"),
        (CruiseError::ConfigParseError(text("bad")), "failed to parse config file: bad"),
        (CruiseError::StepNotFound(text("s")), "step not found: s"),
        (CruiseError::InvalidStepConfig(text("bad")), "invalid step config: bad"),
        (CruiseError::UndefinedVariable(text("x")), "undefined variable: {x}"),
        (CruiseError::CommandError(text("boom")), "command error: boom"),
        (CruiseError::ProcessSpawnError(text("gone")), "process spawn error: gone"),
        (CruiseError::IoError(text("gone")), "I/O error: gone"),
        (CruiseError::NotGitRepository, "not a git repository"),
        (CruiseError::WorktreeError(text("busy")), "git worktree error: busy"),
        (CruiseError::SessionError(text("gone")), "session error: gone"),
        (
            CruiseError::SessionStateConflict(text("x")),
            "session state.json changed externally during run: x",
        ),
        (
            CruiseError::SessionStateConflictAborted(text("x")),
            "run aborted to preserve external session state: x",
        ),
        (
            CruiseError::StepMadeNoFileChanges(text("s")),
            "step 's' made no tracked file changes (fail-if-no-file-changes)",
        ),
        (CruiseError::Interrupted, "interrupted by user (Ctrl+C)"),
        (CruiseError::Other(text("any")), "any"),
        (CruiseError::StepPaused, "step paused by user interrupt"),
    ];
    for (error, message) in all {
        assert_eq!(error.message(), message);
        assert_eq!(error.detailed_message(), message);
    }
}

#[test]
fn a_loop_is_described_in_detail() {
    let error = CruiseError::LoopProtection {
        from: text("a"),
        to: text("b"),
        max_retries: 3,
        edge_counts: vec![(text("a"), text("b"), 4), (text("b"), text("a"), 3)],
    };
    let message = "loop protection: edge a -> b exceeded max retries 3";
    assert_eq!(error.message(), message);
    assert_eq!(
        error.detailed_message(),
        format!("{message}\n  edge counts:\n    a -> b: 4\n    b -> a: 3")
    );
}
