//! The clean-up of sessions.

use cruise::cleanup::{CleanTask, Cleanup};
use cruise::session::{GhReply, SessionPhase, SessionState};

fn session(id: &str, phase: SessionPhase, url: Option<&str>) -> SessionState {
    let mut s = SessionState::new(
        id.to_string(),
        "/repo".to_string(),
        "cruise.yaml".to_string(),
        "task".to_string(),
    );
    s.phase = phase;
    s.pr_url = url.map(str::to_string);
    s
}

fn replied(success: bool, stdout: &str, stderr: &str) -> GhReply {
    GhReply::Output {
        success,
        stdout: stdout.as_bytes().to_vec(),
        stderr: stderr.as_bytes().to_vec(),
    }
}

#[test]
fn closed_and_merged_pull_requests_are_cleaned_up() {
    let sessions = vec![
        session("1", SessionPhase::Planned, Some("url1")),
        session("2", SessionPhase::Completed, Some("url2")),
        session("3", SessionPhase::Completed, None),
        session("4", SessionPhase::Completed, Some("url4")),
        session("5", SessionPhase::Completed, Some("url5")),
        session("6", SessionPhase::Completed, Some("url6")),
        session("7", SessionPhase::Completed, Some("url7")),
    ];
    let mut cleanup = Cleanup::start(sessions);
    let mut asked = Vec::new();
    let mut deleted = Vec::new();
    let mut warnings = Vec::new();
    let report = loop {
        match cleanup.task() {
            CleanTask::Ask(s, url) => {
                asked.push(url.clone());
                let reply = match s.id.as_str() {
                    "2" => replied(true, " merged\n", ""),
                    "4" => replied(true, "OPEN\n", ""),
                    "5" => replied(false, "", " not found\n"),
                    "6" => GhReply::NotRun("no such file".to_string()),
                    _ => replied(true, "CLOSED", ""),
                };
                warnings.extend(cleanup.replied(&reply));
            }
            CleanTask::Delete(s) => {
                deleted.push(s.id.clone());
                // The pull request is not asked for again.
                assert_eq!(cleanup.replied(&replied(true, "OPEN", "")), None);
                cleanup.deleted();
            }
            CleanTask::Done(report) => break report,
        }
    };
    assert_eq!(asked, vec!["url2", "url4", "url5", "url6", "url7"]);
    assert_eq!(deleted, vec!["2", "7"]);
    assert_eq!(
        warnings,
        vec![
            "warning: gh pr view failed for 5: not found",
            "warning: failed to run gh for 6: no such file"
        ]
    );
    assert_eq!((report.deleted, report.skipped), (2, 3));
}

#[test]
fn there_may_be_nothing_to_clean_up() {
    let mut cleanup = Cleanup::start(vec![session("1", SessionPhase::Running, Some("url"))]);
    cleanup.deleted();
    assert_eq!(cleanup.replied(&replied(true, "CLOSED", "")), None);
    match cleanup.task() {
        CleanTask::Done(report) => assert_eq!((report.deleted, report.skipped), (0, 0)),
        other => panic!("unexpected: {other:?}"),
    }
}
