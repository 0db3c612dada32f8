//! The graphical front end.

use cruise::cancellation::CancellationToken;
use cruise::config::{StepConfig, WorkflowConfig};
use cruise::engine::ExecutionResult;
use cruise::error::CruiseError;
use cruise::gui::commands::{
    after_generation, ensure_deletable, expand_home, finish_one_of_all, finish_session, list_configs,
    list_directory, requested_workspace_mode, session_log, step_line, CleanupResultDto,
    FoundEntry, OptionResultDto, SessionDto,
};
use cruise::gui::events::{
    choices_to_dtos, option_required, ChoiceDto, ChoiceKind, EventEmitter, PlanEvent,
    WorkflowEvent,
};
use cruise::gui::option_slot::{
    answer_received, do_cancel_session, do_respond_to_option, OptionSlot,
};
use cruise::gui::session_run::{
    advance_gui_run, end_line, run_result, Batch, GuiEvent, GuiNext, GuiStage,
};
use cruise::metadata::PlanFile;
use cruise::names::NameMap;
use cruise::resolver::{DirEntry, FileRead};
use cruise::session::{
    CleanupReport, SessionManager, SessionPhase, SessionState, WorkspaceMode,
};
use cruise::step::option::OptionResult;
use cruise::step::prompt::PromptResult;
use cruise::step::OptionChoice;
use cruise::workspace::RepoState;
use indexmap::IndexMap;

fn make_session(phase: SessionPhase) -> SessionState {
    let mut s = SessionState::new(
        "20260321130000".to_string(),
        "/repo".to_string(),
        "cruise.yaml".to_string(),
        "task".to_string(),
    );
    s.phase = phase;
    s
}

fn raw_session(id: &str) -> SessionState {
    SessionState::new(
        id.to_string(),
        "/repo".to_string(),
        "cruise.yaml".to_string(),
        "raw input".to_string(),
    )
}

#[test]
fn test_session_dto_from_session_includes_title() {
    let mut session = raw_session("20260321120000");
    session.title = Some("Readable session title".to_string());
    let dto = SessionDto::from(session);
    assert_eq!(dto.title.as_deref(), Some("Readable session title"));
    assert_eq!(dto.input, "raw input");
    assert_eq!(dto.phase_error, None);
}

#[test]
fn test_session_dto_from_session_title_is_none_when_not_yet_generated() {
    let dto = SessionDto::from(raw_session("20260321120001"));
    assert_eq!(dto.title, None);
    assert_eq!(dto.input, "raw input");
    assert_eq!(dto.phase, "Awaiting Approval");
}

#[test]
fn a_failed_session_tells_why() {
    let dto = SessionDto::from(make_session(SessionPhase::Failed("boom".to_string())));
    assert_eq!(dto.phase, "Failed");
    assert_eq!(dto.phase_error.as_deref(), Some("boom"));
    assert_eq!(dto.base_dir, "/repo");
}

#[test]
fn test_respond_to_option_with_no_pending_request_returns_error() {
    let mut slot: OptionSlot<u8> = OptionSlot::new();
    assert_eq!(
        slot.respond().map_or_else(|e| e, |v| panic!("{v}")),
        "no pending option request"
    );
}

#[test]
fn test_respond_to_option_second_call_returns_error() {
    let mut slot = OptionSlot::new();
    assert!(slot.open(7_u8).is_ok());
    assert!(slot.is_pending());
    match slot.open(8) {
        Err(e) => assert_eq!(
            e.message(),
            "pending_response slot already occupied — previous request was not consumed"
        ),
        Ok(()) => panic!("expected an error"),
    }
    assert_eq!(slot.respond().unwrap_or_else(|e| panic!("{e}")), 7);
    assert!(!slot.is_pending());
    assert!(slot.respond().is_err());
}

#[test]
fn test_cancel_session_drops_pending_option_sender() {
    let mut slot = OptionSlot::new();
    assert_eq!(slot.cancel(), None::<u8>);
    assert!(slot.open(7_u8).is_ok());
    assert_eq!(slot.cancel(), Some(7));
    assert!(!slot.is_pending());
}

fn choices() -> Vec<OptionChoice> {
    vec![
        OptionChoice::Selector {
            label: "Option A".to_string(),
            next: Some("step_a".to_string()),
        },
        OptionChoice::TextInput {
            label: "Enter value".to_string(),
            next: None,
        },
    ]
}

#[test]
fn test_select_option_passes_choices_to_emitted_event() {
    assert_eq!(
        choices_to_dtos(&choices()),
        vec![
            ChoiceDto {
                label: "Option A".to_string(),
                kind: ChoiceKind::Selector,
                next: Some("step_a".to_string()),
            },
            ChoiceDto {
                label: "Enter value".to_string(),
                kind: ChoiceKind::TextInput,
                next: None,
            },
        ]
    );
}

#[test]
fn test_select_option_passes_plan_to_emitted_event() {
    struct Printed;
    impl EventEmitter for Printed {
        fn emit(&self, event: WorkflowEvent) {
            match event {
                WorkflowEvent::OptionRequired {
                    request_id,
                    choices,
                    plan,
                } => {
                    assert_eq!(request_id, "test-req-id");
                    assert!(choices.is_empty());
                    assert_eq!(plan.as_deref(), Some("## Plan\nStep 1: do X"));
                }
                other => panic!("{other:?}"),
            }
        }
    }
    Printed.emit(option_required(
        "test-req-id",
        &vec![],
        Some("## Plan\nStep 1: do X"),
    ));
}

#[test]
fn the_front_end_answers() {
    let result = OptionResultDto {
        next_step: Some("deploy".to_string()),
        text_input: Some("text".to_string()),
    }
    .into_result();
    assert_eq!(result.next_step.as_deref(), Some("deploy"));
    assert_eq!(result.text_input.as_deref(), Some("text"));
    let dto = CleanupResultDto::from(&CleanupReport {
        deleted: 1,
        skipped: 2,
    });
    assert_eq!((dto.deleted, dto.skipped), (1, 2));
}

#[test]
fn directories_are_listed_in_order() {
    let mut entries = vec![
        FoundEntry {
            name: "b".to_string(),
            is_dir: true,
        },
        FoundEntry {
            name: ".hidden".to_string(),
            is_dir: true,
        },
        FoundEntry {
            name: "file".to_string(),
            is_dir: false,
        },
        FoundEntry {
            name: "a".to_string(),
            is_dir: true,
        },
    ];
    let listed = list_directory("/home/user", &entries, false);
    let names: Vec<&str> = listed.iter().map(|e| e.name.as_str()).collect();
    assert_eq!(names, vec!["a", "b"]);
    assert_eq!(listed[0].path, "/home/user/a");
    for i in 0..60 {
        entries.push(FoundEntry {
            name: format!("d{i:02}"),
            is_dir: true,
        });
    }
    let listed = list_directory("/home/user", &entries, false);
    assert_eq!(listed.len(), 50);
    assert_eq!(listed[49].name, "d47");
}

#[test]
fn a_tilde_is_the_home_directory() {
    let home = Some("/home/user".to_string());
    assert_eq!(expand_home("~/src", &home), "/home/user/src");
    assert_eq!(expand_home("~", &home), "/home/user");
    assert_eq!(expand_home("/a~", &home), "/a~");
    assert_eq!(expand_home("~/src", &None), "/src");
}

#[test]
fn configurations_are_listed_in_order() {
    let entries: Vec<DirEntry> = ["b.yml", "sessions", "a.yaml", "notes.txt", ".yaml"]
        .iter()
        .map(|n| DirEntry {
            name: n.to_string(),
            is_file: *n != "sessions",
        })
        .collect();
    let listed = list_configs("/home/user/.cruise", &entries, false);
    let paths: Vec<&str> = listed.iter().map(|e| e.path.as_str()).collect();
    assert_eq!(
        paths,
        vec!["/home/user/.cruise/a.yaml", "/home/user/.cruise/b.yml"]
    );
    assert_eq!(listed[0].name, "a.yaml");
}

/// The session that is saved before it runs on the branch `main` of its own repository.
fn prepared(s: SessionState, requested: WorkspaceMode, dirty: bool) -> SessionState {
    let stage = go(
        requested,
        GuiStage::Configure(s),
        GuiEvent::Configured(Ok(config(&["edit"]))),
    );
    let repo = RepoState {
        branch: Some("main".to_string()),
        dirty,
    };
    match go(requested, stage, GuiEvent::Inspected(Ok(repo))) {
        GuiStage::SaveStart(u, workspace) => {
            assert_eq!(workspace.path(), "/repo");
            u.session
        }
        other => panic!("{other:?}"),
    }
}

#[test]
fn test_prepare_run_session_uses_requested_workspace_mode_for_fresh_runs() {
    let s = make_session(SessionPhase::Planned);
    let prepared = prepared(s, WorkspaceMode::CurrentBranch, false);
    assert_eq!(prepared.phase, SessionPhase::Running);
    assert_eq!(prepared.workspace_mode, WorkspaceMode::CurrentBranch);
    assert_eq!(prepared.target_branch.as_deref(), Some("main"));
    assert!(prepared.worktree_path.is_none());
    assert!(prepared.worktree_branch.is_none());
}

#[test]
fn test_prepare_run_session_resumes_with_saved_workspace_mode() {
    let mut s = make_session(SessionPhase::Suspended);
    s.current_step = Some("edit".to_string());
    s.workspace_mode = WorkspaceMode::CurrentBranch;
    s.target_branch = Some("main".to_string());
    assert_eq!(
        requested_workspace_mode(&s, WorkspaceMode::Worktree),
        WorkspaceMode::CurrentBranch
    );
    let prepared = prepared(s, WorkspaceMode::Worktree, true);
    assert_eq!(prepared.phase, SessionPhase::Running);
    assert_eq!(prepared.workspace_mode, WorkspaceMode::CurrentBranch);
    assert!(prepared.worktree_path.is_none());
    assert!(prepared.worktree_branch.is_none());
}

#[test]
fn running_sessions_are_not_deleted() {
    assert_eq!(
        ensure_deletable(&make_session(SessionPhase::Running))
            .map_or_else(|e| e, |()| String::new()),
        "Cannot delete a running session. Cancel it first."
    );
    assert!(ensure_deletable(&make_session(SessionPhase::Completed)).is_ok());
}

#[test]
fn the_log_of_a_session_may_be_missing() {
    assert_eq!(
        session_log("/l", FileRead::Text("x".to_string())),
        Ok("x".to_string())
    );
    assert_eq!(
        session_log("/l", FileRead::NotFound("gone".to_string())),
        Ok(String::new())
    );
    assert_eq!(
        session_log("/l", FileRead::Failed("denied".to_string())),
        Err("failed to read log /l: denied".to_string())
    );
    assert_eq!(step_line(0, 3, "build"), "[1/3] build");
}

#[test]
fn the_end_of_a_run_reaches_the_session_and_the_front_end() {
    let mut s = make_session(SessionPhase::Running);
    s.awaiting_input = true;
    let event = finish_session(
        &mut s,
        &Ok(ExecutionResult {
            run: 2,
            skipped: 1,
            failed: 0,
        }),
        false,
    );
    assert_eq!(
        event,
        WorkflowEvent::WorkflowCompleted {
            run: 2,
            skipped: 1,
            failed: 0
        }
    );
    assert_eq!(s.phase, SessionPhase::Completed);
    assert!(!s.awaiting_input && s.completed_at.is_some());

    let mut s = make_session(SessionPhase::Running);
    assert_eq!(
        finish_session(&mut s, &Err(CruiseError::Interrupted), false),
        WorkflowEvent::WorkflowCancelled
    );
    assert_eq!(s.phase, SessionPhase::Suspended);
    assert!(s.completed_at.is_none());

    let mut s = make_session(SessionPhase::Running);
    assert_eq!(
        finish_session(&mut s, &Err(CruiseError::NotGitRepository), false),
        WorkflowEvent::WorkflowFailed {
            error: "not a git repository".to_string()
        }
    );
    assert_eq!(
        s.phase,
        SessionPhase::Failed("not a git repository".to_string())
    );
}

#[test]
fn a_cancelled_run_can_be_resumed() {
    let stopped = || {
        Ok(ExecutionResult {
            run: 1,
            skipped: 0,
            failed: 0,
        })
    };
    let mut s = make_session(SessionPhase::Running);
    assert_eq!(
        finish_session(&mut s, &stopped(), true),
        WorkflowEvent::WorkflowCancelled
    );
    assert_eq!(s.phase, SessionPhase::Suspended);
    assert!(s.completed_at.is_none());
    assert_eq!(end_line(&stopped(), true), "⏸ cancelled");

    let stage = go(
        WorkspaceMode::CurrentBranch,
        GuiStage::Reload(make_session(SessionPhase::Running), stopped(), true),
        GuiEvent::Reloaded(None),
    );
    let ended = end(WorkspaceMode::CurrentBranch, stage, GuiEvent::Saved(Ok(())));
    assert_eq!(ended, Ok(SessionPhase::Suspended));
}

#[test]
fn only_an_interruption_stops_a_batch() {
    let (event, stop) = finish_one_of_all(
        "7".to_string(),
        "task".to_string(),
        &SessionPhase::Failed("boom".to_string()),
    );
    assert!(!stop);
    assert_eq!(
        event,
        WorkflowEvent::RunAllSessionFinished {
            session_id: "7".to_string(),
            input: "task".to_string(),
            phase: "Failed".to_string(),
            error: Some("boom".to_string()),
        }
    );
    let (_, stop) = finish_one_of_all(
        "7".to_string(),
        "task".to_string(),
        &SessionPhase::Suspended,
    );
    assert!(stop);
}

// Cancelling and answering

fn answer(next: Option<&str>, text: Option<&str>) -> OptionResult {
    OptionResult {
        next_step: next.map(str::to_string),
        text_input: text.map(str::to_string),
    }
}

#[test]
fn test_cancel_session_with_no_active_token_succeeds() {
    let mut token = None;
    let mut slot: OptionSlot<u8> = OptionSlot::new();
    let (stopped, waiting) = do_cancel_session(&mut token, &mut slot);
    assert!(stopped.is_none() && waiting.is_none());
    assert!(token.is_none());
}

#[test]
fn test_cancel_session_with_active_token_cancels_it() {
    let active = CancellationToken::new();
    let mut token = Some(active.clone());
    let mut slot: OptionSlot<u8> = OptionSlot::new();
    let (stopped, _) = do_cancel_session(&mut token, &mut slot);
    assert!(active.is_cancelled());
    assert!(stopped.is_some_and(|t| t.is_cancelled()));
}

#[test]
fn test_cancel_session_clears_token_from_slot_after_cancelling() {
    let mut token = Some(CancellationToken::new());
    let mut slot = OptionSlot::new();
    assert!(slot.open(7_u8).is_ok());
    let (stopped, waiting) = do_cancel_session(&mut token, &mut slot);
    assert!(stopped.is_some());
    assert_eq!(waiting, Some(7));
    assert!(token.is_none());
    assert!(!slot.is_pending());
}

fn sent(result: OptionResult) -> OptionResult {
    let (tx, rx) = std::sync::mpsc::channel();
    let mut slot = OptionSlot::new();
    assert!(slot.open(tx).is_ok());
    let responder = do_respond_to_option(&mut slot).unwrap_or_else(|e| panic!("{e}"));
    responder.send(result).unwrap_or_else(|e| panic!("{e}"));
    answer_received(rx.recv().ok()).unwrap_or_else(|e| panic!("{e:?}"))
}

#[test]
fn test_respond_to_option_sends_next_step_to_handler() {
    let result = sent(answer(Some("next_step"), None));
    assert_eq!(result.next_step.as_deref(), Some("next_step"));
    assert_eq!(result.text_input, None);
}

#[test]
fn test_respond_to_option_sends_text_input_to_handler() {
    let result = sent(answer(None, Some("my text input")));
    assert_eq!(result.text_input.as_deref(), Some("my text input"));
}

#[test]
fn test_respond_to_option_clears_sender_from_state_after_use() {
    let mut slot = OptionSlot::new();
    assert!(slot.open(7_u8).is_ok());
    assert!(do_respond_to_option(&mut slot).is_ok());
    assert!(!slot.is_pending());
}

#[test]
fn test_select_option_emits_option_required_event() {
    let choices = vec![OptionChoice::Selector {
        label: "Yes".to_string(),
        next: Some("done".to_string()),
    }];
    match option_required("test-req-id", &choices, None) {
        WorkflowEvent::OptionRequired {
            request_id, plan, ..
        } => {
            assert_eq!(request_id, "test-req-id");
            assert_eq!(plan, None);
        }
        other => panic!("{other:?}"),
    }
}

#[test]
fn test_select_option_returns_result_sent_by_responder() {
    let result = sent(answer(Some("my_step"), Some("user input")));
    assert_eq!(result.next_step.as_deref(), Some("my_step"));
    assert_eq!(result.text_input.as_deref(), Some("user input"));
}

#[test]
fn test_select_option_returns_interrupted_when_sender_is_dropped() {
    let (tx, rx) = std::sync::mpsc::channel::<OptionResult>();
    let mut slot = OptionSlot::new();
    assert!(slot.open(tx).is_ok());
    drop(slot.cancel());
    assert!(matches!(
        answer_received(rx.recv().ok()),
        Err(CruiseError::Interrupted)
    ));
}

// Runs

fn config(steps: &[&str]) -> WorkflowConfig {
    let mut map = IndexMap::new();
    for name in steps {
        map.insert(
            name.to_string(),
            StepConfig {
                prompt: Some("go".to_string()),
                ..Default::default()
            },
        );
    }
    WorkflowConfig {
        command: vec!["agent".to_string()],
        model: None,
        plan_model: None,
        plan: None,
        env: NameMap::new(),
        groups: NameMap::new(),
        steps: map,
        after_pr: IndexMap::new(),
        pr_language: "English".to_string(),
        llm_api: None,
    }
}

fn go(requested: WorkspaceMode, stage: GuiStage, event: GuiEvent) -> GuiStage {
    match advance_gui_run(requested, stage, event) {
        GuiNext::Go(stage) => stage,
        GuiNext::End(r) => panic!("{r:?}"),
    }
}

fn end(requested: WorkspaceMode, stage: GuiStage, event: GuiEvent) -> Result<SessionPhase, String> {
    match advance_gui_run(requested, stage, event) {
        GuiNext::Go(stage) => panic!("{stage:?}"),
        GuiNext::End(r) => r,
    }
}

#[test]
fn a_session_runs_for_the_front_end() {
    let mode = WorkspaceMode::CurrentBranch;
    let s = make_session(SessionPhase::Planned);
    let stage = GuiStage::Load(s.id.clone());
    let stage = go(mode, stage, GuiEvent::Loaded(Ok(s)));
    let stage = go(mode, stage, GuiEvent::Configured(Ok(config(&["edit"]))));
    let repo = RepoState {
        branch: Some("main".to_string()),
        dirty: false,
    };
    let stage = go(mode, stage, GuiEvent::Inspected(Ok(repo)));
    match &stage {
        GuiStage::SaveStart(u, ws) => {
            assert_eq!(u.session.phase, SessionPhase::Running);
            assert_eq!(u.session.workspace_mode, WorkspaceMode::CurrentBranch);
            assert_eq!(u.session.target_branch.as_deref(), Some("main"));
            assert_eq!(u.start, "edit");
            assert_eq!(ws.path(), "/repo");
        }
        other => panic!("{other:?}"),
    }
    let stage = go(mode, stage, GuiEvent::Saved(Ok(())));
    let result = Ok(ExecutionResult {
        run: 1,
        skipped: 0,
        failed: 0,
    });
    assert_eq!(end_line(&result, false), "✓ completed — run: 1, skipped: 0, failed: 0");
    let stage = go(
        mode,
        stage,
        GuiEvent::Executed {
            result,
            cancelled: false,
        },
    );
    let mut now = make_session(SessionPhase::Running);
    now.awaiting_input = true;
    now.title = Some("now".to_string());
    let stage = go(mode, stage, GuiEvent::Reloaded(Some(now)));
    match &stage {
        GuiStage::SaveEnd(s, event) => {
            assert_eq!(s.title.as_deref(), Some("now"));
            assert!(!s.awaiting_input);
            assert!(matches!(event, WorkflowEvent::WorkflowCompleted { run: 1, .. }));
        }
        other => panic!("{other:?}"),
    }
    let ended = end(mode, stage, GuiEvent::Saved(Ok(())));
    assert_eq!(ended, Ok(SessionPhase::Completed));
    assert!(run_result(ended).is_ok());
}

#[test]
fn test_prepare_run_session_does_not_persist_running_phase_when_workspace_setup_fails() {
    let mode = WorkspaceMode::CurrentBranch;
    let s = make_session(SessionPhase::Planned);
    let stage = go(
        mode,
        GuiStage::Configure(s),
        GuiEvent::Configured(Ok(config(&["edit"]))),
    );
    match &stage {
        GuiStage::Inspect(u) => assert_eq!(u.session.phase, SessionPhase::Planned),
        other => panic!("{other:?}"),
    }
    let repo = RepoState {
        branch: Some("main".to_string()),
        dirty: true,
    };
    let error = end(mode, stage, GuiEvent::Inspected(Ok(repo)))
        .map_or_else(|e| e, |p| panic!("{p:?}"));
    assert!(error.contains("dirty"));
}

#[test]
fn runs_for_the_front_end_fail() {
    let mode = WorkspaceMode::Worktree;
    let failed = |stage, event| {
        end(mode, stage, event).map_or_else(|e| e, |p| panic!("{p:?}"))
    };
    assert_eq!(
        failed(
            GuiStage::Load("7".to_string()),
            GuiEvent::Loaded(Ok(make_session(SessionPhase::Completed)))
        ),
        "Session 7 is in 'Completed' phase and cannot be run"
    );
    assert_eq!(
        failed(
            GuiStage::Configure(make_session(SessionPhase::Planned)),
            GuiEvent::Configured(Ok(config(&[])))
        ),
        "config has no steps"
    );
    let error = CruiseError::StepNotFound("x".to_string());
    assert_eq!(end_line(&Err(CruiseError::Interrupted), false), "⏸ cancelled");
    let stage = go(
        mode,
        GuiStage::Reload(make_session(SessionPhase::Running), Err(error), false),
        GuiEvent::Reloaded(None),
    );
    let ended = end(
        mode,
        stage,
        GuiEvent::Saved(Err(CruiseError::SessionError("full".to_string()))),
    );
    assert_eq!(
        ended,
        Ok(SessionPhase::Failed("step not found: x".to_string()))
    );
    assert_eq!(run_result(ended), Err("step not found: x".to_string()));
    let stage = GuiStage::SaveEnd(
        make_session(SessionPhase::Suspended),
        WorkflowEvent::WorkflowCancelled,
    );
    assert_eq!(
        failed(
            stage,
            GuiEvent::Saved(Err(CruiseError::SessionError("full".to_string())))
        ),
        "session error: full"
    );
}

#[test]
fn a_batch_runs_until_it_is_stopped() {
    let manager = SessionManager::new("/base".to_string(), false);
    let new = |id: &str, phase: SessionPhase| {
        let mut s = make_session(phase);
        s.id = id.to_string();
        s
    };
    let sessions = vec![
        new("1", SessionPhase::Planned),
        new("2", SessionPhase::Completed),
        new("3", SessionPhase::Suspended),
        new("4", SessionPhase::Planned),
    ];
    let (mut batch, event) = Batch::start(&manager, &sessions);
    assert_eq!(event, WorkflowEvent::RunAllStarted { total: 3 });
    let (session, event) = batch.next();
    assert_eq!(
        event,
        WorkflowEvent::RunAllSessionStarted {
            session_id: "1".to_string(),
            input: "task".to_string()
        }
    );
    let session = session.unwrap_or_else(|| panic!("no session"));
    let event = batch.record(session, Err("boom".to_string()));
    assert!(matches!(
        event,
        WorkflowEvent::RunAllSessionFinished { error: Some(e), .. } if e == "boom"
    ));
    let (session, _) = batch.next();
    let session = session.unwrap_or_else(|| panic!("no session"));
    assert_eq!(session.id, "3");
    batch.record(session, Ok(SessionPhase::Suspended));
    let (session, event) = batch.next();
    assert!(session.is_none());
    assert_eq!(event, WorkflowEvent::RunAllCompleted { cancelled: 1 });
}

#[test]
fn plans_are_generated_for_the_front_end() {
    let out = || {
        Ok(PromptResult {
            output: "# Plan".to_string(),
            stderr: String::new(),
        })
    };
    let (plan, event) = after_generation("/p", out(), PlanFile::NotFound);
    let plan = plan.unwrap_or_else(|e| panic!("{e}"));
    assert_eq!((plan.content.as_str(), plan.write), ("# Plan", true));
    assert_eq!(
        event,
        PlanEvent::PlanGenerated {
            content: "# Plan".to_string()
        }
    );
    let (plan, event) = after_generation(
        "/p",
        Err(CruiseError::CommandError("boom".to_string())),
        PlanFile::NotFound,
    );
    assert_eq!(plan.map_or_else(|e| e, |p| p.content), "command error: boom");
    assert_eq!(
        event,
        PlanEvent::PlanFailed {
            error: "command error: boom".to_string()
        }
    );
}
