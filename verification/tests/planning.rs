//! The plans that the graphical front end asks for.

use cruise::config::WorkflowConfig;
use cruise::error::CruiseError;
use cruise::gui::commands::{note_answer, note_event, session_plan};
use cruise::gui::events::{PlanEvent, WorkflowEvent};
use cruise::gui::planning::{
    advance_create, advance_fix, planning_call, CreateEvent, CreateNext, CreateOrder, CreateStage,
    CreateStep, Draft, FixEvent, FixNext, FixOrder, FixStage, FixStep,
};
use cruise::metadata::PlanFile;
use cruise::names::NameMap;
use cruise::resolver::ConfigSource;
use cruise::session::{SessionManager, SessionPhase, SessionState};
use cruise::step::prompt::PromptResult;
use cruise::step_run::PromptRequest;
use cruise::variable::VariableStore;
use indexmap::IndexMap;

fn manager() -> SessionManager {
    SessionManager::new("/home/.cruise".to_string(), false)
}

fn config() -> WorkflowConfig {
    WorkflowConfig {
        command: vec!["agent".to_string(), "-p".to_string()],
        model: Some("small".to_string()),
        plan_model: Some("large".to_string()),
        plan: None,
        env: NameMap::new(),
        groups: NameMap::new(),
        steps: IndexMap::new(),
        after_pr: IndexMap::new(),
        pr_language: "English".to_string(),
        llm_api: None,
    }
}

fn order(template: &str) -> CreateOrder {
    CreateOrder {
        input: "  add a button\n".to_string(),
        base_dir: "/repo".to_string(),
        template: template.to_string(),
        in_use: vec!["20260321130000".to_string()],
    }
}

fn create(template: &str, stage: CreateStage, event: CreateEvent) -> CreateStep {
    advance_create(&manager(), &order(template), stage, event)
}

fn output(stdout: &str, stderr: &str) -> PromptResult {
    PromptResult {
        output: stdout.to_string(),
        stderr: stderr.to_string(),
    }
}

fn drafted(source: ConfigSource) -> Draft {
    let step = create(
        "{input}",
        CreateStage::Parse("yaml".to_string(), source),
        CreateEvent::Parsed(Ok(config())),
    );
    assert_eq!(step.sent, None);
    match step.next {
        CreateNext::Go(CreateStage::Create(draft)) => draft,
        other => panic!("unexpected: {other:?}"),
    }
}

fn asked(step: CreateStep) -> (SessionState, PromptRequest) {
    assert_eq!(step.sent, Some(PlanEvent::PlanGenerating));
    match step.next {
        CreateNext::Go(CreateStage::Generate(session, request)) => (session, request),
        other => panic!("unexpected: {other:?}"),
    }
}

fn deleted(step: CreateStep) -> String {
    assert_eq!(step.sent, None);
    match step.next {
        CreateNext::Go(CreateStage::Delete(session, text)) => {
            let step = create(
                "",
                CreateStage::Delete(session, text.clone()),
                CreateEvent::Deleted,
            );
            assert_eq!(
                step.sent,
                Some(PlanEvent::PlanFailed {
                    error: text.clone()
                })
            );
            match step.next {
                CreateNext::End(Err(m)) => assert_eq!(m, text),
                other => panic!("unexpected: {other:?}"),
            }
            text
        }
        other => panic!("unexpected: {other:?}"),
    }
}

fn given_up(step: CreateStep) -> String {
    assert_eq!(step.sent, None);
    match step.next {
        CreateNext::End(Err(text)) => text,
        other => panic!("unexpected: {other:?}"),
    }
}

#[test]
fn a_new_session_waits_for_its_plan() {
    let draft = drafted(ConfigSource::Local("/repo/cruise.yaml".to_string()));
    assert_eq!(draft.session.input, "add a button");
    assert_eq!(draft.session.base_dir, "/repo");
    assert_eq!(draft.session.config_source, "config: /repo/cruise.yaml");
    assert_eq!(
        draft.session.config_path.as_deref(),
        Some("/repo/cruise.yaml")
    );
    assert_eq!(draft.session.phase, SessionPhase::AwaitingApproval);
    assert_eq!(draft.session.id.len(), 14);

    let id = draft.session.id.clone();
    let (session, request) = asked(create(
        "Plan {input} in {plan}",
        CreateStage::Create(draft),
        CreateEvent::Created(Ok(())),
    ));
    assert_eq!(
        request.prompt,
        format!("Plan add a button in /home/.cruise/sessions/{id}/plan.md")
    );
    assert_eq!(request.command, vec!["agent", "-p"]);
    assert_eq!(request.model_arg.as_deref(), Some("large"));

    let step = create(
        "",
        CreateStage::Generate(session.copy(), request),
        CreateEvent::Prompted(Ok(output("# Plan", ""))),
    );
    let CreateNext::Go(CreateStage::ReadPlan(session, out)) = step.next else {
        panic!("the plan is not read")
    };
    let step = create(
        "",
        CreateStage::ReadPlan(session.copy(), out),
        CreateEvent::Read(PlanFile::Content("# Written".to_string())),
    );
    assert_eq!(
        step.sent,
        Some(PlanEvent::PlanGenerated {
            content: "# Written".to_string()
        })
    );
    match step.next {
        CreateNext::End(Ok(made)) => assert_eq!(made, id),
        other => panic!("unexpected: {other:?}"),
    }
}

#[test]
fn a_builtin_configuration_is_written_beside_the_session() {
    let draft = drafted(ConfigSource::Builtin);
    assert_eq!(draft.session.config_path, None);
    let step = create("", CreateStage::Create(draft), CreateEvent::Created(Ok(())));
    let CreateNext::Go(CreateStage::WriteConfig(draft)) = step.next else {
        panic!("the configuration is not written")
    };
    assert_eq!(draft.yaml, "yaml");
    let failed = create(
        "",
        CreateStage::WriteConfig(drafted(ConfigSource::Builtin)),
        CreateEvent::Written(Err("disk full".to_string())),
    );
    assert_eq!(
        given_up(failed),
        "failed to write session config: disk full"
    );
    let (_, request) = asked(create(
        "go",
        CreateStage::WriteConfig(draft),
        CreateEvent::Written(Ok(())),
    ));
    assert_eq!(request.prompt, "go");
}

#[test]
fn a_plan_that_was_printed_is_written() {
    let session = drafted(ConfigSource::Builtin).session;
    let step = create(
        "",
        CreateStage::ReadPlan(session.copy(), output("# Printed", "")),
        CreateEvent::Read(PlanFile::NotFound),
    );
    assert_eq!(step.sent, None);
    let CreateNext::Go(CreateStage::WritePlan(session, content)) = step.next else {
        panic!("the plan is not written")
    };
    assert_eq!(content, "# Printed");
    let failed = create(
        "",
        CreateStage::WritePlan(session.copy(), content.clone()),
        CreateEvent::Written(Err("disk full".to_string())),
    );
    assert_eq!(deleted(failed), "failed to write plan: disk full");
    let step = create(
        "",
        CreateStage::WritePlan(session, content),
        CreateEvent::Written(Ok(())),
    );
    assert_eq!(
        step.sent,
        Some(PlanEvent::PlanGenerated {
            content: "# Printed".to_string()
        })
    );
}

#[test]
fn sessions_without_plans_are_deleted() {
    let draft = drafted(ConfigSource::Builtin);
    let step = create(
        "{unknown}",
        CreateStage::WriteConfig(draft),
        CreateEvent::Written(Ok(())),
    );
    assert_eq!(step.sent, Some(PlanEvent::PlanGenerating));
    let text = deleted(CreateStep {
        next: step.next,
        sent: None,
    });
    assert_eq!(text, "undefined variable: {unknown}");

    let session = drafted(ConfigSource::Builtin).session;
    let request = PromptRequest {
        command: vec![],
        model_arg: None,
        prompt: String::new(),
    };
    let step = create(
        "",
        CreateStage::Generate(session.copy(), request),
        CreateEvent::Prompted(Err(CruiseError::CommandError("exit 1".to_string()))),
    );
    assert_eq!(deleted(step), "command error: exit 1");
    let id = session.id.clone();
    let step = create(
        "",
        CreateStage::ReadPlan(session, output(" ", "\n")),
        CreateEvent::Read(PlanFile::Content("  ".to_string())),
    );
    assert_eq!(
        deleted(step),
        format!(
            "plan generation produced no output: /home/.cruise/sessions/{id}/plan.md, stdout, \
             and stderr were all empty"
        )
    );
}

#[test]
fn sessions_are_not_made_without_a_configuration() {
    let step = create(
        "",
        CreateStage::Resolve,
        CreateEvent::Resolved(Err(CruiseError::ConfigNotFound("x.yaml".to_string()))),
    );
    assert_eq!(given_up(step), "config file not found: x.yaml");
    let step = create(
        "",
        CreateStage::Parse(String::new(), ConfigSource::Builtin),
        CreateEvent::Parsed(Err("no steps".to_string())),
    );
    assert_eq!(given_up(step), "config parse error: no steps");
    let step = create(
        "",
        CreateStage::Create(drafted(ConfigSource::Builtin)),
        CreateEvent::Created(Err(CruiseError::IoError("denied".to_string()))),
    );
    assert_eq!(given_up(step), "I/O error: denied");
    // What is not awaited changes nothing.
    let step = create("", CreateStage::Resolve, CreateEvent::Deleted);
    assert!(matches!(step.next, CreateNext::Go(CreateStage::Resolve)));
    let step = create(
        "",
        CreateStage::Resolve,
        CreateEvent::Resolved(Ok(("a".to_string(), ConfigSource::Builtin))),
    );
    assert!(matches!(
        step.next,
        CreateNext::Go(CreateStage::Parse(text, ConfigSource::Builtin)) if text == "a"
    ));
}

fn session() -> SessionState {
    let mut s = SessionState::new(
        "20260321130000".to_string(),
        "/repo".to_string(),
        "cruise.yaml".to_string(),
        "task".to_string(),
    );
    s.phase = SessionPhase::Planned;
    s
}

fn fix(template: &str, stage: FixStage, event: FixEvent) -> FixStep {
    let order = FixOrder {
        session_id: "20260321130000".to_string(),
        feedback: "smaller".to_string(),
        template: template.to_string(),
    };
    advance_fix(&manager(), &order, stage, event)
}

fn reported(step: FixStep) -> String {
    match (step.sent, step.next) {
        (Some(PlanEvent::PlanFailed { error }), FixNext::End(Err(text))) => {
            assert_eq!(error, text);
            text
        }
        other => panic!("unexpected: {other:?}"),
    }
}

#[test]
fn a_plan_is_changed() {
    let step = fix("", FixStage::Load, FixEvent::Loaded(Ok(session())));
    assert_eq!(step.sent, Some(PlanEvent::PlanGenerating));
    let FixNext::Go(FixStage::Configure(loaded)) = step.next else {
        panic!("the configuration is not loaded")
    };
    let step = fix(
        "{input}: {prev.input}",
        FixStage::Configure(loaded),
        FixEvent::Configured(Ok(config())),
    );
    let FixNext::Go(FixStage::Generate(loaded, request)) = step.next else {
        panic!("the plan is not asked for")
    };
    assert_eq!(request.prompt, "task: smaller");
    let step = fix(
        "",
        FixStage::Generate(loaded, request),
        FixEvent::Prompted(Ok(output("", "# From stderr"))),
    );
    let FixNext::Go(FixStage::ReadPlan(loaded, out)) = step.next else {
        panic!("the plan is not read")
    };
    let step = fix(
        "",
        FixStage::ReadPlan(loaded, out),
        FixEvent::Read(PlanFile::NotFound),
    );
    let FixNext::Go(FixStage::WritePlan(loaded, content)) = step.next else {
        panic!("the plan is not written")
    };
    let step = fix(
        "",
        FixStage::WritePlan(loaded, content),
        FixEvent::Written(Ok(())),
    );
    let FixNext::Go(FixStage::Save(saved, content)) = step.next else {
        panic!("the session is not saved")
    };
    let mut expected = session();
    expected.created_at = saved.created_at.clone();
    expected.title = Some("From stderr".to_string());
    assert_eq!(saved, expected);
    let step = fix("", FixStage::Save(saved, content), FixEvent::Saved(Ok(())));
    assert_eq!(
        step.sent,
        Some(PlanEvent::PlanGenerated {
            content: "# From stderr".to_string()
        })
    );
    assert!(matches!(step.next, FixNext::End(Ok(text)) if text == "# From stderr"));
}

#[test]
fn a_plan_that_cannot_be_changed_is_reported() {
    let io = || CruiseError::IoError("denied".to_string());
    for step in [
        fix("", FixStage::Load, FixEvent::Loaded(Err(io()))),
        fix(
            "",
            FixStage::Configure(session()),
            FixEvent::Configured(Err(io())),
        ),
        fix(
            "",
            FixStage::Save(session(), String::new()),
            FixEvent::Saved(Err(io())),
        ),
    ] {
        assert_eq!(step.sent, None);
        assert!(matches!(step.next, FixNext::End(Err(text)) if text == "I/O error: denied"));
    }
    let step = fix(
        "{gone}",
        FixStage::Configure(session()),
        FixEvent::Configured(Ok(config())),
    );
    assert_eq!(reported(step), "undefined variable: {gone}");
    let step = fix(
        "",
        FixStage::ReadPlan(session(), output("x", "")),
        FixEvent::Read(PlanFile::Failed("denied".to_string())),
    );
    assert_eq!(
        reported(step),
        "failed to read plan at /home/.cruise/sessions/20260321130000/plan.md: denied"
    );
    let step = fix(
        "",
        FixStage::WritePlan(session(), "x".to_string()),
        FixEvent::Written(Err("full".to_string())),
    );
    assert_eq!(reported(step), "failed to write plan: full");
}

#[test]
fn the_model_for_plans_is_called() {
    let vars = VariableStore::new("task".to_string());
    let mut config = config();
    config.plan_model = None;
    let request = planning_call(&vars, &config, "{input}").unwrap_or_else(|e| panic!("{e:?}"));
    assert_eq!(request.model_arg.as_deref(), Some("small"));
    config.command = vec!["agent".to_string(), "{model}".to_string()];
    let request = planning_call(&vars, &config, "{input}").unwrap_or_else(|e| panic!("{e:?}"));
    assert_eq!(request.command, vec!["agent", "small"]);
    assert_eq!(request.model_arg, None);
}

#[test]
fn sessions_wait_for_answers() {
    let mut s = session();
    assert!(!note_event(&mut s, &WorkflowEvent::WorkflowCancelled));
    assert!(!s.awaiting_input);
    let required = WorkflowEvent::OptionRequired {
        request_id: s.id.clone(),
        choices: vec![],
        plan: None,
    };
    assert!(note_event(&mut s, &required));
    assert!(s.awaiting_input);
    note_answer(&mut s);
    assert!(!s.awaiting_input);
    assert_eq!(
        session_plan("/p", Err("gone".to_string())),
        Err("failed to read plan /p: gone".to_string())
    );
    assert_eq!(
        session_plan("/p", Ok("# Plan".to_string())),
        Ok("# Plan".to_string())
    );
}
