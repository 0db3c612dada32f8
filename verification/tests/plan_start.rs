//! Plans, from the configuration to the first answer.

use cruise::config::{StepConfig, WorkflowConfig};
use cruise::error::CruiseError;
use cruise::names::NameMap;
use cruise::plan_start::{
    advance_making, advance_outline, first_make_stage, MakeEvent, MakeNext, MakeStage, MakeStep,
    Outline, OutlineEvent, OutlineNext, OutlineStage,
};
use cruise::resolver::ConfigSource;
use cruise::session::{SessionManager, SessionPhase};
use cruise::span::{plain_text, Tone};
use cruise::step::prompt::PromptResult;
use indexmap::IndexMap;

fn config(group: Option<&str>) -> WorkflowConfig {
    let mut steps = IndexMap::new();
    steps.insert(
        "one".to_string(),
        StepConfig {
            prompt: Some("go".to_string()),
            group: group.map(str::to_string),
            ..Default::default()
        },
    );
    WorkflowConfig {
        command: vec!["agent".to_string()],
        model: Some("large".to_string()),
        plan_model: Some("planner".to_string()),
        plan: None,
        env: NameMap::new(),
        groups: NameMap::new(),
        steps,
        after_pr: IndexMap::new(),
        pr_language: "English".to_string(),
        llm_api: None,
    }
}

fn outline(source: ConfigSource) -> Outline {
    let stage = OutlineStage::Resolve;
    let found = OutlineEvent::Resolved(Ok(("yaml".to_string(), source)));
    let step = advance_outline(false, stage, found);
    let said = step.said.unwrap_or_else(|| panic!("nothing said"));
    assert!(plain_text(&said).starts_with("config: "));
    assert_eq!(said[0].tone, Tone::Dim);
    let OutlineNext::Go(stage) = step.next else {
        panic!("{:?}", step.next);
    };
    let step = advance_outline(false, stage, OutlineEvent::Entered(Ok(" add x \n".to_string())));
    assert!(step.said.is_none());
    let OutlineNext::Go(stage) = step.next else {
        panic!("{:?}", step.next);
    };
    match advance_outline(false, stage, OutlineEvent::Parsed(Ok(config(None)))).next {
        OutlineNext::Make(outline) => outline,
        other => panic!("{other:?}"),
    }
}

fn manager() -> SessionManager {
    SessionManager::new("/base".to_string(), false)
}

fn make(template: &str, stage: MakeStage, event: MakeEvent) -> MakeStep {
    advance_making(&manager(), template, stage, event)
}

#[test]
fn a_dry_run_stops_at_the_input() {
    let stage = OutlineStage::ReadInput("yaml".to_string(), ConfigSource::Builtin);
    let step = advance_outline(true, stage, OutlineEvent::Entered(Ok("  add x \n".to_string())));
    assert_eq!(
        step.said.as_ref().map(plain_text).as_deref(),
        Some("Would plan: \"add x\"")
    );
    assert!(matches!(step.next, OutlineNext::End(Ok(()))));
}

#[test]
fn what_cannot_be_planned_is_an_error() {
    let fault = || CruiseError::ConfigNotFound("x".to_string());
    for (stage, event) in [
        (OutlineStage::Resolve, OutlineEvent::Resolved(Err(fault()))),
        (
            OutlineStage::ReadInput(String::new(), ConfigSource::Builtin),
            OutlineEvent::Entered(Err(fault())),
        ),
        (
            OutlineStage::Parse(String::new(), ConfigSource::Builtin, String::new()),
            OutlineEvent::Parsed(Err(fault())),
        ),
    ] {
        let step = advance_outline(false, stage, event);
        assert!(step.said.is_none());
        assert!(matches!(
            step.next,
            OutlineNext::End(Err(CruiseError::ConfigNotFound(_)))
        ));
    }
    let stage = OutlineStage::Parse(String::new(), ConfigSource::Builtin, String::new());
    let step = advance_outline(false, stage, OutlineEvent::Parsed(Ok(config(Some("missing")))));
    assert!(matches!(
        step.next,
        OutlineNext::End(Err(CruiseError::InvalidStepConfig(_)))
    ));
    // What is not awaited changes nothing.
    let step = advance_outline(false, OutlineStage::Resolve, OutlineEvent::Entered(Err(fault())));
    assert!(matches!(step.next, OutlineNext::Go(OutlineStage::Resolve)));
}

#[test]
fn a_configuration_without_a_file_is_kept_beside_the_session() {
    let mut in_use = vec!["20260321130000".to_string()];
    let builtin = outline(ConfigSource::Builtin);
    let stage = first_make_stage(builtin, "/repo".to_string(), &mut in_use);
    match &stage {
        MakeStage::Create(making) => {
            assert_eq!(making.session.input, "add x");
            assert_eq!(making.session.base_dir, "/repo");
            assert_eq!(making.session.phase, SessionPhase::AwaitingApproval);
            assert_ne!(making.session.id, "20260321130000");
            assert_eq!(in_use, vec!["20260321130000", making.session.id.as_str()]);
        }
        other => panic!("{other:?}"),
    }
    let step = make("Plan {input}", stage, MakeEvent::Created(Ok(())));
    let MakeNext::Go(stage) = step.next else {
        panic!("{:?}", step.next);
    };
    assert!(matches!(&stage, MakeStage::WriteConfig(making) if making.yaml == "yaml"));
    let step = make("Plan {input}", stage, MakeEvent::Written(Ok(())));
    assert_eq!(
        step.said.as_ref().map(plain_text).as_deref(),
        Some("\n> [plan] creating plan...")
    );
    let MakeNext::Go(stage) = step.next else {
        panic!("{:?}", step.next);
    };
    match &stage {
        MakeStage::Generate(_, _, request) => {
            assert_eq!(request.prompt, "Plan add x");
            assert_eq!(request.command, vec!["agent"]);
            assert_eq!(request.model_arg.as_deref(), Some("planner"));
        }
        other => panic!("{other:?}"),
    }
    let answer = PromptResult {
        output: "done".to_string(),
        stderr: String::new(),
    };
    match make("", stage, MakeEvent::Prompted(Ok(answer))).next {
        MakeNext::Talk(making, _) => {
            assert_eq!(making.session.phase, SessionPhase::AwaitingApproval)
        }
        other => panic!("{other:?}"),
    }
}

#[test]
fn a_configuration_in_a_file_is_named_by_the_session() {
    let source = || ConfigSource::Local("/repo/cruise.yaml".to_string());
    let first = || first_make_stage(outline(source()), "/repo".to_string(), &mut vec![]);
    let step = make("Read {plan}", first(), MakeEvent::Created(Ok(())));
    match step.next {
        MakeNext::Go(MakeStage::Generate(making, _, request)) => {
            assert_eq!(
                making.session.config_path.as_deref(),
                Some("/repo/cruise.yaml")
            );
            assert_eq!(
                request.prompt,
                format!("Read /base/sessions/{}/plan.md", making.session.id)
            );
        }
        other => panic!("{other:?}"),
    }
    let step = make("{nobody}", first(), MakeEvent::Created(Ok(())));
    assert!(step.said.is_none());
    assert!(matches!(
        step.next,
        MakeNext::Fail(CruiseError::UndefinedVariable(name)) if name == "nobody"
    ));
    let full = Err(CruiseError::IoError("full".to_string()));
    let step = make("Plan", first(), MakeEvent::Created(full));
    assert!(matches!(step.next, MakeNext::Fail(CruiseError::IoError(_))));
}
