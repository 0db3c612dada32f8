//! Planning a session.

use cruise::config::{StepConfig, WorkflowConfig};
use cruise::error::CruiseError;
use cruise::metadata::read_plan_markdown;
use cruise::names::NameMap;
use cruise::plan_cmd::{
    cancelled_notice, created_notice, dry_run_notice, executing_notice, first_plan_request,
    no_input, no_plan_notice, plan_action, plan_menu, plan_request, plan_variables,
    prompt_notice, resolve_input, PlanAction,
};
use cruise::run_cmd::session_run::MenuAnswer;
use cruise::session::{SessionManager, SessionState};
use cruise::span::plain_text;
use cruise::workflow::{compile, CompiledWorkflow};
use indexmap::IndexMap;

#[test]
fn test_resolve_input_from_arg() {
    let result = resolve_input(Some("add feature X".to_string()), None, || {
        panic!("interactive prompt should not run")
    });
    assert_eq!(result.unwrap_or_else(|e| panic!("{e:?}")), "add feature X");
}

#[test]
fn test_resolve_input_from_stdin() {
    let result = resolve_input(None, Some("  add feature from pipe\n".to_string()), || {
        panic!("interactive prompt should not run")
    });
    assert_eq!(
        result.unwrap_or_else(|e| panic!("{e:?}")),
        "add feature from pipe"
    );
}

#[test]
fn test_resolve_input_without_arg_or_stdin_uses_interactive_result() {
    let result = resolve_input(None, None, || Ok("resume in place".to_string()));
    assert_eq!(
        result.unwrap_or_else(|e| panic!("{e:?}")),
        "resume in place"
    );
}

#[test]
fn test_resolve_input_multiline_from_stdin_preserves_internal_newlines() {
    let stdin = "line1\nline2\nline3\n".to_string();
    let result = resolve_input(None, Some(stdin), || {
        panic!("interactive prompt should not run")
    });
    assert_eq!(
        result.unwrap_or_else(|e| panic!("{e:?}")),
        "line1\nline2\nline3"
    );
}

#[test]
fn test_resolve_input_multiline_trims_only_leading_trailing_whitespace() {
    let stdin = "  line1\nline2  \n".to_string();
    let result = resolve_input(None, Some(stdin), || {
        panic!("interactive prompt should not run")
    });
    assert_eq!(result.unwrap_or_else(|e| panic!("{e:?}")), "line1\nline2");
}

#[test]
fn piped_white_space_is_no_input() {
    let result = resolve_input(None, Some(" \n".to_string()), || Err(no_input()));
    match result {
        Err(e) => assert_eq!(
            e.message(),
            "no input provided: stdin is not a terminal and no --input flag was given"
        ),
        Ok(input) => panic!("{input}"),
    }
    assert_eq!(dry_run_notice("  add x \n"), "Would plan: \"add x\"");
}

fn session() -> SessionState {
    SessionState::new(
        "20260321130000".to_string(),
        "/repo".to_string(),
        "cruise.yaml".to_string(),
        "add a feature".to_string(),
    )
}

fn workflow(command: &[&str], plan_model: Option<&str>) -> CompiledWorkflow {
    CompiledWorkflow {
        command: command.iter().map(|s| s.to_string()).collect(),
        model: Some("common".to_string()),
        plan_model: plan_model.map(str::to_string),
        ..compile(no_config()).unwrap_or_else(|e| panic!("{e:?}"))
    }
}

fn no_config() -> WorkflowConfig {
    let mut steps = IndexMap::new();
    steps.insert(
        "one".to_string(),
        StepConfig {
            prompt: Some("go".to_string()),
            ..Default::default()
        },
    );
    WorkflowConfig {
        command: vec!["agent".to_string()],
        model: None,
        plan_model: None,
        plan: None,
        env: NameMap::new(),
        groups: NameMap::new(),
        steps,
        after_pr: IndexMap::new(),
        pr_language: "English".to_string(),
        llm_api: None,
    }
}

#[test]
fn requests_for_plans() {
    let manager = SessionManager::new("/home/user/.cruise".to_string(), false);
    let vars = plan_variables(&manager, &session(), Some("shorter".to_string()));
    let request = first_plan_request(
        &vars,
        &workflow(&["agent", "-p"], Some("large")),
        "Plan {input} in {plan}",
    )
    .unwrap_or_else(|e| panic!("{e:?}"));
    assert_eq!(
        request.prompt,
        "Plan add a feature in /home/user/.cruise/sessions/20260321130000/plan.md"
    );
    assert_eq!(request.command, vec!["agent", "-p"]);
    assert_eq!(request.model_arg.as_deref(), Some("large"));

    let request = plan_request(
        &vars,
        &workflow(&["agent", "--model={model}"], None),
        "{prev.input} please",
    )
    .unwrap_or_else(|e| panic!("{e:?}"));
    assert_eq!(request.prompt, "shorter please");
    assert_eq!(request.command, vec!["agent", "--model=common"]);
    assert_eq!(request.model_arg, None);

    match plan_request(&vars, &workflow(&["agent"], None), "{nope}") {
        Err(CruiseError::UndefinedVariable(name)) => assert_eq!(name, "nope"),
        other => panic!("{other:?}"),
    }
}

#[test]
fn plans_are_approved_or_not() {
    assert_eq!(
        plan_menu(),
        vec!["Approve", "Fix", "Ask", "Execute now"]
    );
    let chosen = |label: &str| {
        plan_action(&Some(MenuAnswer::Chosen(label.to_string())))
            .unwrap_or_else(|e| panic!("{e:?}"))
    };
    assert_eq!(chosen("Approve"), PlanAction::Approve);
    assert_eq!(chosen("Fix"), PlanAction::Fix);
    assert_eq!(chosen("Ask"), PlanAction::Ask);
    assert_eq!(chosen("Execute now"), PlanAction::Execute);
    assert_eq!(chosen("other"), PlanAction::ShowAgain);
    assert_eq!(
        plan_action(&None).unwrap_or_else(|e| panic!("{e:?}")),
        PlanAction::Approve
    );
    assert_eq!(
        plan_action(&Some(MenuAnswer::Cancelled)).unwrap_or_else(|e| panic!("{e:?}")),
        PlanAction::Discard
    );
    match plan_action(&Some(MenuAnswer::Failed("no tty".to_string()))) {
        Err(e) => assert_eq!(e.message(), "selection error: no tty"),
        Ok(a) => panic!("{a:?}"),
    }
    assert_eq!(
        plain_text(&created_notice("20260321130000")),
        "\n[ok] Session 20260321130000 created.\n  Run with: cruise run 20260321130000"
    );
}

#[test]
fn what_is_said_of_plans() {
    assert_eq!(plain_text(&prompt_notice("planning")), "\n> planning");
    assert_eq!(
        plain_text(&no_plan_notice("7")),
        "\n[fail] Generated plan is missing or empty. Session 7 discarded."
    );
    assert_eq!(cancelled_notice("7"), "\nCancelled. Session 7 discarded.");
    assert_eq!(
        plain_text(&executing_notice("7")),
        "\n-> Executing session 7..."
    );
}

#[test]
fn test_read_plan_non_empty_returns_err_when_file_missing() {
    assert!(read_plan_markdown("/p/plan.md", Err("gone".to_string())).is_err());
}

#[test]
fn test_read_plan_non_empty_returns_err_when_file_is_empty() {
    assert!(read_plan_markdown("/p/plan.md", Ok(String::new())).is_err());
}

#[test]
fn test_read_plan_non_empty_returns_err_when_file_is_whitespace_only() {
    assert!(read_plan_markdown("/p/plan.md", Ok("   \n\t\n  ".to_string())).is_err());
}

#[test]
fn test_read_plan_non_empty_returns_content_when_file_has_real_content() {
    let content = "# Implementation Plan\n\nStep 1: do something\n";
    assert_eq!(
        read_plan_markdown("/p/plan.md", Ok(content.to_string()))
            .unwrap_or_else(|e| panic!("{e:?}")),
        content
    );
}
