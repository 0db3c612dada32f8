//! Workflow configurations, their groups and their overview.

use cruise::config::{
    validate_groups, GroupConfig, IfCondition, SkipCondition, StepConfig, StringOrVec,
    WorkflowConfig,
};
use cruise::dry_run::dry_run;
use cruise::error::CruiseError;
use cruise::names::NameMap;
use cruise::span::{plain_text, Tone};
use cruise::workflow::compile;
use indexmap::IndexMap;

fn config(steps: Vec<(&str, StepConfig)>) -> WorkflowConfig {
    let mut map = IndexMap::new();
    for (name, step) in steps {
        map.insert(name.to_string(), step);
    }
    WorkflowConfig {
        command: vec!["agent".to_string(), "-p".to_string()],
        model: None,
        plan_model: None,
        plan: None,
        env: NameMap::new(),
        groups: NameMap::new(),
        steps: map,
        after_pr: IndexMap::new(),
        pr_language: "English".to_string(),
        llm_api: None,
    }
}

fn command(line: &str) -> StepConfig {
    StepConfig {
        command: Some(StringOrVec::Single(line.to_string())),
        ..Default::default()
    }
}

fn prompt(text: &str) -> StepConfig {
    StepConfig {
        prompt: Some(text.to_string()),
        ..Default::default()
    }
}

fn in_group(mut step: StepConfig, group: &str) -> StepConfig {
    step.group = Some(group.to_string());
    step
}

fn review(config: &mut WorkflowConfig) {
    config.groups.insert(
        "review".to_string(),
        GroupConfig {
            if_condition: None,
            max_retries: Some(2),
        },
    );
}

fn message(result: Result<(), CruiseError>) -> String {
    match result {
        Ok(()) => panic!("expected an error"),
        Err(e) => e.message(),
    }
}

#[test]
fn test_validate_groups_ok() {
    let mut config = config(vec![
        ("build", command("cargo build")),
        ("simplify", in_group(prompt("/simplify"), "review")),
        ("ai-antipattern", in_group(prompt("/ai-antipattern"), "review")),
    ]);
    review(&mut config);
    assert!(validate_groups(&config).is_ok());
}

#[test]
fn test_validate_groups_undefined_group() {
    let config = config(vec![("step1", in_group(command("echo hi"), "nonexistent"))]);
    let result = validate_groups(&config);
    assert!(result.is_err());
    assert!(message(result).contains("undefined group"));
}

#[test]
fn test_validate_groups_non_consecutive() {
    let mut config = config(vec![
        ("step_a", in_group(command("echo a"), "review")),
        ("step_b", command("echo b")),
        ("step_c", in_group(command("echo c"), "review")),
    ]);
    review(&mut config);
    let result = validate_groups(&config);
    assert!(result.is_err());
    assert!(message(result).contains("not consecutive"));
}

#[test]
fn test_validate_groups_step_has_individual_if() {
    let mut step = in_group(command("echo hi"), "review");
    step.if_condition = Some(IfCondition {
        file_changed: Some("step1".to_string()),
        no_file_changes: None,
    });
    let mut config = config(vec![("step1", step)]);
    review(&mut config);
    let result = validate_groups(&config);
    assert!(result.is_err());
    assert!(message(result).contains("individual 'if'"));
}

#[test]
fn groups_are_laid_out() {
    let mut config = config(vec![
        ("build", command("cargo build")),
        ("a", in_group(command("echo a"), "review")),
        ("b", in_group(command("echo b"), "review")),
        ("done", command("echo done")),
    ]);
    review(&mut config);
    config.after_pr.insert("notify".to_string(), command("echo pr"));
    let compiled = compile(config).unwrap_or_else(|e| panic!("{e:?}"));
    let meta = compiled
        .invocations
        .get("review")
        .unwrap_or_else(|| panic!("no group"));
    assert_eq!(meta.first_step, "a");
    assert_eq!(meta.last_step, "b");
    assert_eq!(meta.step_count, 2);
    assert_eq!(meta.max_retries, Some(2));
    assert_eq!(
        compiled.step_to_invocation.get("b"),
        Some(&"review".to_string())
    );
    assert_eq!(compiled.step_to_invocation.get("done"), None);
    let after = compiled.to_after_pr_compiled();
    assert_eq!(after.steps.keys().collect::<Vec<_>>(), vec!["notify"]);
    assert!(after.after_pr.is_empty());
    assert!(after.invocations.is_empty());
}

#[test]
fn a_configuration_with_bad_groups_is_not_compiled() {
    let config = config(vec![("step1", in_group(command("echo hi"), "nonexistent"))]);
    assert!(matches!(
        compile(config),
        Err(CruiseError::InvalidStepConfig(_))
    ));
}

#[test]
fn test_dry_run_prints_steps() {
    let mut implement = command("cargo build");
    implement.if_condition = Some(IfCondition {
        file_changed: Some("plan".to_string()),
        no_file_changes: None,
    });
    let config = config(vec![
        ("plan", prompt("Plan: {input}")),
        ("implement", implement),
    ]);
    assert_eq!(
        plain_text(&dry_run(&config, None)),
        "=== Dry Run: Workflow Flow ===\ncommand: agent -p\n\nsteps:\n  plan [prompt]\n  implement [command] (conditional)\n"
    );
}

#[test]
fn test_dry_run_with_from() {
    let config = config(vec![
        ("step1", command("echo skip")),
        ("step2", command("echo show")),
    ]);
    assert_eq!(
        plain_text(&dry_run(&config, Some("step2"))),
        "=== Dry Run: Workflow Flow ===\ncommand: agent -p\n\nsteps:\n  step2 [command]\n"
    );
    assert_eq!(
        plain_text(&dry_run(&config, Some("step3"))),
        "=== Dry Run: Workflow Flow ===\ncommand: agent -p\n\nsteps:\n"
    );
}

#[test]
fn the_overview_shows_all_that_there_is() {
    let mut first = in_group(command("echo a"), "review");
    first.skip = Some(SkipCondition::Variable("prev.success".to_string()));
    first.next = Some("last".to_string());
    first.env.insert("B".to_string(), "2".to_string());
    first.env.insert("A".to_string(), "1".to_string());
    let mut last = StepConfig::default();
    last.skip = Some(SkipCondition::Static(true));
    let mut config = config(vec![("first", first), ("last", last)]);
    config.model = Some("large".to_string());
    config.env.insert("Z".to_string(), "26".to_string());
    config.groups.insert(
        "review".to_string(),
        GroupConfig {
            if_condition: Some(IfCondition {
                file_changed: Some("first".to_string()),
                no_file_changes: None,
            }),
            max_retries: Some(3),
        },
    );
    let spans = dry_run(&config, None);
    assert_eq!(
        plain_text(&spans),
        "=== Dry Run: Workflow Flow ===\ncommand: agent -p\nmodel: large\nenv:\n  Z=26\n\ngroups:\n  review (max_retries: 3) → retry from: first\n\nsteps:\n  first [command] (group: review) (skip if prev.success) → last\n    env: A=1\n    env: B=2\n  last [unknown] (skip)\n"
    );
    assert!(spans
        .iter()
        .any(|s| s.text == "(group: review)" && s.tone == Tone::Magenta));
}
