//! Conditions of steps.

use cruise::condition::{evaluate_if_condition, evaluate_skip, should_skip};
use cruise::config::{IfCondition, SkipCondition};
use cruise::error::CruiseError;
use cruise::file_tracker::{FileTracker, Snapshot};
use cruise::variable::VariableStore;

#[test]
fn test_should_skip_none() {
    assert!(!should_skip(None));
}

#[test]
fn test_should_skip_false() {
    assert!(!should_skip(Some(false)));
}

#[test]
fn test_should_skip_true() {
    assert!(should_skip(Some(true)));
}

#[test]
fn test_if_condition_no_file_changed() {
    let tracker = FileTracker::new();
    let condition = IfCondition {
        file_changed: None,
        no_file_changes: None,
    };
    assert!(evaluate_if_condition(&condition, &tracker, &Snapshot::new()));
}

#[test]
fn conditions_on_files() {
    let mut tracker = FileTracker::new();
    let condition = IfCondition {
        file_changed: Some("build".to_string()),
        no_file_changes: None,
    };
    let mut now = Snapshot::new();
    now.add("a.txt".to_string(), b"one");
    assert!(!evaluate_if_condition(&condition, &tracker, &now));
    tracker.take_snapshot("build", now.copy());
    assert!(!evaluate_if_condition(&condition, &tracker, &now));
    now.add("a.txt".to_string(), b"two");
    assert!(evaluate_if_condition(&condition, &tracker, &now));
}

#[test]
fn steps_are_skipped_by_variables() {
    let mut vars = VariableStore::new("in".to_string());
    let by = |name: &str| Some(SkipCondition::Variable(name.to_string()));
    vars.set_named_value("done", "true".to_string());
    vars.set_named_value("open", "True".to_string());
    let skips = |c: Option<SkipCondition>| {
        evaluate_skip(&c, &vars).unwrap_or_else(|e| panic!("{e:?}"))
    };
    assert!(skips(by("done")));
    assert!(!skips(by("open")));
    assert!(!skips(by("input")));
    assert!(!skips(None));
    assert!(skips(Some(SkipCondition::Static(true))));
    assert!(!skips(Some(SkipCondition::Static(false))));
    match evaluate_skip(&by("nope"), &vars) {
        Err(CruiseError::UndefinedVariable(name)) => assert_eq!(name, "nope"),
        other => panic!("{other:?}"),
    }
}
