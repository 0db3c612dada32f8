//! Commands with a place for the model, and durations.

use std::time::Duration;

use cruise::duration::format_duration;
use cruise::model::resolve_command_with_model;

#[test]
fn test_resolve_command_with_model_some() {
    let command = vec![
        "agent".to_string(),
        "--model".to_string(),
        "{model}".to_string(),
        "-p".to_string(),
    ];
    let resolved = resolve_command_with_model(&command, Some("sonnet"));
    assert_eq!(resolved, vec!["agent", "--model", "sonnet", "-p"]);
}

#[test]
fn test_resolve_command_with_model_none() {
    let command = vec![
        "agent".to_string(),
        "--model".to_string(),
        "{model}".to_string(),
        "-p".to_string(),
    ];
    let resolved = resolve_command_with_model(&command, None);
    assert_eq!(resolved, vec!["agent", "-p"]);
}

#[test]
fn test_resolve_command_no_placeholder() {
    let command = vec!["agent".to_string(), "-p".to_string()];
    let resolved = resolve_command_with_model(&command, Some("opus"));
    assert_eq!(resolved, vec!["agent", "-p"]);
}

#[test]
fn test_resolve_command_model_equals_form_none() {
    let command = vec![
        "agent".to_string(),
        "--model=agent-large-4-6".to_string(),
        "-p".to_string(),
    ];
    let resolved = resolve_command_with_model(&command, None);
    assert_eq!(resolved, vec!["agent", "-p"]);
}

#[test]
fn test_resolve_command_model_equals_form_some() {
    let command = vec![
        "agent".to_string(),
        "--model={model}".to_string(),
        "-p".to_string(),
    ];
    let resolved = resolve_command_with_model(&command, Some("agent-large-4-6"));
    assert_eq!(resolved, vec!["agent", "--model=agent-large-4-6", "-p"]);
}

/// The text for a duration, whose seconds are a floating-point number.
fn formatted(d: Duration) -> String {
    format_duration(d.as_secs(), &format!("{:.1}", d.as_secs_f64() % 60.0))
}

#[test]
fn test_format_duration_zero() {
    assert_eq!(formatted(Duration::from_secs(0)), "0.0s");
}

#[test]
fn test_format_duration_sub_minute() {
    assert_eq!(formatted(Duration::from_secs(45)), "45.0s");
}

#[test]
fn test_format_duration_exactly_one_minute() {
    assert_eq!(
        formatted(Duration::from_secs(60)),
        "1m 0.0s"
    );
}

#[test]
fn test_format_duration_over_one_minute() {
    assert_eq!(
        formatted(Duration::from_secs(90)),
        "1m 30.0s"
    );
}

#[test]
fn test_format_duration_multiple_minutes() {
    assert_eq!(
        formatted(Duration::from_secs(125)),
        "2m 5.0s"
    );
}

#[test]
fn test_format_duration_fractional_seconds() {
    assert_eq!(
        formatted(Duration::from_millis(5500)),
        "5.5s"
    );
}
