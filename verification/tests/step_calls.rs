//! Calls of commands and of the model's command.

use cruise::step::command::{calculate_backoff, is_rate_limited};
use cruise::step::prompt::build_command_args;

#[test]
fn test_build_command_args_minimal() {
    let command = vec!["agent".to_string(), "-p".to_string()];
    let args = build_command_args(&command, None);
    assert_eq!(args, vec!["agent", "-p"]);
}

#[test]
fn test_build_command_args_with_model() {
    let command = vec!["agent".to_string(), "-p".to_string()];
    let args = build_command_args(&command, Some("agent-large-4-5"));
    assert_eq!(args, vec!["agent", "-p", "--model", "agent-large-4-5"]);
}

#[test]
fn test_is_rate_limited_rate_limit() {
    assert!(is_rate_limited("Error: rate limit exceeded"));
}

#[test]
fn test_is_rate_limited_429() {
    assert!(is_rate_limited("HTTP 429 Too Many Requests"));
}

#[test]
fn test_is_rate_limited_too_many_requests() {
    assert!(is_rate_limited("too many requests"));
}

#[test]
fn test_is_rate_limited_ratelimit() {
    assert!(is_rate_limited("RateLimit exceeded"));
}

#[test]
fn test_is_not_rate_limited() {
    assert!(!is_rate_limited("Normal error message"));
    assert!(!is_rate_limited(""));
    assert!(!is_rate_limited("compilation error"));
}

#[test]
fn test_calculate_backoff() {
    assert_eq!(calculate_backoff(1), 2);
    assert_eq!(calculate_backoff(2), 4);
    assert_eq!(calculate_backoff(3), 8);
    assert_eq!(calculate_backoff(4), 16);
    assert_eq!(calculate_backoff(5), 32);
    assert_eq!(calculate_backoff(10), 60);
}
