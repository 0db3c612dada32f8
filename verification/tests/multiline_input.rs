//! Texts that the user types.

use cruise::error::CruiseError;
use cruise::multiline_input::{map_signal, InputResult, Signal};

#[test]
fn test_into_result_submitted_returns_text() {
    let result = InputResult::Submitted("add feature X".to_string()).into_result();
    assert_eq!(result.unwrap_or_else(|e| panic!("{e:?}")), "add feature X");
}

#[test]
fn test_into_result_submitted_multiline_preserved() {
    let multiline = "line1\nline2\nline3".to_string();
    let result = InputResult::Submitted(multiline.clone()).into_result();
    assert_eq!(result.unwrap_or_else(|e| panic!("{e:?}")), multiline);
}

#[test]
fn test_into_result_submitted_empty_string_returns_ok() {
    let result = InputResult::Submitted(String::new()).into_result();
    assert_eq!(result.unwrap_or_else(|e| panic!("{e:?}")), "");
}

#[test]
fn test_into_result_cancelled_returns_step_paused_err() {
    let result = InputResult::Cancelled.into_result();
    assert!(
        matches!(result, Err(CruiseError::StepPaused)),
        "expected Err(StepPaused), got {result:?}"
    );
}

#[test]
fn test_map_signal_success_nonempty_returns_submitted() {
    let sig = Signal::Success("hello world".to_string());
    let result = map_signal(sig);
    assert_eq!(
        result,
        Some(InputResult::Submitted("hello world".to_string()))
    );
}

#[test]
fn test_map_signal_success_multiline_returns_submitted() {
    let sig = Signal::Success("line1\nline2".to_string());
    let result = map_signal(sig);
    assert_eq!(
        result,
        Some(InputResult::Submitted("line1\nline2".to_string()))
    );
}

#[test]
fn test_map_signal_success_empty_returns_none() {
    let sig = Signal::Success(String::new());
    let result = map_signal(sig);
    assert_eq!(result, None);
}

#[test]
fn test_map_signal_success_whitespace_only_returns_none() {
    let sig = Signal::Success("   \t  ".to_string());
    let result = map_signal(sig);
    assert_eq!(result, None);
}

#[test]
fn test_map_signal_success_blank_multiline_returns_none() {
    let sig = Signal::Success("  \n  \n  ".to_string());
    let result = map_signal(sig);
    assert_eq!(result, None);
}

#[test]
fn test_map_signal_ctrl_c_returns_cancelled() {
    let result = map_signal(Signal::CtrlC);
    assert_eq!(result, Some(InputResult::Cancelled));
}

#[test]
fn test_map_signal_ctrl_d_returns_cancelled() {
    let result = map_signal(Signal::CtrlD);
    assert_eq!(result, Some(InputResult::Cancelled));
}
