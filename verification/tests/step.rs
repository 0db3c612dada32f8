//! Steps and their kinds.

use cruise::config::{IfCondition, OptionItem, StepConfig, StringOrVec};
use cruise::error::CruiseError;
use cruise::step::option::OptionResult;
use cruise::step::{OptionChoice, StepKind};

fn make_prompt_step() -> StepConfig {
    StepConfig {
        model: Some("agent-large-4-5".to_string()),
        prompt: Some("Hello {input}".to_string()),
        instruction: Some("Be helpful".to_string()),
        ..Default::default()
    }
}

fn make_command_step() -> StepConfig {
    StepConfig {
        command: Some(StringOrVec::Single("cargo test".to_string())),
        ..Default::default()
    }
}

fn make_option_step() -> StepConfig {
    StepConfig {
        option: Some(vec![
            OptionItem {
                selector: Some("Continue".to_string()),
                text_input: None,
                next: Some("next_step".to_string()),
            },
            OptionItem {
                selector: Some("Cancel".to_string()),
                text_input: None,
                next: None,
            },
        ]),
        ..Default::default()
    }
}

#[test]
fn test_prompt_step_conversion() {
    let config = make_prompt_step();
    let kind = StepKind::try_from(config).unwrap_or_else(|e| panic!("{e:?}"));
    match kind {
        StepKind::Prompt(step) => {
            assert_eq!(step.prompt, "Hello {input}");
            assert_eq!(step.model, Some("agent-large-4-5".to_string()));
            assert_eq!(step.instruction, Some("Be helpful".to_string()));
        }
        _ => panic!("Expected Prompt step"),
    }
}

#[test]
fn test_command_step_conversion_single() {
    let config = make_command_step();
    let kind = StepKind::try_from(config).unwrap_or_else(|e| panic!("{e:?}"));
    match kind {
        StepKind::Command(step) => {
            assert_eq!(step.command, vec!["cargo test"]);
        }
        _ => panic!("Expected Command step"),
    }
}

#[test]
fn test_command_step_conversion_multiple() {
    let config = StepConfig {
        command: Some(StringOrVec::Multiple(vec![
            "cargo fmt".to_string(),
            "cargo test".to_string(),
        ])),
        ..Default::default()
    };
    let kind = StepKind::try_from(config).unwrap_or_else(|e| panic!("{e:?}"));
    match kind {
        StepKind::Command(step) => {
            assert_eq!(step.command, vec!["cargo fmt", "cargo test"]);
        }
        _ => panic!("Expected Command step"),
    }
}

#[test]
fn test_option_step_conversion() {
    let config = make_option_step();
    let kind = StepKind::try_from(config).unwrap_or_else(|e| panic!("{e:?}"));
    match kind {
        StepKind::Option(step) => {
            assert_eq!(step.choices.len(), 2);
            match &step.choices[0] {
                OptionChoice::Selector { label, next } => {
                    assert_eq!(label, "Continue");
                    assert_eq!(next, &Some("next_step".to_string()));
                }
                OptionChoice::TextInput { .. } => panic!("Expected Selector"),
            }
            match &step.choices[1] {
                OptionChoice::Selector { next, .. } => {
                    assert_eq!(next, &None);
                }
                OptionChoice::TextInput { .. } => panic!("Expected Selector"),
            }
        }
        StepKind::Prompt(_) | StepKind::Command(_) => panic!("Expected Option step"),
    }
}

#[test]
fn test_text_input_choice_conversion() {
    let config = StepConfig {
        option: Some(vec![OptionItem {
            selector: None,
            text_input: Some("Enter text".to_string()),
            next: Some("next".to_string()),
        }]),
        ..Default::default()
    };
    let kind = StepKind::try_from(config).unwrap_or_else(|e| panic!("{e:?}"));
    match kind {
        StepKind::Option(step) => {
            assert_eq!(step.choices.len(), 1);
            match &step.choices[0] {
                OptionChoice::TextInput { label, next } => {
                    assert_eq!(label, "Enter text");
                    assert_eq!(next, &Some("next".to_string()));
                }
                OptionChoice::Selector { .. } => panic!("Expected TextInput choice"),
            }
        }
        StepKind::Prompt(_) | StepKind::Command(_) => panic!("Expected Option step"),
    }
}

#[test]
fn test_option_item_both_fields_error() {
    let config = StepConfig {
        option: Some(vec![OptionItem {
            selector: Some("Pick".to_string()),
            text_input: Some("Enter".to_string()),
            next: None,
        }]),
        ..Default::default()
    };
    let err = StepKind::try_from(config)
        .map_or_else(|e| e, |v| panic!("expected Err, got Ok({v:?})"));
    assert!(matches!(err, CruiseError::InvalidStepConfig(_)));
}

#[test]
fn test_command_step_empty_list_error() {
    let config = StepConfig {
        command: Some(StringOrVec::Multiple(vec![])),
        ..Default::default()
    };
    let err = StepKind::try_from(config)
        .map_or_else(|e| e, |v| panic!("expected Err, got Ok({v:?})"));
    assert!(matches!(err, CruiseError::InvalidStepConfig(_)));
}

#[test]
fn test_invalid_option_item() {
    let config = StepConfig {
        option: Some(vec![OptionItem {
            selector: None,
            text_input: None,
            next: None,
        }]),
        ..Default::default()
    };
    let err = StepKind::try_from(config)
        .map_or_else(|e| e, |v| panic!("expected Err, got Ok({v:?})"));
    assert!(matches!(err, CruiseError::InvalidStepConfig(_)));
}

#[test]
fn test_invalid_step_conversion() {
    let config = StepConfig::default();
    let err = StepKind::try_from(config)
        .map_or_else(|e| e, |v| panic!("expected Err, got Ok({v:?})"));
    assert!(matches!(err, CruiseError::InvalidStepConfig(_)));
}

#[test]
fn test_prompt_takes_priority_over_command() {
    let config = StepConfig {
        prompt: Some("Hello".to_string()),
        command: Some(StringOrVec::Single("cargo test".to_string())),
        ..Default::default()
    };
    let kind = StepKind::try_from(config).unwrap_or_else(|e| panic!("{e:?}"));
    assert!(matches!(kind, StepKind::Prompt(_)));
}

#[test]
fn test_step_with_if_condition() {
    let config = StepConfig {
        command: Some(StringOrVec::Single("git commit".to_string())),
        if_condition: Some(IfCondition {
            file_changed: Some("implement".to_string()),
            no_file_changes: None,
        }),
        ..Default::default()
    };
    let kind = StepKind::try_from(config).unwrap_or_else(|e| panic!("{e:?}"));
    assert!(matches!(kind, StepKind::Command(_)));
}

#[test]
fn test_option_choice_selector() {
    let choice = OptionChoice::Selector {
        label: "Option A".to_string(),
        next: Some("step_a".to_string()),
    };
    match choice {
        OptionChoice::Selector { label, next } => {
            assert_eq!(label, "Option A");
            assert_eq!(next, Some("step_a".to_string()));
        }
        OptionChoice::TextInput { .. } => panic!("Expected Selector"),
    }
}

#[test]
fn test_option_choice_text_input() {
    let choice = OptionChoice::TextInput {
        label: "Enter text".to_string(),
        next: Some("next_step".to_string()),
    };
    match choice {
        OptionChoice::TextInput { label, next } => {
            assert_eq!(label, "Enter text");
            assert_eq!(next, Some("next_step".to_string()));
        }
        OptionChoice::Selector { .. } => panic!("Expected TextInput"),
    }
}

#[test]
fn test_option_result_with_next() {
    let result = OptionResult {
        next_step: Some("implement".to_string()),
        text_input: None,
    };
    assert_eq!(result.next_step, Some("implement".to_string()));
    assert!(result.text_input.is_none());
}

#[test]
fn test_option_result_with_text_input() {
    let result = OptionResult {
        next_step: Some("planning".to_string()),
        text_input: Some("user input".to_string()),
    };
    assert_eq!(result.text_input, Some("user input".to_string()));
}

#[test]
fn test_option_result_no_fields() {
    let result = OptionResult {
        next_step: None,
        text_input: None,
    };
    assert!(result.next_step.is_none());
}
