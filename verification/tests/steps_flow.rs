//! Steps from their start to their end.

use cruise::error::CruiseError;
use cruise::multiline_input::InputResult;
use cruise::step::command::{
    calculate_backoff, is_rate_limited, plan_retry, CommandNext, CommandResult, CommandRun,
    CommandStart,
};
use cruise::step::option::{
    after_selection, after_text, empty_menu, option_labels, OptionNext, Selection,
};
use cruise::step::prompt::{
    build_command_args, judge_end, judge_output, next_prompt, prompt_invocation, PromptEnd,
    PromptNext, PromptResult,
};
use cruise::step::{OptionChoice, OptionStep, PromptStep};
use cruise::step_run::{
    context_unreadable, finish_option, option_context_path, resolve_instruction, take_input,
    Instruction,
};
use cruise::variable::VariableStore;

fn failed(stderr: &str) -> CommandResult {
    CommandResult {
        success: false,
        stderr: stderr.to_string(),
    }
}

fn succeeded() -> CommandResult {
    CommandResult {
        success: true,
        stderr: String::new(),
    }
}

#[test]
fn commands_run_in_order() {
    let mut run = CommandRun::start(2, 3);
    assert!(matches!(run.feed(&succeeded()), CommandNext::Run));
    assert_eq!(run.index, 1);
    assert!(matches!(run.feed(&succeeded()), CommandNext::Done));
    assert_eq!(run.index, 2);
}

#[test]
fn a_failed_command_ends_the_list() {
    let mut run = CommandRun::start(2, 3);
    assert!(matches!(run.feed(&failed("boom")), CommandNext::Done));
    assert_eq!(run.index, 0);
}

#[test]
fn rate_limits_are_waited_for() {
    let mut run = CommandRun::start(1, 2);
    match run.feed(&failed("HTTP 429")) {
        CommandNext::RetryAfter(retry) => {
            assert_eq!((retry.attempts, retry.delay_secs), (1, 2));
            assert_eq!(
                retry.notice,
                "Rate limit detected. Retrying in 2.0s... (1/2)"
            );
        }
        other => panic!("{other:?}"),
    }
    match run.feed(&failed("Too Many Requests")) {
        CommandNext::RetryAfter(retry) => assert_eq!((retry.attempts, retry.delay_secs), (2, 4)),
        other => panic!("{other:?}"),
    }
    assert!(matches!(run.feed(&failed("RATE LIMIT")), CommandNext::Done));
    assert!(plan_retry(true, 0, 0).is_none());
    assert!(plan_retry(false, 0, 5).is_none());
}

#[test]
fn waiting_grows_to_a_minute() {
    let waits: Vec<u64> = (0..9).map(calculate_backoff).collect();
    assert_eq!(waits, vec![2, 2, 4, 8, 16, 32, 60, 60, 60]);
    assert_eq!(calculate_backoff(usize::MAX), 60);
    assert!(is_rate_limited("RateLimit exceeded"));
    assert!(!is_rate_limited("rate of limits"));
}

#[test]
fn a_command_is_called_with_its_model() {
    let command = vec!["agent".to_string(), "-p".to_string()];
    assert_eq!(
        build_command_args(&command, Some("large")),
        vec!["agent", "-p", "--model", "large"]
    );
    let call = prompt_invocation(&command, Some("large")).unwrap_or_else(|e| panic!("{e:?}"));
    assert_eq!(call.program, "agent");
    assert_eq!(call.args, vec!["-p", "--model", "large"]);
}

#[test]
fn test_run_prompt_empty_command() {
    match prompt_invocation(&vec![], None) {
        Err(e) => assert_eq!(e.message(), "invalid step config: command list is empty"),
        Ok(c) => panic!("{c:?}"),
    }
}

#[test]
fn the_end_of_a_process_is_judged() {
    let out = judge_output(true, Some(0), b"o\xffut", b"note").unwrap_or_else(|e| panic!("{e:?}"));
    assert_eq!(out.output, "o\u{fffd}ut");
    assert_eq!(out.stderr, "note");
    for (success, code, stderr, message) in [
        (false, Some(1), "", "command failed (exit code: Some(1))"),
        (false, Some(-9), "", "command failed (exit code: Some(-9))"),
        (false, None, "", "command failed (exit code: None)"),
        (false, Some(1), "boom", "boom"),
        (true, Some(0), "Rate Limit hit", "Rate Limit hit"),
    ] {
        match judge_output(success, code, b"", stderr.as_bytes()) {
            Err(CruiseError::CommandError(m)) => assert_eq!(m, message),
            other => panic!("{other:?}"),
        }
    }
}

#[test]
fn a_cancelled_prompt_is_not_sent_again() {
    let out = judge_end(PromptEnd::Exited {
        success: true,
        code: Some(0),
        stdout: b"answer".to_vec(),
        stderr: Vec::new(),
    });
    assert_eq!(out.unwrap_or_else(|e| panic!("{e:?}")).output, "answer");
    let out = judge_end(PromptEnd::Exited {
        success: false,
        code: Some(2),
        stdout: Vec::new(),
        stderr: b"boom".to_vec(),
    });
    assert!(matches!(out, Err(CruiseError::CommandError(m)) if m == "boom"));
    let out = judge_end(PromptEnd::Cancelled);
    assert!(matches!(out, Err(CruiseError::Interrupted)));
    assert!(matches!(
        next_prompt(Err(CruiseError::Interrupted), 0, 5),
        PromptNext::Fail(CruiseError::Interrupted)
    ));
}

#[test]
fn test_run_commands_empty() {
    match CommandRun::begin(0, 3) {
        CommandStart::Nothing(result) => assert!(result.success && result.stderr.is_empty()),
        CommandStart::Run(run) => panic!("{run:?}"),
    }
    match CommandRun::begin(2, 3) {
        CommandStart::Run(run) => assert_eq!((run.index, run.total, run.max_retries), (0, 2, 3)),
        CommandStart::Nothing(result) => panic!("{result:?}"),
    }
}

#[test]
fn a_prompt_is_sent_again_after_a_rate_limit() {
    let limited = || Err(CruiseError::CommandError("429".to_string()));
    match next_prompt(limited(), 1, 2) {
        PromptNext::RetryAfter(retry) => assert_eq!((retry.attempts, retry.delay_secs), (2, 4)),
        other => panic!("{other:?}"),
    }
    assert!(matches!(next_prompt(limited(), 2, 2), PromptNext::Fail(_)));
    let broken = Err(CruiseError::CommandError("boom".to_string()));
    assert!(matches!(next_prompt(broken, 0, 2), PromptNext::Fail(_)));
    let fine = Ok(PromptResult {
        output: "429".to_string(),
        stderr: String::new(),
    });
    assert!(matches!(next_prompt(fine, 0, 2), PromptNext::Finish(r) if r.output == "429"));
}

fn choices() -> Vec<OptionChoice> {
    vec![
        OptionChoice::Selector {
            label: "Yes".to_string(),
            next: Some("go".to_string()),
        },
        OptionChoice::TextInput {
            label: "Other".to_string(),
            next: None,
        },
        OptionChoice::Selector {
            label: "Yes".to_string(),
            next: None,
        },
    ]
}

#[test]
fn a_label_selects_its_choice() {
    assert_eq!(option_labels(&choices()), vec!["Yes", "Other", "Yes"]);
    let select = |label: &str| after_selection(&choices(), Selection::Label(label.to_string()));
    match select("Yes") {
        Ok(OptionNext::Done(r)) => {
            assert_eq!(r.next_step.as_deref(), Some("go"));
            assert_eq!(r.text_input, None);
        }
        other => panic!("{other:?}"),
    }
    match select("Other") {
        Ok(OptionNext::AskText { label, next }) => {
            assert_eq!(label, "Other");
            let r = after_text(next, InputResult::Submitted("text".to_string()))
                .unwrap_or_else(|e| panic!("{e:?}"));
            assert_eq!(r.text_input.as_deref(), Some("text"));
            assert_eq!(r.next_step, None);
        }
        other => panic!("{other:?}"),
    }
    match select("No") {
        Err(e) => assert_eq!(e.message(), "selected item not found"),
        Ok(n) => panic!("{n:?}"),
    }
}

#[test]
fn a_menu_may_be_left() {
    assert!(matches!(
        after_selection(&choices(), Selection::Cancelled),
        Err(CruiseError::StepPaused)
    ));
    match after_selection(&choices(), Selection::Failed("no tty".to_string())) {
        Err(e) => assert_eq!(e.message(), "selection error: no tty"),
        Ok(n) => panic!("{n:?}"),
    }
    assert!(matches!(
        after_text(None, InputResult::Cancelled),
        Err(CruiseError::StepPaused)
    ));
    assert!(empty_menu(&choices()).is_none());
    assert!(empty_menu(&vec![]).is_some());
}

fn prompt_step(instruction: Option<&str>) -> PromptStep {
    PromptStep {
        model: None,
        prompt: "go".to_string(),
        instruction: instruction.map(str::to_string),
    }
}

#[test]
fn an_instruction_asks_for_the_missing_input() {
    let mut vars = VariableStore::new(String::new());
    vars.set_named_value("who", "you".to_string());
    let step = prompt_step(Some("What do {who} want?"));
    match resolve_instruction(&vars, &step) {
        Ok(Instruction::Ask(text)) => assert_eq!(text, "  What do you want?"),
        other => panic!("{other:?}"),
    }
    assert!(matches!(
        take_input(&mut vars, InputResult::Cancelled),
        Err(CruiseError::StepPaused)
    ));
    assert!(take_input(&mut vars, InputResult::Submitted("tea".to_string())).is_ok());
    assert_eq!(
        vars.resolve("{input}").unwrap_or_else(|e| panic!("{e:?}")),
        "tea"
    );
    match resolve_instruction(&vars, &step) {
        Ok(Instruction::Show(text)) => assert_eq!(text, "What do you want?"),
        other => panic!("{other:?}"),
    }
    assert!(matches!(
        resolve_instruction(&vars, &prompt_step(None)),
        Ok(Instruction::Nothing)
    ));
    assert!(matches!(
        resolve_instruction(&vars, &prompt_step(Some("{nope}"))),
        Err(CruiseError::UndefinedVariable(_))
    ));
}

#[test]
fn an_option_step_shows_a_file() {
    let mut vars = VariableStore::new("in".to_string());
    vars.set_named_file("plan", "/p/plan.md".to_string());
    let step = OptionStep {
        choices: choices(),
        plan: Some("{plan}".to_string()),
    };
    assert_eq!(
        option_context_path(&vars, &step).unwrap_or_else(|e| panic!("{e:?}")),
        Some("/p/plan.md".to_string())
    );
    assert_eq!(
        context_unreadable("/p", "gone").message(),
        "failed to read plan file /p: gone"
    );
    vars.set_prev_output(Some("old".to_string()));
    let next = finish_option(
        &mut vars,
        cruise::step::option::OptionResult {
            next_step: Some("go".to_string()),
            text_input: Some("typed".to_string()),
        },
    );
    assert_eq!(next.as_deref(), Some("go"));
    assert_eq!(
        vars.resolve("{prev.input}")
            .unwrap_or_else(|e| panic!("{e:?}")),
        "typed"
    );
    assert!(vars.resolve("{prev.output}").is_err());
}
