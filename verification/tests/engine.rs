//! Workflows, run with commands that a small interpreter understands.

use std::collections::BTreeMap;

use cruise::cancellation::CancellationToken;
use cruise::config::{
    GroupConfig, IfCondition, NoFileChanges, OptionItem, SkipCondition, StepConfig, StringOrVec,
    WorkflowConfig,
};
use cruise::engine::{
    announced_step, begin_step, finish_step, get_next_step, needs_scan_after, needs_scan_before,
    take_pre_snapshots, Begin, ExecutionResult, LoopState, StepOutcome, StepReport,
};
use cruise::error::CruiseError;
use cruise::file_tracker::{FileTracker, Snapshot};
use cruise::names::NameMap;
use cruise::option_handler::{FirstChoiceOptionHandler, OptionHandler};
use cruise::span::plain_text;
use cruise::step::command::{CommandNext, CommandResult, CommandRun, CommandStart};
use cruise::step::option::OptionResult;
use cruise::step::prompt::PromptResult;
use cruise::step::{OptionChoice, OptionStep, StepKind};
use cruise::step_run::{
    finish_command, finish_prompt, prompt_request, resolve_commands, run_option_step,
};
use cruise::variable::VariableStore;
use cruise::workflow::{compile, CompiledWorkflow};
use indexmap::IndexMap;

/// The files, and what was run.
#[derive(Default)]
struct World {
    files: BTreeMap<String, String>,
    counter: usize,
    started: Vec<String>,
    /// What was said of steps that were skipped.
    skips: Vec<String>,
    /// The run is cancelled when this step is announced.
    cancel_at: Option<String>,
    /// The run is cancelled before it starts.
    cancelled: bool,
}

impl World {
    fn scan(&self) -> Snapshot {
        let mut now = Snapshot::new();
        for (path, contents) in &self.files {
            now.add(path.clone(), contents.as_bytes());
        }
        now
    }

    fn succeeded(&self) -> CommandResult {
        CommandResult {
            success: true,
            stderr: String::new(),
        }
    }

    /// Understands `echo`, `exit 1`, `touch`, `say-err`, `test A = B`, `test -n A` and
    /// `touch-at N F`, which creates a file from the N-th call on.
    fn shell(&mut self, line: &str, env: &NameMap<String>) -> CommandResult {
        let words: Vec<String> = line
            .split_whitespace()
            .map(|w| match w.strip_prefix('$') {
                Some(name) => env.get(name).cloned().unwrap_or_default(),
                None => w.to_string(),
            })
            .collect();
        let mut result = self.succeeded();
        match words[0].as_str() {
            "echo" => {}
            "exit" => result.success = false,
            "touch" => {
                self.files.insert(words[1].clone(), String::new());
            }
            "say-err" => result.stderr = words[1].clone(),
            "test" if words[1] == "-n" => result.success = !words[2].is_empty(),
            "test" => result.success = words[1] == words[3],
            "touch-at" => {
                self.counter += 1;
                if self.counter >= words[1].parse::<usize>().unwrap_or_else(|e| panic!("{e}")) {
                    self.files.insert(words[2].clone(), String::new());
                }
            }
            other => panic!("unknown command {other}"),
        }
        result
    }
}

/// A handler that must not be asked.
struct NoOpOptionHandler;

impl OptionHandler for NoOpOptionHandler {
    fn select_option(
        &self,
        _choices: &Vec<OptionChoice>,
        _plan: Option<&str>,
    ) -> Result<OptionResult, CruiseError> {
        panic!("no option step was expected")
    }
}

fn execute_kind<H: OptionHandler>(
    world: &mut World,
    kind: &StepKind,
    compiled: &CompiledWorkflow,
    vars: &mut VariableStore,
    env: &NameMap<String>,
    handler: &H,
) -> Result<StepReport, CruiseError> {
    match kind {
        StepKind::Prompt(step) => {
            let request = prompt_request(vars, compiled, step)?;
            let stderr = if request.command.len() > 1 { "noise" } else { "" };
            finish_prompt(
                vars,
                PromptResult {
                    output: request.prompt,
                    stderr: stderr.to_string(),
                },
            );
            Ok(StepReport::of_prompt())
        }
        StepKind::Command(step) => {
            let commands = resolve_commands(vars, step)?;
            let result = match CommandRun::begin(commands.len(), 0) {
                CommandStart::Nothing(result) => result,
                CommandStart::Run(mut run) => loop {
                    let result = world.shell(&commands[run.index], env);
                    match run.feed(&result) {
                        CommandNext::Run | CommandNext::RetryAfter(_) => {}
                        CommandNext::Done => break result,
                    }
                },
            };
            let success = finish_command(vars, result);
            Ok(StepReport::of_command(success))
        }
        StepKind::Option(step) => {
            let next = run_option_step(vars, step, None, handler)?;
            Ok(StepReport::of_option(step, next))
        }
    }
}

/// Runs a workflow to its end. `reload` gives a changed workflow before a round.
fn run_all<H: OptionHandler>(
    world: &mut World,
    config: WorkflowConfig,
    input: &str,
    from: Option<&str>,
    max_retries: usize,
    handler: &H,
    reload: &mut dyn FnMut() -> Option<WorkflowConfig>,
) -> Result<ExecutionResult, CruiseError> {
    let mut compiled = compile(config)?;
    let mut vars = VariableStore::new(input.to_string());
    let mut tracker = FileTracker::new();
    let mut state = LoopState::new(&compiled);
    let token = CancellationToken::new();
    if world.cancelled {
        token.cancel();
    }
    let mut current = match from {
        Some(step) => step.to_string(),
        None => compiled.steps.keys().next().cloned().unwrap_or_default(),
    };
    loop {
        if let Some(changed) = reload() {
            let changed = compile(changed)?;
            if state.reload(&changed, &current) {
                compiled = changed;
            }
        }
        assert!(state.has_room(compiled.steps.len()));
        let outcome = match begin_step(&compiled, &vars, &current, &mut state)? {
            Begin::Skip(skip) => {
                world.skips.push(plain_text(&skip.notice));
                skip.outcome
            }
            Begin::Run { index, total } => {
                assert!(index <= total);
                world.started.push(current.clone());
                if world.cancel_at.as_ref() == Some(&current) {
                    token.cancel();
                }
                let cancelled = token.is_cancelled();
                let Some(plan) = announced_step(&compiled, &vars, &current, cancelled)? else {
                    return Ok(state.result());
                };
                let before = if needs_scan_before(&compiled, &tracker, &current) {
                    world.scan()
                } else {
                    Snapshot::new()
                };
                take_pre_snapshots(&compiled, &mut tracker, &current, &before);
                let report =
                    execute_kind(world, &plan.kind, &compiled, &mut vars, &plan.env, handler)?;
                let after = if needs_scan_after(&compiled, &tracker, &current) {
                    world.scan()
                } else {
                    Snapshot::new()
                };
                finish_step(
                    &compiled, &tracker, &current, &mut state, report, max_retries, &after,
                )?
                .outcome
            }
        };
        match outcome {
            StepOutcome::Next(next) => current = next,
            StepOutcome::Done => return Ok(state.result()),
        }
    }
}

fn run_with(
    world: &mut World,
    config: WorkflowConfig,
    input: &str,
    from: Option<&str>,
    max_retries: usize,
) -> Result<ExecutionResult, CruiseError> {
    run_all(
        world,
        config,
        input,
        from,
        max_retries,
        &NoOpOptionHandler,
        &mut || None,
    )
}

fn run_config(
    config: WorkflowConfig,
    input: &str,
    from: Option<&str>,
) -> Result<ExecutionResult, CruiseError> {
    run_with(&mut World::default(), config, input, from, 10)
}

/// A configuration with the given command and steps.
fn config(command: &[&str], steps: Vec<(&str, StepConfig)>) -> WorkflowConfig {
    let mut map = IndexMap::new();
    for (name, step) in steps {
        map.insert(name.to_string(), step);
    }
    WorkflowConfig {
        command: command.iter().map(|s| s.to_string()).collect(),
        model: None,
        plan_model: None,
        plan: None,
        env: NameMap::new(),
        groups: NameMap::new(),
        steps: map,
        after_pr: IndexMap::new(),
        pr_language: "English".to_string(),
        llm_api: None,
    }
}

fn command(line: &str) -> StepConfig {
    StepConfig {
        command: Some(StringOrVec::Single(line.to_string())),
        ..Default::default()
    }
}

fn prompt(text: &str) -> StepConfig {
    StepConfig {
        prompt: Some(text.to_string()),
        ..Default::default()
    }
}

fn with_env(mut step: StepConfig, name: &str, value: &str) -> StepConfig {
    step.env.insert(name.to_string(), value.to_string());
    step
}

fn jump_to(target: &str) -> Option<IfCondition> {
    Some(IfCondition {
        file_changed: Some(target.to_string()),
        no_file_changes: None,
    })
}

fn unless_changed(fail: bool, retry: bool) -> Option<IfCondition> {
    Some(IfCondition {
        file_changed: None,
        no_file_changes: Some(NoFileChanges { fail, retry }),
    })
}

fn in_group(mut step: StepConfig, group: &str) -> StepConfig {
    step.group = Some(group.to_string());
    step
}

#[test]
fn test_get_next_step_sequential() {
    let config = config(
        &["echo"],
        vec![
            ("step_a", command("echo a")),
            ("step_b", command("echo b")),
            ("step_c", command("echo c")),
        ],
    );
    assert_eq!(
        get_next_step(&config.steps, "step_a", None),
        Some("step_b".to_string())
    );
    assert_eq!(
        get_next_step(&config.steps, "step_b", None),
        Some("step_c".to_string())
    );
    assert_eq!(get_next_step(&config.steps, "step_c", None), None);
}

#[test]
fn test_get_next_step_explicit() {
    let config = config(
        &["echo"],
        vec![
            ("step_a", command("echo a")),
            ("step_b", command("echo b")),
            ("step_c", command("echo c")),
        ],
    );
    assert_eq!(
        get_next_step(&config.steps, "step_a", Some("step_c")),
        Some("step_c".to_string())
    );
}

#[test]
fn test_get_next_step_not_found() {
    let config = config(&["echo"], vec![("only_step", command("echo hello"))]);
    assert_eq!(get_next_step(&config.steps, "only_step", None), None);
}

#[test]
fn test_run_command_workflow() {
    let result = run_config(
        config(
            &["echo"],
            vec![
                ("step1", command("echo hello")),
                ("step2", command("echo world")),
            ],
        ),
        "test",
        None,
    )
    .unwrap_or_else(|e| panic!("{e:?}"));
    assert_eq!((result.run, result.skipped, result.failed), (2, 0, 0));
}

#[test]
fn test_run_command_list_workflow() {
    let step = StepConfig {
        command: Some(StringOrVec::Multiple(vec![
            "echo hello".to_string(),
            "echo world".to_string(),
        ])),
        ..Default::default()
    };
    let result = run_config(config(&["echo"], vec![("step1", step)]), "test", None);
    assert!(result.is_ok(), "workflow run failed: {result:?}");
}

#[test]
fn test_run_skip_step() {
    let mut skipped = command("exit 1");
    skipped.skip = Some(SkipCondition::Static(true));
    let result = run_config(
        config(
            &["echo"],
            vec![("skipped", skipped), ("normal", command("echo done"))],
        ),
        "",
        None,
    )
    .unwrap_or_else(|e| panic!("{e:?}"));
    assert_eq!((result.run, result.skipped, result.failed), (1, 1, 0));
}

#[test]
fn test_run_dynamic_skip_step() {
    let mut skipped = command("exit 1");
    skipped.skip = Some(SkipCondition::Variable("prev.success".to_string()));
    let result = run_config(
        config(
            &["echo"],
            vec![
                ("first", command("echo success")),
                ("skipped", skipped),
                ("normal", command("echo done")),
            ],
        ),
        "",
        None,
    )
    .unwrap_or_else(|e| panic!("{e:?}"));
    assert_eq!((result.run, result.skipped, result.failed), (2, 1, 0));
}

#[test]
fn test_run_from_step() {
    let result = run_config(
        config(
            &["echo"],
            vec![
                ("step1", command("exit 1")),
                ("step2", command("echo hello")),
            ],
        ),
        "",
        Some("step2"),
    )
    .unwrap_or_else(|e| panic!("{e:?}"));
    assert_eq!((result.run, result.failed), (1, 0));
}

#[test]
fn test_loop_protection() {
    let mut step = command("echo loop");
    step.next = Some("step1".to_string());
    let mut world = World::default();
    let err = run_with(
        &mut world,
        config(&["echo"], vec![("step1", step)]),
        "",
        None,
        2,
    )
    .map_or_else(|e| e, |v| panic!("expected Err, got Ok({v:?})"));
    match &err {
        CruiseError::LoopProtection {
            from,
            to,
            max_retries,
            edge_counts,
        } => {
            assert_eq!((from.as_str(), to.as_str(), *max_retries), ("step1", "step1", 2));
            assert_eq!(
                edge_counts,
                &vec![("step1".to_string(), "step1".to_string(), 3)]
            );
        }
        other => panic!("expected LoopProtection, got {other:?}"),
    }
    assert_eq!(
        err.detailed_message(),
        "loop protection: edge step1 -> step1 exceeded max retries 2\n  edge counts:\n    step1 -> step1: 3"
    );
    assert_eq!(world.started.len(), 3);
}

#[test]
fn test_top_level_env_passed_to_command() {
    let mut config = config(
        &["echo"],
        vec![("step1", command("test $CRUISE_TOP_ENV = top_value"))],
    );
    config
        .env
        .insert("CRUISE_TOP_ENV".to_string(), "top_value".to_string());
    let result = run_config(config, "", None).unwrap_or_else(|e| panic!("{e:?}"));
    assert_eq!(result.failed, 0);
}

#[test]
fn test_step_env_overrides_top_level() {
    let mut config = config(
        &["echo"],
        vec![(
            "step1",
            with_env(
                command("test $CRUISE_OVERRIDE_ENV = step_value"),
                "CRUISE_OVERRIDE_ENV",
                "step_value",
            ),
        )],
    );
    config
        .env
        .insert("CRUISE_OVERRIDE_ENV".to_string(), "top_value".to_string());
    let result = run_config(config, "", None).unwrap_or_else(|e| panic!("{e:?}"));
    assert_eq!(result.failed, 0);
}

#[test]
fn test_env_variable_resolution() {
    let mut config = config(
        &["echo"],
        vec![("step1", command("test $CRUISE_INPUT_ENV = myinput"))],
    );
    config
        .env
        .insert("CRUISE_INPUT_ENV".to_string(), "{input}".to_string());
    let result = run_config(config, "myinput", None).unwrap_or_else(|e| panic!("{e:?}"));
    assert_eq!(result.failed, 0);
}

#[test]
fn test_variable_resolution_in_command() {
    for line in ["echo {input}", "test {input} = hello"] {
        let result = run_config(
            config(&["echo"], vec![("step1", command(line))]),
            "hello",
            None,
        )
        .unwrap_or_else(|e| panic!("{e:?}"));
        assert_eq!(result.failed, 0);
    }
}

#[test]
fn test_prev_success_true_propagation() {
    let result = run_config(
        config(
            &["echo"],
            vec![
                ("step1", command("echo hello")),
                ("step2", command("test {prev.success} = true")),
            ],
        ),
        "",
        None,
    )
    .unwrap_or_else(|e| panic!("{e:?}"));
    assert_eq!(result.failed, 0);
}

#[test]
fn test_prev_success_false_after_failure() {
    let result = run_config(
        config(
            &["echo"],
            vec![
                ("step1", command("exit 1")),
                ("step2", command("test {prev.success} = false")),
            ],
        ),
        "",
        None,
    )
    .unwrap_or_else(|e| panic!("{e:?}"));
    assert_eq!((result.run, result.failed), (2, 1));
}

#[test]
fn test_command_failure_does_not_stop_workflow() {
    let result = run_config(
        config(
            &["echo"],
            vec![
                ("step1", command("exit 1")),
                ("step2", command("echo done")),
            ],
        ),
        "",
        None,
    )
    .unwrap_or_else(|e| panic!("{e:?}"));
    assert_eq!((result.run, result.failed), (2, 1));
}

#[test]
fn test_prev_stderr_propagation() {
    let result = run_config(
        config(
            &["echo"],
            vec![
                ("step1", command("say-err hello_err")),
                (
                    "step2",
                    with_env(
                        command("test -n $PREV_STDERR"),
                        "PREV_STDERR",
                        "{prev.stderr}",
                    ),
                ),
            ],
        ),
        "",
        None,
    )
    .unwrap_or_else(|e| panic!("{e:?}"));
    assert_eq!(result.failed, 0);
}

#[test]
fn test_next_field_skips_steps() {
    let mut first = command("echo hello");
    first.next = Some("step3".to_string());
    let mut world = World::default();
    let result = run_with(
        &mut world,
        config(
            &["echo"],
            vec![
                ("step1", first),
                ("step2", command("exit 1")),
                ("step3", command("echo done")),
            ],
        ),
        "",
        None,
        10,
    )
    .unwrap_or_else(|e| panic!("{e:?}"));
    assert_eq!(result.failed, 0);
    assert_eq!(world.started, vec!["step1", "step3"]);
}

#[test]
fn test_prompt_output_as_prev_output() {
    let result = run_config(
        config(
            &["cat"],
            vec![
                ("step1", prompt("hello_output")),
                ("step2", command("test {prev.output} = hello_output")),
            ],
        ),
        "",
        None,
    )
    .unwrap_or_else(|e| panic!("{e:?}"));
    assert_eq!(result.failed, 0);
}

#[test]
fn test_command_list_partial_failure() {
    let step = StepConfig {
        command: Some(StringOrVec::Multiple(vec![
            "echo success".to_string(),
            "exit 1".to_string(),
        ])),
        ..Default::default()
    };
    let result = run_config(
        config(
            &["echo"],
            vec![
                ("step1", step),
                ("step2", command("test {prev.success} = false")),
            ],
        ),
        "",
        None,
    )
    .unwrap_or_else(|e| panic!("{e:?}"));
    assert_eq!((result.run, result.failed), (2, 1));
}

#[test]
fn test_skip_true_with_if_condition() {
    let mut step = command("exit 1");
    step.skip = Some(SkipCondition::Static(true));
    step.if_condition = jump_to("step1");
    let result = run_config(
        config(
            &["echo"],
            vec![("step1", step), ("step2", command("echo done"))],
        ),
        "",
        None,
    )
    .unwrap_or_else(|e| panic!("{e:?}"));
    assert_eq!((result.run, result.skipped, result.failed), (1, 1, 0));
}

#[test]
fn test_skipped_step_preserves_prev_vars() {
    let mut skipped = command("exit 1");
    skipped.skip = Some(SkipCondition::Static(true));
    let result = run_config(
        config(
            &["echo"],
            vec![
                ("step1", command("echo hello")),
                ("step2", skipped),
                ("step3", command("test {prev.success} = true")),
            ],
        ),
        "",
        None,
    )
    .unwrap_or_else(|e| panic!("{e:?}"));
    assert_eq!(result.failed, 0);
}

#[test]
fn test_on_step_start_callback_called() {
    let mut world = World::default();
    let result = run_with(
        &mut world,
        config(
            &["echo"],
            vec![
                ("step1", command("echo hello")),
                ("step2", command("echo world")),
            ],
        ),
        "",
        Some("step1"),
        10,
    );
    assert!(result.is_ok());
    assert_eq!(world.started, vec!["step1", "step2"]);
}

#[test]
fn test_run_prompt_step_stdout_still_captured_when_stderr_present() {
    let step2 = with_env(
        with_env(
            command("test $BOTH = chain_value/noise"),
            "BOTH",
            "{prev.output}/{prev.stderr}",
        ),
        "OTHER",
        "x",
    );
    let result = run_config(
        config(
            &["sh", "-c", "cat"],
            vec![("step1", prompt("chain_value")), ("step2", step2)],
        ),
        "",
        None,
    )
    .unwrap_or_else(|e| panic!("{e:?}"));
    assert_eq!(
        result.failed, 0,
        "stdout and stderr should both be captured correctly"
    );
}

#[test]
fn test_fail_if_no_file_changes_fails_when_no_changes() {
    let mut step = command("echo no file changes");
    step.fail_if_no_file_changes = true;
    let err = run_config(
        config(
            &["echo"],
            vec![
                ("implement", step),
                ("next_step", command("echo should not run")),
            ],
        ),
        "",
        None,
    )
    .map_or_else(|e| e, |v| panic!("expected Err, got Ok({v:?})"));
    assert!(
        matches!(err, CruiseError::StepMadeNoFileChanges(_)),
        "expected StepMadeNoFileChanges, got: {err:?}"
    );
    assert!(
        err.message().contains("implement"),
        "error should mention step name, got: {err:?}"
    );
}

#[test]
fn test_fail_if_no_file_changes_succeeds_when_files_changed() {
    let mut step = command("touch output.txt");
    step.fail_if_no_file_changes = true;
    let result = run_config(config(&["echo"], vec![("implement", step)]), "", None);
    assert!(result.is_ok(), "expected Ok but got: {result:?}");
}

#[test]
fn test_fail_if_no_file_changes_not_set_continues_when_no_changes() {
    let result = run_config(
        config(
            &["echo"],
            vec![
                ("implement", command("echo no changes")),
                ("next_step", command("echo second step")),
            ],
        ),
        "",
        None,
    )
    .unwrap_or_else(|e| panic!("{e:?}"));
    assert_eq!(result.run, 2, "both steps should run");
}

#[test]
fn test_fail_if_no_file_changes_with_if_file_changed_jumps_on_change() {
    let mut step = command("touch output.txt");
    step.fail_if_no_file_changes = true;
    step.if_condition = jump_to("implement");
    let mut world = World::default();
    let result = run_with(
        &mut world,
        config(
            &["echo"],
            vec![
                ("implement", step),
                ("loop_back", command("echo retry")),
                ("done", command("echo done")),
            ],
        ),
        "",
        None,
        1,
    );
    assert!(
        !matches!(&result, Err(CruiseError::StepMadeNoFileChanges(_))),
        "should not fail with StepMadeNoFileChanges when files changed, got: {result:?}"
    );
    assert_eq!(
        world.started,
        vec!["implement", "implement", "loop_back", "done"]
    );
}

#[test]
fn test_if_no_file_changes_fail_fails_when_no_changes() {
    let mut step = command("echo no file changes");
    step.if_condition = unless_changed(true, false);
    let err = run_config(
        config(
            &["echo"],
            vec![
                ("implement", step),
                ("next_step", command("echo should not run")),
            ],
        ),
        "",
        None,
    )
    .map_or_else(|e| e, |v| panic!("expected Err, got Ok({v:?})"));
    assert!(
        matches!(err, CruiseError::StepMadeNoFileChanges(_)),
        "expected StepMadeNoFileChanges, got: {err:?}"
    );
    assert!(
        err.message().contains("implement"),
        "error should mention step name, got: {err:?}"
    );
}

#[test]
fn test_if_no_file_changes_fail_ok_when_files_changed() {
    let mut step = command("touch output.txt");
    step.if_condition = unless_changed(true, false);
    let result = run_config(config(&["echo"], vec![("implement", step)]), "", None);
    assert!(result.is_ok(), "expected Ok but got: {result:?}");
}

#[test]
fn test_if_no_file_changes_retry_reruns_step_when_no_changes() {
    let mut step = command("touch-at 2 output.txt");
    step.if_condition = unless_changed(false, true);
    let result = run_config(
        config(
            &["sh", "-c"],
            vec![("implement", step), ("done", command("echo done"))],
        ),
        "",
        None,
    )
    .unwrap_or_else(|e| panic!("{e:?}"));
    assert_eq!(
        result.run, 3,
        "implement (two attempts) + done = 3 executions"
    );
}

#[test]
fn test_if_no_file_changes_retry_triggers_loop_protection() {
    let mut step = command("echo no changes ever");
    step.if_condition = unless_changed(false, true);
    let err = run_with(
        &mut World::default(),
        config(&["echo"], vec![("implement", step)]),
        "",
        None,
        3,
    )
    .map_or_else(|e| e, |v| panic!("expected Err, got Ok({v:?})"));
    assert!(
        matches!(err, CruiseError::LoopProtection { .. }),
        "expected LoopProtection, got: {err:?}"
    );
}

#[test]
fn test_if_no_file_changes_retry_not_triggered_when_files_changed() {
    let mut step = command("touch output.txt");
    step.if_condition = unless_changed(false, true);
    let result = run_config(
        config(
            &["echo"],
            vec![("implement", step), ("done", command("echo done"))],
        ),
        "",
        None,
    )
    .unwrap_or_else(|e| panic!("{e:?}"));
    assert_eq!(result.run, 2, "both steps should run (no extra retry)");
}

#[test]
fn test_if_file_changed_and_no_file_changes_retry_combo() {
    let mut step = command("touch output.txt");
    step.if_condition = Some(IfCondition {
        file_changed: Some("implement".to_string()),
        no_file_changes: Some(NoFileChanges {
            fail: false,
            retry: true,
        }),
    });
    let result = run_config(
        config(
            &["echo"],
            vec![
                ("implement", step),
                ("loop_back", command("echo jumped here")),
                ("done", command("echo done")),
            ],
        ),
        "",
        None,
    )
    .unwrap_or_else(|e| panic!("{e:?}"));
    assert_eq!(result.run, 3, "implement + loop_back + done should all run");
}

#[test]
fn test_if_file_changed_and_no_file_changes_retry_combo_unchanged() {
    let mut step = command("touch-at 2 output.txt");
    step.if_condition = Some(IfCondition {
        file_changed: Some("implement".to_string()),
        no_file_changes: Some(NoFileChanges {
            fail: false,
            retry: true,
        }),
    });
    let result = run_config(
        config(
            &["sh", "-c"],
            vec![("implement", step), ("done", command("echo done"))],
        ),
        "",
        None,
    )
    .unwrap_or_else(|e| panic!("{e:?}"));
    assert_eq!(
        result.run, 3,
        "implement (two attempts) + done = 3 executions"
    );
}

#[test]
fn test_next_pointing_to_nonexistent_step() {
    let mut step = command("echo hello");
    step.next = Some("nonexistent".to_string());
    let err = run_config(config(&["echo"], vec![("step1", step)]), "test", None)
        .map_or_else(|e| e, |v| panic!("expected Err, got Ok({v:?})"));
    assert!(matches!(err, CruiseError::StepNotFound(name) if name == "nonexistent"));
}

/// Runs a workflow of one step that changes before its first round.
fn run_changed(changed: WorkflowConfig) -> (World, ExecutionResult) {
    let mut world = World::default();
    let mut changed = Some(changed);
    let result = run_all(
        &mut world,
        config(&["echo"], vec![("step1", command("echo original"))]),
        "",
        None,
        10,
        &NoOpOptionHandler,
        &mut || changed.take(),
    )
    .unwrap_or_else(|e| panic!("{e:?}"));
    (world, result)
}

#[test]
fn test_execute_steps_config_reloader_updates_compiled_when_changed() {
    let steps = vec![
        ("step1", command("echo updated")),
        ("step2", command("echo extra")),
    ];
    let (world, result) = run_changed(config(&["echo"], steps));
    assert_eq!(result.run, 2);
    assert_eq!(world.started, vec!["step1", "step2"]);
}

#[test]
fn test_execute_steps_config_reloader_keeps_old_config_when_step_missing() {
    let steps = vec![("completely_different", command("echo new"))];
    let (world, result) = run_changed(config(&["echo"], steps));
    assert_eq!(result.run, 1);
    assert_eq!(world.started, vec!["step1"]);
}

#[test]
fn a_change_between_two_steps_counts_from_there_on() {
    let mut world = World::default();
    let mut rounds = 0;
    let result = run_all(
        &mut world,
        config(
            &["echo"],
            vec![
                ("step1", command("echo hello")),
                ("step2", command("exit 1")),
            ],
        ),
        "",
        None,
        10,
        &NoOpOptionHandler,
        &mut || {
            rounds += 1;
            if rounds == 2 {
                Some(config(
                    &["echo"],
                    vec![
                        ("step1", command("echo hello")),
                        ("step2", command("echo changed")),
                        ("step3", command("echo new")),
                    ],
                ))
            } else {
                None
            }
        },
    )
    .unwrap_or_else(|e| panic!("{e:?}"));
    assert_eq!((result.run, result.failed), (3, 0));
    assert_eq!(world.started, vec!["step1", "step2", "step3"]);
}

#[test]
fn a_change_without_the_next_step_does_not_count() {
    let mut world = World::default();
    let mut rounds = 0;
    let result = run_all(
        &mut world,
        config(
            &["echo"],
            vec![
                ("step1", command("echo hello")),
                ("step2", command("echo world")),
            ],
        ),
        "",
        None,
        10,
        &NoOpOptionHandler,
        &mut || {
            rounds += 1;
            if rounds == 2 {
                Some(config(&["echo"], vec![("other", command("exit 1"))]))
            } else {
                None
            }
        },
    )
    .unwrap_or_else(|e| panic!("{e:?}"));
    assert_eq!((result.run, result.failed), (2, 0));
    assert_eq!(world.started, vec!["step1", "step2"]);
}

fn choice_step(first: &str, next: Option<&str>) -> StepConfig {
    StepConfig {
        option: Some(vec![OptionItem {
            selector: Some(first.to_string()),
            text_input: None,
            next: next.map(str::to_string),
        }]),
        ..Default::default()
    }
}

#[test]
fn test_execute_steps_option_handler_not_called_for_command_steps() {
    let handler = FirstChoiceOptionHandler::new();
    let result = run_all(
        &mut World::default(),
        config(
            &["echo"],
            vec![
                ("step1", command("echo hello")),
                ("step2", command("echo world")),
            ],
        ),
        "",
        Some("step1"),
        10,
        &handler,
        &mut || None,
    );
    assert!(result.is_ok());
    assert_eq!(handler.call_count(), 0);
}

#[test]
fn test_execute_steps_option_step_handler_next_step_followed() {
    let item = |label: &str, next: &str| OptionItem {
        selector: Some(label.to_string()),
        text_input: None,
        next: Some(next.to_string()),
    };
    let choose_step = StepConfig {
        option: Some(vec![item("Skip to final", "final"), item("Go middle", "middle")]),
        ..Default::default()
    };
    let handler = FirstChoiceOptionHandler::new();
    let mut world = World::default();
    let result = run_all(
        &mut world,
        config(
            &["echo"],
            vec![
                ("choose", choose_step),
                ("middle", command("exit 1")),
                ("final", command("echo reached_final")),
            ],
        ),
        "",
        Some("choose"),
        10,
        &handler,
        &mut || None,
    )
    .unwrap_or_else(|e| panic!("{e:?}"));
    assert_eq!(handler.call_count(), 1);
    assert_eq!((result.run, result.failed), (2, 0));
    assert_eq!(world.started, vec!["choose", "final"]);
}

#[test]
fn a_group_is_skipped_after_its_retries() {
    let mut config = config(
        &["echo"],
        vec![
            ("fix", in_group(command("touch-new"), "review")),
            ("look", in_group(command("echo look"), "review")),
            ("done", command("echo done")),
        ],
    );
    config.steps[0].command = Some(StringOrVec::Single("touch {input}".to_string()));
    config.groups.insert(
        "review".to_string(),
        GroupConfig {
            if_condition: jump_to("fix"),
            max_retries: Some(1),
        },
    );
    let mut world = World::default();
    let result =
        run_with(&mut world, config, "a.txt", None, 10).unwrap_or_else(|e| panic!("{e:?}"));
    assert_eq!(world.started, vec!["fix", "look", "done"]);
    assert_eq!((result.run, result.skipped, result.failed), (3, 2, 0));
    assert_eq!(
        world.skips,
        vec!["  → group 'review' max retries (1) reached, skipping"]
    );
}

#[test]
fn a_skipped_step_is_reported() {
    let mut skipped = command("exit 1");
    skipped.skip = Some(SkipCondition::Static(true));
    let mut world = World::default();
    run_with(&mut world, config(&["echo"], vec![("build", skipped)]), "", None, 10)
        .unwrap_or_else(|e| panic!("{e:?}"));
    assert_eq!(world.skips, vec!["→ skipping: build"]);
}

#[test]
fn a_group_is_left_when_nothing_changed() {
    let mut config = config(
        &["echo"],
        vec![
            ("fix", in_group(command("touch-at 1 a.txt"), "review")),
            ("look", in_group(command("echo look"), "review")),
            ("done", command("echo done")),
        ],
    );
    config.groups.insert(
        "review".to_string(),
        GroupConfig {
            if_condition: jump_to("fix"),
            max_retries: Some(5),
        },
    );
    let mut world = World::default();
    let result = run_with(&mut world, config, "", None, 10).unwrap_or_else(|e| panic!("{e:?}"));
    assert_eq!(world.started, vec!["fix", "look", "fix", "look", "done"]);
    assert_eq!((result.run, result.skipped), (5, 0));
}

#[test]
fn an_edge_is_taken_as_often_as_allowed() {
    for max_retries in 1..5 {
        let mut world = World::default();
        let mut step2 = command("echo again");
        step2.next = Some("step1".to_string());
        let err = run_with(
            &mut world,
            config(
                &["echo"],
                vec![("step1", command("echo first")), ("step2", step2)],
            ),
            "",
            None,
            max_retries,
        )
        .map_or_else(|e| e, |v| panic!("expected Err, got Ok({v:?})"));
        assert!(matches!(err, CruiseError::LoopProtection { .. }));
        assert_eq!(world.started.len(), 2 * max_retries + 1);
    }
}

#[test]
fn a_step_without_a_kind_is_refused() {
    let err = run_config(
        config(&["echo"], vec![("empty", StepConfig::default())]),
        "",
        None,
    )
    .map_or_else(|e| e, |v| panic!("expected Err, got Ok({v:?})"));
    assert!(matches!(err, CruiseError::InvalidStepConfig(_)));
}

#[test]
fn an_undefined_variable_stops_the_run() {
    let err = run_config(
        config(&["echo"], vec![("step1", command("echo {nothing}"))]),
        "",
        None,
    )
    .map_or_else(|e| e, |v| panic!("expected Err, got Ok({v:?})"));
    assert!(matches!(err, CruiseError::UndefinedVariable(name) if name == "nothing"));
}

fn three_commands() -> WorkflowConfig {
    let step = |line: &str| StepConfig {
        command: Some(StringOrVec::Single(line.to_string())),
        ..Default::default()
    };
    config(
        &["echo"],
        vec![
            ("step1", step("echo first")),
            ("step2", step("echo second")),
            ("step3", step("echo third")),
        ],
    )
}

#[test]
fn test_execute_steps_none_cancel_token_runs_all_steps() {
    let steps = vec![
        ("step1", command("echo hello")),
        ("step2", command("echo world")),
    ];
    let result = run_config(config(&["echo"], steps), "", Some("step1"))
        .unwrap_or_else(|e| panic!("{e:?}"));
    assert_eq!(result.run, 2);
}

#[test]
fn test_execute_steps_pre_cancelled_token_skips_all_steps() {
    let mut world = World {
        cancelled: true,
        ..Default::default()
    };
    let steps = vec![
        ("step1", command("echo should not run")),
        ("step2", command("echo also not run")),
    ];
    let result = run_with(&mut world, config(&["echo"], steps), "", Some("step1"), 10)
        .unwrap_or_else(|e| panic!("{e:?}"));
    assert_eq!(result.run, 0);
}

#[test]
fn test_execute_steps_cancel_between_steps_stops_at_boundary() {
    let mut world = World {
        cancel_at: Some("step2".to_string()),
        ..Default::default()
    };
    let result = run_with(&mut world, three_commands(), "", Some("step1"), 10)
        .unwrap_or_else(|e| panic!("{e:?}"));
    assert_eq!(result.run, 1);
    assert_eq!(world.started, vec!["step1", "step2"]);
}

#[test]
fn test_env_prev_success_variable() {
    let step2 = with_env(command("test $RESULT = true"), "RESULT", "{prev.success}");
    let steps = vec![("step1", command("echo hello")), ("step2", step2)];
    let result =
        run_config(config(&["echo"], steps), "", None).unwrap_or_else(|e| panic!("{e:?}"));
    assert_eq!(result.failed, 0);
}

#[test]
fn test_prev_output_accessible_in_subsequent_steps() {
    let steps = vec![
        ("step1", prompt("stored_value")),
        ("step2", command("test {prev.output} = stored_value")),
    ];
    let result = run_config(config(&["cat"], steps), "", None).unwrap_or_else(|e| panic!("{e:?}"));
    assert_eq!(result.failed, 0);
}

#[test]
fn test_prompt_to_command_chain() {
    let second = with_env(
        command("test $OUTPUT = chain_data"),
        "OUTPUT",
        "{prev.output}",
    );
    let steps = vec![("prompt_step", prompt("chain_data")), ("command_step", second)];
    let result = run_config(config(&["cat"], steps), "", None).unwrap_or_else(|e| panic!("{e:?}"));
    assert_eq!(result.failed, 0);
}

#[test]
fn test_if_no_file_changes_snapshot_per_attempt() {
    let mut implement = command("touch-at 2 output.txt");
    implement.if_condition = unless_changed(false, true);
    let steps = vec![("implement", implement), ("done", command("echo done"))];
    let result = run_config(config(&["sh", "-c"], steps), "", None)
        .unwrap_or_else(|e| panic!("{e:?}"));
    assert_eq!(result.run, 3);
}

#[test]
fn test_execute_steps_config_reloader_not_triggered_when_no_change() {
    let mut calls: usize = 0;
    let result = run_all(
        &mut World::default(),
        config(&["echo"], vec![("s1", command("echo hi"))]),
        "",
        None,
        10,
        &NoOpOptionHandler,
        &mut || {
            calls += 1;
            None
        },
    );
    assert!(result.is_ok());
    assert!(calls >= 1);
}

#[test]
fn test_execute_steps_active_cancel_token_runs_normally() {
    let steps = vec![
        ("step1", command("echo hello")),
        ("step2", command("echo world")),
    ];
    let result = run_config(config(&["echo"], steps), "", Some("step1"))
        .unwrap_or_else(|e| panic!("{e:?}"));
    assert_eq!(result.run, 2);
}

#[test]
fn test_execute_steps_option_step_calls_handler() {
    let item = |label: &str, next: Option<&str>| OptionItem {
        selector: Some(label.to_string()),
        text_input: None,
        next: next.map(str::to_string),
    };
    let choose_step = StepConfig {
        option: Some(vec![item("Continue", Some("done")), item("Cancel", None)]),
        ..Default::default()
    };
    let handler = FirstChoiceOptionHandler::new();
    let result = run_all(
        &mut World::default(),
        config(
            &["echo"],
            vec![("choose", choose_step), ("done", command("echo done"))],
        ),
        "",
        Some("choose"),
        10,
        &handler,
        &mut || None,
    );
    assert!(result.is_ok());
    assert_eq!(handler.call_count(), 1);
}

fn run_choice(choice: StepConfig) -> (World, ExecutionResult) {
    let mut world = World::default();
    let steps = vec![("choose", choice), ("after", command("echo after"))];
    let result = run_all(
        &mut world,
        config(&["echo"], steps),
        "",
        Some("choose"),
        10,
        &FirstChoiceOptionHandler::new(),
        &mut || None,
    )
    .unwrap_or_else(|e| panic!("{e:?}"));
    (world, result)
}

#[test]
fn a_choice_without_a_next_step_ends_the_run() {
    let (world, result) = run_choice(choice_step("Stop", None));
    assert_eq!(world.started, vec!["choose"]);
    assert_eq!(result.run, 1);
    let (world, _) = run_choice(choice_step("Stop", Some("after")));
    assert_eq!(world.started, vec!["choose", "after"]);
    // The choice counts, not the step that the configuration names.
    let mut named = choice_step("Stop", None);
    named.next = Some("after".to_string());
    assert_eq!(run_choice(named).0.started, vec!["choose"]);
}

#[test]
fn a_step_with_nothing_to_choose_goes_on() {
    let nothing = OptionStep {
        choices: Vec::new(),
        plan: None,
    };
    assert!(StepReport::of_option(&nothing, None).option_next.is_none());
    let one = OptionStep {
        choices: vec![OptionChoice::Selector {
            label: "Stop".to_string(),
            next: None,
        }],
        plan: None,
    };
    assert_eq!(StepReport::of_option(&one, None).option_next, Some(None));
    assert_eq!(
        StepReport::of_option(&one, Some("x".to_string())).option_next,
        Some(Some("x".to_string()))
    );
    assert!(StepReport::of_prompt().option_next.is_none());
    assert!(StepReport::of_command(false).failed);
}
