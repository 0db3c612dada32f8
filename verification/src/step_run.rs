//! What a step asks for and what its result does to the variables.

use vstd::prelude::*;

use crate::error::CruiseError;
use crate::model::{for_model, has_placeholder_spec, select_command};
use crate::multiline_input::InputResult;
use crate::option_handler::OptionHandler;
use crate::step::command::CommandResult;
use crate::step::option::OptionResult;
use crate::step::prompt::PromptResult;
use crate::step::{CommandStep, OptionStep, PromptStep};
use crate::text::{opt_view, views};
use crate::variable::{VariableStore, Variables};
use crate::workflow::CompiledWorkflow;

verus! {

// ---------------------------------------------------------------------------
// Prompt steps
// ---------------------------------------------------------------------------

/// What becomes of the instruction of a prompt step.
#[derive(Debug)]
pub enum Instruction {
    /// There is none.
    Nothing,
    /// There is no input yet: ask for one under this text.
    Ask(String),
    /// Show this text.
    Show(String),
}

/// Works out the instruction of a prompt step: without an input the user is asked for one.
///
/// # Errors
///
/// Returns `UndefinedVariable` if the instruction names a variable that is not defined.
pub fn resolve_instruction(vars: &VariableStore, step: &PromptStep) -> (r: Result<
    Instruction,
    CruiseError,
>)
    ensures
        match step.instruction {
            None => r == Ok::<Instruction, CruiseError>(Instruction::Nothing),
            Some(template) => match vars@.expand(template@) {
                Err(name) => r matches Err(CruiseError::UndefinedVariable(n)) && n@ == name,
                Ok(text) => if vars@.input.len() == 0 {
                    r matches Ok(Instruction::Ask(shown)) && shown@ == "  "@ + text
                } else {
                    r matches Ok(Instruction::Show(shown)) && shown@ == text
                },
            },
        },
{
    match &step.instruction {
        None => Ok(Instruction::Nothing),
        Some(template) => match vars.resolve(template.as_str()) {
            Err(e) => Err(e),
            Ok(text) => if vars.input_is_empty() {
                Ok(Instruction::Ask("  ".to_owned().concat(text.as_str())))
            } else {
                Ok(Instruction::Show(text))
            },
        },
    }
}

/// Takes over the input that the user was asked for.
///
/// # Errors
///
/// Returns `StepPaused` if the user cancelled the input.
pub fn take_input(vars: &mut VariableStore, input: InputResult) -> (r: Result<(), CruiseError>)
    ensures
        match input {
            InputResult::Submitted(text) => r == Ok::<(), CruiseError>(()) && final(vars)@ == (
            Variables { input: text@, ..old(vars)@ }),
            InputResult::Cancelled => r == Err::<(), CruiseError>(CruiseError::StepPaused)
                && final(vars)@ == old(vars)@,
        },
{
    match input.into_result() {
        Ok(text) => {
            vars.set_input(text);
            Ok(())
        },
        Err(e) => Err(e),
    }
}

/// A call of the LLM command.
#[derive(Debug)]
pub struct PromptRequest {
    /// The command to call.
    pub command: Vec<String>,
    /// The model to pass as an option.
    pub model_arg: Option<String>,
    /// The prompt.
    pub prompt: String,
}

/// `request` calls the command with the given model and prompt.
pub open spec fn calls_with(
    request: PromptRequest,
    command: Seq<String>,
    model: Option<Seq<char>>,
    prompt: Seq<char>,
) -> bool {
    &&& request.prompt@ == prompt
    &&& has_placeholder_spec(views(command)) ==> views(request.command@) == for_model(
        views(command),
        model,
    ) && request.model_arg is None
    &&& !has_placeholder_spec(views(command)) ==> request.command@ == command && opt_view(
        request.model_arg,
    ) == model
}

/// `request` calls the workflow's command with the given model and prompt.
pub open spec fn is_request(
    request: PromptRequest,
    compiled: CompiledWorkflow,
    model: Option<Seq<char>>,
    prompt: Seq<char>,
) -> bool {
    calls_with(request, compiled.command@, model, prompt)
}

/// The call of a command with the given model and prompt.
pub fn call_of(command: &Vec<String>, model: &Option<String>, prompt: String) -> (r:
    PromptRequest)
    ensures
        calls_with(r, command@, opt_view(*model), prompt@),
{
    let (command, model_arg) = match model {
        Some(m) => select_command(command, Some(m.as_str())),
        None => select_command(command, None),
    };
    PromptRequest { command, model_arg, prompt }
}

/// The call of the workflow's command with the given model and prompt.
pub fn request_for(compiled: &CompiledWorkflow, model: &Option<String>, prompt: String) -> (r:
    PromptRequest)
    ensures
        is_request(r, *compiled, opt_view(*model), prompt@),
{
    call_of(&compiled.command, model, prompt)
}

/// The model of a step: its own, or else that of the workflow.
pub open spec fn effective_model(step: PromptStep, compiled: CompiledWorkflow) -> Option<
    Seq<char>,
> {
    match step.model {
        Some(m) => Some(m@),
        None => opt_view(compiled.model),
    }
}

/// Works out the call that a prompt step makes.
///
/// # Errors
///
/// Returns `UndefinedVariable` if the prompt names a variable that is not defined.
pub fn prompt_request(vars: &VariableStore, compiled: &CompiledWorkflow, step: &PromptStep) -> (r:
    Result<PromptRequest, CruiseError>)
    ensures
        match vars@.expand(step.prompt@) {
            Err(name) => r matches Err(CruiseError::UndefinedVariable(n)) && n@ == name,
            Ok(text) => r matches Ok(request) && is_request(
                request,
                *compiled,
                effective_model(*step, *compiled),
                text,
            ),
        },
        r matches Ok(request) ==> is_request(
            request,
            *compiled,
            match step.model {
                Some(own) => Some(own@),
                None => opt_view(compiled.model),
            },
            request.prompt@,
        ),
{
    let prompt = match vars.resolve(step.prompt.as_str()) {
        Ok(prompt) => prompt,
        Err(e) => return Err(e),
    };
    match &step.model {
        Some(_) => Ok(request_for(compiled, &step.model, prompt)),
        None => Ok(request_for(compiled, &compiled.model, prompt)),
    }
}

/// Takes over the result of a prompt step and returns the LLM's output.
pub fn finish_prompt(vars: &mut VariableStore, result: PromptResult) -> (r: String)
    ensures
        r@ == result.output@,
        final(vars)@ == (Variables {
            prev_output: Some(result.output@),
            prev_stderr: Some(result.stderr@),
            prev_input: None,
            ..old(vars)@
        }),
{
    let output = result.output.clone();
    vars.set_prev_output(Some(result.output));
    vars.set_prev_stderr(Some(result.stderr));
    vars.set_prev_input(None);
    output
}

// ---------------------------------------------------------------------------
// Command steps
// ---------------------------------------------------------------------------

/// The first undefined variable that a list of templates names.
pub open spec fn first_undefined(templates: Seq<String>, vars: Variables) -> Option<Seq<char>>
    decreases templates.len(),
{
    if templates.len() == 0 {
        None
    } else {
        match first_undefined(templates.drop_last(), vars) {
            Some(name) => Some(name),
            None => match vars.expand(templates.last()@) {
                Ok(_) => None,
                Err(name) => Some(name),
            },
        }
    }
}

proof fn lemma_first_undefined_of_prefix(templates: Seq<String>, vars: Variables, n: int)
    requires
        0 <= n <= templates.len(),
        first_undefined(templates.take(n), vars) is Some,
    ensures
        first_undefined(templates, vars) == first_undefined(templates.take(n), vars),
    decreases templates.len(),
{
    if n < templates.len() {
        assert(templates.drop_last().take(n) == templates.take(n));
        lemma_first_undefined_of_prefix(templates.drop_last(), vars, n);
    } else {
        assert(templates.take(n) == templates);
    }
}

/// The shell commands of a command step with their variables resolved, in order.
///
/// # Errors
///
/// Returns `UndefinedVariable` with the first name that is not defined.
pub fn resolve_commands(vars: &VariableStore, step: &CommandStep) -> (r: Result<
    Vec<String>,
    CruiseError,
>)
    ensures
        match r {
            Ok(cmds) => {
                &&& first_undefined(step.command@, vars@) is None
                &&& cmds@.len() == step.command@.len()
                &&& forall|i: int|
                    0 <= i < cmds@.len() ==> vars@.expand(step.command@[i]@) == Ok::<
                        Seq<char>,
                        Seq<char>,
                    >((#[trigger] cmds@[i])@)
            },
            Err(CruiseError::UndefinedVariable(name)) => first_undefined(step.command@, vars@)
                == Some(name@),
            Err(_) => false,
        },
{
    let mut cmds: Vec<String> = Vec::new();
    let mut i: usize = 0;
    assert(step.command@.take(0) =~= seq![]);
    while i < step.command.len()
        invariant
            i <= step.command@.len(),
            first_undefined(step.command@.take(i as int), vars@) is None,
            cmds@.len() == i,
            forall|k: int|
                0 <= k < i ==> vars@.expand(step.command@[k]@) == Ok::<Seq<char>, Seq<char>>(
                    (#[trigger] cmds@[k])@,
                ),
        decreases step.command@.len() - i,
    {
        assert(step.command@.take(i + 1).drop_last() == step.command@.take(i as int));
        match vars.resolve(step.command[i].as_str()) {
            Ok(cmd) => cmds.push(cmd),
            Err(e) => {
                proof {
                    lemma_first_undefined_of_prefix(step.command@, vars@, i + 1);
                }
                return Err(e);
            },
        }
        i += 1;
    }
    assert(step.command@.take(i as int) == step.command@);
    Ok(cmds)
}

/// Takes over the result of a command step and returns whether it succeeded.
pub fn finish_command(vars: &mut VariableStore, result: CommandResult) -> (r: bool)
    ensures
        r == result.success,
        final(vars)@ == (Variables {
            prev_success: Some(result.success),
            prev_stderr: Some(result.stderr@),
            prev_output: None,
            prev_input: None,
            ..old(vars)@
        }),
{
    vars.set_prev_success(Some(result.success));
    vars.set_prev_stderr(Some(result.stderr));
    vars.set_prev_output(None);
    vars.set_prev_input(None);
    result.success
}

// ---------------------------------------------------------------------------
// Option steps
// ---------------------------------------------------------------------------

/// The path of the file that an option step shows as context.
///
/// # Errors
///
/// Returns `UndefinedVariable` if its template names a variable that is not defined.
pub fn option_context_path(vars: &VariableStore, step: &OptionStep) -> (r: Result<
    Option<String>,
    CruiseError,
>)
    ensures
        match step.plan {
            None => r == Ok::<Option<String>, CruiseError>(None),
            Some(template) => match vars@.expand(template@) {
                Ok(path) => r matches Ok(Some(p)) && p@ == path,
                Err(name) => r matches Err(CruiseError::UndefinedVariable(n)) && n@ == name,
            },
        },
{
    match &step.plan {
        None => Ok(None),
        Some(template) => match vars.resolve(template.as_str()) {
            Ok(path) => Ok(Some(path)),
            Err(e) => Err(e),
        },
    }
}

/// The error for a context file that could not be read.
pub fn context_unreadable(path: &str, reason: &str) -> (r: CruiseError)
    ensures
        r matches CruiseError::Other(m) && m@ == "failed to read plan file "@ + path@ + ": "@
            + reason@,
{
    CruiseError::Other(
        "failed to read plan file ".to_owned().concat(path).concat(": ").concat(reason),
    )
}

/// The variables after an option step with the given result.
pub open spec fn after_option(vars: Variables, result: OptionResult) -> Variables {
    Variables {
        prev_output: None,
        prev_input: match result.text_input {
            Some(text) => Some(text@),
            None => vars.prev_input,
        },
        ..vars
    }
}

/// Takes over the result of an option step and returns the next step that the user chose.
pub fn finish_option(vars: &mut VariableStore, result: OptionResult) -> (r: Option<String>)
    ensures
        r == result.next_step,
        final(vars)@ == after_option(old(vars)@, result),
{
    if let Some(text) = result.text_input {
        vars.set_prev_input(Some(text));
    }
    vars.set_prev_output(None);
    result.next_step
}

/// What an option step returns for the answer of its handler, and the variables after it: with a
/// selection its next step, and with an error that error and the variables as before.
pub open spec fn option_step_ends(
    answer: Result<OptionResult, CruiseError>,
    before: Variables,
    after: Variables,
    r: Result<Option<String>, CruiseError>,
) -> bool {
    match answer {
        Ok(result) => r == Ok::<Option<String>, CruiseError>(result.next_step) && after
            == after_option(before, result),
        Err(e) => r == Err::<Option<String>, CruiseError>(e) && after == before,
    }
}

/// Execute an option step, updating variable state and returning the chosen next step.
///
/// The handler is asked about the choices of the step, with the context. Its answer decides.
///
/// # Errors
///
/// Returns the handler's error; the variables are then as before.
pub fn run_option_step<H: OptionHandler>(
    vars: &mut VariableStore,
    step: &OptionStep,
    context: Option<&str>,
    handler: &H,
) -> (r: Result<Option<String>, CruiseError>)
    ensures
        exists|answer: Result<OptionResult, CruiseError>| #[trigger]
            option_step_ends(answer, old(vars)@, final(vars)@, r) && call_ensures(
                H::select_option,
                (handler, &step.choices, context),
                answer,
            ),
{
    let answer = handler.select_option(&step.choices, context);
    let ghost given = answer;
    let r = match answer {
        Ok(result) => Ok(finish_option(vars, result)),
        Err(e) => Err(e),
    };
    assert(option_step_ends(given, old(vars)@, vars@, r));
    r
}

// ---------------------------------------------------------------------------
// Laws
// ---------------------------------------------------------------------------

/// What a prompt said is what `{prev.output}` stands for in the next step, what a command
/// wrote to standard error is `{prev.stderr}`, and how it ended is `{prev.success}`.
pub proof fn law_results_reach_the_next_step(
    vars: Variables,
    prompt: PromptResult,
    command: CommandResult,
)
    ensures
        ({
            let a = Variables {
                prev_output: Some(prompt.output@),
                prev_stderr: Some(prompt.stderr@),
                prev_input: None,
                ..vars
            };
            let b = Variables {
                prev_success: Some(command.success),
                prev_stderr: Some(command.stderr@),
                prev_output: None,
                prev_input: None,
                ..vars
            };
            &&& a.lookup("prev.output"@) == Some(prompt.output@)
            &&& a.lookup("prev.stderr"@) == Some(prompt.stderr@)
            &&& a.lookup("prev.success"@) == vars.lookup("prev.success"@)
            &&& b.lookup("prev.success"@) == Some(crate::variable::bool_word(command.success))
            &&& b.lookup("prev.stderr"@) == Some(command.stderr@)
            &&& b.lookup("prev.output"@) is None
            &&& a.lookup("input"@) == vars.lookup("input"@)
            &&& b.lookup("input"@) == vars.lookup("input"@)
        }),
{
    reveal_strlit("input");
    reveal_strlit("prev.output");
    reveal_strlit("prev.input");
    reveal_strlit("prev.stderr");
    reveal_strlit("prev.success");
    assert("input"@.len() == 5);
    assert("prev.output"@.len() == 11);
    assert("prev.input"@.len() == 10);
    assert("prev.stderr"@.len() == 11);
    assert("prev.success"@.len() == 12);
    assert("prev.output"@[5] != "prev.stderr"@[5]);
}

} // verus!
