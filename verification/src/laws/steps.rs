//! What steps do: prompts, commands and choices, with the values of the run put in.

use vstd::prelude::*;

use crate::config::{OptionItem, StepConfig, StringOrVec};
use crate::error::CruiseError;
use crate::model::{has_placeholder_spec, select_command};
use crate::multiline_input::InputResult;
use crate::step::command::{
    is_rate_limited, lowercase, plan_retry, CommandNext, CommandResult,
    CommandRun, CommandStart, Retry,
};
use crate::step::option::{
    after_selection, after_text, first_index, labels, lemma_first_index, OptionNext, OptionResult,
    Selection,
};
use crate::step::prompt::{
    judge_end, next_prompt, prompt_invocation, Invocation, PromptEnd, PromptNext, PromptResult,
};
use crate::step::{CommandStep, OptionChoice, PromptStep, StepKind};
use crate::step_run::{
    finish_command, finish_option, finish_prompt, first_undefined, option_context_path,
    prompt_request, resolve_commands, resolve_instruction, take_input, Instruction, PromptRequest,
};
use crate::text::{contains, matches_at, replace, utf8_lossy, views};
use crate::variable::VariableStore;
use crate::workflow::CompiledWorkflow;

use super::texts::{law_other_texts_are_not_replaced, law_patterns_are_replaced};

verus! {

// ---------------------------------------------------------------------------
// Prompts
// ---------------------------------------------------------------------------

/// No argument of the command says where the model stands.
pub open spec fn has_no_place_for_a_model(command: Seq<String>) -> bool {
    forall|i: int| 0 <= i < command.len() ==> !contains((#[trigger] command[i])@, "{model}"@)
}

pub proof fn lemma_no_place(command: Seq<String>)
    ensures
        has_no_place_for_a_model(command) == !has_placeholder_spec(views(command)),
{
    if has_placeholder_spec(views(command)) {
        let i = choose|i: int|
            0 <= i < views(command).len() && crate::model::has_model_slot(
                #[trigger] views(command)[i],
            );
        assert(views(command)[i] == command[i]@);
    } else {
        assert forall|i: int| 0 <= i < command.len() implies !contains(
            (#[trigger] command[i])@,
            "{model}"@,
        ) by {
            assert(views(command)[i] == command[i]@);
        }
    }
}

/// A prompt step is called with its own model, and with that of the workflow where it has none. A
/// command that has no place for the model is called as it is, with the model beside it.
pub proof fn law_prompts_are_called_with_the_model_that_applies(
    vars: &VariableStore,
    compiled: &CompiledWorkflow,
    step: &PromptStep,
    request: PromptRequest,
)
    requires
        call_ensures(prompt_request, (vars, compiled, step), Ok(request)),
        has_no_place_for_a_model(compiled.command@),
    ensures
        request.command@ == compiled.command@,
        step.model matches Some(own) ==> (request.model_arg matches Some(m) && m@ == own@),
        step.model is None && compiled.model is None ==> request.model_arg is None,
        step.model is None ==> (compiled.model matches Some(all) ==> (request.model_arg matches Some(m)
            && m@ == all@)),
        vars@.expand(step.prompt@) == Ok::<Seq<char>, Seq<char>>(request.prompt@),
{
    lemma_no_place(compiled.command@);
}

/// A command with a place for the model gets the model of the step there, or else that of the
/// workflow, and nowhere else.
pub proof fn law_prompts_have_the_model_in_its_place(
    vars: &VariableStore,
    compiled: &CompiledWorkflow,
    step: &PromptStep,
    request: PromptRequest,
    model: String,
    i: int,
)
    requires
        call_ensures(prompt_request, (vars, compiled, step), Ok(request)),
        !has_no_place_for_a_model(compiled.command@),
        step.model == Some(model) || step.model is None && compiled.model == Some(model),
        0 <= i < compiled.command@.len(),
    ensures
        request.model_arg is None,
        request.command@.len() == compiled.command@.len(),
        !contains(compiled.command@[i]@, "{model}"@) ==> request.command@[i]@
            == compiled.command@[i]@,
        forall|at: int| #[trigger]
            matches_at(compiled.command@[i]@, "{model}"@, at) && (forall|k: int|
                0 <= k < compiled.command@[i]@.len() && k != at ==> !matches_at(
                    compiled.command@[i]@,
                    "{model}"@,
                    k,
                )) ==> request.command@[i]@ == compiled.command@[i]@.take(at) + model@
                + compiled.command@[i]@.skip(at + 7),
{
    lemma_no_place(compiled.command@);
    reveal_strlit("{model}");
    let arg = compiled.command@[i]@;
    let pat = "{model}"@;
    assert(views(request.command@).len() == views(compiled.command@).len());
    assert(views(request.command@)[i] == replace(views(compiled.command@)[i], pat, model@));
    if !contains(arg, pat) {
        law_other_texts_are_not_replaced(arg, pat, model@);
    }
    assert forall|at: int| #[trigger]
        matches_at(arg, pat, at) && (forall|k: int|
            0 <= k < arg.len() && k != at ==> !matches_at(arg, pat, k)) implies request.command@[i]@
        == arg.take(at) + model@ + arg.skip(at + 7) by {
        law_patterns_are_replaced(arg, pat, model@, at);
        let rest = arg.skip(at + 7);
        assert forall|k: int| !matches_at(rest, pat, k) by {
            if matches_at(rest, pat, k) {
                assert(arg.subrange(at + 7 + k, at + 7 + k + 7) =~= rest.subrange(k, k + 7));
                assert(matches_at(arg, pat, at + 7 + k));
            }
        }
        law_other_texts_are_not_replaced(rest, pat, model@);
    }
}

/// A command with a place for the model, but without a model, is called without that place.
pub proof fn law_without_a_model_its_place_is_left_out(
    command: &Vec<String>,
    r: (Vec<String>, Option<String>),
)
    requires
        call_ensures(select_command, (command, None::<&str>), r),
    ensures
        r.1 is None,
        has_no_place_for_a_model(r.0@),
{
    lemma_no_place(command@);
    lemma_no_place(r.0@);
    crate::model::law_no_model_leaves_no_placeholder(views(command@));
}

/// A prompt that names what is not defined is not sent.
pub proof fn law_prompts_need_their_variables(
    vars: &VariableStore,
    compiled: &CompiledWorkflow,
    step: &PromptStep,
    r: Result<PromptRequest, CruiseError>,
)
    requires
        call_ensures(prompt_request, (vars, compiled, step), r),
    ensures
        r is Ok <==> vars@.expand(step.prompt@) is Ok,
{
}

/// The program is the first word of the command; its arguments are the other words, in their order,
/// and then the model where there is one beside the command.
pub proof fn law_programs_get_the_words_of_the_command(
    command: &Vec<String>,
    model: Option<&str>,
    r: Result<Invocation, CruiseError>,
    i: int,
)
    requires
        call_ensures(prompt_invocation, (command, model), r),
    ensures
        r is Ok <==> command@.len() > 0,
        r matches Ok(call) ==> {
            let n = command@.len() - 1;
            &&& call.program@ == command@[0]@
            &&& 0 <= i < n ==> call.args@[i]@ == command@[i + 1]@
            &&& model is None ==> call.args@.len() == n
            &&& model matches Some(m) ==> call.args@.len() == n + 2 && call.args@[n]@ == "--model"@
                && call.args@[n + 1]@ == m@
        },
{
    if r is Ok {
        let call = r->Ok_0;
        let n = command@.len() - 1;
        assert(views(call.args@).len() == call.args@.len());
        if 0 <= i < n {
            assert(views(call.args@)[i] == views(command@).drop_first()[i]);
        }
        if model is Some {
            assert(views(call.args@)[n] == "--model"@);
            assert(views(call.args@)[n + 1] == model->0@);
        }
    }
}

/// A call that succeeded and says nothing of a rate limit gives what it wrote. One that the user
/// cancelled is no failure of its own, and is never made again. Any other one fails.
pub proof fn law_calls_are_judged_by_how_they_ended(
    end: PromptEnd,
    r: Result<PromptResult, CruiseError>,
)
    requires
        call_ensures(judge_end, (end,), r),
    ensures
        end is Cancelled <==> (r matches Err(CruiseError::Interrupted)),
        end matches PromptEnd::Exited { success, stdout, stderr, .. } ==> {
            let said = lowercase(utf8_lossy(stderr@));
            let limited = contains(said, "rate limit"@) || contains(said, "429"@) || contains(
                said,
                "too many requests"@,
            ) || contains(said, "ratelimit"@);
            &&& r is Ok <==> success && !limited
            &&& r matches Ok(out) ==> out.output@ == utf8_lossy(stdout@) && out.stderr@
                == utf8_lossy(stderr@)
            &&& r matches Err(e) ==> (e matches CruiseError::CommandError(m) && (stderr@.len() > 0
                && utf8_lossy(stderr@).len() > 0 ==> m@ == utf8_lossy(stderr@)))
        },
{
}

/// A call is made again exactly if it failed for a rate limit, was not cancelled, and was made again
/// less often than it may; that it was made again is counted.
pub proof fn law_calls_are_made_again_after_rate_limits(
    result: Result<PromptResult, CruiseError>,
    attempts: usize,
    max_retries: usize,
    r: PromptNext,
)
    requires
        call_ensures(next_prompt, (result, attempts, max_retries), r),
    ensures
        r matches PromptNext::RetryAfter(retry) ==> retry.attempts == attempts + 1 && retry.attempts
            <= max_retries,
        result matches Ok(out) ==> r == PromptNext::Finish(out),
        result matches Err(e) ==> {
            let said = lowercase(e.message_spec());
            let limited = contains(said, "rate limit"@) || contains(said, "429"@) || contains(
                said,
                "too many requests"@,
            ) || contains(said, "ratelimit"@);
            &&& r is RetryAfter <==> limited && !(e is Interrupted) && attempts < max_retries
            &&& !(r is RetryAfter) ==> r == PromptNext::Fail(e)
        },
{
}

/// The wait doubles from each time to the next, up to a minute; the first one takes two seconds.
pub proof fn law_waits_double_up_to_a_minute(
    max_retries: usize,
    attempts: usize,
    r: Option<Retry>,
    q: Option<Retry>,
)
    requires
        attempts + 1 < max_retries,
        call_ensures(plan_retry, (true, attempts, max_retries), r),
        call_ensures(plan_retry, (true, (attempts + 1) as usize, max_retries), q),
    ensures
        attempts == 0 ==> (r matches Some(first) && first.delay_secs == 2),
        r matches Some(a) && q matches Some(b) && b.delay_secs == (if 2 * a.delay_secs < 60 {
            2 * a.delay_secs
        } else {
            60
        }),
{
    let n = (attempts + 1) as nat;
    vstd::arithmetic::power2::lemma2_to64();
    vstd::arithmetic::power2::lemma_pow2_unfold(n + 1);
}

/// A text speaks of a rate limit in one of four ways, whatever the case of its letters.
pub proof fn law_rate_limits_are_known_by_their_words(stderr: &str, r: bool)
    requires
        call_ensures(is_rate_limited, (stderr,), r),
    ensures
        r <==> contains(lowercase(stderr@), "rate limit"@) || contains(lowercase(stderr@), "429"@)
            || contains(lowercase(stderr@), "too many requests"@) || contains(
            lowercase(stderr@),
            "ratelimit"@,
        ),
{
}

/// An instruction is put to the user where there is no input yet, and is only shown where there is.
pub proof fn law_instructions_ask_for_missing_input(
    vars: &VariableStore,
    step: &PromptStep,
    r: Result<Instruction, CruiseError>,
)
    requires
        call_ensures(resolve_instruction, (vars, step), r),
    ensures
        step.instruction is None <==> (r matches Ok(Instruction::Nothing)),
        r matches Ok(Instruction::Ask(_)) ==> vars@.input.len() == 0,
        r matches Ok(Instruction::Show(_)) ==> vars@.input.len() > 0,
        step.instruction matches Some(t) ==> (r is Err <==> vars@.expand(t@) is Err),
{
}

/// Input that the user submitted is the input of the run; input that they cancelled pauses it.
pub proof fn law_submitted_input_counts(
    vars: &mut VariableStore,
    input: InputResult,
    r: Result<(), CruiseError>,
)
    requires
        call_ensures(take_input, (vars, input), r),
    ensures
        input matches InputResult::Submitted(text) ==> r is Ok && final(vars)@.input == text@
            && final(vars)@.named == old(vars)@.named && final(vars)@.prev_output == old(
            vars,
        )@.prev_output,
        input is Cancelled ==> (r matches Err(CruiseError::StepPaused) && final(vars)@ == old(
            vars,
        )@),
{
}

// ---------------------------------------------------------------------------
// Values of the run
// ---------------------------------------------------------------------------

proof fn lemma_names_differ()
    ensures
        "input"@ != "prev.output"@ && "input"@ != "prev.input"@ && "input"@ != "prev.stderr"@
            && "input"@ != "prev.success"@,
        "prev.output"@ != "prev.input"@ && "prev.output"@ != "prev.stderr"@ && "prev.output"@
            != "prev.success"@,
        "prev.input"@ != "prev.stderr"@ && "prev.input"@ != "prev.success"@,
        "prev.stderr"@ != "prev.success"@,
        "true"@ != "false"@,
{
    reveal_strlit("input");
    reveal_strlit("prev.output");
    reveal_strlit("prev.input");
    reveal_strlit("prev.stderr");
    reveal_strlit("prev.success");
    reveal_strlit("true");
    reveal_strlit("false");
    assert("prev.output"@[5] != "prev.stderr"@[5]);
    assert("input"@.len() != "prev.input"@.len());
    assert("prev.stderr"@.len() != "prev.success"@.len());
    assert("true"@.len() != "false"@.len());
}

/// What a prompt wrote is what the next step finds as the previous output and error output. What was
/// typed before is gone, and the input and the outcome of the last command are kept.
pub proof fn law_answers_are_found_by_the_next_step(
    vars: &mut VariableStore,
    result: PromptResult,
    shown: String,
    after: &VariableStore,
    name: &str,
    r: Result<String, CruiseError>,
)
    requires
        call_ensures(finish_prompt, (vars, result), shown),
        *after == *final(vars),
        call_ensures(VariableStore::get_variable, (after, name), r),
    ensures
        shown@ == result.output@,
        name@ == "prev.output"@ ==> (r matches Ok(v) && v@ == result.output@),
        name@ == "prev.stderr"@ ==> (r matches Ok(v) && v@ == result.stderr@),
        name@ == "prev.input"@ ==> r is Err,
        name@ == "input"@ ==> (r matches Ok(v) && v@ == old(vars)@.input),
        name@ == "prev.success"@ ==> (r is Ok <==> old(vars)@.prev_success is Some),
{
    lemma_names_differ();
}

/// What a command came to is what the next step finds as the previous success and error output; it
/// has no output, and what was typed before is gone.
pub proof fn law_commands_are_found_by_the_next_step(
    vars: &mut VariableStore,
    result: CommandResult,
    success: bool,
    after: &VariableStore,
    name: &str,
    r: Result<String, CruiseError>,
)
    requires
        call_ensures(finish_command, (vars, result), success),
        *after == *final(vars),
        call_ensures(VariableStore::get_variable, (after, name), r),
    ensures
        success == result.success,
        name@ == "prev.success"@ ==> (r matches Ok(v) && v@ == (if result.success {
            "true"@
        } else {
            "false"@
        })),
        name@ == "prev.stderr"@ ==> (r matches Ok(v) && v@ == result.stderr@),
        name@ == "prev.output"@ || name@ == "prev.input"@ ==> r is Err,
        name@ == "input"@ ==> (r matches Ok(v) && v@ == old(vars)@.input),
{
    lemma_names_differ();
}

/// What the user typed at a choice is what the next step finds as the previous input, and where they
/// typed nothing it finds what was there. The step that the choice names comes next.
pub proof fn law_typed_texts_are_found_by_the_next_step(
    vars: &mut VariableStore,
    result: OptionResult,
    next: Option<String>,
    after: &VariableStore,
    name: &str,
    r: Result<String, CruiseError>,
)
    requires
        call_ensures(finish_option, (vars, result), next),
        *after == *final(vars),
        call_ensures(VariableStore::get_variable, (after, name), r),
    ensures
        next == result.next_step,
        name@ == "prev.input"@ ==> (result.text_input matches Some(t) ==> (r matches Ok(v) && v@
            == t@)),
        name@ == "prev.input"@ && result.text_input is None ==> (r is Ok <==> old(
            vars,
        )@.prev_input is Some),
        name@ == "prev.output"@ ==> r is Err,
        name@ == "input"@ ==> (r matches Ok(v) && v@ == old(vars)@.input),
{
    lemma_names_differ();
}

/// A value that was set under a name is found under it, unless the name has a meaning of its own;
/// what is found under other names stays.
pub proof fn law_set_values_are_found(
    vars: &mut VariableStore,
    name: &str,
    value: String,
    after: &VariableStore,
    other: &str,
    r: Result<String, CruiseError>,
)
    requires
        call_ensures(VariableStore::set_named_value, (vars, name, value), ()) || call_ensures(
            VariableStore::set_named_file,
            (vars, name, value),
            (),
        ),
        *after == *final(vars),
        call_ensures(VariableStore::get_variable, (after, other), r),
    ensures
        other@ == name@ && name@ != "input"@ && name@ != "prev.output"@ && name@ != "prev.input"@
            && name@ != "prev.stderr"@ && name@ != "prev.success"@ ==> (r matches Ok(v) && v@
            == value@),
        other@ != name@ ==> (match r {
            Ok(v) => old(vars)@.lookup(other@) == Some(v@),
            Err(_) => old(vars)@.lookup(other@) is None,
        }),
        other@ == "input"@ ==> (r matches Ok(v) && v@ == old(vars)@.input),
{
    lemma_names_differ();
}

/// A new run knows its input and nothing else.
pub proof fn law_new_runs_know_their_input(
    input: String,
    vars: VariableStore,
    store: &VariableStore,
    name: &str,
    r: Result<String, CruiseError>,
)
    requires
        call_ensures(VariableStore::new, (input,), vars),
        *store == vars,
        call_ensures(VariableStore::get_variable, (store, name), r),
    ensures
        name@ == "input"@ ==> (r matches Ok(v) && v@ == input@),
        name@ != "input"@ ==> (r matches Err(CruiseError::UndefinedVariable(n)) && n@ == name@),
{
    lemma_names_differ();
}

/// A template with one placeholder becomes the text around it with the value in its place; without a
/// value there is none.
pub proof fn law_placeholders_are_filled(
    vars: &VariableStore,
    template: &str,
    before: Seq<char>,
    name: &str,
    after: Seq<char>,
    value: Result<String, CruiseError>,
    r: Result<String, CruiseError>,
)
    requires
        template@ == before + (seq!['{'] + name@ + seq!['}']) + after,
        forall|i: int| 0 <= i < before.len() ==> before[i] != '{',
        forall|i: int| 0 <= i < name@.len() ==> name@[i] != '}',
        forall|i: int| 0 <= i < after.len() ==> after[i] != '{',
        call_ensures(VariableStore::get_variable, (vars, name), value),
        call_ensures(VariableStore::resolve, (vars, template), r),
    ensures
        value matches Ok(v) ==> (r matches Ok(text) && text@ == before + v@ + after),
        value is Err ==> (r matches Err(CruiseError::UndefinedVariable(n)) && n@ == name@),
{
    let slot = seq!['{'] + name@ + seq!['}'];
    crate::variable::law_plain_text_is_kept(vars@, before);
    crate::variable::law_plain_text_is_kept(vars@, after);
    crate::variable::law_placeholder_is_value(vars@, name@);
    lemma_plain_is_closed(before);
    lemma_slot_is_closed(name@);
    assert(template@ =~= before + (slot + after));
    crate::variable::law_expansion_of_concatenation(vars@, before, slot + after);
    crate::variable::law_expansion_of_concatenation(vars@, slot, after);
    if value is Ok {
        assert(before + (value->Ok_0@ + after) =~= before + value->Ok_0@ + after);
    }
}

/// A brace that is not closed stands for itself, with all that follows it.
pub proof fn law_open_braces_stand_for_themselves(
    vars: &VariableStore,
    before: Seq<char>,
    rest: Seq<char>,
    template: &str,
    r: Result<String, CruiseError>,
)
    requires
        call_ensures(VariableStore::resolve, (vars, template), r),
        forall|i: int| 0 <= i < before.len() ==> before[i] != '{',
        forall|i: int| 0 <= i < rest.len() ==> rest[i] != '}',
        template@ == before + (seq!['{'] + rest),
    ensures
        r matches Ok(text) && text@ == template@,
{
    lemma_plain_is_closed(before);
    crate::variable::law_plain_text_is_kept(vars@, before);
    crate::variable::law_expansion_of_concatenation(vars@, before, seq!['{'] + rest);
    let open = seq!['{'] + rest;
    lemma_never_closed(open, 1);
    assert(open[0] == '{');
    assert(vars@.expand(open) == Ok::<Seq<char>, Seq<char>>(open));
}

proof fn lemma_never_closed(s: Seq<char>, from: int)
    requires
        forall|i: int| 1 <= i < s.len() ==> s[i] != '}',
        1 <= from,
    ensures
        crate::variable::close_index(s, from) == s.len(),
    decreases s.len() - from,
{
    if from < s.len() {
        lemma_never_closed(s, from + 1);
    }
}

proof fn lemma_plain_is_closed(s: Seq<char>)
    requires
        forall|i: int| 0 <= i < s.len() ==> s[i] != '{',
    ensures
        crate::variable::braces_are_closed(s),
    decreases s.len(),
{
    if s.len() > 0 {
        lemma_plain_is_closed(s.skip(1));
    }
}

proof fn lemma_slot_is_closed(name: Seq<char>)
    requires
        forall|i: int| 0 <= i < name.len() ==> name[i] != '}',
    ensures
        crate::variable::braces_are_closed(seq!['{'] + name + seq!['}']),
{
    let t = seq!['{'] + name + seq!['}'];
    lemma_close_is_last(name, 1);
    assert(t[0] == '{');
    assert(t.skip(t.len() as int).len() == 0);
    assert(crate::variable::braces_are_closed(t.skip(t.len() as int)));
}

proof fn lemma_close_is_last(name: Seq<char>, from: int)
    requires
        forall|i: int| 0 <= i < name.len() ==> name[i] != '}',
        1 <= from <= name.len() + 1,
    ensures
        crate::variable::close_index(seq!['{'] + name + seq!['}'], from) == name.len() + 1,
    decreases name.len() + 1 - from,
{
    let t = seq!['{'] + name + seq!['}'];
    if from <= name.len() {
        assert(t[from] == name[from - 1]);
        lemma_close_is_last(name, from + 1);
    }
}

// ---------------------------------------------------------------------------
// Commands
// ---------------------------------------------------------------------------

proof fn lemma_first_undefined(
    templates: Seq<String>,
    vars: crate::variable::Variables,
    i: int,
)
    requires
        0 <= i < templates.len(),
        vars.expand(templates[i]@) is Err,
        forall|k: int| 0 <= k < i ==> vars.expand((#[trigger] templates[k])@) is Ok,
    ensures
        first_undefined(templates, vars) == Some(vars.expand(templates[i]@)->Err_0),
    decreases templates.len(),
{
    let front = templates.drop_last();
    if i < front.len() {
        assert(front[i] == templates[i]);
        assert forall|k: int| 0 <= k < i implies vars.expand((#[trigger] front[k])@) is Ok by {
            assert(front[k] == templates[k]);
        }
        lemma_first_undefined(front, vars, i);
    } else {
        lemma_all_defined(front, vars);
    }
}

proof fn lemma_all_defined(templates: Seq<String>, vars: crate::variable::Variables)
    requires
        forall|k: int| 0 <= k < templates.len() ==> vars.expand((#[trigger] templates[k])@) is Ok,
    ensures
        first_undefined(templates, vars) is None,
    decreases templates.len(),
{
    if templates.len() > 0 {
        let front = templates.drop_last();
        assert forall|k: int| 0 <= k < front.len() implies vars.expand(
            (#[trigger] front[k])@,
        ) is Ok by {
            assert(front[k] == templates[k]);
        }
        assert(vars.expand(templates[templates.len() - 1]@) is Ok);
        lemma_all_defined(front, vars);
    }
}

/// The commands of a step are run as they are written, in their order and with their variables put
/// in, if all are defined; else the first one that is not is named.
pub proof fn law_commands_come_in_their_order(
    vars: &VariableStore,
    step: &CommandStep,
    r: Result<Vec<String>, CruiseError>,
    i: int,
)
    requires
        call_ensures(resolve_commands, (vars, step), r),
        0 <= i < step.command@.len(),
    ensures
        r matches Ok(lines) ==> lines@.len() == step.command@.len() && vars@.expand(
            step.command@[i]@,
        ) == Ok::<Seq<char>, Seq<char>>(lines@[i]@),
        vars@.expand(step.command@[i]@) is Err && (forall|k: int|
            0 <= k < i ==> vars@.expand((#[trigger] step.command@[k])@) is Ok) ==> (r matches Err(
            CruiseError::UndefinedVariable(n),
        ) && vars@.expand(step.command@[i]@) == Err::<Seq<char>, Seq<char>>(n@)),
        (forall|k: int|
            0 <= k < step.command@.len() ==> vars@.expand((#[trigger] step.command@[k])@) is Ok)
            ==> r is Ok,
{
    if vars@.expand(step.command@[i]@) is Err && (forall|k: int|
        0 <= k < i ==> vars@.expand((#[trigger] step.command@[k])@) is Ok) {
        lemma_first_undefined(step.command@, vars@, i);
    }
    if forall|k: int|
        0 <= k < step.command@.len() ==> vars@.expand((#[trigger] step.command@[k])@) is Ok {
        lemma_all_defined(step.command@, vars@);
    }
}

/// Commands are run one after the other: a success leads to the next one or, at the last one, to the
/// end; a failure ends the list, unless it is a rate limit and the command may be tried again.
pub proof fn law_command_lists_stop_at_failures(
    run: &mut CommandRun,
    result: &CommandResult,
    r: CommandNext,
)
    requires
        old(run).index < old(run).total,
        call_ensures(CommandRun::feed, (run, result), r),
    ensures
        final(run).total == old(run).total,
        ({
            let said = lowercase(result.stderr@);
            let limited = contains(said, "rate limit"@) || contains(said, "429"@) || contains(
                said,
                "too many requests"@,
            ) || contains(said, "ratelimit"@);
            &&& result.success && old(run).index + 1 < old(run).total ==> r is Run && final(run).index
                == old(run).index + 1 && final(run).attempts == 0
            &&& result.success && old(run).index + 1 == old(run).total ==> r is Done
            &&& !result.success && limited && old(run).attempts < old(run).max_retries ==> r is RetryAfter
                && final(run).index == old(run).index && final(run).attempts == old(run).attempts + 1
            &&& !result.success && !(limited && old(run).attempts < old(run).max_retries) ==> r is Done
        }),
{
}

/// A list of commands begins with its first one, and has succeeded where there is none.
pub proof fn law_command_lists_begin_at_the_front(total: usize, max_retries: usize, r: CommandStart)
    requires
        call_ensures(CommandRun::begin, (total, max_retries), r),
    ensures
        total == 0 ==> (r matches CommandStart::Nothing(result) && result.success),
        total > 0 ==> (r matches CommandStart::Run(run) && run.index == 0 && run.attempts == 0
            && run.total == total && run.max_retries == max_retries),
{
}

// ---------------------------------------------------------------------------
// Choices and kinds
// ---------------------------------------------------------------------------

/// The label that the user selects stands for the first choice with that label: a selector leads to
/// the step that it names, a text input asks for a text first.
pub proof fn law_labels_stand_for_the_first_choice(
    choices: &Vec<OptionChoice>,
    label: String,
    r: Result<OptionNext, CruiseError>,
    i: int,
)
    requires
        call_ensures(after_selection, (choices, Selection::Label(label)), r),
        0 <= i < choices@.len(),
        choices@[i] matches OptionChoice::Selector { label: l, .. } ==> l@ == label@,
        choices@[i] matches OptionChoice::TextInput { label: l, .. } ==> l@ == label@,
        forall|k: int|
            0 <= k < i ==> (match (#[trigger] choices@[k]) {
                OptionChoice::Selector { label: l, .. } => l@ != label@,
                OptionChoice::TextInput { label: l, .. } => l@ != label@,
            }),
    ensures
        choices@[i] matches OptionChoice::Selector { next, .. } ==> (r matches Ok(OptionNext::Done(done))
            && done.next_step == next && done.text_input is None),
        choices@[i] matches OptionChoice::TextInput { next, .. } ==> (r matches Ok(
            OptionNext::AskText { label: asked, next: then_step },
        ) && asked@ == label@ && then_step == next),
{
    let all = labels(choices@);
    lemma_first_index(all, label@);
    let at = first_index(all, label@);
    assert(all[i] == label@);
    if at < i {
        assert(all[at] == choices@[at].label_spec());
    }
    assert(at <= i);
}

/// A text that the user typed goes with the step that its choice names.
pub proof fn law_typed_texts_go_with_their_step(
    next: Option<String>,
    input: InputResult,
    r: Result<OptionResult, CruiseError>,
)
    requires
        call_ensures(after_text, (next, input), r),
    ensures
        input matches InputResult::Submitted(text) ==> (r matches Ok(done) && done.next_step == next
            && done.text_input == Some(text)),
        input is Cancelled ==> (r matches Err(CruiseError::StepPaused)),
{
}

/// The context of a choice is the file that the step names, with variables put in.
pub proof fn law_contexts_are_the_named_files(
    vars: &VariableStore,
    step: &crate::step::OptionStep,
    r: Result<Option<String>, CruiseError>,
)
    requires
        call_ensures(option_context_path, (vars, step), r),
    ensures
        step.plan is None ==> (r matches Ok(None)),
        step.plan matches Some(t) ==> (match r {
            Ok(Some(path)) => vars@.expand(t@) == Ok::<Seq<char>, Seq<char>>(path@),
            Ok(None) => false,
            Err(_) => vars@.expand(t@) is Err,
        }),
{
}

/// A step with a prompt is a prompt, whatever else it has; else one with choices is a choice; else
/// one with commands is a command. What it does is what is written in it.
pub proof fn law_steps_are_what_is_written(
    config: &StepConfig,
    r: Result<StepKind, CruiseError>,
    i: int,
)
    requires
        call_ensures(StepKind::of, (config,), r),
    ensures
        config.prompt matches Some(prompt) ==> (r matches Ok(StepKind::Prompt(step)) && step.prompt
            == prompt && step.model == config.model && step.instruction == config.instruction),
        config.prompt is None ==> (config.option matches Some(items) ==> {
            &&& r matches Ok(kind) ==> kind is Option
            &&& r matches Ok(StepKind::Option(step)) ==> step.plan == config.plan
                && step.choices@.len() == items@.len() && (0 <= i < items@.len() ==> (match step.choices@[i] {
                OptionChoice::Selector { label, next } => items@[i].selector == Some(label) && next
                    == items@[i].next && items@[i].text_input is None,
                OptionChoice::TextInput { label, next } => items@[i].text_input == Some(label)
                    && next == items@[i].next && items@[i].selector is None,
            }))
        }),
        config.prompt is None && config.option is None ==> (config.command matches Some(c) ==> (match c {
            StringOrVec::Single(line) => r matches Ok(StepKind::Command(step)) && step.command@
                == seq![line],
            StringOrVec::Multiple(lines) => if lines@.len() > 0 {
                r matches Ok(StepKind::Command(step)) && step.command@ == lines@
            } else {
                r is Err
            },
        })),
        config.prompt is None && config.option is None && config.command is None ==> r is Err,
{
    if config.prompt is None && config.option is Some && r is Ok {
        lemma_good_items(config.option->0@, i);
    }
}

proof fn lemma_good_items(items: Seq<OptionItem>, i: int)
    requires
        crate::step::items_fault(items) is None,
    ensures
        0 <= i < items.len() ==> crate::step::item_fault(items[i]) is None,
    decreases items.len(),
{
    if items.len() > 0 {
        lemma_good_items(items.drop_last(), i);
        if i < items.len() - 1 && 0 <= i {
            assert(items.drop_last()[i] == items[i]);
        }
    }
}

} // verus!
