//! Kinds of steps, and the smaller operations on the way through a workflow.

use vstd::prelude::*;

use crate::config::{OptionItem, StepConfig, StringOrVec};
use crate::engine::{
    check_group_retry_skip, group_snapshot_key, nfc_snapshot_key, nochange_snapshot_key,
    resolve_if_next, ExecutionResult, Jump, LoopState, Skipped, StepReport,
};
use crate::error::CruiseError;
use crate::file_tracker::{FileTracker, Snapshot};
use crate::model::{resolve_command_with_model, without_model};
use crate::multiline_input::InputResult;
use crate::names::{distinct_names, lemma_position, NameMap};
use crate::step::command::{CommandNext, CommandRun};
use crate::step::option::{empty_menu, option_labels, position_of, OptionResult};
use crate::step::prompt::{build_command_args, follow_prompt, judge_exit, PromptNext, PromptResult};
use crate::step::{item_fault, items_fault, items_to_choices, kind_label, OptionChoice, StepKind};
use crate::text::{contains, views};
use crate::workflow::CompiledWorkflow;

verus! {

// ---------------------------------------------------------------------------
// Kinds
// ---------------------------------------------------------------------------

/// A step with a prompt is a prompt, whatever else it has; one with choices and no prompt is a
/// choice; one with commands and neither is a command. What it does is what it says.
pub proof fn law_prompts_come_before_choices_and_commands(
    config: StepConfig,
    r: Result<StepKind, CruiseError>,
)
    requires
        call_ensures(StepKind::try_from, (config,), r),
    ensures
        config.prompt matches Some(text) ==> (r matches Ok(StepKind::Prompt(p)) && p.prompt@ == text@
            && p.model == config.model && p.instruction == config.instruction),
        config.prompt is None && config.option is Some && r is Ok ==> (
        r matches Ok(StepKind::Option(o)) && o.choices@.len() == config.option->0@.len() && o.plan
            == config.plan),
        config.prompt is None && config.option is None ==> (config.command matches Some(c) ==> {
            &&& c matches StringOrVec::Single(s) ==> (r matches Ok(StepKind::Command(k))
                && k.command@ == seq![s])
            &&& c matches StringOrVec::Multiple(v) ==> (v@.len() > 0 ==> (
            r matches Ok(StepKind::Command(k)) && k.command@ == v@)) && (v@.len() == 0 ==> r is Err)
        }),
        config.prompt is None && config.option is None && config.command is None ==> r is Err,
{
}

proof fn lemma_items_fault(items: Seq<OptionItem>)
    ensures
        items_fault(items) is None <==> (forall|i: int|
            0 <= i < items.len() ==> item_fault(#[trigger] items[i]) is None),
    decreases items.len(),
{
    if items.len() > 0 {
        let front = items.drop_last();
        lemma_items_fault(front);
        if items_fault(items) is None {
            assert forall|i: int| 0 <= i < items.len() implies item_fault(
                #[trigger] items[i],
            ) is None by {
                if i < front.len() {
                    assert(items[i] == front[i]);
                }
            }
        } else if forall|i: int| 0 <= i < items.len() ==> item_fault(#[trigger] items[i]) is None {
            assert(item_fault(items[items.len() - 1]) is None);
            assert forall|i: int| 0 <= i < front.len() implies item_fault(
                #[trigger] front[i],
            ) is None by {
                assert(front[i] == items[i]);
            }
        }
    }
}

/// Choices are valid exactly if each is either something to select or something to type, and they
/// keep their order, their labels and the steps they lead to.
pub proof fn law_choices_are_selected_or_typed(
    items: &Vec<OptionItem>,
    r: Result<Vec<OptionChoice>, CruiseError>,
    i: int,
)
    requires
        call_ensures(items_to_choices, (items,), r),
    ensures
        r is Ok <==> (forall|k: int|
            0 <= k < items@.len() ==> ((#[trigger] items@[k]).selector is Some)
                != (items@[k].text_input is Some)),
        r matches Ok(choices) ==> {
            &&& choices@.len() == items@.len()
            &&& 0 <= i < items@.len() ==> {
                &&& items@[i].selector matches Some(text) ==> choices@[i] == (
                OptionChoice::Selector { label: text, next: items@[i].next })
                &&& items@[i].text_input matches Some(text) ==> choices@[i] == (
                OptionChoice::TextInput { label: text, next: items@[i].next })
            }
        },
{
    lemma_items_fault(items@);
    if r is Ok {
        assert forall|k: int| 0 <= k < items@.len() implies ((#[trigger] items@[k]).selector is Some)
            != (items@[k].text_input is Some) by {
            assert(item_fault(items@[k]) is None);
        }
        if 0 <= i < items@.len() {
            assert(item_fault(items@[i]) is None);
        }
    } else {
        let k = choose|k: int| 0 <= k < items@.len() && !(item_fault(#[trigger] items@[k]) is None);
        assert((items@[k].selector is Some) == (items@[k].text_input is Some));
    }
}

/// A step is called by its kind.
pub proof fn law_steps_are_called_by_their_kind(
    config: StepConfig,
    kind: StepKind,
    r: &'static str,
)
    requires
        call_ensures(StepKind::try_from, (config,), Ok(kind)),
        call_ensures(kind_label, (&config,), r),
    ensures
        kind is Prompt ==> r@ == "prompt"@,
        kind is Command ==> r@ == "command"@,
        kind is Option ==> r@ == "option"@,
{
}

/// The labels of choices are shown in their order; a choice is found by the first label that it has.
pub proof fn law_labels_stand_for_their_choice(
    choices: &Vec<OptionChoice>,
    shown: Vec<String>,
    all: &Vec<String>,
    wanted: &str,
    r: Option<usize>,
    i: int,
)
    requires
        call_ensures(option_labels, (choices,), shown),
        call_ensures(position_of, (all, wanted), r),
    ensures
        shown@.len() == choices@.len(),
        0 <= i < choices@.len() ==> (match choices@[i] {
            OptionChoice::Selector { label, next } => shown@[i]@ == label@,
            OptionChoice::TextInput { label, next } => shown@[i]@ == label@,
        }),
        r is Some <==> exists|k: int| 0 <= k < all@.len() && (#[trigger] all@[k])@ == wanted@,
        r matches Some(k) ==> all@[k as int]@ == wanted@ && (0 <= i < k ==> all@[i]@ != wanted@),
{
    assert(views(shown@).len() == shown@.len());
    if 0 <= i < choices@.len() {
        assert(views(shown@)[i] == shown@[i]@);
    }
    let names = views(all@);
    crate::step::option::lemma_first_index(names, wanted@);
    let k = crate::step::option::first_index(names, wanted@);
    if k < all@.len() {
        assert(all@[k]@ == names[k]);
    } else if exists|j: int| 0 <= j < all@.len() && (#[trigger] all@[j])@ == wanted@ {
        let j = choose|j: int| 0 <= j < all@.len() && (#[trigger] all@[j])@ == wanted@;
        assert(names[j] == wanted@);
    }
    if 0 <= i < k && i < all@.len() {
        assert(names[i] == all@[i]@);
    }
}

/// A menu without choices is answered with nothing; any other one is shown.
pub proof fn law_empty_menus_are_not_shown(choices: &Vec<OptionChoice>, r: Option<OptionResult>)
    requires
        call_ensures(empty_menu, (choices,), r),
    ensures
        r is Some <==> choices@.len() == 0,
        r matches Some(a) ==> a.next_step is None && a.text_input is None,
{
}

// ---------------------------------------------------------------------------
// Programs
// ---------------------------------------------------------------------------

/// A model is named behind the words of the command; without one the command is as it is.
pub proof fn law_models_are_named_behind_the_command(
    command: &Vec<String>,
    model: Option<&str>,
    r: Vec<String>,
    i: int,
)
    requires
        call_ensures(build_command_args, (command, model), r),
    ensures
        0 <= i < command@.len() ==> r@[i]@ == command@[i]@,
        model is None ==> r@.len() == command@.len(),
        model matches Some(m) ==> r@.len() == command@.len() + 2 && r@[command@.len() as int]@
            == "--model"@ && r@[command@.len() + 1int]@ == m@,
{
    assert(views(r@).len() == r@.len());
    if 0 <= i < command@.len() {
        assert(views(r@)[i] == r@[i]@);
    }
    if model is Some {
        assert(views(r@)[command@.len() as int] == r@[command@.len() as int]@);
        assert(views(r@)[command@.len() + 1int] == r@[command@.len() + 1int]@);
    }
}

/// Without a model the words that stand before and behind its place, and have none in them, stay in
/// their order.
pub proof fn law_words_without_a_place_stay(command: &Vec<String>, r: Vec<String>)
    requires
        call_ensures(resolve_command_with_model, (command, None::<&str>), r),
        forall|i: int|
            0 <= i < command@.len() ==> !contains((#[trigger] command@[i])@, "{model}"@)
                && !crate::text::starts_with(command@[i]@, "--model="@),
    ensures
        views(r@) == views(command@),
{
    assert forall|i: int| 0 <= i < views(command@).len() implies !contains(
        #[trigger] views(command@)[i],
        "{model}"@,
    ) && !crate::text::starts_with(views(command@)[i], "--model="@) by {
        assert(views(command@)[i] == command@[i]@);
    }
    lemma_words_stay(views(command@));
}

proof fn lemma_words_stay(command: Seq<Seq<char>>)
    requires
        forall|i: int|
            0 <= i < command.len() ==> !contains(#[trigger] command[i], "{model}"@)
                && !crate::text::starts_with(command[i], "--model="@),
    ensures
        without_model(command) == command,
    decreases command.len(),
{
    if command.len() > 0 {
        let rest = command.skip(1);
        assert forall|i: int| 0 <= i < rest.len() implies !contains(#[trigger] rest[i], "{model}"@)
            && !crate::text::starts_with(rest[i], "--model="@) by {
            assert(rest[i] == command[i + 1]);
        }
        lemma_words_stay(rest);
        assert(!contains(command[0], "{model}"@));
        if command.len() > 1 {
            assert(!contains(command[1], "{model}"@));
        }
        assert(seq![command[0]] + rest =~= command);
    }
}

/// An option `--model` with the place of the model behind it is left out where there is no model, and
/// nothing else is.
pub proof fn law_an_option_without_its_model_is_left_out(
    program: Seq<char>,
    place: Seq<char>,
    last: Seq<char>,
    command: &Vec<String>,
    r: Vec<String>,
)
    requires
        call_ensures(resolve_command_with_model, (command, None::<&str>), r),
        views(command@) == seq![program, "--model"@, place, last],
        contains(place, "{model}"@),
        program != "--model"@ && !contains(program, "{model}"@) && !crate::text::starts_with(
            program,
            "--model="@,
        ),
        last != "--model"@ && !contains(last, "{model}"@) && !crate::text::starts_with(
            last,
            "--model="@,
        ),
    ensures
        views(r@) == seq![program, last],
{
    let all = views(command@);
    reveal_with_fuel(without_model, 5);
    assert(all.skip(1) =~= seq!["--model"@, place, last]);
    assert(all.skip(1).skip(2) =~= seq![last]);
    assert(seq![last].skip(1) =~= Seq::<Seq<char>>::empty());
    assert(without_model(seq![last]) =~= seq![last]);
    assert(without_model(all.skip(1)) == seq![last]);
    assert(seq![program] + seq![last] =~= seq![program, last]);
}

/// A word that gives the model in itself is left out where there is no model.
pub proof fn law_words_that_give_the_model_are_left_out(
    program: Seq<char>,
    given: Seq<char>,
    command: &Vec<String>,
    r: Vec<String>,
)
    requires
        call_ensures(resolve_command_with_model, (command, None::<&str>), r),
        views(command@) == seq![program, given],
        contains(given, "{model}"@) || crate::text::starts_with(given, "--model="@),
        given != "--model"@,
        program != "--model"@ && !contains(program, "{model}"@) && !crate::text::starts_with(
            program,
            "--model="@,
        ),
    ensures
        views(r@) == seq![program],
{
    let all = views(command@);
    reveal_with_fuel(without_model, 3);
    assert(all.skip(1) =~= seq![given]);
    assert(all.skip(1).skip(1) =~= Seq::<Seq<char>>::empty());
    assert(without_model(all.skip(1)) =~= Seq::<Seq<char>>::empty());
    assert(seq![program] + Seq::<Seq<char>>::empty() =~= seq![program]);
}

/// A call succeeds exactly if the program did and says nothing of a rate limit, and gives what it
/// wrote. A program that failed without a word is spoken of by its code.
pub proof fn law_exits_are_judged(
    success: bool,
    code: Option<i32>,
    stdout: String,
    stderr: String,
    limited: bool,
    r: Result<PromptResult, CruiseError>,
)
    requires
        call_ensures(judge_exit, (success, code, stdout, stderr, limited), r),
    ensures
        r is Ok <==> success && !limited,
        r matches Ok(out) ==> out.output@ == stdout@ && out.stderr@ == stderr@,
        r matches Err(e) ==> (e matches CruiseError::CommandError(m) && (stderr@.len() > 0 ==> m@
            == stderr@)),
{
}

/// A call that failed for a rate limit is made again as often as it may be.
pub proof fn law_limited_calls_are_made_again(
    result: Result<PromptResult, CruiseError>,
    limited: bool,
    attempts: usize,
    max_retries: usize,
    r: PromptNext,
)
    requires
        call_ensures(follow_prompt, (result, limited, attempts, max_retries), r),
    ensures
        result matches Ok(out) ==> r == PromptNext::Finish(out),
        r is RetryAfter <==> result is Err && limited && attempts < max_retries,
        r matches PromptNext::RetryAfter(retry) ==> retry.attempts == attempts + 1,
{
}

/// Commands are run in their order, each after the one before it succeeded. One that failed is run
/// again only for a rate limit, and as often as it may be; otherwise it is the last one.
pub proof fn law_commands_follow_one_another(
    run: &mut CommandRun,
    success: bool,
    limited: bool,
    r: CommandNext,
)
    requires
        old(run).wf() && old(run).index < old(run).total,
        call_ensures(CommandRun::follow, (run, success, limited), r),
    ensures
        success && old(run).index + 1 < old(run).total ==> r is Run && final(run).index == old(run).index + 1 && final(run).attempts == 0,
        success && old(run).index + 1 == old(run).total ==> r is Done,
        !success ==> final(run).index == old(run).index && !(r is Run),
        !success ==> (r is RetryAfter <==> limited && old(run).attempts < old(run).max_retries),
        r is RetryAfter ==> final(run).attempts == old(run).attempts + 1,
        final(run).total == old(run).total && final(run).max_retries == old(run).max_retries,
{
}

// ---------------------------------------------------------------------------
// Jumps
// ---------------------------------------------------------------------------

/// Files that changed lead to the target of the step, before that of its group; the group is counted
/// only where its own target is taken. Without changes nothing is taken.
pub proof fn law_the_target_of_the_step_comes_first(
    compiled: &CompiledWorkflow,
    tracker: &FileTracker,
    current: &str,
    target: Option<&String>,
    counts: &mut NameMap<usize>,
    now: &Snapshot,
    changed: bool,
    r: Option<Jump>,
)
    requires
        call_ensures(FileTracker::has_files_changed, (tracker, current, now), changed),
        call_ensures(resolve_if_next, (compiled, tracker, current, target, counts, now), r),
    ensures
        changed && target is Some ==> (r matches Some(jump) && jump.target@ == target->0@) && final(counts)@ == old(counts)@,
        !compiled.step_to_invocation@.dom().contains(current@) && !(changed && target is Some)
            ==> r is None && final(counts)@ == old(counts)@,
        r is None ==> final(counts)@ == old(counts)@,
{
}

/// A group is passed over exactly at its first step, once it was run again as often as it may be; the
/// run goes on behind its last step, and all of its steps count as skipped.
pub proof fn law_groups_that_may_not_be_run_again_are_passed_over(
    compiled: &CompiledWorkflow,
    current: &str,
    state: &mut LoopState,
    r: Option<Skipped>,
    g: Seq<char>,
    last: int,
)
    requires
        call_ensures(check_group_retry_skip, (compiled, current, state), r),
        compiled.step_to_invocation@.dom().contains(current@),
        compiled.step_to_invocation@[current@]@ == g,
        compiled.invocations@.dom().contains(g),
        distinct_names(compiled.list()),
        0 <= last < compiled.list().len() - 1,
        compiled.list()[last].0 == compiled.invocations@[g].last_step@,
    ensures
        ({
            let meta = compiled.invocations@[g];
            let times: int = if old(state)@.groups.dom().contains(g) {
                old(state)@.groups[g] as int
            } else {
                0
            };
            &&& r is Some <==> meta.first_step@ == current@ && (meta.max_retries matches Some(max)
                && times >= max)
            &&& r matches Some(skip) ==> final(state)@.skipped == old(state)@.skipped
                + meta.step_count && final(state)@.run == old(state)@.run && (
            skip.outcome.next() == Some(compiled.list()[last + 1].0))
            &&& r is None ==> final(state)@ == old(state)@
        }),
{
    lemma_position(compiled.list(), last);
}

/// The snapshots of a step, of its group and of its conditions do not stand in for one another, and
/// neither do those of different steps.
pub proof fn law_snapshots_are_kept_apart(
    a: &str,
    b: &str,
    group: String,
    nochange: String,
    nfc: String,
    other_group: String,
    other_nochange: String,
    other_nfc: String,
)
    requires
        call_ensures(group_snapshot_key, (a,), group),
        call_ensures(nochange_snapshot_key, (a,), nochange),
        call_ensures(nfc_snapshot_key, (a,), nfc),
        call_ensures(group_snapshot_key, (b,), other_group),
        call_ensures(nochange_snapshot_key, (b,), other_nochange),
        call_ensures(nfc_snapshot_key, (b,), other_nfc),
    ensures
        group@ != other_nochange@ && group@ != other_nfc@ && nochange@ != other_nfc@,
        a@ != b@ ==> group@ != other_group@ && nochange@ != other_nochange@ && nfc@ != other_nfc@,
{
    reveal_strlit("__group__");
    reveal_strlit("__nochange__");
    reveal_strlit("__nfc__");
    assert(group@[2] == 'g' && other_nochange@[2] == 'n' && other_nfc@[2] == 'n');
    assert(nochange@[3] == 'o' && other_nfc@[3] == 'f');
    if a@ != b@ {
        assert(group@.skip(9) =~= a@ && other_group@.skip(9) =~= b@);
        assert(nochange@.skip(12) =~= a@ && other_nochange@.skip(12) =~= b@);
        assert(nfc@.skip(7) =~= a@ && other_nfc@.skip(7) =~= b@);
    }
}

/// A command that failed is reported as failed, and its step goes on as it would otherwise.
pub proof fn law_failed_commands_are_reported(success: bool, r: StepReport, prompt: StepReport)
    requires
        call_ensures(StepReport::of_command, (success,), r),
        call_ensures(StepReport::of_prompt, (), prompt),
    ensures
        r.failed <==> !success,
        r.option_next is None,
        !prompt.failed && prompt.option_next is None,
{
}

/// A run begins with nothing counted, and its result is what was counted.
pub proof fn law_results_are_what_was_counted(
    compiled: &CompiledWorkflow,
    begun: LoopState,
    state: &LoopState,
    r: ExecutionResult,
    first: ExecutionResult,
)
    requires
        call_ensures(LoopState::new, (compiled,), begun),
        call_ensures(LoopState::result, (&begun,), first),
        call_ensures(LoopState::result, (state,), r),
    ensures
        first.run == 0 && first.skipped == 0 && first.failed == 0,
        r.run == state@.run && r.skipped == state@.skipped && r.failed == state@.failed,
{
}

/// Input that was cancelled pauses the step.
pub proof fn law_cancelled_input_pauses(input: InputResult, r: Result<String, CruiseError>)
    requires
        call_ensures(InputResult::into_result, (input,), r),
    ensures
        input matches InputResult::Submitted(text) ==> (r matches Ok(t) && t@ == text@),
        input is Cancelled ==> (r matches Err(CruiseError::StepPaused)),
{
}

} // verus!
