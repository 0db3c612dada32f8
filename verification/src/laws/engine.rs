//! What runs of workflows keep to, from the files before a step to the step that follows it.

use vstd::prelude::*;

use crate::config::{SkipCondition, StepConfig, WorkflowConfig};
use crate::engine::{
    announced_step, begin_step, finish_step, get_next_step, group_snapshot_key, needs_scan_after,
    nfc_snapshot_key, nochange_key, resolve_env, take_pre_snapshots, Begin, Finished, LoopState,
    Progress, StepPlan, StepReport,
};
use crate::error::CruiseError;
use crate::file_tracker::{FileTracker, Snapshot};
use crate::names::{distinct_names, lemma_position, NameMap};
use crate::step::OptionStep;
use crate::variable::VariableStore;
use crate::workflow::{compile, CompiledWorkflow, InvocationMeta};

verus! {

/// The step at `i` has the given name, which no other step has.
pub open spec fn is_step(c: CompiledWorkflow, name: Seq<char>, i: int) -> bool {
    &&& distinct_names(c.list())
    &&& 0 <= i < c.list().len()
    &&& c.list()[i].0 == name
}

/// How often a run went from one step to another.
pub open spec fn times(s: Progress, from: Seq<char>, to: Seq<char>) -> int {
    if s.edges.dom().contains((from, to)) {
        s.edges[(from, to)] as int
    } else {
        0
    }
}

/// The run goes from a step to another one, unless it went there as often as it may.
pub open spec fn goes(
    r: Result<Finished, CruiseError>,
    s: Progress,
    from: Seq<char>,
    to: Seq<char>,
    max_retries: usize,
) -> bool {
    if times(s, from, to) < max_retries {
        r matches Ok(done) && done.outcome.next() == Some(to)
    } else {
        r matches Err(CruiseError::LoopProtection { from: a, to: b, max_retries: m, .. }) && a@
            == from && b@ == to && m == max_retries
    }
}

/// The run ends after a step.
pub open spec fn is_over(r: Result<Finished, CruiseError>) -> bool {
    r matches Ok(done) && done.outcome.next() is None
}

/// Neither what the step did to the files nor its group decides what follows it.
pub open spec fn files_do_not_decide(
    c: CompiledWorkflow,
    name: Seq<char>,
    step: StepConfig,
    changed: bool,
) -> bool {
    &&& !c.step_to_invocation@.dom().contains(name)
    &&& !step.fail_if_no_file_changes
    &&& match step.if_condition {
        None => true,
        Some(cond) => match cond.no_file_changes {
            None => cond.file_changed is None || !changed,
            Some(rule) => changed || !rule.fail && !rule.retry,
        },
    }
}

/// A step that names a target for changed files leads to it where files differ from what they
/// were before the step, whatever the step names as its next, and whatever the user chose.
pub proof fn law_changed_files_lead_to_the_target(
    compiled: &CompiledWorkflow,
    i: int,
    current: &str,
    tracker: &mut FileTracker,
    before: &Snapshot,
    keys: (Option<String>, Option<String>),
    watched: &FileTracker,
    state: &mut LoopState,
    report: StepReport,
    max_retries: usize,
    after: &Snapshot,
    r: Result<Finished, CruiseError>,
    target: String,
)
    requires
        is_step(*compiled, current@, i),
        old(state)@.sound() && old(state)@.run < usize::MAX,
        call_ensures(take_pre_snapshots, (compiled, tracker, current, before), keys),
        *watched == *final(tracker),
        call_ensures(
            finish_step,
            (compiled, watched, current, state, report, max_retries, after),
            r,
        ),
        compiled.list()[i].1.if_condition matches Some(cond) && cond.file_changed == Some(target)
            && cond.no_file_changes is None,
        !compiled.list()[i].1.fail_if_no_file_changes,
        before@ != after@,
    ensures
        goes(r, old(state)@, current@, target@, max_retries),
        r matches Ok(done) ==> done.notice matches Some(m) && m@ == "files changed, jumping to: "@
            + target@,
        final(state)@.groups == old(state)@.groups,
{
    lemma_position(compiled.list(), i);
}

/// A step whose rule is to run again where it changed no file runs again, whatever the step names
/// as its next, and whatever the user chose.
pub proof fn law_idle_steps_run_again(
    compiled: &CompiledWorkflow,
    i: int,
    current: &str,
    tracker: &mut FileTracker,
    before: &Snapshot,
    keys: (Option<String>, Option<String>),
    watched: &FileTracker,
    state: &mut LoopState,
    report: StepReport,
    max_retries: usize,
    after: &Snapshot,
    r: Result<Finished, CruiseError>,
)
    requires
        is_step(*compiled, current@, i),
        old(state)@.sound() && old(state)@.run < usize::MAX,
        call_ensures(take_pre_snapshots, (compiled, tracker, current, before), keys),
        *watched == *final(tracker),
        call_ensures(
            finish_step,
            (compiled, watched, current, state, report, max_retries, after),
            r,
        ),
        compiled.list()[i].1.if_condition matches Some(cond) && cond.no_file_changes matches Some(rule)
            && rule.retry && !rule.fail,
        !compiled.list()[i].1.fail_if_no_file_changes,
        !compiled.step_to_invocation@.dom().contains(current@),
        before@ == after@,
    ensures
        goes(r, old(state)@, current@, current@, max_retries),
{
    lemma_position(compiled.list(), i);
}

/// A step whose rule is to fail where it changed no file fails exactly then.
pub proof fn law_idle_steps_fail(
    compiled: &CompiledWorkflow,
    i: int,
    current: &str,
    tracker: &mut FileTracker,
    before: &Snapshot,
    keys: (Option<String>, Option<String>),
    watched: &FileTracker,
    state: &mut LoopState,
    report: StepReport,
    max_retries: usize,
    after: &Snapshot,
    r: Result<Finished, CruiseError>,
    rule: crate::config::NoFileChanges,
)
    requires
        is_step(*compiled, current@, i),
        old(state)@.sound() && old(state)@.run < usize::MAX,
        call_ensures(take_pre_snapshots, (compiled, tracker, current, before), keys),
        *watched == *final(tracker),
        call_ensures(
            finish_step,
            (compiled, watched, current, state, report, max_retries, after),
            r,
        ),
        compiled.list()[i].1.if_condition matches Some(cond) && cond.no_file_changes == Some(rule)
            && rule.fail,
        !compiled.list()[i].1.fail_if_no_file_changes,
    ensures
        before@ == after@ ==> (r matches Err(CruiseError::StepMadeNoFileChanges(name)) && name@
            == current@),
        before@ != after@ ==> !(r matches Err(CruiseError::StepMadeNoFileChanges(_))),
{
    lemma_position(compiled.list(), i);
}

/// A step that must change files fails exactly where it did not: the files are those from before
/// its first attempt.
pub proof fn law_steps_must_change_files(
    compiled: &CompiledWorkflow,
    i: int,
    current: &str,
    tracker: &mut FileTracker,
    before: &Snapshot,
    keys: (Option<String>, Option<String>),
    watched: &FileTracker,
    state: &mut LoopState,
    report: StepReport,
    max_retries: usize,
    after: &Snapshot,
    r: Result<Finished, CruiseError>,
)
    requires
        is_step(*compiled, current@, i),
        old(state)@.sound() && old(state)@.run < usize::MAX,
        call_ensures(take_pre_snapshots, (compiled, tracker, current, before), keys),
        *watched == *final(tracker),
        call_ensures(
            finish_step,
            (compiled, watched, current, state, report, max_retries, after),
            r,
        ),
        compiled.list()[i].1.fail_if_no_file_changes,
        compiled.list()[i].1.if_condition is None,
        !old(tracker).taken().dom().contains(nochange_key(current@)),
    ensures
        before@ == after@ ==> (r matches Err(CruiseError::StepMadeNoFileChanges(name)) && name@
            == current@),
        before@ != after@ ==> !(r matches Err(CruiseError::StepMadeNoFileChanges(_))),
{
    lemma_position(compiled.list(), i);
}

/// Where the files do not decide, the user's choice does, before the next step that the step names.
/// A choice that leads to no step ends the run.
pub proof fn law_choices_come_before_the_next_step(
    compiled: &CompiledWorkflow,
    i: int,
    current: &str,
    tracker: &mut FileTracker,
    before: &Snapshot,
    keys: (Option<String>, Option<String>),
    watched: &FileTracker,
    state: &mut LoopState,
    report: StepReport,
    max_retries: usize,
    after: &Snapshot,
    r: Result<Finished, CruiseError>,
    chosen: Option<String>,
)
    requires
        is_step(*compiled, current@, i),
        old(state)@.sound() && old(state)@.run < usize::MAX,
        call_ensures(take_pre_snapshots, (compiled, tracker, current, before), keys),
        *watched == *final(tracker),
        call_ensures(
            finish_step,
            (compiled, watched, current, state, report, max_retries, after),
            r,
        ),
        files_do_not_decide(*compiled, current@, compiled.list()[i].1, before@ != after@),
        report.option_next == Some(chosen),
    ensures
        chosen matches Some(name) ==> goes(r, old(state)@, current@, name@, max_retries),
        chosen is None ==> is_over(r),
{
    lemma_position(compiled.list(), i);
}

/// Where neither files nor a choice decide, the next step that the step names comes, whatever the
/// order of the steps.
pub proof fn law_named_steps_come_before_the_order(
    compiled: &CompiledWorkflow,
    i: int,
    current: &str,
    tracker: &mut FileTracker,
    before: &Snapshot,
    keys: (Option<String>, Option<String>),
    watched: &FileTracker,
    state: &mut LoopState,
    report: StepReport,
    max_retries: usize,
    after: &Snapshot,
    r: Result<Finished, CruiseError>,
    name: String,
)
    requires
        is_step(*compiled, current@, i),
        old(state)@.sound() && old(state)@.run < usize::MAX,
        call_ensures(take_pre_snapshots, (compiled, tracker, current, before), keys),
        *watched == *final(tracker),
        call_ensures(
            finish_step,
            (compiled, watched, current, state, report, max_retries, after),
            r,
        ),
        files_do_not_decide(*compiled, current@, compiled.list()[i].1, before@ != after@),
        report.option_next is None,
        compiled.list()[i].1.next == Some(name),
    ensures
        goes(r, old(state)@, current@, name@, max_retries),
{
    lemma_position(compiled.list(), i);
}

/// Where nothing else decides, the steps come in their order, and the run ends after the last one.
pub proof fn law_steps_come_in_order(
    compiled: &CompiledWorkflow,
    i: int,
    current: &str,
    tracker: &mut FileTracker,
    before: &Snapshot,
    keys: (Option<String>, Option<String>),
    watched: &FileTracker,
    state: &mut LoopState,
    report: StepReport,
    max_retries: usize,
    after: &Snapshot,
    r: Result<Finished, CruiseError>,
)
    requires
        is_step(*compiled, current@, i),
        old(state)@.sound() && old(state)@.run < usize::MAX,
        call_ensures(take_pre_snapshots, (compiled, tracker, current, before), keys),
        *watched == *final(tracker),
        call_ensures(
            finish_step,
            (compiled, watched, current, state, report, max_retries, after),
            r,
        ),
        files_do_not_decide(*compiled, current@, compiled.list()[i].1, before@ != after@),
        report.option_next is None,
        compiled.list()[i].1.next is None,
    ensures
        i + 1 < compiled.list().len() ==> goes(r, old(state)@, current@, compiled.list()[i + 1].0, max_retries),
        i + 1 == compiled.list().len() ==> is_over(r),
{
    lemma_position(compiled.list(), i);
}

/// A step that must change files is held to the files from before its first attempt, however often
/// it is tried again.
pub proof fn law_attempts_share_their_beginning(
    compiled: &CompiledWorkflow,
    i: int,
    current: &str,
    tracker: &mut FileTracker,
    first: &Snapshot,
    keys: (Option<String>, Option<String>),
    later: &mut FileTracker,
    second: &Snapshot,
    more_keys: (Option<String>, Option<String>),
    watched: &FileTracker,
    state: &mut LoopState,
    report: StepReport,
    max_retries: usize,
    after: &Snapshot,
    r: Result<Finished, CruiseError>,
)
    requires
        is_step(*compiled, current@, i),
        compiled.list()[i].1.fail_if_no_file_changes,
        compiled.list()[i].1.if_condition is None,
        !old(tracker).taken().dom().contains(nochange_key(current@)),
        !compiled.step_to_invocation@.dom().contains(current@),
        call_ensures(take_pre_snapshots, (compiled, tracker, current, first), keys),
        *old(later) == *final(tracker),
        call_ensures(take_pre_snapshots, (compiled, later, current, second), more_keys),
        *watched == *final(later),
        call_ensures(
            finish_step,
            (compiled, watched, current, state, report, max_retries, after),
            r,
        ),
    ensures
        (first@ == after@) == (r matches Err(CruiseError::StepMadeNoFileChanges(_))),
{
    lemma_position(compiled.list(), i);
}

/// A group whose files are watched is run again from the step that it names, where files differ at
/// its last step from what they were before its first one, and that is counted.
pub proof fn law_changed_groups_lead_to_the_target(
    compiled: &CompiledWorkflow,
    group: Seq<char>,
    meta: InvocationMeta,
    i: int,
    first: &str,
    j: int,
    last: &str,
    tracker: &mut FileTracker,
    before: &Snapshot,
    keys: (Option<String>, Option<String>),
    watched: &FileTracker,
    state: &mut LoopState,
    report: StepReport,
    max_retries: usize,
    after: &Snapshot,
    r: Result<Finished, CruiseError>,
    target: String,
)
    requires
        is_step(*compiled, first@, i),
        is_step(*compiled, last@, j),
        old(state)@.sound() && old(state)@.run < usize::MAX,
        compiled.step_to_invocation@.dom().contains(first@),
        compiled.step_to_invocation@[first@]@ == group,
        compiled.step_to_invocation@.dom().contains(last@),
        compiled.step_to_invocation@[last@]@ == group,
        compiled.invocations@.dom().contains(group),
        compiled.invocations@[group] == meta,
        meta.first_step@ == first@ && meta.last_step@ == last@,
        meta.if_condition matches Some(cond) && cond.file_changed == Some(target),
        compiled.list()[j].1.if_condition is None,
        !compiled.list()[j].1.fail_if_no_file_changes,
        call_ensures(take_pre_snapshots, (compiled, tracker, first, before), keys),
        *watched == *final(tracker),
        call_ensures(finish_step, (compiled, watched, last, state, report, max_retries, after), r),
    ensures
        before@ != after@ ==> {
            &&& goes(r, old(state)@, last@, target@, max_retries)
            &&& final(state)@.groups.dom().contains(group)
            &&& final(state)@.groups[group] as int == (if old(state)@.groups.dom().contains(group) {
                old(state)@.groups[group] as int
            } else {
                0
            }) + 1
        },
        before@ == after@ && report.option_next is None && compiled.list()[j].1.next is None && j + 1
            < compiled.list().len() ==> {
            &&& goes(r, old(state)@, last@, compiled.list()[j + 1].0, max_retries)
            &&& final(state)@.groups == old(state)@.groups
        },
{
    lemma_position(compiled.list(), i);
    lemma_position(compiled.list(), j);
}

/// A group whose files changed is run again from the step that it names, though its last step changed
/// none and would run again itself.
pub proof fn law_changed_groups_come_before_idle_steps(
    compiled: &CompiledWorkflow,
    group: &str,
    j: int,
    last: &str,
    tracker: &FileTracker,
    group_key: String,
    group_name: &str,
    step_key: String,
    step_name: &str,
    state: &mut LoopState,
    report: StepReport,
    max_retries: usize,
    now: &Snapshot,
    r: Result<Finished, CruiseError>,
    target: String,
)
    requires
        is_step(*compiled, last@, j),
        old(state)@.sound() && old(state)@.run < usize::MAX,
        compiled.step_to_invocation@.dom().contains(last@),
        compiled.step_to_invocation@[last@]@ == group@,
        compiled.invocations@.dom().contains(group@),
        compiled.invocations@[group@].last_step@ == last@,
        compiled.invocations@[group@].if_condition matches Some(cond) && cond.file_changed == Some(
            target,
        ),
        !compiled.list()[j].1.fail_if_no_file_changes,
        compiled.list()[j].1.if_condition matches Some(own) && own.file_changed is None && (
        own.no_file_changes matches Some(rule) && !rule.fail),
        call_ensures(group_snapshot_key, (group,), group_key),
        group_name@ == group_key@,
        call_ensures(FileTracker::has_files_changed, (tracker, group_name, now), true),
        call_ensures(nfc_snapshot_key, (last,), step_key),
        step_name@ == step_key@,
        call_ensures(FileTracker::has_files_changed, (tracker, step_name, now), false),
        call_ensures(
            finish_step,
            (compiled, tracker, last, state, report, max_retries, now),
            r,
        ),
    ensures
        goes(r, old(state)@, last@, target@, max_retries),
{
    lemma_position(compiled.list(), j);
}

/// Every step that ended is counted once, with its failure, and the way to the step that follows is
/// counted once. No other way is.
pub proof fn law_steps_and_ways_are_counted(
    compiled: &CompiledWorkflow,
    i: int,
    current: &str,
    watched: &FileTracker,
    state: &mut LoopState,
    report: StepReport,
    max_retries: usize,
    after: &Snapshot,
    r: Result<Finished, CruiseError>,
    from: Seq<char>,
    to: Seq<char>,
)
    requires
        is_step(*compiled, current@, i),
        old(state)@.sound(),
        old(state)@.run < usize::MAX,
        call_ensures(
            finish_step,
            (compiled, watched, current, state, report, max_retries, after),
            r,
        ),
    ensures
        final(state)@.run == old(state)@.run + 1,
        final(state)@.failed == old(state)@.failed + (if report.failed {
            1int
        } else {
            0
        }),
        final(state)@.skipped == old(state)@.skipped,
        r matches Ok(done) ==> times(final(state)@, from, to) == times(old(state)@, from, to) + (if from
            == current@ && done.outcome.next() == Some(to) {
            1int
        } else {
            0
        }),
        r matches Ok(done) ==> (done.outcome.next() matches Some(next) ==> times(
            final(state)@,
            current@,
            next,
        ) <= max_retries),
{
    lemma_position(compiled.list(), i);
}

/// What follows a step does not depend on the files where they need not be looked at.
pub proof fn law_files_are_looked_at_where_they_count(
    compiled: &CompiledWorkflow,
    i: int,
    current: &str,
    watched: &FileTracker,
    state: &mut LoopState,
    again: &mut LoopState,
    report: StepReport,
    max_retries: usize,
    after: &Snapshot,
    other: &Snapshot,
    r: Result<Finished, CruiseError>,
    q: Result<Finished, CruiseError>,
)
    requires
        is_step(*compiled, current@, i),
        call_ensures(needs_scan_after, (compiled, watched, current), false),
        old(state)@ == old(again)@,
        call_ensures(
            finish_step,
            (compiled, watched, current, state, report, max_retries, after),
            r,
        ),
        call_ensures(
            finish_step,
            (compiled, watched, current, again, report, max_retries, other),
            q,
        ),
    ensures
        final(state)@ == final(again)@,
        r is Ok == q is Ok,
        r matches Ok(a) ==> q matches Ok(b) && a.outcome.next() == b.outcome.next(),
{
    lemma_position(compiled.list(), i);
}

/// A step that is skipped by its condition is counted as skipped, and the step after it comes next;
/// any other one runs under its number.
pub proof fn law_skipped_steps_are_passed_over(
    compiled: &CompiledWorkflow,
    i: int,
    current: &str,
    vars: &VariableStore,
    state: &mut LoopState,
    r: Result<Begin, CruiseError>,
)
    requires
        is_step(*compiled, current@, i),
        !compiled.step_to_invocation@.dom().contains(current@),
        call_ensures(begin_step, (compiled, vars, current, state), r),
    ensures
        ({
            let skip = match compiled.list()[i].1.skip {
                None => Some(false),
                Some(SkipCondition::Static(b)) => Some(b),
                Some(SkipCondition::Variable(name)) => match vars@.lookup(name@) {
                    Some(value) => Some(value == "true"@),
                    None => None,
                },
            };
            &&& skip == Some(true) ==> {
                &&& r matches Ok(Begin::Skip(s)) && s.outcome.next() == (if i + 1
                    < compiled.list().len() {
                    Some(compiled.list()[i + 1].0)
                } else {
                    None
                })
                &&& final(state)@.skipped == old(state)@.skipped + 1
                &&& final(state)@.run == old(state)@.run
            }
            &&& skip == Some(false) ==> {
                &&& r matches Ok(Begin::Run { index, total }) && index == old(state)@.step_index + 1
                    && index <= total
                &&& final(state)@.skipped == old(state)@.skipped
            }
            &&& skip is None ==> r matches Err(CruiseError::UndefinedVariable(_))
        }),
{
    lemma_position(compiled.list(), i);
}

/// A group that was run again as often as it may is passed over as a whole when its first step comes:
/// all its steps are counted as skipped, and the step after its last one comes next. Before that it
/// is not.
pub proof fn law_groups_are_run_again_as_often_as_they_may(
    compiled: &CompiledWorkflow,
    group: Seq<char>,
    meta: InvocationMeta,
    i: int,
    first: &str,
    j: int,
    vars: &VariableStore,
    state: &mut LoopState,
    r: Result<Begin, CruiseError>,
    max: usize,
    count: usize,
)
    requires
        is_step(*compiled, first@, i),
        is_step(*compiled, meta.last_step@, j),
        compiled.step_to_invocation@.dom().contains(first@),
        compiled.step_to_invocation@[first@]@ == group,
        compiled.invocations@.dom().contains(group),
        compiled.invocations@[group] == meta,
        meta.first_step@ == first@,
        meta.max_retries == Some(max),
        count == (if old(state)@.groups.dom().contains(group) {
            old(state)@.groups[group]
        } else {
            0
        }),
        compiled.list()[i].1.skip is None,
        call_ensures(begin_step, (compiled, vars, first, state), r),
    ensures
        count >= max ==> {
            &&& r matches Ok(Begin::Skip(s)) && s.outcome.next() == (if j + 1
                < compiled.list().len() {
                Some(compiled.list()[j + 1].0)
            } else {
                None
            })
            &&& final(state)@.skipped == old(state)@.skipped + meta.step_count
        },
        count < max ==> r matches Ok(Begin::Run { .. }),
{
    lemma_position(compiled.list(), i);
    lemma_position(compiled.list(), j);
}

/// A step that there is not is not begun.
pub proof fn law_unknown_steps_are_not_begun(
    compiled: &CompiledWorkflow,
    current: &str,
    vars: &VariableStore,
    state: &mut LoopState,
    r: Result<Begin, CruiseError>,
)
    requires
        forall|i: int| 0 <= i < compiled.list().len() ==> (#[trigger] compiled.list()[i]).0 != current@,
        call_ensures(begin_step, (compiled, vars, current, state), r),
    ensures
        r matches Err(CruiseError::StepNotFound(name)) && name@ == current@,
        final(state)@ == old(state)@,
{
}

/// A step sees the values of its own environment and, for the other names, those of the workflow; it
/// sees no other names. Variables are put into the values.
pub proof fn law_steps_override_the_environment(
    top: &NameMap<String>,
    step: &NameMap<String>,
    vars: &VariableStore,
    r: Result<NameMap<String>, CruiseError>,
    name: Seq<char>,
)
    requires
        call_ensures(resolve_env, (top, step, vars), r),
    ensures
        r matches Ok(env) ==> {
            &&& step@.dom().contains(name) ==> env@.dom().contains(name) && vars@.expand(
                step@[name]@,
            ) == Ok::<Seq<char>, Seq<char>>(env@[name]@)
            &&& !step@.dom().contains(name) && top@.dom().contains(name) ==> env@.dom().contains(
                name,
            ) && vars@.expand(top@[name]@) == Ok::<Seq<char>, Seq<char>>(env@[name]@)
            &&& !step@.dom().contains(name) && !top@.dom().contains(name) ==> !env@.dom().contains(
                name,
            )
        },
        r is Ok <==> (forall|k: Seq<char>| #[trigger]
            top@.dom().contains(k) ==> vars@.expand(top@[k]@) is Ok) && (forall|k: Seq<char>| #[trigger]
            step@.dom().contains(k) ==> vars@.expand(step@[k]@) is Ok),
{
    if r is Ok {
        let env = r->Ok_0;
        let seen = crate::engine::texts(env@);
        assert(seen.dom().contains(name) == env@.dom().contains(name));
        if env@.dom().contains(name) {
            assert(seen[name] == env@[name]@);
        }
    }
}

/// A cancelled run does not execute the step that was announced; any other one does what the step
/// says, or has an error.
pub proof fn law_cancelled_runs_execute_nothing(
    compiled: &CompiledWorkflow,
    vars: &VariableStore,
    current: &str,
    cancelled: bool,
    r: Result<Option<StepPlan>, CruiseError>,
)
    requires
        call_ensures(announced_step, (compiled, vars, current, cancelled), r),
    ensures
        r matches Ok(None) <==> cancelled,
{
}

/// A choice among several always decides; nothing to choose from decides nothing.
pub proof fn law_choices_are_reported(step: &OptionStep, next: Option<String>, r: StepReport)
    requires
        call_ensures(StepReport::of_option, (step, next), r),
    ensures
        !r.failed,
        step.choices@.len() > 0 ==> r.option_next == Some(next),
        step.choices@.len() == 0 && next is None ==> r.option_next is None,
{
}

/// A workflow goes on with the changed configuration exactly if that knows the current step. What
/// was counted of steps is kept; what was counted of ways and groups is not.
pub proof fn law_changed_workflows_are_taken_over(
    compiled: &CompiledWorkflow,
    current: &str,
    state: &mut LoopState,
    r: bool,
)
    requires
        call_ensures(LoopState::reload, (state, compiled, current), r),
    ensures
        r <==> exists|i: int| 0 <= i < compiled.list().len() && (#[trigger] compiled.list()[i]).0 == current@,
        final(state)@.run == old(state)@.run && final(state)@.skipped == old(state)@.skipped
            && final(state)@.failed == old(state)@.failed && final(state)@.step_index
            == old(state)@.step_index,
        r ==> final(state)@.edges.dom() == Set::<(Seq<char>, Seq<char>)>::empty()
            && final(state)@.groups.dom() == Set::<Seq<char>>::empty(),
        !r ==> final(state)@ == old(state)@,
{
}

/// The groups of a configuration are laid out as they are written: a group has the steps that name
/// it, from the first to the last, and the condition and the limit that are set for it; a step has
/// the group that it names.
pub proof fn law_groups_are_laid_out_as_written(
    config: WorkflowConfig,
    c: CompiledWorkflow,
    i: int,
    group: String,
)
    requires
        call_ensures(compile, (config,), Ok(c)),
        0 <= i < c.list().len(),
        c.list()[i].1.group == Some(group),
    ensures
        c.steps == config.steps && c.command == config.command && c.model == config.model
            && c.plan_model == config.plan_model && c.env == config.env && c.after_pr
            == config.after_pr && c.pr_language == config.pr_language && c.llm_api
            == config.llm_api,
        c.step_to_invocation@.dom().contains(c.list()[i].0),
        c.step_to_invocation@[c.list()[i].0]@ == group@,
        c.invocations@.dom().contains(group@),
        config.groups@.dom().contains(group@),
        c.invocations@[group@].max_retries == config.groups@[group@].max_retries,
        c.invocations@[group@].if_condition == config.groups@[group@].if_condition,
        exists|a: int, b: int|
            #![trigger c.list()[a], c.list()[b]]
            {
                &&& 0 <= a <= i <= b < c.list().len()
                &&& c.invocations@[group@].first_step@ == c.list()[a].0
                &&& c.invocations@[group@].last_step@ == c.list()[b].0
                &&& c.invocations@[group@].step_count == b - a + 1
                &&& forall|k: int|
                    0 <= k < c.list().len() ==> ((a <= k <= b) <==> ((#[trigger] c.list()[k]).1.group matches Some(g)
                        && g@ == group@))
            },
{
    let list = c.list();
    let n = list.len() as int;
    let g = group@;
    assert(crate::config::group_of(list[i].1) == Some(g));
    assert(crate::config::group_seen(list, n, g));
    assert(crate::config::group_fault(config.groups@, list, i) is None);
    assert(c.invocations@.dom().contains(g));
    let meta = c.invocations@[g];
    assert(crate::workflow::describes(config.groups@, list, n, g, meta));
    let (a, b) = choose|a: int, b: int| #[trigger]
        crate::workflow::is_span(list, n, g, a, b) && meta.first_step@ == list[a].0 && meta.last_step@
            == list[b].0 && meta.step_count == b - a + 1 && meta.max_retries
            == config.groups@[g].max_retries && meta.if_condition == config.groups@[g].if_condition;
    assert(list[a].0 == meta.first_step@ && list[b].0 == meta.last_step@);
    assert forall|k: int| 0 <= k < n implies ((a <= k <= b) <==> ((#[trigger] list[k]).1.group matches Some(h)
        && h@ == g)) by {
        assert(crate::config::group_of(list[k].1) == Some(g) <==> a <= k <= b);
    }
}

/// The step after the last one is none, and a step that is named outright comes whatever the order.
pub proof fn law_next_steps_exist_or_are_named(
    steps: &indexmap::IndexMap<String, StepConfig>,
    i: int,
    current: &str,
    named: Option<&str>,
    r: Option<String>,
)
    requires
        distinct_names(crate::config::step_list(*steps)),
        0 <= i < crate::config::step_list(*steps).len(),
        crate::config::step_list(*steps)[i].0 == current@,
        call_ensures(get_next_step, (steps, current, named), r),
    ensures
        named matches Some(name) ==> r matches Some(s) && s@ == name@,
        named is None && i + 1 < crate::config::step_list(*steps).len() ==> (r matches Some(s) && s@
            == crate::config::step_list(*steps)[i + 1].0),
        named is None && i + 1 == crate::config::step_list(*steps).len() ==> r is None,
{
    lemma_position(crate::config::step_list(*steps), i);
}

} // verus!
