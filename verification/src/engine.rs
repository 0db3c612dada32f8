//! The step loop: which step runs next, what is watched around it, and when the run ends.
//!
//! A run alternates work on the outside (running a command, scanning the files) with
//! decisions. The decisions are here. One round of the loop is [`begin_step`], then
//! [`prepare_step`] and [`take_pre_snapshots`], then the step itself, then [`finish_step`].

use indexmap::IndexMap;
use vstd::prelude::*;

use crate::condition::{evaluate_skip, skips};
use crate::config::{
    step_at, step_list, step_name_at, steps_index_of, steps_len, NoFileChanges, StepConfig,
};
use crate::edges::{descending, lists, Edge, EdgeCounts};
use crate::error::CruiseError;
use crate::file_tracker::{FileTracker, Snapshot};
use crate::names::{distinct_names, has_name, lemma_position, position, NameMap};
use crate::span::{put, put_plain, span_views, Span, SpanView, Tone};
use crate::step::{is_kind_of, step_fault, OptionStep, StepKind};
use crate::text::{decimal, decimal_of, opt_str_view, opt_view, same_text};
use crate::variable::{VariableStore, Variables};
use crate::workflow::{covers, covers_from_to, CompiledWorkflow, InvocationMeta};

verus! {

/// Result of a completed run of the step loop.
#[derive(Debug)]
pub struct ExecutionResult {
    pub run: usize,
    pub skipped: usize,
    pub failed: usize,
}

/// Outcome of processing one step.
#[derive(Debug)]
pub enum StepOutcome {
    /// Advance to the named step.
    Next(String),
    /// The workflow is complete.
    Done,
}

impl StepOutcome {
    /// The name of the next step, if there is one.
    pub open spec fn next(self) -> Option<Seq<char>> {
        match self {
            StepOutcome::Next(name) => Some(name@),
            StepOutcome::Done => None,
        }
    }

    /// The outcome that goes on to the given step or ends the run.
    fn of(next: Option<String>) -> (r: Self)
        ensures
            r.next() == opt_view(next),
    {
        match next {
            Some(name) => StepOutcome::Next(name),
            None => StepOutcome::Done,
        }
    }
}

// ---------------------------------------------------------------------------
// Order of the steps
// ---------------------------------------------------------------------------

/// The step that stands after `current`.
pub open spec fn follower(
    list: Seq<(Seq<char>, StepConfig)>,
    current: Seq<char>,
) -> Option<Seq<char>> {
    if has_name(list, current) && position(list, current) + 1 < list.len() {
        Some(list[position(list, current) + 1].0)
    } else {
        None
    }
}

/// The step that comes after `current`: the explicit one, or else the one that stands after it.
pub open spec fn next_step(
    list: Seq<(Seq<char>, StepConfig)>,
    current: Seq<char>,
    explicit: Option<Seq<char>>,
) -> Option<Seq<char>> {
    match explicit {
        Some(name) => Some(name),
        None => follower(list, current),
    }
}

/// Determine the next step: explicit next, then the order of the steps, then none (end).
pub fn get_next_step(
    steps: &IndexMap<String, StepConfig>,
    current: &str,
    explicit_next: Option<&str>,
) -> (r: Option<String>)
    ensures
        opt_view(r) == next_step(step_list(*steps), current@, opt_str_view(explicit_next)),
{
    if let Some(next) = explicit_next {
        return Some(next.to_owned());
    }
    match steps_index_of(steps, current) {
        Some(i) => {
            proof {
                let p = position(step_list(*steps), current@);
                assert(step_list(*steps)[i as int].0 == current@);
                assert(p == i);
            }
            if i < steps_len(steps) - 1 {
                Some(step_name_at(steps, i + 1).clone())
            } else {
                None
            }
        },
        None => None,
    }
}

// ---------------------------------------------------------------------------
// The state of the loop
// ---------------------------------------------------------------------------

/// What a run has counted so far, as mathematical values.
#[verifier::ext_equal]
pub struct Progress {
    /// How often each group was retried.
    pub groups: Map<Seq<char>, usize>,
    /// How often each edge was taken.
    pub edges: Map<Edge, usize>,
    /// Steps that ran.
    pub run: int,
    /// Steps that were skipped.
    pub skipped: int,
    /// Steps that ran and failed.
    pub failed: int,
    /// Steps that were begun or skipped.
    pub step_index: int,
    /// The number of steps shown to the user.
    pub total_steps: int,
}

impl Progress {
    /// How often the group `g` was retried.
    pub open spec fn retries(self, g: Seq<char>) -> int {
        if self.groups.dom().contains(g) {
            self.groups[g] as int
        } else {
            0
        }
    }

    /// How often the edge was taken.
    pub open spec fn taken(self, edge: Edge) -> int {
        if self.edges.dom().contains(edge) {
            self.edges[edge] as int
        } else {
            0
        }
    }

    /// The counters fit together: no step counts twice, and neither a failure, nor a retry of a
    /// group, nor an edge is counted without a step that ran.
    pub open spec fn sound(self) -> bool {
        &&& 0 <= self.run
        &&& 0 <= self.skipped
        &&& 0 <= self.failed <= self.run
        &&& self.run + self.skipped <= self.step_index
        &&& forall|g: Seq<char>| #[trigger] self.groups.dom().contains(g) ==> self.groups[g]
            <= self.run
        &&& forall|e: Edge| #[trigger] self.edges.dom().contains(e) ==> self.edges[e] <= self.run
    }

    /// No edge was taken more than `max` times.
    pub open spec fn within(self, max: int) -> bool {
        forall|e: Edge| #[trigger] self.edges.dom().contains(e) ==> self.edges[e] <= max
    }
}

/// What a run has counted so far.
#[derive(Debug)]
pub struct LoopState {
    group_retry_counts: NameMap<usize>,
    edge_counts: EdgeCounts,
    run: usize,
    skipped: usize,
    failed: usize,
    step_index: usize,
    total_steps: usize,
}

impl View for LoopState {
    type V = Progress;

    closed spec fn view(&self) -> Progress {
        Progress {
            groups: self.group_retry_counts@,
            edges: self.edge_counts@,
            run: self.run as int,
            skipped: self.skipped as int,
            failed: self.failed as int,
            step_index: self.step_index as int,
            total_steps: self.total_steps as int,
        }
    }
}

impl LoopState {
    /// The state before the first step of a workflow.
    pub fn new(compiled: &CompiledWorkflow) -> (r: Self)
        ensures
            r@ == (Progress {
                groups: Map::empty(),
                edges: Map::empty(),
                run: 0,
                skipped: 0,
                failed: 0,
                step_index: 0,
                total_steps: compiled.list().len() as int,
            }),
            r@.sound(),
    {
        LoopState {
            group_retry_counts: NameMap::new(),
            edge_counts: EdgeCounts::new(),
            run: 0,
            skipped: 0,
            failed: 0,
            step_index: 0,
            total_steps: steps_len(&compiled.steps),
        }
    }

    /// Takes over a changed workflow if it knows the current step: the retries and the edges
    /// are counted anew, the steps go on being counted. Returns whether it was taken over.
    pub fn reload(&mut self, compiled: &CompiledWorkflow, current_step: &str) -> (r: bool)
        ensures
            r == has_name(compiled.list(), current_step@),
            final(self)@ == (if r {
                Progress {
                    groups: Map::empty(),
                    edges: Map::empty(),
                    total_steps: compiled.list().len() as int,
                    ..old(self)@
                }
            } else {
                old(self)@
            }),
            old(self)@.sound() ==> final(self)@.sound(),
    {
        match steps_index_of(&compiled.steps, current_step) {
            None => false,
            Some(i) => {
                assert(compiled.list()[i as int].0 == current_step@);
                self.total_steps = steps_len(&compiled.steps);
                self.group_retry_counts.clear();
                self.edge_counts.clear();
                true
            },
        }
    }

    /// Whether the counters have room for one more round of a workflow with `steps` steps.
    pub fn has_room(&self, steps: usize) -> (r: bool)
        ensures
            r == (self@.step_index + steps < usize::MAX),
    {
        self.step_index < usize::MAX - steps
    }

    /// The counts that a run ends with.
    pub fn result(&self) -> (r: ExecutionResult)
        ensures
            r.run == self@.run,
            r.skipped == self@.skipped,
            r.failed == self@.failed,
    {
        ExecutionResult { run: self.run, skipped: self.skipped, failed: self.failed }
    }
}

// ---------------------------------------------------------------------------
// Beginning a step
// ---------------------------------------------------------------------------

/// The group of `current` begins with it and was retried as often as it may be.
pub open spec fn group_exhausted(c: CompiledWorkflow, current: Seq<char>, s: Progress) -> bool {
    match (c.site_of(current), c.meta_of(c.site_of(current))) {
        (Some(g), Some(meta)) => {
            &&& meta.first_step@ == current
            &&& meta.max_retries matches Some(max) && s.retries(g) >= max
        },
        _ => false,
    }
}

/// What the user is told when a group is skipped.
pub open spec fn group_skip_spans(g: Seq<char>, max: nat) -> Seq<SpanView> {
    seq![
        ("  "@, Tone::Plain),
        ("→"@, Tone::Yellow),
        (" group '"@ + g + "' max retries ("@ + decimal(max) + ") reached, skipping"@, Tone::Plain),
    ]
}

/// What the user is told when a step is skipped.
pub open spec fn skip_spans(step: Seq<char>) -> Seq<SpanView> {
    seq![("→"@, Tone::Yellow), (" skipping: "@ + step, Tone::Plain)]
}

/// A step or a group that is skipped.
#[derive(Debug)]
pub struct Skipped {
    pub outcome: StepOutcome,
    /// What to tell the user.
    pub notice: Vec<Span>,
}

/// Check whether the group containing `current_step` has exhausted its retry budget.
///
/// Returns `Some` when the group is skipped entirely.
pub fn check_group_retry_skip(
    compiled: &CompiledWorkflow,
    current_step: &str,
    state: &mut LoopState,
) -> (r: Option<Skipped>)
    requires
        compiled.wf(),
        old(state)@.step_index + compiled.list().len() < usize::MAX,
        old(state)@.sound(),
    ensures
        final(state)@.sound(),
        match r {
            Some(skip) => {
                let site = compiled.site_of(current_step@);
                let meta = compiled.meta_of(site)->0;
                &&& group_exhausted(*compiled, current_step@, old(state)@)
                &&& skip.outcome.next() == follower(compiled.list(), meta.last_step@)
                &&& span_views(skip.notice@) == group_skip_spans(
                    site->0,
                    meta.max_retries->0 as nat,
                )
                &&& final(state)@ == (Progress {
                    step_index: old(state)@.step_index + meta.step_count,
                    skipped: old(state)@.skipped + meta.step_count,
                    ..old(state)@
                })
            },
            None => {
                &&& !group_exhausted(*compiled, current_step@, old(state)@)
                &&& final(state)@ == old(state)@
            },
        },
{
    let site = match compiled.step_to_invocation.get(current_step) {
        Some(site) => site,
        None => return None,
    };
    let meta = match compiled.invocations.get(site.as_str()) {
        Some(meta) => meta,
        None => return None,
    };
    if !same_text(meta.first_step.as_str(), current_step) {
        return None;
    }
    let max: usize = match meta.max_retries {
        Some(max) => max,
        None => return None,
    };
    let count: usize = match state.group_retry_counts.get(site.as_str()) {
        Some(n) => *n,
        None => 0,
    };
    if count < max {
        return None;
    }
    proof {
        assert(compiled.invocations@.dom().contains(site@));
        assert(covers(compiled.list(), *meta));
        let (a, b) = choose|a: int, b: int| covers_from_to(compiled.list(), *meta, a, b);
        assert(meta.step_count <= compiled.list().len());
    }
    state.step_index = state.step_index + meta.step_count;
    state.skipped = state.skipped + meta.step_count;
    let next = get_next_step(&compiled.steps, meta.last_step.as_str(), None);
    let mut notice: Vec<Span> = Vec::new();
    put_plain(&mut notice, "  ");
    put(&mut notice, "→".to_owned(), Tone::Yellow);
    put(
        &mut notice,
        " group '".to_owned().concat(site.as_str()).concat("' max retries (").concat(
            decimal_of(max as u64).as_str(),
        ).concat(") reached, skipping"),
        Tone::Plain,
    );
    assert(span_views(notice@) =~= group_skip_spans(site@, max as nat));
    Some(Skipped { outcome: StepOutcome::of(next), notice })
}

/// How a round of the loop begins.
#[derive(Debug)]
pub enum Begin {
    /// The step or its group is skipped.
    Skip(Skipped),
    /// The step runs, as number `index` of `total`.
    Run { index: usize, total: usize },
}

/// The greater of two numbers.
pub open spec fn greater(a: int, b: int) -> int {
    if a < b {
        b
    } else {
        a
    }
}

/// How a round begins, as mathematical values.
pub enum Start {
    /// There is no such step.
    NotFound,
    /// The skip condition names this variable, which is not defined.
    Undefined(Seq<char>),
    /// The step or its group is skipped: the next step and what the user is told.
    Skip(Option<Seq<char>>, Seq<SpanView>),
    /// The step runs, with its number and the number of all steps.
    Run(int, int),
}

/// How the round of `current` begins, and the counters after it.
///
/// A group that was retried as often as it may be is skipped as a whole, a step whose skip
/// condition holds is skipped alone; either way the run goes on behind it.
pub open spec fn begin(
    c: CompiledWorkflow,
    vars: Variables,
    current: Seq<char>,
    s: Progress,
) -> (Start, Progress) {
    let step = c.list()[position(c.list(), current)].1;
    let site = c.site_of(current);
    let meta = c.meta_of(site)->0;
    if !has_name(c.list(), current) {
        (Start::NotFound, s)
    } else if group_exhausted(c, current, s) {
        (
            Start::Skip(
                follower(c.list(), meta.last_step@),
                group_skip_spans(site->0, meta.max_retries->0 as nat),
            ),
            Progress {
                step_index: s.step_index + meta.step_count,
                skipped: s.skipped + meta.step_count,
                ..s
            },
        )
    } else {
        match skips(step.skip, vars) {
            Err(name) => (Start::Undefined(name), s),
            Ok(true) => (
                Start::Skip(follower(c.list(), current), skip_spans(current)),
                Progress { step_index: s.step_index + 1, skipped: s.skipped + 1, ..s },
            ),
            Ok(false) => (
                Start::Run(s.step_index + 1, greater(s.total_steps, s.step_index + 1)),
                Progress {
                    step_index: s.step_index + 1,
                    total_steps: greater(s.total_steps, s.step_index + 1),
                    ..s
                },
            ),
        }
    }
}

/// Decides whether `current_step` runs or is skipped.
///
/// # Errors
///
/// Returns `StepNotFound` if there is no such step, and `UndefinedVariable` if its skip
/// condition names a variable that is not defined.
pub fn begin_step(
    compiled: &CompiledWorkflow,
    vars: &VariableStore,
    current_step: &str,
    state: &mut LoopState,
) -> (r: Result<Begin, CruiseError>)
    requires
        compiled.wf(),
        old(state)@.step_index + compiled.list().len() < usize::MAX,
        old(state)@.sound(),
    ensures
        final(state)@.sound(),
        ({
            let b = begin(*compiled, vars@, current_step@, old(state)@);
            &&& final(state)@ == b.1
            &&& match b.0 {
                Start::NotFound => r matches Err(CruiseError::StepNotFound(name)) && name@
                    == current_step@,
                Start::Undefined(name) => r matches Err(CruiseError::UndefinedVariable(n)) && n@
                    == name,
                Start::Skip(next, notice) => r matches Ok(Begin::Skip(skip)) && skip.outcome.next()
                    == next && span_views(skip.notice@) == notice,
                Start::Run(i, n) => {
                    &&& r matches Ok(Begin::Run { index, total }) && index == i && total == n
                    // The step that runs is not counted yet.
                    &&& final(state)@.run + final(state)@.skipped < final(state)@.step_index
                },
            }
        }),
{
    let at: usize = match steps_index_of(&compiled.steps, current_step) {
        Some(i) => i,
        None => return Err(CruiseError::StepNotFound(current_step.to_owned())),
    };
    proof {
        assert(compiled.list()[at as int].0 == current_step@);
        assert(position(compiled.list(), current_step@) == at);
    }
    if let Some(skip) = check_group_retry_skip(compiled, current_step, state) {
        return Ok(Begin::Skip(skip));
    }
    let skip = match evaluate_skip(&step_at(&compiled.steps, at).skip, vars) {
        Ok(b) => b,
        Err(e) => return Err(e),
    };
    state.step_index = state.step_index + 1;
    if skip {
        state.skipped = state.skipped + 1;
        let next = get_next_step(&compiled.steps, current_step, None);
        let mut notice: Vec<Span> = Vec::new();
        put(&mut notice, "→".to_owned(), Tone::Yellow);
        put(&mut notice, " skipping: ".to_owned().concat(current_step), Tone::Plain);
        assert(span_views(notice@) =~= skip_spans(current_step@));
        return Ok(Begin::Skip(Skipped { outcome: StepOutcome::of(next), notice }));
    }
    if state.total_steps < state.step_index {
        state.total_steps = state.step_index;
    }
    Ok(Begin::Run { index: state.step_index, total: state.total_steps })
}

// ---------------------------------------------------------------------------
// Preparing a step
// ---------------------------------------------------------------------------

/// All values of the map expand.
pub open spec fn all_expand(env: Map<Seq<char>, String>, vars: Variables) -> bool {
    forall|k: Seq<char>| #[trigger] env.dom().contains(k) ==> vars.expand(env[k]@) is Ok
}

/// Some value of the map names the undefined variable `name`.
pub open spec fn some_fails(env: Map<Seq<char>, String>, vars: Variables, name: Seq<char>) -> bool {
    exists|k: Seq<char>| #[trigger]
        env.dom().contains(k) && vars.expand(env[k]@) == Err::<Seq<char>, Seq<char>>(name)
}

/// `name` is a variable that is not defined and that a value of the environments names; it comes
/// from that of the workflow if any does there.
pub open spec fn env_fault(
    top: Map<Seq<char>, String>,
    step: Map<Seq<char>, String>,
    vars: Variables,
    name: Seq<char>,
) -> bool {
    if all_expand(top, vars) {
        some_fails(step, vars, name)
    } else {
        some_fails(top, vars, name)
    }
}

/// The environment of a step: the values of the step over those of the workflow, expanded.
pub open spec fn merged_env(
    top: Map<Seq<char>, String>,
    step: Map<Seq<char>, String>,
    vars: Variables,
) -> Map<Seq<char>, Seq<char>> {
    Map::new(
        |k: Seq<char>| top.dom().contains(k) || step.dom().contains(k),
        |k: Seq<char>|
            if step.dom().contains(k) {
                vars.expand(step[k]@)->Ok_0
            } else {
                vars.expand(top[k]@)->Ok_0
            },
    )
}

/// The values of a map as texts.
pub open spec fn texts(m: Map<Seq<char>, String>) -> Map<Seq<char>, Seq<char>> {
    m.map_values(|v: String| v@)
}

/// Merge top-level and step-level environments, resolving template variables in values.
/// Step-level values override top-level values.
///
/// # Errors
///
/// Returns `UndefinedVariable` if a value of either environment names a variable that is not
/// defined. Which one is named if there are several is not said.
pub fn resolve_env(top: &NameMap<String>, step: &NameMap<String>, vars: &VariableStore) -> (r: Result<
    NameMap<String>,
    CruiseError,
>)
    ensures
        match r {
            Ok(env) => {
                &&& all_expand(top@, vars@)
                &&& all_expand(step@, vars@)
                &&& texts(env@) == merged_env(top@, step@, vars@)
            },
            Err(CruiseError::UndefinedVariable(name)) => env_fault(top@, step@, vars@, name@),
            Err(_) => false,
        },
{
    let mut env: NameMap<String> = NameMap::new();
    let none: NameMap<String> = NameMap::new();
    assert(texts(env@) =~= merged_env(none@, none@, vars@));
    match add_env(&mut env, Ghost(none@), top, vars) {
        Ok(()) => {},
        Err(e) => return Err(e),
    }
    assert(texts(env@) =~= merged_env(top@, none@, vars@));
    match add_env(&mut env, Ghost(top@), step, vars) {
        Ok(()) => {},
        Err(e) => return Err(e),
    }
    Ok(env)
}

/// Adds the expanded values of `more` to `env`, which holds those of `base`.
fn add_env(
    env: &mut NameMap<String>,
    Ghost(base): Ghost<Map<Seq<char>, String>>,
    more: &NameMap<String>,
    vars: &VariableStore,
) -> (r: Result<(), CruiseError>)
    requires
        texts(old(env)@) == merged_env(base, Map::empty(), vars@),
    ensures
        match r {
            Ok(()) => all_expand(more@, vars@) && texts(final(env)@) == merged_env(
                base,
                more@,
                vars@,
            ),
            Err(CruiseError::UndefinedVariable(name)) => some_fails(more@, vars@, name@),
            Err(_) => false,
        },
{
    let n = more.len();
    let ghost all = more.entries();
    let ghost start = texts(env@);
    let mut i: usize = 0;
    while i < n
        invariant
            i <= n,
            n == all.len(),
            all == more.entries(),
            distinct_names(all),
            forall|k: int| 0 <= k < i ==> vars@.expand((#[trigger] all[k]).1@) is Ok,
            forall|x: Seq<char>|
                #![trigger env@.dom().contains(x)]
                env@.dom().contains(x) <==> start.dom().contains(x) || has_name(
                    all.take(i as int),
                    x,
                ),
            forall|k: int|
                0 <= k < i ==> env@.dom().contains((#[trigger] all[k]).0) && env@[all[k].0]@
                    == vars@.expand(all[k].1@)->Ok_0,
            forall|x: Seq<char>|
                #![trigger env@[x]]
                start.dom().contains(x) && !has_name(all.take(i as int), x) ==> env@[x]@
                    == start[x],
        decreases n - i,
    {
        proof {
            lemma_position(all, i as int);
            assert(more@.dom().contains(all[i as int].0));
        }
        let value = match vars.resolve(more.value_at(i).as_str()) {
            Ok(value) => value,
            Err(e) => return Err(e),
        };
        let ghost before = env@;
        let ghost key = all[i as int].0;
        env.insert(more.name_at(i).clone(), value);
        proof {
            assert forall|x: Seq<char>| #[trigger] has_name(all.take(i + 1), x) <==> has_name(
                all.take(i as int),
                x,
            ) || x == key by {
                if has_name(all.take(i as int), x) {
                    let p = position(all.take(i as int), x);
                    assert(all.take(i + 1)[p].0 == x);
                }
                if has_name(all.take(i + 1), x) {
                    let p = position(all.take(i + 1), x);
                    if p < i {
                        assert(all.take(i as int)[p].0 == x);
                    }
                }
                assert(all.take(i + 1)[i as int].0 == key);
            }
            assert forall|x: Seq<char>|
                #![trigger env@.dom().contains(x)]
                env@.dom().contains(x) <==> start.dom().contains(x) || has_name(
                    all.take(i + 1),
                    x,
                ) by {
                assert(has_name(all.take(i + 1), x) <==> has_name(all.take(i as int), x) || x
                    == key);
            }
            assert forall|x: Seq<char>|
                #![trigger env@[x]]
                start.dom().contains(x) && !has_name(all.take(i + 1), x) implies env@[x]@
                == start[x] by {
                assert(has_name(all.take(i + 1), x) <==> has_name(all.take(i as int), x) || x
                    == key);
                assert(before[x]@ == start[x]);
            }
        }
        i += 1;
    }
    proof {
        assert(all.take(i as int) =~= all);
        assert forall|k: Seq<char>| #[trigger] more@.dom().contains(k) implies vars@.expand(
            more@[k]@,
        ) is Ok by {
            let p = position(all, k);
            assert(all[p].0 == k);
        }
        let want = merged_env(base, more@, vars@);
        assert forall|x: Seq<char>| texts(env@).dom().contains(x) implies #[trigger] texts(env@)[x]
            == want[x] by {
            if has_name(all, x) {
                let p = position(all, x);
                lemma_position(all, p);
                assert(env@[all[p].0]@ == vars@.expand(all[p].1@)->Ok_0);
            } else {
                assert(env@[x]@ == start[x]);
            }
        }
        assert(texts(env@) =~= want);
    }
    Ok(())
}

/// What a step needs to run.
#[derive(Debug)]
pub struct StepPlan {
    /// The environment of the step.
    pub env: NameMap<String>,
    /// What the step does.
    pub kind: StepKind,
}

/// `r` is the environment and the kind of a step, or what is wrong with them.
pub open spec fn prepares(
    c: CompiledWorkflow,
    vars: Variables,
    current: Seq<char>,
    r: Result<StepPlan, CruiseError>,
) -> bool {
    let step = c.list()[position(c.list(), current)].1;
    match r {
        Ok(plan) => {
            &&& all_expand(c.env@, vars)
            &&& all_expand(step.env@, vars)
            &&& step_fault(step) is None
            &&& texts(plan.env@) == merged_env(c.env@, step.env@, vars)
            &&& is_kind_of(step, plan.kind)
        },
        Err(CruiseError::UndefinedVariable(name)) => env_fault(c.env@, step.env@, vars, name@),
        Err(CruiseError::InvalidStepConfig(message)) => {
            &&& all_expand(c.env@, vars)
            &&& all_expand(step.env@, vars)
            &&& step_fault(step) == Some(message@)
        },
        Err(_) => false,
    }
}

/// Works out the environment and the kind of a step.
///
/// # Errors
///
/// Returns `UndefinedVariable` if a value of the environment names a variable that is not
/// defined, and else `InvalidStepConfig` if the step has no kind.
pub fn prepare_step(compiled: &CompiledWorkflow, vars: &VariableStore, current_step: &str) -> (r:
    Result<StepPlan, CruiseError>)
    requires
        has_name(compiled.list(), current_step@),
    ensures
        prepares(*compiled, vars@, current_step@, r),
{
    let at = step_position(compiled, current_step);
    let step = step_at(&compiled.steps, at);
    let env = match resolve_env(&compiled.env, &step.env, vars) {
        Ok(env) => env,
        Err(e) => return Err(e),
    };
    let kind = match StepKind::of(step) {
        Ok(kind) => kind,
        Err(e) => return Err(e),
    };
    Ok(StepPlan { env, kind })
}

/// Works out the environment and the kind of a step that was announced, unless the run was
/// cancelled: then there is none, and the run ends before the step.
///
/// # Errors
///
/// Returns the errors of `prepare_step`.
pub fn announced_step(
    compiled: &CompiledWorkflow,
    vars: &VariableStore,
    current_step: &str,
    cancelled: bool,
) -> (r: Result<Option<StepPlan>, CruiseError>)
    requires
        has_name(compiled.list(), current_step@),
    ensures
        if cancelled {
            r == Ok::<Option<StepPlan>, CruiseError>(None)
        } else {
            match r {
                Ok(Some(plan)) => prepares(*compiled, vars@, current_step@, Ok(plan)),
                Ok(None) => false,
                Err(e) => prepares(*compiled, vars@, current_step@, Err(e)),
            }
        },
{
    if cancelled {
        return Ok(None);
    }
    match prepare_step(compiled, vars, current_step) {
        Ok(plan) => Ok(Some(plan)),
        Err(e) => Err(e),
    }
}

/// The position of a step that there is.
fn step_position(compiled: &CompiledWorkflow, current_step: &str) -> (r: usize)
    requires
        has_name(compiled.list(), current_step@),
    ensures
        r < compiled.list().len(),
        r == position(compiled.list(), current_step@),
        compiled.list()[r as int].0 == current_step@,
{
    let found = steps_index_of(&compiled.steps, current_step);
    proof {
        let p = position(compiled.list(), current_step@);
        assert(compiled.list()[p].0 == current_step@);
    }
    match found {
        Some(i) => i,
        None => vstd::pervasive::unreached(),
    }
}

// ---------------------------------------------------------------------------
// Snapshots around a step
// ---------------------------------------------------------------------------

/// The snapshot key for a group.
pub open spec fn group_key(group: Seq<char>) -> Seq<char> {
    "__group__"@ + group
}

/// The snapshot key for a fail-if-no-file-changes check.
pub open spec fn nochange_key(step: Seq<char>) -> Seq<char> {
    "__nochange__"@ + step
}

/// The snapshot key for an if.no-file-changes check.
pub open spec fn nfc_key(step: Seq<char>) -> Seq<char> {
    "__nfc__"@ + step
}

/// Build the `FileTracker` snapshot key for a group.
pub fn group_snapshot_key(group_name: &str) -> (r: String)
    ensures
        r@ == group_key(group_name@),
{
    "__group__".to_owned().concat(group_name)
}

/// Build the `FileTracker` snapshot key for a fail-if-no-file-changes check.
pub fn nochange_snapshot_key(step_name: &str) -> (r: String)
    ensures
        r@ == nochange_key(step_name@),
{
    "__nochange__".to_owned().concat(step_name)
}

/// Build the `FileTracker` snapshot key for an if.no-file-changes check.
pub fn nfc_snapshot_key(step_name: &str) -> (r: String)
    ensures
        r@ == nfc_key(step_name@),
{
    "__nfc__".to_owned().concat(step_name)
}

/// The no-file-changes rule of a step.
pub open spec fn nfc_of(step: StepConfig) -> Option<NoFileChanges> {
    match step.if_condition {
        Some(c) => c.no_file_changes,
        None => None,
    }
}

/// The step to jump to if the step changed files. A no-file-changes rule overrides it.
pub open spec fn jump_target_of(step: StepConfig) -> Option<Seq<char>> {
    match step.if_condition {
        Some(c) => if c.no_file_changes is None {
            opt_view(c.file_changed)
        } else {
            None
        },
        None => None,
    }
}

/// The step to jump to if the group changed files.
pub open spec fn group_target(meta: InvocationMeta) -> Option<Seq<char>> {
    match meta.if_condition {
        Some(c) => opt_view(c.file_changed),
        None => None,
    }
}

/// A group whose file changes are watched begins with the step.
pub open spec fn group_watch_begins(c: CompiledWorkflow, current: Seq<char>) -> bool {
    c.meta_of(c.site_of(current)) matches Some(meta) && meta.first_step@ == current && group_target(
        meta,
    ) is Some
}

/// The files of a directory tree with their digests.
pub type Files = Map<Seq<char>, Seq<u8>>;

/// The snapshots after those before a step were taken.
pub open spec fn pre_taken(
    c: CompiledWorkflow,
    current: Seq<char>,
    taken: Map<Seq<char>, Files>,
    now: Files,
) -> Map<Seq<char>, Files> {
    let step = c.list()[position(c.list(), current)].1;
    let a = if jump_target_of(step) is Some {
        taken.insert(current, now)
    } else {
        taken
    };
    let b = if step.fail_if_no_file_changes && !a.dom().contains(nochange_key(current)) {
        a.insert(nochange_key(current), now)
    } else {
        a
    };
    let d = if nfc_of(step) is Some {
        b.insert(nfc_key(current), now)
    } else {
        b
    };
    if group_watch_begins(c, current) {
        d.insert(group_key(c.site_of(current)->0), now)
    } else {
        d
    }
}

/// The layout of the group of a step, with the group's name.
fn group_meta<'a>(compiled: &'a CompiledWorkflow, current_step: &str) -> (r: Option<
    (&'a String, &'a InvocationMeta),
>)
    ensures
        match r {
            Some(found) => compiled.site_of(current_step@) == Some(found.0@) && compiled.meta_of(
                compiled.site_of(current_step@),
            ) == Some(*found.1),
            None => compiled.meta_of(compiled.site_of(current_step@)) is None,
        },
{
    match compiled.step_to_invocation.get(current_step) {
        Some(site) => match compiled.invocations.get(site.as_str()) {
            Some(meta) => Some((site, meta)),
            None => None,
        },
        None => None,
    }
}

/// The no-file-changes rule of a step.
fn nfc_rule(step: &StepConfig) -> (r: Option<NoFileChanges>)
    ensures
        r == nfc_of(*step),
{
    match &step.if_condition {
        Some(c) => c.no_file_changes,
        None => None,
    }
}

/// The step to jump to if the step changed files.
fn jump_target(step: &StepConfig) -> (r: Option<&String>)
    ensures
        r is Some <==> jump_target_of(*step) is Some,
        r matches Some(t) ==> jump_target_of(*step) == Some(t@),
{
    match &step.if_condition {
        Some(c) => if c.no_file_changes.is_none() {
            c.file_changed.as_ref()
        } else {
            None
        },
        None => None,
    }
}

/// Whether a group whose file changes are watched begins with the step.
fn begins_group_watch(compiled: &CompiledWorkflow, current_step: &str) -> (r: bool)
    ensures
        r == group_watch_begins(*compiled, current_step@),
{
    match group_meta(compiled, current_step) {
        Some((_, meta)) => {
            same_text(meta.first_step.as_str(), current_step) && match &meta.if_condition {
                Some(c) => c.file_changed.is_some(),
                None => false,
            }
        },
        None => false,
    }
}

/// Whether any snapshot is taken before the step, so that the files have to be scanned.
pub fn needs_scan_before(compiled: &CompiledWorkflow, tracker: &FileTracker, current_step: &str)
    -> (r: bool)
    requires
        has_name(compiled.list(), current_step@),
    ensures
        !r ==> forall|now: Files| #[trigger]
            pre_taken(*compiled, current_step@, tracker.taken(), now) == tracker.taken(),
        ({
            let step = compiled.list()[position(compiled.list(), current_step@)].1;
            r == (jump_target_of(step) is Some || (step.fail_if_no_file_changes
                && !tracker.taken().dom().contains(nochange_key(current_step@))) || nfc_of(
                step,
            ) is Some || group_watch_begins(*compiled, current_step@))
        }),
{
    let step = step_at(&compiled.steps, step_position(compiled, current_step));
    jump_target(step).is_some() || (step.fail_if_no_file_changes && !tracker.has_snapshot(
        nochange_snapshot_key(current_step).as_str(),
    )) || nfc_rule(step).is_some() || begins_group_watch(compiled, current_step)
}

/// Take pre-execution snapshots (per step, per group, and per attempt) as needed; `now` is the
/// tree as it is. Returns the keys of the snapshots that the checks after the step compare
/// with.
pub fn take_pre_snapshots(
    compiled: &CompiledWorkflow,
    tracker: &mut FileTracker,
    current_step: &str,
    now: &Snapshot,
) -> (r: (Option<String>, Option<String>))
    requires
        has_name(compiled.list(), current_step@),
    ensures
        final(tracker).root_spec() == old(tracker).root_spec(),
        final(tracker).taken() == pre_taken(
            *compiled,
            current_step@,
            old(tracker).taken(),
            now@,
        ),
        ({
            let step = compiled.list()[position(compiled.list(), current_step@)].1;
            &&& opt_view(r.0) == (if step.fail_if_no_file_changes {
                Some(nochange_key(current_step@))
            } else {
                None
            })
            &&& opt_view(r.1) == (if nfc_of(step) is Some {
                Some(nfc_key(current_step@))
            } else {
                None
            })
        }),
{
    let step = step_at(&compiled.steps, step_position(compiled, current_step));
    if jump_target(step).is_some() {
        tracker.take_snapshot(current_step, now.copy());
    }
    let nochange: Option<String> = if step.fail_if_no_file_changes {
        let key = nochange_snapshot_key(current_step);
        if !tracker.has_snapshot(key.as_str()) {
            tracker.take_snapshot(key.as_str(), now.copy());
        }
        Some(key)
    } else {
        None
    };
    let nfc: Option<String> = if nfc_rule(step).is_some() {
        let key = nfc_snapshot_key(current_step);
        tracker.take_snapshot(key.as_str(), now.copy());
        Some(key)
    } else {
        None
    };
    if begins_group_watch(compiled, current_step) {
        if let Some((site, _)) = group_meta(compiled, current_step) {
            tracker.take_snapshot(group_snapshot_key(site.as_str()).as_str(), now.copy());
        }
    }
    (nochange, nfc)
}

// ---------------------------------------------------------------------------
// Finishing a step
// ---------------------------------------------------------------------------

/// The files changed while the group of the step ran, and the group ends with the step: the
/// step to jump to.
pub open spec fn group_jump(
    c: CompiledWorkflow,
    tracker: FileTracker,
    current: Seq<char>,
    now: Files,
) -> Option<Seq<char>> {
    match (c.site_of(current), c.meta_of(c.site_of(current))) {
        (Some(g), Some(meta)) => if meta.last_step@ == current && tracker.changed(
            group_key(g),
            now,
        ) {
            group_target(meta)
        } else {
            None
        },
        _ => None,
    }
}

/// The files changed while the step ran: the step to jump to.
pub open spec fn step_jump(
    tracker: FileTracker,
    current: Seq<char>,
    target: Option<Seq<char>>,
    now: Files,
) -> Option<Seq<char>> {
    if tracker.changed(current, now) {
        target
    } else {
        None
    }
}

/// A jump to another step because files changed.
#[derive(Debug)]
pub struct Jump {
    pub target: String,
    /// What to tell the user.
    pub notice: String,
}

/// Determine the next-step override from file-change conditions after step execution; `now` is
/// the tree as it is. A jump of the group counts as a retry of the group.
pub fn resolve_if_next(
    compiled: &CompiledWorkflow,
    tracker: &FileTracker,
    current_step: &str,
    step_if_file_changed: Option<&String>,
    group_retry_counts: &mut NameMap<usize>,
    now: &Snapshot,
) -> (r: Option<Jump>)
    requires
        forall|g: Seq<char>| #[trigger]
            old(group_retry_counts)@.dom().contains(g) ==> old(group_retry_counts)@[g]
                < usize::MAX,
    ensures
        ({
            let target = match step_if_file_changed {
                Some(t) => Some(t@),
                None => None,
            };
            let by_step = step_jump(*tracker, current_step@, target, now@);
            let by_group = group_jump(*compiled, *tracker, current_step@, now@);
            let counts = old(group_retry_counts)@;
            if by_step is Some {
                &&& r matches Some(jump) && jump.target@ == by_step->0 && jump.notice@
                    == "files changed, jumping to: "@ + by_step->0
                &&& final(group_retry_counts)@ == counts
            } else if by_group is Some {
                let g = compiled.site_of(current_step@)->0;
                &&& r matches Some(jump) && jump.target@ == by_group->0 && jump.notice@
                    == "files changed in group '"@ + g + "', jumping to: "@ + by_group->0
                &&& final(group_retry_counts)@ == counts.insert(
                    g,
                    ((if counts.dom().contains(g) {
                        counts[g] as int
                    } else {
                        0
                    }) + 1) as usize,
                )
            } else {
                r is None && final(group_retry_counts)@ == counts
            }
        }),
{
    if let Some(target) = step_if_file_changed {
        if tracker.has_files_changed(current_step, now) {
            return Some(
                Jump {
                    target: target.clone(),
                    notice: "files changed, jumping to: ".to_owned().concat(target.as_str()),
                },
            );
        }
    }
    let (site, meta) = match group_meta(compiled, current_step) {
        Some(found) => found,
        None => return None,
    };
    if !same_text(meta.last_step.as_str(), current_step) {
        return None;
    }
    let target = match &meta.if_condition {
        Some(c) => match &c.file_changed {
            Some(target) => target,
            None => return None,
        },
        None => return None,
    };
    if !tracker.has_files_changed(group_snapshot_key(site.as_str()).as_str(), now) {
        return None;
    }
    let count: usize = match group_retry_counts.get(site.as_str()) {
        Some(n) => *n,
        None => 0,
    };
    group_retry_counts.insert(site.clone(), count + 1);
    let mut notice = "files changed in group '".to_owned();
    notice.append(site.as_str());
    notice.append("', jumping to: ");
    notice.append(target.as_str());
    Some(Jump { target: target.clone(), notice })
}

/// Whether the checks after the step look at the files, so that they have to be scanned.
pub fn needs_scan_after(compiled: &CompiledWorkflow, tracker: &FileTracker, current_step: &str) -> (r:
    bool)
    requires
        has_name(compiled.list(), current_step@),
    ensures
        ({
            let step = compiled.list()[position(compiled.list(), current_step@)].1;
            let site = compiled.site_of(current_step@);
            r == (step.fail_if_no_file_changes || nfc_of(step) is Some || jump_target_of(
                step,
            ) is Some || (compiled.meta_of(site) matches Some(meta) && meta.last_step@
                == current_step@ && group_target(meta) is Some && tracker.taken().dom().contains(
                group_key(site->0),
            )))
        }),
{
    let step = step_at(&compiled.steps, step_position(compiled, current_step));
    if step.fail_if_no_file_changes || nfc_rule(step).is_some() || jump_target(step).is_some() {
        return true;
    }
    match group_meta(compiled, current_step) {
        Some((site, meta)) => {
            same_text(meta.last_step.as_str(), current_step) && tracker.has_snapshot(
                group_snapshot_key(site.as_str()).as_str(),
            ) && match &meta.if_condition {
                Some(c) => c.file_changed.is_some(),
                None => false,
            }
        },
        None => false,
    }
}

/// What the execution of a step came to.
#[derive(Debug)]
pub struct StepReport {
    /// The step was a command that failed.
    pub failed: bool,
    /// The step that the user's choice leads to, where there was a choice. A choice that leads
    /// to no step is the end of the workflow.
    pub option_next: Option<Option<String>>,
}

/// The step that a choice leads to, as mathematical values.
pub open spec fn choice_view(choice: Option<Option<String>>) -> Option<Option<Seq<char>>> {
    match choice {
        Some(next) => Some(opt_view(next)),
        None => None,
    }
}

impl StepReport {
    /// The report of a prompt step.
    pub fn of_prompt() -> (r: StepReport)
        ensures
            r == (StepReport { failed: false, option_next: None }),
    {
        StepReport { failed: false, option_next: None }
    }

    /// The report of a command step that succeeded or not.
    pub fn of_command(success: bool) -> (r: StepReport)
        ensures
            r == (StepReport { failed: !success, option_next: None }),
    {
        StepReport { failed: !success, option_next: None }
    }

    /// The report of an option step whose result names the given next step. Where there is
    /// nothing to choose from, the run goes on as after any other step.
    pub fn of_option(step: &OptionStep, next: Option<String>) -> (r: StepReport)
        ensures
            !r.failed,
            r.option_next == (if step.choices@.len() == 0 && next is None {
                None
            } else {
                Some(next)
            }),
    {
        if step.choices.len() == 0 && next.is_none() {
            return StepReport { failed: false, option_next: None };
        }
        StepReport { failed: false, option_next: Some(next) }
    }
}

/// How a step ends.
pub enum Finish {
    /// The step should have changed files and did not.
    NoFileChanges,
    /// An edge was taken too often.
    Loop(Seq<char>),
    /// The run goes on to the given step, or ends.
    Go(Option<Seq<char>>),
}

/// The first of two that there is.
pub open spec fn first_of<T>(a: Option<T>, b: Option<T>) -> Option<T> {
    match a {
        Some(_) => a,
        None => b,
    }
}

/// The counters after the step ran.
pub open spec fn after_run(s: Progress, failed: bool) -> Progress {
    Progress {
        run: s.run + 1,
        failed: s.failed + if failed {
            1int
        } else {
            0
        },
        ..s
    }
}

/// The counters after the jump of a group was counted.
pub open spec fn after_group_jump(s: Progress, g: Seq<char>) -> Progress {
    Progress { groups: s.groups.insert(g, (s.retries(g) + 1) as usize), ..s }
}

/// The counters after an edge was taken.
pub open spec fn after_edge(s: Progress, edge: Edge) -> Progress {
    Progress { edges: s.edges.insert(edge, (s.taken(edge) + 1) as usize), ..s }
}

/// How a step ends, and the counters after it.
///
/// A step that had to change files and did not ends the run, or runs again if its rule says so.
/// Else the next step is, in this order: the jump target of the step or of its group if files
/// changed, the step again, the user's choice, the step's own next, the one that stands after
/// it. A choice that leads to no step ends the run. Going to a step counts the edge, and an edge
/// counted more than `max_retries` times ends the run.
pub open spec fn finish(
    c: CompiledWorkflow,
    tracker: FileTracker,
    current: Seq<char>,
    now: Files,
    failed: bool,
    option_next: Option<Option<Seq<char>>>,
    max_retries: int,
    s: Progress,
) -> (Finish, Progress) {
    let step = c.list()[position(c.list(), current)].1;
    let s1 = after_run(s, failed);
    let unchanged = nfc_of(step) is Some && !tracker.changed(nfc_key(current), now);
    if step.fail_if_no_file_changes && !tracker.changed(nochange_key(current), now) {
        (Finish::NoFileChanges, s1)
    } else if unchanged && nfc_of(step)->0.fail {
        (Finish::NoFileChanges, s1)
    } else {
        let by_step = step_jump(tracker, current, jump_target_of(step), now);
        let by_group = if by_step is None {
            group_jump(c, tracker, current, now)
        } else {
            None
        };
        let s2 = if by_group is Some {
            after_group_jump(s1, c.site_of(current)->0)
        } else {
            s1
        };
        let again = if unchanged && nfc_of(step)->0.retry {
            Some(current)
        } else {
            None
        };
        let forced = first_of(first_of(by_step, by_group), again);
        let target = if forced is Some {
            forced
        } else {
            match option_next {
                Some(chosen) => chosen,
                None => next_step(c.list(), current, opt_view(step.next)),
            }
        };
        match target {
            None => (Finish::Go(None), s2),
            Some(next) => {
                let s3 = after_edge(s2, (current, next));
                if s3.taken((current, next)) > max_retries {
                    (Finish::Loop(next), s3)
                } else {
                    (Finish::Go(Some(next)), s3)
                }
            },
        }
    }
}

/// What the user is told about a jump that files caused.
pub open spec fn jump_notice(
    c: CompiledWorkflow,
    tracker: FileTracker,
    current: Seq<char>,
    now: Files,
) -> Option<Seq<char>> {
    let step = c.list()[position(c.list(), current)].1;
    let by_step = step_jump(tracker, current, jump_target_of(step), now);
    let by_group = group_jump(c, tracker, current, now);
    if by_step is Some {
        Some("files changed, jumping to: "@ + by_step->0)
    } else if by_group is Some {
        Some(
            "files changed in group '"@ + c.site_of(current)->0 + "', jumping to: "@ + by_group->0,
        )
    } else {
        None
    }
}

/// Where the run goes after a step.
#[derive(Debug)]
pub struct Finished {
    pub outcome: StepOutcome,
    /// The jump that files caused, if there was one.
    pub notice: Option<String>,
}

/// Decides where the run goes after a step; `now` is the tree as it is.
///
/// # Errors
///
/// Returns `StepMadeNoFileChanges` if the step had to change files and did not, and
/// `LoopProtection` if an edge was taken more than `max_retries` times.
pub fn finish_step(
    compiled: &CompiledWorkflow,
    tracker: &FileTracker,
    current_step: &str,
    state: &mut LoopState,
    report: StepReport,
    max_retries: usize,
    now: &Snapshot,
) -> (r: Result<Finished, CruiseError>)
    requires
        has_name(compiled.list(), current_step@),
        old(state)@.sound(),
        // The step was begun and is not counted yet.
        old(state)@.run + old(state)@.skipped < old(state)@.step_index,
    ensures
        final(state)@.sound(),
        ({
            let f = finish(
                *compiled,
                *tracker,
                current_step@,
                now@,
                report.failed,
                choice_view(report.option_next),
                max_retries as int,
                old(state)@,
            );
            &&& final(state)@ == f.1
            &&& match f.0 {
                Finish::NoFileChanges => r matches Err(CruiseError::StepMadeNoFileChanges(name))
                    && name@ == current_step@,
                Finish::Loop(next) => r matches Err(
                    CruiseError::LoopProtection { from, to, max_retries: max, edge_counts },
                ) && from@ == current_step@ && to@ == next && max == max_retries && descending(
                    edge_counts@,
                ) && lists(edge_counts@, f.1.edges),
                Finish::Go(next) => r matches Ok(done) && done.outcome.next() == next && opt_view(
                    done.notice,
                ) == jump_notice(*compiled, *tracker, current_step@, now@),
            }
        }),
{
    let step = step_at(&compiled.steps, step_position(compiled, current_step));
    let ghost s = state@;
    state.run = state.run + 1;
    if report.failed {
        state.failed = state.failed + 1;
    }
    let ghost s1 = state@;
    assert(s1 == after_run(s, report.failed));
    if step.fail_if_no_file_changes && !tracker.has_files_changed(
        nochange_snapshot_key(current_step).as_str(),
        now,
    ) {
        return Err(CruiseError::StepMadeNoFileChanges(current_step.to_owned()));
    }
    let again: bool = match nfc_rule(step) {
        Some(rule) => {
            if !tracker.has_files_changed(nfc_snapshot_key(current_step).as_str(), now) {
                if rule.fail {
                    return Err(CruiseError::StepMadeNoFileChanges(current_step.to_owned()));
                }
                rule.retry
            } else {
                false
            }
        },
        None => false,
    };
    let jump = resolve_if_next(
        compiled,
        tracker,
        current_step,
        jump_target(step),
        &mut state.group_retry_counts,
        now,
    );
    let (jump_to, notice): (Option<String>, Option<String>) = match jump {
        Some(jump) => (Some(jump.target), Some(jump.notice)),
        None => (None, None),
    };
    let next: Option<String> = if jump_to.is_some() {
        jump_to
    } else if again {
        Some(current_step.to_owned())
    } else {
        match report.option_next {
            Some(chosen) => chosen,
            None => match &step.next {
                Some(name) => get_next_step(&compiled.steps, current_step, Some(name.as_str())),
                None => get_next_step(&compiled.steps, current_step, None),
            },
        }
    };
    let ghost s2 = state@;
    if let Some(name) = &next {
        assert(state.edge_counts@ == s2.edges);
        assert(state.edge_counts.count_spec((current_step@, name@)) == s2.taken((current_step@, name@)));
        let count = state.edge_counts.bump(current_step, name.as_str());
        assert(state@ =~= after_edge(s2, (current_step@, name@)));
        if count > max_retries {
            let edge_counts = state.edge_counts.by_count();
            return Err(
                CruiseError::LoopProtection {
                    from: current_step.to_owned(),
                    to: name.clone(),
                    max_retries,
                    edge_counts,
                },
            );
        }
    }
    Ok(Finished { outcome: StepOutcome::of(next), notice })
}

// ---------------------------------------------------------------------------
// Laws
// ---------------------------------------------------------------------------

/// One round leads from the step `a` with the counters `s` to the step `b` with the counters
/// `t`, whatever the variables, the files, the outcome of the step and the user's choice are.
pub open spec fn round(
    c: CompiledWorkflow,
    max_retries: int,
    a: Seq<char>,
    s: Progress,
    b: Seq<char>,
    t: Progress,
) -> bool {
    exists|
        vars: Variables,
        tracker: FileTracker,
        now: Files,
        failed: bool,
        option_next: Option<Option<Seq<char>>>,
    | #[trigger]
        leads(c, max_retries, vars, tracker, now, failed, option_next, a, s, b, t)
}

/// One round under the given circumstances leads from `a` and `s` to `b` and `t`.
pub open spec fn leads(
    c: CompiledWorkflow,
    max_retries: int,
    vars: Variables,
    tracker: FileTracker,
    now: Files,
    failed: bool,
    option_next: Option<Option<Seq<char>>>,
    a: Seq<char>,
    s: Progress,
    b: Seq<char>,
    t: Progress,
) -> bool {
    let (start, s1) = begin(c, vars, a, s);
    match start {
        Start::Skip(next, _) => next == Some(b) && t == s1,
        Start::Run(_, _) => finish(c, tracker, a, now, failed, option_next, max_retries, s1) == (
            Finish::Go(Some(b)),
            t,
        ),
        _ => false,
    }
}

/// The number of times that the edges from the step at `i` to the steps before `n` may still be
/// taken.
pub open spec fn row_budget(
    list: Seq<(Seq<char>, StepConfig)>,
    max: int,
    s: Progress,
    i: int,
    n: int,
) -> int
    decreases n,
{
    if n <= 0 {
        0
    } else {
        row_budget(list, max, s, i, n - 1) + (max - s.taken((list[i].0, list[n - 1].0)))
    }
}

/// The number of times that the edges between the first `m` steps and all steps may still be
/// taken.
pub open spec fn budget(list: Seq<(Seq<char>, StepConfig)>, max: int, s: Progress, m: int) -> int
    decreases m,
{
    if m <= 0 {
        0
    } else {
        budget(list, max, s, m - 1) + row_budget(list, max, s, m - 1, list.len() as int)
    }
}

/// The number of rounds that can still follow when the step at `at` comes next.
pub open spec fn rounds_left(
    list: Seq<(Seq<char>, StepConfig)>,
    max: int,
    s: Progress,
    at: int,
) -> int {
    budget(list, max, s, list.len() as int) * (list.len() + 1) + (list.len() - at)
}

proof fn lemma_row_budget_bounds(
    list: Seq<(Seq<char>, StepConfig)>,
    max: int,
    s: Progress,
    i: int,
    n: int,
)
    requires
        s.within(max),
        0 <= max,
        0 <= n,
    ensures
        0 <= row_budget(list, max, s, i, n) <= max * n,
    decreases n,
{
    if n > 0 {
        lemma_row_budget_bounds(list, max, s, i, n - 1);
        assert(max * n == max * (n - 1) + max) by (nonlinear_arith);
    }
}

proof fn lemma_budget_bounds(list: Seq<(Seq<char>, StepConfig)>, max: int, s: Progress, m: int)
    requires
        s.within(max),
        0 <= max,
        0 <= m,
    ensures
        0 <= budget(list, max, s, m) <= max * list.len() * m,
    decreases m,
{
    if m > 0 {
        lemma_budget_bounds(list, max, s, m - 1);
        lemma_row_budget_bounds(list, max, s, m - 1, list.len() as int);
        let k = max * list.len();
        assert(k * m == k * (m - 1) + k) by (nonlinear_arith);
    } else {
        assert(max * list.len() * m == 0) by (nonlinear_arith)
            requires
                m == 0,
        ;
    }
}

proof fn lemma_row_budget_after_edge(
    list: Seq<(Seq<char>, StepConfig)>,
    max: int,
    s: Progress,
    t: Progress,
    a: int,
    b: int,
    i: int,
    n: int,
)
    requires
        distinct_names(list),
        0 <= a < list.len(),
        0 <= b < list.len(),
        0 <= i < list.len(),
        0 <= n <= list.len(),
        forall|e: Edge| #[trigger]
            t.taken(e) == s.taken(e) + (if e == (list[a].0, list[b].0) {
                1int
            } else {
                0
            }),
    ensures
        row_budget(list, max, t, i, n) == row_budget(list, max, s, i, n) - (if i == a && b < n {
            1int
        } else {
            0
        }),
    decreases n,
{
    if n > 0 {
        lemma_row_budget_after_edge(list, max, s, t, a, b, i, n - 1);
        let e = (list[i].0, list[n - 1].0);
        assert(t.taken(e) == s.taken(e) + (if e == (list[a].0, list[b].0) {
            1int
        } else {
            0
        }));
        if i != a {
            assert(list[i].0 != list[a].0);
        }
        if n - 1 != b {
            assert(list[n - 1].0 != list[b].0);
        }
    }
}

proof fn lemma_budget_after_edge(
    list: Seq<(Seq<char>, StepConfig)>,
    max: int,
    s: Progress,
    t: Progress,
    a: int,
    b: int,
    m: int,
)
    requires
        distinct_names(list),
        0 <= a < list.len(),
        0 <= b < list.len(),
        0 <= m <= list.len(),
        forall|e: Edge| #[trigger]
            t.taken(e) == s.taken(e) + (if e == (list[a].0, list[b].0) {
                1int
            } else {
                0
            }),
    ensures
        budget(list, max, t, m) == budget(list, max, s, m) - (if a < m {
            1int
        } else {
            0
        }),
    decreases m,
{
    if m > 0 {
        lemma_budget_after_edge(list, max, s, t, a, b, m - 1);
        lemma_row_budget_after_edge(list, max, s, t, a, b, m - 1, list.len() as int);
    }
}

proof fn lemma_budget_same_edges(
    list: Seq<(Seq<char>, StepConfig)>,
    max: int,
    s: Progress,
    t: Progress,
    m: int,
)
    requires
        s.edges == t.edges,
    ensures
        budget(list, max, s, m) == budget(list, max, t, m),
    decreases m,
{
    if m > 0 {
        lemma_budget_same_edges(list, max, s, t, m - 1);
        lemma_row_budget_same_edges(list, max, s, t, m - 1, list.len() as int);
    }
}

proof fn lemma_row_budget_same_edges(
    list: Seq<(Seq<char>, StepConfig)>,
    max: int,
    s: Progress,
    t: Progress,
    i: int,
    n: int,
)
    requires
        s.edges == t.edges,
    ensures
        row_budget(list, max, s, i, n) == row_budget(list, max, t, i, n),
    decreases n,
{
    if n > 0 {
        lemma_row_budget_same_edges(list, max, s, t, i, n - 1);
    }
}

/// A round keeps every edge within its limit.
pub proof fn law_edges_stay_within_the_limit(
    c: CompiledWorkflow,
    max_retries: int,
    a: Seq<char>,
    s: Progress,
    b: Seq<char>,
    t: Progress,
)
    requires
        s.sound(),
        s.run < usize::MAX,
        s.within(max_retries),
        round(c, max_retries, a, s, b, t),
    ensures
        t.within(max_retries),
{
    let (vars, tracker, now, failed, option_next) = choose|
        vars: Variables,
        tracker: FileTracker,
        now: Files,
        failed: bool,
        option_next: Option<Option<Seq<char>>>,
    | #[trigger]
        leads(c, max_retries, vars, tracker, now, failed, option_next, a, s, b, t);
    assert forall|e: Edge| #[trigger] t.edges.dom().contains(e) implies t.edges[e]
        <= max_retries by {
        let s1 = begin(c, vars, a, s).1;
        assert(s1.edges == s.edges);
    }
}

/// A run ends: every round that leads on to another step of the workflow uses up one of the
/// rounds that are left.
pub proof fn law_every_round_uses_up_a_round(
    c: CompiledWorkflow,
    max_retries: int,
    a: Seq<char>,
    s: Progress,
    b: Seq<char>,
    t: Progress,
)
    requires
        c.wf(),
        distinct_names(c.list()),
        0 <= max_retries,
        s.sound(),
        s.run < usize::MAX,
        s.within(max_retries),
        round(c, max_retries, a, s, b, t),
        has_name(c.list(), b),
    ensures
        ({
            let list = c.list();
            0 <= rounds_left(list, max_retries, t, position(list, b)) < rounds_left(
                list,
                max_retries,
                s,
                position(list, a),
            )
        }),
{
    let list = c.list();
    let n = list.len() as int;
    let (vars, tracker, now, failed, option_next) = choose|
        vars: Variables,
        tracker: FileTracker,
        now: Files,
        failed: bool,
        option_next: Option<Option<Seq<char>>>,
    | #[trigger]
        leads(c, max_retries, vars, tracker, now, failed, option_next, a, s, b, t);
    law_edges_stay_within_the_limit(c, max_retries, a, s, b, t);
    lemma_budget_bounds(list, max_retries, s, n);
    lemma_budget_bounds(list, max_retries, t, n);
    let (start, s1) = begin(c, vars, a, s);
    let i = position(list, a);
    let j = position(list, b);
    assert(list[i].0 == a && list[j].0 == b);
    let p = budget(list, max_retries, s, n);
    let q = budget(list, max_retries, t, n);
    assert(0 <= q * (n + 1)) by (nonlinear_arith)
        requires
            0 <= q,
            0 <= n,
    ;
    match start {
        Start::Skip(_, _) => {
            lemma_budget_same_edges(list, max_retries, s, t, n);
            if group_exhausted(c, a, s) {
                let g = c.site_of(a)->0;
                let meta = c.meta_of(c.site_of(a))->0;
                assert(c.invocations@.dom().contains(g));
                let (x, y) = choose|x: int, y: int| covers_from_to(list, meta, x, y);
                lemma_position(list, x);
                lemma_position(list, y);
                lemma_position(list, y + 1);
            } else {
                lemma_position(list, i + 1);
            }
            assert(i < j);
        },
        Start::Run(_, _) => {
            let e = (a, b);
            assert(s1.edges == s.edges);
            assert forall|x: Edge| #[trigger]
                t.taken(x) == s.taken(x) + (if x == (list[i].0, list[j].0) {
                1int
            } else {
                0
            }) by {}
            lemma_budget_after_edge(list, max_retries, s, t, i, j, n);
            assert((p - 1) * (n + 1) + n < p * (n + 1)) by (nonlinear_arith)
                requires
                    0 <= n,
            ;
        },
        _ => {},
    }
}

/// A run ends: no chain of rounds through the steps of a workflow is longer than the square of
/// the number of steps, times the limit of an edge, allows.
pub proof fn law_runs_end(c: CompiledWorkflow, max_retries: int, chain: Seq<(Seq<char>, Progress)>)
    requires
        c.wf(),
        distinct_names(c.list()),
        0 <= max_retries,
        chain.len() > 0,
        chain[0].1.within(max_retries),
        forall|k: int|
            0 <= k < chain.len() ==> {
                &&& has_name(c.list(), (#[trigger] chain[k]).0)
                &&& chain[k].1.sound()
                &&& chain[k].1.run < usize::MAX
            },
        forall|k: int|
            0 <= k < chain.len() - 1 ==> round(
                c,
                max_retries,
                (#[trigger] chain[k]).0,
                chain[k].1,
                chain[k + 1].0,
                chain[k + 1].1,
            ),
    ensures
        chain.len() <= max_retries * c.list().len() * c.list().len() * (c.list().len() + 1)
            + c.list().len() + 1,
{
    let list = c.list();
    let n = list.len() as int;
    lemma_chain_uses_up_rounds(c, max_retries, chain, chain.len() - 1);
    let s = chain[0].1;
    lemma_budget_bounds(list, max_retries, s, n);
    let p = budget(list, max_retries, s, n);
    let top = max_retries * n * n;
    assert(p * (n + 1) <= top * (n + 1)) by (nonlinear_arith)
        requires
            p <= top,
            0 <= n,
    ;
    let at = position(list, chain[0].0);
    assert(list[at].0 == chain[0].0);
}

proof fn lemma_chain_uses_up_rounds(
    c: CompiledWorkflow,
    max_retries: int,
    chain: Seq<(Seq<char>, Progress)>,
    k: int,
)
    requires
        c.wf(),
        distinct_names(c.list()),
        0 <= max_retries,
        0 <= k < chain.len(),
        chain[0].1.within(max_retries),
        forall|k: int|
            0 <= k < chain.len() ==> {
                &&& has_name(c.list(), (#[trigger] chain[k]).0)
                &&& chain[k].1.sound()
                &&& chain[k].1.run < usize::MAX
            },
        forall|k: int|
            0 <= k < chain.len() - 1 ==> round(
                c,
                max_retries,
                (#[trigger] chain[k]).0,
                chain[k].1,
                chain[k + 1].0,
                chain[k + 1].1,
            ),
    ensures
        chain[k].1.within(max_retries),
        0 <= rounds_left(c.list(), max_retries, chain[k].1, position(c.list(), chain[k].0)),
        rounds_left(c.list(), max_retries, chain[k].1, position(c.list(), chain[k].0)) + k
            <= rounds_left(c.list(), max_retries, chain[0].1, position(c.list(), chain[0].0)),
    decreases k,
{
    let list = c.list();
    let n = list.len() as int;
    if k == 0 {
        lemma_budget_bounds(list, max_retries, chain[0].1, n);
        let p = budget(list, max_retries, chain[0].1, n);
        assert(0 <= p * (n + 1)) by (nonlinear_arith)
            requires
                0 <= p,
                0 <= n,
        ;
        let at = position(list, chain[0].0);
        assert(list[at].0 == chain[0].0);
    } else {
        lemma_chain_uses_up_rounds(c, max_retries, chain, k - 1);
        let (a, s) = chain[k - 1];
        let (b, t) = chain[k];
        assert(round(c, max_retries, a, s, b, t));
        law_edges_stay_within_the_limit(c, max_retries, a, s, b, t);
        law_every_round_uses_up_a_round(c, max_retries, a, s, b, t);
    }
}

} // verus!
