//! A workflow made ready to run: the configuration with its groups laid out.

use indexmap::IndexMap;
use vstd::prelude::*;

use crate::config::{
    config_fault, config_is_valid, group_fault, group_of, group_seen, groups_are_valid,
    law_groups_are_contiguous, step_at, step_list, step_name_at, steps_len, steps_new,
    validate_groups, GroupConfig, IfCondition, LlmApiConfigYaml, StepConfig, WorkflowConfig,
};
use crate::error::CruiseError;
use crate::names::NameMap;

verus! {

/// The run of steps that a group stands for.
#[derive(Debug)]
pub struct InvocationMeta {
    /// The first step of the group.
    pub first_step: String,
    /// The last step of the group.
    pub last_step: String,
    /// The number of its steps.
    pub step_count: usize,
    /// How often the group may be retried before it is skipped.
    pub max_retries: Option<usize>,
    /// The condition of the whole group.
    pub if_condition: Option<IfCondition>,
}

/// A workflow configuration with its groups laid out.
#[derive(Debug)]
pub struct CompiledWorkflow {
    pub command: Vec<String>,
    pub model: Option<String>,
    pub plan_model: Option<String>,
    pub env: NameMap<String>,
    pub steps: IndexMap<String, StepConfig>,
    pub after_pr: IndexMap<String, StepConfig>,
    /// The groups that have steps, by name.
    pub invocations: NameMap<InvocationMeta>,
    /// The group of each step that has one.
    pub step_to_invocation: NameMap<String>,
    pub pr_language: String,
    pub llm_api: Option<LlmApiConfigYaml>,
}

/// The steps from `a` to `b` are those of the group `g` among the first `n` steps.
pub open spec fn is_span(
    steps: Seq<(Seq<char>, StepConfig)>,
    n: int,
    g: Seq<char>,
    a: int,
    b: int,
) -> bool {
    &&& 0 <= a <= b < n
    &&& forall|i: int|
        0 <= i < n ==> (group_of((#[trigger] steps[i]).1) == Some(g) <==> a <= i <= b)
}

/// `meta` describes the group `g` among the first `n` steps.
pub open spec fn describes(
    groups: Map<Seq<char>, GroupConfig>,
    steps: Seq<(Seq<char>, StepConfig)>,
    n: int,
    g: Seq<char>,
    meta: InvocationMeta,
) -> bool {
    exists|a: int, b: int| #[trigger]
        is_span(steps, n, g, a, b) && meta.first_step@ == steps[a].0 && meta.last_step@
            == steps[b].0 && meta.step_count == b - a + 1 && meta.max_retries
            == groups[g].max_retries && meta.if_condition == groups[g].if_condition
}

/// The groups among the first `n` steps are laid out in `invocations`, and the steps refer to
/// them.
pub open spec fn laid_out(
    groups: Map<Seq<char>, GroupConfig>,
    steps: Seq<(Seq<char>, StepConfig)>,
    n: int,
    invocations: Map<Seq<char>, InvocationMeta>,
    step_to_invocation: Map<Seq<char>, String>,
) -> bool {
    &&& forall|g: Seq<char>| #[trigger] invocations.dom().contains(g) <==> group_seen(steps, n, g)
    &&& forall|g: Seq<char>| #[trigger]
        invocations.dom().contains(g) ==> describes(groups, steps, n, g, invocations[g])
    &&& forall|i: int|
        0 <= i < n ==> match group_of((#[trigger] steps[i]).1) {
            Some(g) => step_to_invocation.dom().contains(steps[i].0)
                && step_to_invocation[steps[i].0]@ == g,
            None => !step_to_invocation.dom().contains(steps[i].0),
        }
    &&& forall|name: Seq<char>| #[trigger]
        step_to_invocation.dom().contains(name) ==> exists|i: int|
            0 <= i < n && (#[trigger] steps[i]).0 == name
}

/// `meta` covers the steps from `a` to `b`.
pub open spec fn covers_from_to(
    steps: Seq<(Seq<char>, StepConfig)>,
    meta: InvocationMeta,
    a: int,
    b: int,
) -> bool {
    &&& 0 <= a <= b < steps.len()
    &&& meta.first_step@ == steps[a].0
    &&& meta.last_step@ == steps[b].0
    &&& meta.step_count == b - a + 1
}

/// `meta` covers a run of the steps.
pub open spec fn covers(steps: Seq<(Seq<char>, StepConfig)>, meta: InvocationMeta) -> bool {
    exists|a: int, b: int| covers_from_to(steps, meta, a, b)
}

proof fn lemma_described_is_covered(
    groups: Map<Seq<char>, GroupConfig>,
    steps: Seq<(Seq<char>, StepConfig)>,
    g: Seq<char>,
    meta: InvocationMeta,
)
    requires
        describes(groups, steps, steps.len() as int, g, meta),
    ensures
        covers(steps, meta),
{
    let (a, b) = choose|a: int, b: int| #[trigger]
        is_span(steps, steps.len() as int, g, a, b) && meta.first_step@ == steps[a].0
            && meta.last_step@ == steps[b].0 && meta.step_count == b - a + 1 && meta.max_retries
            == groups[g].max_retries && meta.if_condition == groups[g].if_condition;
    assert(covers_from_to(steps, meta, a, b));
}

impl CompiledWorkflow {
    /// The steps in their order.
    pub open spec fn list(self) -> Seq<(Seq<char>, StepConfig)> {
        step_list(self.steps)
    }

    /// Every group covers a run of the steps.
    pub open spec fn wf(self) -> bool {
        forall|g: Seq<char>| #[trigger]
            self.invocations@.dom().contains(g) ==> covers(self.list(), self.invocations@[g])
    }

    /// The group of a step.
    pub open spec fn site_of(self, step: Seq<char>) -> Option<Seq<char>> {
        if self.step_to_invocation@.dom().contains(step) {
            Some(self.step_to_invocation@[step]@)
        } else {
            None
        }
    }

    /// The layout of a group.
    pub open spec fn meta_of(self, site: Option<Seq<char>>) -> Option<InvocationMeta> {
        match site {
            Some(g) => if self.invocations@.dom().contains(g) {
                Some(self.invocations@[g])
            } else {
                None
            },
            None => None,
        }
    }

    /// The workflow whose steps are those that run after the pull request was created. It has
    /// no groups.
    pub fn to_after_pr_compiled(self) -> (r: CompiledWorkflow)
        ensures
            r.wf(),
            r.command == self.command,
            r.model == self.model,
            r.plan_model == self.plan_model,
            r.env == self.env,
            r.steps == self.after_pr,
            step_list(r.after_pr).len() == 0,
            r.invocations@ == Map::<Seq<char>, InvocationMeta>::empty(),
            r.step_to_invocation@ == Map::<Seq<char>, String>::empty(),
            r.pr_language == self.pr_language,
            r.llm_api == self.llm_api,
    {
        CompiledWorkflow {
            command: self.command,
            model: self.model,
            plan_model: self.plan_model,
            env: self.env,
            steps: self.after_pr,
            after_pr: steps_new(),
            invocations: NameMap::new(),
            step_to_invocation: NameMap::new(),
            pr_language: self.pr_language,
            llm_api: self.llm_api,
        }
    }
}

/// The copy of an optional condition.
fn copy_condition(c: &Option<IfCondition>) -> (r: Option<IfCondition>)
    ensures
        r == *c,
{
    match c {
        Some(x) => Some(x.copy()),
        None => None,
    }
}

proof fn lemma_span_grows(
    groups: Map<Seq<char>, GroupConfig>,
    steps: Seq<(Seq<char>, StepConfig)>,
    n: int,
    g: Seq<char>,
    meta: InvocationMeta,
)
    requires
        0 <= n < steps.len(),
        describes(groups, steps, n, g, meta),
        group_of(steps[n].1) != Some(g),
    ensures
        describes(groups, steps, n + 1, g, meta),
{
    let (a, b) = choose|a: int, b: int| #[trigger]
        is_span(steps, n, g, a, b) && meta.first_step@ == steps[a].0 && meta.last_step@
            == steps[b].0 && meta.step_count == b - a + 1 && meta.max_retries
            == groups[g].max_retries && meta.if_condition == groups[g].if_condition;
    assert(is_span(steps, n + 1, g, a, b));
}

/// `c` is the configuration with its groups laid out.
pub open spec fn compiles_to(config: WorkflowConfig, c: CompiledWorkflow) -> bool {
    &&& c.command == config.command
    &&& c.model == config.model
    &&& c.plan_model == config.plan_model
    &&& c.env == config.env
    &&& c.steps == config.steps
    &&& c.after_pr == config.after_pr
    &&& c.pr_language == config.pr_language
    &&& c.llm_api == config.llm_api
    &&& c.wf()
    &&& laid_out(
        config.groups@,
        step_list(config.steps),
        step_list(config.steps).len() as int,
        c.invocations@,
        c.step_to_invocation@,
    )
}

/// Validates the groups of a configuration and lays them out.
///
/// # Errors
///
/// Returns `InvalidStepConfig` that names the first step that breaks a rule of the groups.
pub fn compile(config: WorkflowConfig) -> (r: Result<CompiledWorkflow, CruiseError>)
    ensures
        match r {
            Ok(c) => config_is_valid(config) && compiles_to(config, c),
            Err(CruiseError::InvalidStepConfig(message)) => config_fault(config, message@),
            Err(_) => false,
        },
{
    match validate_groups(&config) {
        Ok(()) => {},
        Err(e) => return Err(e),
    }
    let ghost steps = step_list(config.steps);
    let ghost groups = config.groups@;
    let mut invocations: NameMap<InvocationMeta> = NameMap::new();
    let mut step_to_invocation: NameMap<String> = NameMap::new();
    let n = steps_len(&config.steps);
    let mut i: usize = 0;
    while i < n
        invariant
            i <= n,
            n == steps.len(),
            steps == step_list(config.steps),
            groups == config.groups@,
            groups_are_valid(groups, steps, n as int),
            laid_out(groups, steps, i as int, invocations@, step_to_invocation@),
        decreases n - i,
    {
        let name = step_name_at(&config.steps, i);
        let step = step_at(&config.steps, i);
        let ghost before = invocations@;
        let ghost refs = step_to_invocation@;
        proof {
            assert(group_fault(groups, steps, i as int) is None);
            assert(!refs.dom().contains(name@));
            assert forall|g: Seq<char>|
                group_of(steps[i as int].1) != Some(g) implies (#[trigger] group_seen(
                steps,
                i + 1,
                g,
            ) <==> group_seen(steps, i as int, g)) by {
                if group_seen(steps, i as int, g) {
                    let j = choose|j: int|
                        0 <= j < i && group_of((#[trigger] steps[j]).1) == Some(g);
                    assert(group_of(steps[j].1) == Some(g));
                }
            }
            assert forall|g: Seq<char>|
                #[trigger] before.dom().contains(g) && group_of(steps[i as int].1) != Some(
                    g,
                ) implies describes(groups, steps, i + 1, g, before[g]) by {
                lemma_span_grows(groups, steps, i as int, g, before[g]);
            }
        }
        if let Some(group) = &step.group {
            let ghost g = group@;
            assert(group_of(steps[i as int].1) == Some(g));
            assert(group_seen(steps, i + 1, g));
            let (max_retries, if_condition): (Option<usize>, Option<IfCondition>) =
                match config.groups.get(group.as_str()) {
                Some(settings) => (settings.max_retries, copy_condition(&settings.if_condition)),
                None => (None, None),
            };
            let (first_step, step_count): (String, usize) = match invocations.get(group.as_str()) {
                Some(meta) => {
                    proof {
                        assert(before.dom().contains(g));
                        assert(describes(groups, steps, i as int, g, before[g]));
                        let (a, b) = choose|a: int, b: int| #[trigger]
                            is_span(steps, i as int, g, a, b) && before[g].first_step@
                                == steps[a].0 && before[g].last_step@ == steps[b].0
                                && before[g].step_count == b - a + 1 && before[g].max_retries
                                == groups[g].max_retries && before[g].if_condition
                                == groups[g].if_condition;
                        assert(group_of(steps[a].1) == Some(g));
                        law_groups_are_contiguous(groups, steps, g, a, i - 1, i as int);
                        assert(b == i - 1);
                        assert(is_span(steps, i + 1, g, a, i as int));
                    }
                    (meta.first_step.clone(), meta.step_count + 1)
                },
                None => {
                    proof {
                        assert(!group_seen(steps, i as int, g));
                        assert(is_span(steps, i + 1, g, i as int, i as int));
                    }
                    (name.clone(), 1)
                },
            };
            let meta = InvocationMeta {
                first_step,
                last_step: name.clone(),
                step_count,
                max_retries,
                if_condition,
            };
            assert(describes(groups, steps, i + 1, g, meta));
            invocations.insert(group.clone(), meta);
            step_to_invocation.insert(name.clone(), group.clone());
        }
        proof {
            assert forall|k: int| 0 <= k < i + 1 implies match group_of((#[trigger] steps[k]).1) {
                Some(g) => step_to_invocation@.dom().contains(steps[k].0)
                    && step_to_invocation@[steps[k].0]@ == g,
                None => !step_to_invocation@.dom().contains(steps[k].0),
            } by {
                if k < i {
                    assert(steps[k].0 != name@);
                }
            }
            assert forall|x: Seq<char>| #[trigger]
                step_to_invocation@.dom().contains(x) implies exists|k: int|
                0 <= k < i + 1 && (#[trigger] steps[k]).0 == x by {
                if x == name@ {
                    assert(steps[i as int].0 == x);
                } else {
                    assert(refs.dom().contains(x));
                    let k = choose|k: int| 0 <= k < i && (#[trigger] steps[k]).0 == x;
                    assert(steps[k].0 == x);
                }
            }
        }
        i += 1;
    }
    proof {
        assert forall|g: Seq<char>| #[trigger] invocations@.dom().contains(g) implies covers(
            steps,
            invocations@[g],
        ) by {
            lemma_described_is_covered(groups, steps, g, invocations@[g]);
        }
    }
    Ok(
        CompiledWorkflow {
            command: config.command,
            model: config.model,
            plan_model: config.plan_model,
            env: config.env,
            steps: config.steps,
            after_pr: config.after_pr,
            invocations,
            step_to_invocation,
            pr_language: config.pr_language,
            llm_api: config.llm_api,
        },
    )
}

} // verus!
