//! The workflow configuration and the rules that it has to keep.

use indexmap::IndexMap;
use vstd::prelude::*;

use crate::error::CruiseError;
use crate::names::NameMap;
use crate::text::same_text;

verus! {

/// The language of pull request texts if none is configured.
pub const DEFAULT_PR_LANGUAGE: &'static str = "English";

/// A command value that can be either a single string or a list of strings.
#[derive(Debug)]
pub enum StringOrVec {
    Single(String),
    Multiple(Vec<String>),
}

/// Skip condition: static boolean or a variable reference.
#[derive(Debug)]
pub enum SkipCondition {
    /// Always skip (true) or never skip (false).
    Static(bool),
    /// Skip if the named variable resolves to "true".
    Variable(String),
}

/// A single item in an option step.
#[derive(Debug)]
pub struct OptionItem {
    /// Selector label shown in the menu.
    pub selector: Option<String>,
    /// Free-text input label (shows a text prompt when selected).
    pub text_input: Option<String>,
    /// Step to go to when this item is selected (None = end of workflow).
    pub next: Option<String>,
}

/// What to do when a step changed no file.
#[derive(Debug, Clone, Copy)]
pub struct NoFileChanges {
    /// Fail the workflow.
    pub fail: bool,
    /// Run the step again.
    pub retry: bool,
}

/// Conditional execution rule.
#[derive(Debug)]
pub struct IfCondition {
    /// The step to jump to if files changed.
    pub file_changed: Option<String>,
    /// What to do if no file changed.
    pub no_file_changes: Option<NoFileChanges>,
}

impl IfCondition {
    /// A copy of the condition.
    pub fn copy(&self) -> (r: IfCondition)
        ensures
            r == *self,
    {
        IfCondition {
            file_changed: crate::text::clone_opt(&self.file_changed),
            no_file_changes: self.no_file_changes,
        }
    }
}

/// Group configuration for grouping related steps.
#[derive(Debug)]
pub struct GroupConfig {
    /// Conditional execution rule applied to the entire group.
    pub if_condition: Option<IfCondition>,
    /// Maximum number of retries for this group before skipping.
    pub max_retries: Option<usize>,
}

/// Per-step configuration. All fields are optional.
#[derive(Debug)]
pub struct StepConfig {
    /// Model to use (prompt steps only).
    pub model: Option<String>,
    /// Prompt body (prompt steps only).
    pub prompt: Option<String>,
    /// Message displayed to the user before this step runs (prompt steps only).
    pub instruction: Option<String>,
    /// Plan file path to display as context in option steps.
    pub plan: Option<String>,
    /// List of choices (option steps only).
    pub option: Option<Vec<OptionItem>>,
    /// Shell command(s) to run (command steps only).
    pub command: Option<StringOrVec>,
    /// Explicit next step name, overriding sequential order.
    pub next: Option<String>,
    /// Skip condition: static bool or variable reference.
    pub skip: Option<SkipCondition>,
    /// Conditional execution rule.
    pub if_condition: Option<IfCondition>,
    /// Environment variables applied to this step (overrides top-level env).
    pub env: NameMap<String>,
    /// Group this step belongs to.
    pub group: Option<String>,
    /// Fail the workflow if the step changed no file.
    pub fail_if_no_file_changes: bool,
}

impl Default for StepConfig {
    /// A step without any field.
    fn default() -> (r: Self)
        ensures
            r.model is None,
            r.prompt is None,
            r.instruction is None,
            r.plan is None,
            r.option is None,
            r.command is None,
            r.next is None,
            r.skip is None,
            r.if_condition is None,
            r.env.entries().len() == 0,
            r.group is None,
            !r.fail_if_no_file_changes,
    {
        StepConfig {
            model: None,
            prompt: None,
            instruction: None,
            plan: None,
            option: None,
            command: None,
            next: None,
            skip: None,
            if_condition: None,
            env: NameMap::new(),
            group: None,
            fail_if_no_file_changes: false,
        }
    }
}

/// LLM API settings of a workflow configuration.
#[derive(Debug)]
pub struct LlmApiConfigYaml {
    pub api_key: Option<String>,
    pub endpoint: Option<String>,
    pub model: Option<String>,
}

/// Top-level workflow configuration.
#[derive(Debug)]
pub struct WorkflowConfig {
    /// LLM invocation command (such as `agent --model {model} -p`).
    pub command: Vec<String>,
    /// Default model for prompt steps. Per-step model overrides this.
    pub model: Option<String>,
    /// Model to use for the built-in plan step (falls back to `model`).
    pub plan_model: Option<String>,
    /// File path bound to the `plan` variable.
    pub plan: Option<String>,
    /// Environment variables applied to all steps.
    pub env: NameMap<String>,
    /// Group definitions. Groups share if conditions and max_retries.
    pub groups: NameMap<GroupConfig>,
    /// Step definitions, in the order in which they are written.
    pub steps: IndexMap<String, StepConfig>,
    /// Steps that run after the pull request was created.
    pub after_pr: IndexMap<String, StepConfig>,
    /// Language of the generated pull request texts.
    pub pr_language: String,
    /// LLM API settings.
    pub llm_api: Option<LlmApiConfigYaml>,
}

// ---------------------------------------------------------------------------
// The ordered map of steps
// ---------------------------------------------------------------------------

/// `indexmap::IndexMap`, a hash map that keeps the order in which its keys came in.
#[verifier::external_type_specification]
#[verifier::external_body]
#[verifier::reject_recursive_types(K)]
#[verifier::reject_recursive_types(V)]
#[verifier::reject_recursive_types(S)]
pub struct ExIndexMap<K, V, S>(IndexMap<K, V, S>);

/// The steps that the map holds, each with its name, in the map's order.
pub uninterp spec fn step_list(m: IndexMap<String, StepConfig>) -> Seq<(Seq<char>, StepConfig)>;

/// `IndexMap::new` makes a map without entries.
#[verifier::external_body]
pub(crate) fn steps_new() -> (r: IndexMap<String, StepConfig>)
    ensures
        step_list(r).len() == 0,
{
    IndexMap::new()
}

/// `IndexMap::len` is the number of the map's entries.
#[verifier::external_body]
pub(crate) fn steps_len(m: &IndexMap<String, StepConfig>) -> (r: usize)
    ensures
        r == step_list(*m).len(),
{
    m.len()
}

/// `IndexMap::get_index_of` gives the position of a key. A key has at most one position.
#[verifier::external_body]
pub(crate) fn steps_index_of(m: &IndexMap<String, StepConfig>, name: &str) -> (r: Option<usize>)
    ensures
        match r {
            Some(i) => {
                &&& i < step_list(*m).len()
                &&& step_list(*m)[i as int].0 == name@
                &&& forall|j: int|
                    0 <= j < step_list(*m).len() && j != i ==> (#[trigger] step_list(*m)[j]).0
                        != name@
            },
            None => forall|j: int|
                0 <= j < step_list(*m).len() ==> (#[trigger] step_list(*m)[j]).0 != name@,
        },
{
    m.get_index_of(name)
}

/// `IndexMap::get_index` gives the entry at a position, if there is one. No other entry has
/// the same key.
#[verifier::external_body]
pub(crate) fn steps_get_index(m: &IndexMap<String, StepConfig>, index: usize) -> (r: Option<
    (&String, &StepConfig),
>)
    ensures
        r is Some <==> index < step_list(*m).len(),
        r matches Some(entry) ==> {
            &&& entry.0@ == step_list(*m)[index as int].0
            &&& *entry.1 == step_list(*m)[index as int].1
            &&& forall|j: int|
                0 <= j < step_list(*m).len() && j != index ==> (#[trigger] step_list(*m)[j]).0
                    != entry.0@
        },
{
    m.get_index(index)
}

/// The name of the step at `i`.
pub(crate) fn step_name_at(m: &IndexMap<String, StepConfig>, i: usize) -> (r: &String)
    requires
        i < step_list(*m).len(),
    ensures
        r@ == step_list(*m)[i as int].0,
        forall|j: int|
            0 <= j < step_list(*m).len() && j != i ==> (#[trigger] step_list(*m)[j]).0 != r@,
{
    match steps_get_index(m, i) {
        Some(entry) => entry.0,
        None => vstd::pervasive::unreached(),
    }
}

/// The configuration of the step at `i`.
pub(crate) fn step_at(m: &IndexMap<String, StepConfig>, i: usize) -> (r: &StepConfig)
    requires
        i < step_list(*m).len(),
    ensures
        *r == step_list(*m)[i as int].1,
{
    match steps_get_index(m, i) {
        Some(entry) => entry.1,
        None => vstd::pervasive::unreached(),
    }
}

// ---------------------------------------------------------------------------
// Groups
// ---------------------------------------------------------------------------

/// The group of a step.
pub open spec fn group_of(step: StepConfig) -> Option<Seq<char>> {
    crate::text::opt_view(step.group)
}

/// The group of the step before `i`, if there is such a step and it has one.
pub open spec fn group_before(steps: Seq<(Seq<char>, StepConfig)>, i: int) -> Option<Seq<char>> {
    if i > 0 {
        group_of(steps[i - 1].1)
    } else {
        None
    }
}

/// A step before `i` belongs to the group `g`.
pub open spec fn group_seen(steps: Seq<(Seq<char>, StepConfig)>, i: int, g: Seq<char>) -> bool {
    exists|j: int| 0 <= j < i && group_of((#[trigger] steps[j]).1) == Some(g)
}

/// What is wrong with the group of the step at `i`, as a text; None if nothing is.
pub open spec fn group_fault(
    groups: Map<Seq<char>, GroupConfig>,
    steps: Seq<(Seq<char>, StepConfig)>,
    i: int,
) -> Option<Seq<char>> {
    let name = steps[i].0;
    match group_of(steps[i].1) {
        None => None,
        Some(g) => if !groups.dom().contains(g) {
            Some("step '"@ + name + "' references undefined group '"@ + g + "'"@)
        } else if steps[i].1.if_condition is Some {
            Some(
                "step '"@ + name
                    + "' has both a group and an individual 'if' condition; use only the group's 'if'"@,
            )
        } else if group_before(steps, i) != Some(g) && group_seen(steps, i, g) {
            Some(
                "steps in group '"@ + g + "' are not consecutive (step '"@ + name
                    + "' is out of order)"@,
            )
        } else {
            None
        },
    }
}

/// No step before `n` has a fault in its group.
pub open spec fn groups_are_valid(
    groups: Map<Seq<char>, GroupConfig>,
    steps: Seq<(Seq<char>, StepConfig)>,
    n: int,
) -> bool {
    forall|i: int| 0 <= i < n ==> #[trigger] group_fault(groups, steps, i) is None
}

/// No step of the configuration has a fault in its group.
pub open spec fn config_is_valid(config: WorkflowConfig) -> bool {
    groups_are_valid(
        config.groups@,
        step_list(config.steps),
        step_list(config.steps).len() as int,
    )
}

/// `message` tells what is wrong with the first step that has a fault in its group.
pub open spec fn config_fault(config: WorkflowConfig, message: Seq<char>) -> bool {
    exists|i: int|
        {
            &&& 0 <= i < step_list(config.steps).len()
            &&& groups_are_valid(config.groups@, step_list(config.steps), i)
            &&& #[trigger] group_fault(config.groups@, step_list(config.steps), i) == Some(message)
        }
}

/// Whether some step before `i` belongs to the group `name`.
fn group_was_seen(steps: &IndexMap<String, StepConfig>, i: usize, name: &str) -> (r: bool)
    requires
        i <= step_list(*steps).len(),
    ensures
        r == group_seen(step_list(*steps), i as int, name@),
{
    let mut j: usize = 0;
    while j < i
        invariant
            j <= i <= step_list(*steps).len(),
            !group_seen(step_list(*steps), j as int, name@),
        decreases i - j,
    {
        if let Some(other) = &step_at(steps, j).group {
            if same_text(other.as_str(), name) {
                assert(group_of(step_list(*steps)[j as int].1) == Some(name@));
                return true;
            }
        }
        j += 1;
    }
    false
}

/// Validate group configuration:
/// - All step `group` references must point to defined groups.
/// - Steps in the same group must be consecutive.
/// - Steps with a group must not have individual `if` conditions.
///
/// # Errors
///
/// Returns `InvalidStepConfig` that names the first step that breaks a rule.
pub fn validate_groups(config: &WorkflowConfig) -> (r: Result<(), CruiseError>)
    ensures
        match r {
            Ok(()) => config_is_valid(*config),
            Err(CruiseError::InvalidStepConfig(message)) => config_fault(*config, message@),
            Err(_) => false,
        },
{
    let ghost steps = step_list(config.steps);
    let mut i: usize = 0;
    let n = steps_len(&config.steps);
    while i < n
        invariant
            n == steps.len(),
            steps == step_list(config.steps),
            i <= n,
            groups_are_valid(config.groups@, steps, i as int),
        decreases n - i,
    {
        let name = step_name_at(&config.steps, i);
        let step = step_at(&config.steps, i);
        if let Some(group) = &step.group {
            let ghost g = group@;
            assert(group_of(steps[i as int].1) == Some(g));
            if !config.groups.contains_key(group.as_str()) {
                let mut m = "step '".to_owned();
                m.append(name.as_str());
                m.append("' references undefined group '");
                m.append(group.as_str());
                m.append("'");
                assert(group_fault(config.groups@, steps, i as int) == Some(m@));
                return Err(CruiseError::InvalidStepConfig(m));
            }
            if step.if_condition.is_some() {
                let mut m = "step '".to_owned();
                m.append(name.as_str());
                m.append(
                    "' has both a group and an individual 'if' condition; use only the group's 'if'",
                );
                assert(group_fault(config.groups@, steps, i as int) == Some(m@));
                return Err(CruiseError::InvalidStepConfig(m));
            }
            let continues: bool = if i > 0 {
                match &step_at(&config.steps, i - 1).group {
                    Some(prev) => same_text(prev.as_str(), group.as_str()),
                    None => false,
                }
            } else {
                false
            };
            assert(continues == (group_before(steps, i as int) == Some(g)));
            if !continues && group_was_seen(&config.steps, i, group.as_str()) {
                let mut m = "steps in group '".to_owned();
                m.append(group.as_str());
                m.append("' are not consecutive (step '");
                m.append(name.as_str());
                m.append("' is out of order)");
                assert(group_fault(config.groups@, steps, i as int) == Some(m@));
                return Err(CruiseError::InvalidStepConfig(m));
            }
        }
        assert(group_fault(config.groups@, steps, i as int) is None);
        i += 1;
    }
    Ok(())
}

/// In a valid configuration the steps of a group follow one another: every step between two
/// steps of a group belongs to it.
pub proof fn law_groups_are_contiguous(
    groups: Map<Seq<char>, GroupConfig>,
    steps: Seq<(Seq<char>, StepConfig)>,
    g: Seq<char>,
    a: int,
    b: int,
    c: int,
)
    requires
        groups_are_valid(groups, steps, steps.len() as int),
        0 <= a <= b <= c < steps.len(),
        group_of(steps[a].1) == Some(g),
        group_of(steps[c].1) == Some(g),
    ensures
        group_of(steps[b].1) == Some(g),
    decreases c - b,
{
    if b < c {
        assert(group_fault(groups, steps, c) is None);
        assert(group_seen(steps, c, g));
        assert(group_before(steps, c) == Some(g));
        law_groups_are_contiguous(groups, steps, g, a, b, c - 1);
    }
}

} // verus!
