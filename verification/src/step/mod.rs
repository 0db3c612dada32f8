//! The kinds of steps and what each of them needs.

use vstd::prelude::*;

use crate::config::{OptionItem, StepConfig, StringOrVec};
use crate::error::CruiseError;
use crate::text::{clone_opt, clone_strings};

pub mod command;
pub mod option;
pub mod prompt;

verus! {

/// Discriminated union of all step kinds.
#[derive(Debug)]
pub enum StepKind {
    /// Calls an LLM via the configured command.
    Prompt(PromptStep),
    /// Runs one or more shell commands.
    Command(CommandStep),
    /// Presents an interactive selection menu.
    Option(OptionStep),
}

/// Parameters for a prompt step.
#[derive(Debug)]
pub struct PromptStep {
    pub model: Option<String>,
    pub prompt: String,
    pub instruction: Option<String>,
}

/// Parameters for a command step.
#[derive(Debug)]
pub struct CommandStep {
    /// One or more shell commands to run sequentially.
    pub command: Vec<String>,
}

/// A single choice in an option step.
#[derive(Debug)]
pub enum OptionChoice {
    /// A regular selector item.
    Selector { label: String, next: Option<String> },
    /// A free-text input item.
    TextInput { label: String, next: Option<String> },
}

impl OptionChoice {
    /// The label of a choice.
    pub open spec fn label_spec(self) -> Seq<char> {
        match self {
            OptionChoice::Selector { label, next: _ } => label@,
            OptionChoice::TextInput { label, next: _ } => label@,
        }
    }

    /// The label shown in the menu.
    pub fn label(&self) -> (r: &str)
        ensures
            r@ == self.label_spec(),
    {
        match self {
            OptionChoice::Selector { label, next: _ } => label.as_str(),
            OptionChoice::TextInput { label, next: _ } => label.as_str(),
        }
    }

    /// A copy of the choice.
    pub fn copy(&self) -> (r: OptionChoice)
        ensures
            r == *self,
    {
        match self {
            OptionChoice::Selector { label, next } => OptionChoice::Selector {
                label: label.clone(),
                next: clone_opt(next),
            },
            OptionChoice::TextInput { label, next } => OptionChoice::TextInput {
                label: label.clone(),
                next: clone_opt(next),
            },
        }
    }
}

/// Parameters for an option step.
#[derive(Debug)]
pub struct OptionStep {
    pub choices: Vec<OptionChoice>,
    /// Template string that resolves to a file path; contents shown as context.
    pub plan: Option<String>,
}

/// What is wrong with an option item, as a text; None if nothing is.
pub open spec fn item_fault(item: OptionItem) -> Option<Seq<char>> {
    if item.selector is Some && item.text_input is Some {
        Some("option item must have either 'selector' or 'text-input', not both"@)
    } else if item.selector is None && item.text_input is None {
        Some("option item must have a 'selector' or 'text-input' field"@)
    } else {
        None
    }
}

/// The choice that a sound option item stands for.
pub open spec fn item_choice(item: OptionItem) -> OptionChoice {
    match item.selector {
        Some(label) => OptionChoice::Selector { label, next: item.next },
        None => OptionChoice::TextInput { label: item.text_input->0, next: item.next },
    }
}

/// The fault of the first faulty item.
pub open spec fn items_fault(items: Seq<OptionItem>) -> Option<Seq<char>>
    decreases items.len(),
{
    if items.len() == 0 {
        None
    } else {
        match items_fault(items.drop_last()) {
            Some(fault) => Some(fault),
            None => item_fault(items.last()),
        }
    }
}

/// Convert a list of `OptionItem` into `OptionChoice` values.
///
/// # Errors
///
/// Returns `InvalidStepConfig` if an item has both labels or none.
pub fn items_to_choices(items: &Vec<OptionItem>) -> (r: Result<Vec<OptionChoice>, CruiseError>)
    ensures
        match r {
            Ok(choices) => items_fault(items@) is None && choices@ == items@.map_values(
                |item: OptionItem| item_choice(item),
            ),
            Err(CruiseError::InvalidStepConfig(message)) => items_fault(items@) == Some(message@),
            Err(_) => false,
        },
{
    let mut choices: Vec<OptionChoice> = Vec::new();
    let mut i: usize = 0;
    assert(items@.take(0) =~= seq![]);
    while i < items.len()
        invariant
            i <= items@.len(),
            items_fault(items@.take(i as int)) is None,
            choices@ == items@.take(i as int).map_values(|item: OptionItem| item_choice(item)),
        decreases items@.len() - i,
    {
        let item = &items[i];
        assert(items@.take(i + 1).drop_last() == items@.take(i as int));
        let both = item.selector.is_some() && item.text_input.is_some();
        if both {
            proof {
                lemma_items_fault_of_prefix(items@, i + 1);
            }
            return Err(
                CruiseError::InvalidStepConfig(
                    "option item must have either 'selector' or 'text-input', not both".to_owned(),
                ),
            );
        }
        match (&item.selector, &item.text_input) {
            (Some(label), _) => {
                choices.push(
                    OptionChoice::Selector { label: label.clone(), next: clone_opt(&item.next) },
                );
            },
            (None, Some(label)) => {
                choices.push(
                    OptionChoice::TextInput { label: label.clone(), next: clone_opt(&item.next) },
                );
            },
            (None, None) => {
                proof {
                    lemma_items_fault_of_prefix(items@, i + 1);
                }
                return Err(
                    CruiseError::InvalidStepConfig(
                        "option item must have a 'selector' or 'text-input' field".to_owned(),
                    ),
                );
            },
        }
        assert(choices@ == items@.take(i + 1).map_values(|item: OptionItem| item_choice(item)));
        i += 1;
    }
    assert(items@.take(i as int) == items@);
    Ok(choices)
}

proof fn lemma_items_fault_of_prefix(items: Seq<OptionItem>, n: int)
    requires
        0 <= n <= items.len(),
        items_fault(items.take(n)) is Some,
    ensures
        items_fault(items) == items_fault(items.take(n)),
    decreases items.len(),
{
    if n < items.len() {
        assert(items.drop_last().take(n) == items.take(n));
        lemma_items_fault_of_prefix(items.drop_last(), n);
    } else {
        assert(items.take(n) == items);
    }
}

/// The commands of a command value, in order.
pub open spec fn command_list(c: StringOrVec) -> Seq<String> {
    match c {
        StringOrVec::Single(s) => seq![s],
        StringOrVec::Multiple(v) => v@,
    }
}

/// What is wrong with a step, as a text; None if it has one of the three kinds.
pub open spec fn step_fault(config: StepConfig) -> Option<Seq<char>> {
    if config.prompt is Some {
        None
    } else if config.option is Some {
        items_fault(config.option->0@)
    } else if config.command is Some {
        if command_list(config.command->0).len() == 0 {
            Some("command step must have at least one command"@)
        } else {
            None
        }
    } else {
        Some("step must have a prompt, command, or option field"@)
    }
}

/// `kind` is the kind of a sound step: a prompt makes a prompt step, else options make an
/// option step, else a command makes a command step.
pub open spec fn is_kind_of(config: StepConfig, kind: StepKind) -> bool {
    if config.prompt is Some {
        kind == StepKind::Prompt(
            PromptStep {
                model: config.model,
                prompt: config.prompt->0,
                instruction: config.instruction,
            },
        )
    } else if config.option is Some {
        kind matches StepKind::Option(step) && step.plan == config.plan && step.choices@
            == config.option->0@.map_values(|item: OptionItem| item_choice(item))
    } else {
        kind matches StepKind::Command(step) && step.command@ == command_list(config.command->0)
    }
}

impl StepKind {
    /// The kind of the step that `config` describes.
    ///
    /// # Errors
    ///
    /// Returns `InvalidStepConfig` if the step has none of the three kinds, an empty command
    /// list or an unsound option item.
    pub fn try_from(config: StepConfig) -> (r: Result<StepKind, CruiseError>)
        ensures
            match r {
                Ok(kind) => step_fault(config) is None && is_kind_of(config, kind),
                Err(CruiseError::InvalidStepConfig(message)) => step_fault(config) == Some(
                    message@,
                ),
                Err(_) => false,
            },
    {
        Self::of(&config)
    }

    /// The kind of the step that `config` describes.
    ///
    /// # Errors
    ///
    /// As `try_from`.
    pub fn of(config: &StepConfig) -> (r: Result<StepKind, CruiseError>)
        ensures
            match r {
                Ok(kind) => step_fault(*config) is None && is_kind_of(*config, kind),
                Err(CruiseError::InvalidStepConfig(message)) => step_fault(*config) == Some(
                    message@,
                ),
                Err(_) => false,
            },
    {
        if let Some(prompt) = &config.prompt {
            return Ok(
                StepKind::Prompt(
                    PromptStep {
                        model: clone_opt(&config.model),
                        prompt: prompt.clone(),
                        instruction: clone_opt(&config.instruction),
                    },
                ),
            );
        }
        if let Some(items) = &config.option {
            let choices = match items_to_choices(items) {
                Ok(choices) => choices,
                Err(e) => return Err(e),
            };
            return Ok(StepKind::Option(OptionStep { choices, plan: clone_opt(&config.plan) }));
        }
        if let Some(cmd) = &config.command {
            let command: Vec<String> = match cmd {
                StringOrVec::Single(s) => {
                    let mut v: Vec<String> = Vec::new();
                    v.push(s.clone());
                    assert(v@ =~= seq![*s]);
                    v
                },
                StringOrVec::Multiple(v) => clone_strings(v),
            };
            if command.len() == 0 {
                return Err(
                    CruiseError::InvalidStepConfig(
                        "command step must have at least one command".to_owned(),
                    ),
                );
            }
            return Ok(StepKind::Command(CommandStep { command }));
        }
        Err(
            CruiseError::InvalidStepConfig(
                "step must have a prompt, command, or option field".to_owned(),
            ),
        )
    }
}

/// The word that names the kind of a step in an overview.
pub open spec fn kind_label_spec(config: StepConfig) -> Seq<char> {
    if config.prompt is Some {
        "prompt"@
    } else if config.command is Some && config.option is None {
        "command"@
    } else if config.option is Some {
        "option"@
    } else {
        "unknown"@
    }
}

/// The word that names the kind of a step in an overview.
pub fn kind_label(config: &StepConfig) -> (r: &'static str)
    ensures
        r@ == kind_label_spec(*config),
{
    if config.prompt.is_some() {
        "prompt"
    } else if config.command.is_some() && config.option.is_none() {
        "command"
    } else if config.option.is_some() {
        "option"
    } else {
        "unknown"
    }
}

/// Every step has either a kind or a fault, never both: a step without a fault is labelled by
/// the kind that it is given.
pub proof fn law_label_names_the_kind(config: StepConfig, kind: StepKind)
    requires
        step_fault(config) is None,
        is_kind_of(config, kind),
    ensures
        kind_label_spec(config) == (match kind {
            StepKind::Prompt(_) => "prompt"@,
            StepKind::Command(_) => "command"@,
            StepKind::Option(_) => "option"@,
        }),
{
}

} // verus!
