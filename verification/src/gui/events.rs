//! The events that are sent to the graphical front end.

use vstd::prelude::*;

use crate::step::OptionChoice;
use crate::text::clone_opt;

verus! {

/// Events streamed during session creation (plan generation).
#[derive(Debug, PartialEq)]
pub enum PlanEvent {
    /// Plan generation has started.
    PlanGenerating,
    /// Plan was generated successfully; `content` is the markdown text.
    PlanGenerated { content: String },
    /// Plan generation failed; `error` contains the error message.
    PlanFailed { error: String },
}

/// Discriminates between selector and free-text-input choices.
#[derive(Debug, Clone, Copy, PartialEq, Eq, Structural)]
pub enum ChoiceKind {
    Selector,
    TextInput,
}

/// A single choice in an option step, as the front end sees it.
#[derive(Debug, PartialEq)]
pub struct ChoiceDto {
    pub label: String,
    pub kind: ChoiceKind,
    pub next: Option<String>,
}

/// Events streamed to the front end while workflows run.
#[derive(Debug, PartialEq)]
pub enum WorkflowEvent {
    StepStarted { step: String },
    StepCompleted { step: String, success: bool, duration_ms: u64, output: Option<String> },
    OptionRequired { request_id: String, choices: Vec<ChoiceDto>, plan: Option<String> },
    WorkflowCompleted { run: usize, skipped: usize, failed: usize },
    WorkflowFailed { error: String },
    WorkflowCancelled,
    RunAllStarted { total: usize },
    RunAllSessionStarted { session_id: String, input: String },
    RunAllSessionFinished {
        session_id: String,
        input: String,
        phase: String,
        error: Option<String>,
    },
    RunAllCompleted { cancelled: usize },
}

/// Where events are sent to.
pub trait EventEmitter: Send + Sync {
    /// Sends an event.
    fn emit(&self, event: WorkflowEvent);
}

/// A choice as the front end sees it.
pub open spec fn choice_dto(choice: OptionChoice) -> ChoiceDto {
    match choice {
        OptionChoice::Selector { label, next } => ChoiceDto {
            label,
            kind: ChoiceKind::Selector,
            next,
        },
        OptionChoice::TextInput { label, next } => ChoiceDto {
            label,
            kind: ChoiceKind::TextInput,
            next,
        },
    }
}

/// The choices as the front end sees them.
pub fn choices_to_dtos(choices: &[OptionChoice]) -> (r: Vec<ChoiceDto>)
    ensures
        r@ == choices@.map_values(|c: OptionChoice| choice_dto(c)),
{
    let mut r: Vec<ChoiceDto> = Vec::new();
    let mut i: usize = 0;
    while i < choices.len()
        invariant
            i <= choices@.len(),
            r@.len() == i,
            forall|k: int| 0 <= k < i ==> #[trigger] r@[k] == choice_dto(choices@[k]),
        decreases choices@.len() - i,
    {
        let dto: ChoiceDto = match &choices[i] {
            OptionChoice::Selector { label, next } => ChoiceDto {
                label: label.clone(),
                kind: ChoiceKind::Selector,
                next: clone_opt(next),
            },
            OptionChoice::TextInput { label, next } => ChoiceDto {
                label: label.clone(),
                kind: ChoiceKind::TextInput,
                next: clone_opt(next),
            },
        };
        r.push(dto);
        i += 1;
    }
    assert(r@ =~= choices@.map_values(|c: OptionChoice| choice_dto(c)));
    r
}

/// The event that asks the front end to choose.
pub fn option_required(request_id: &str, choices: &[OptionChoice], plan: Option<&str>) -> (r:
    WorkflowEvent)
    ensures
        r matches WorkflowEvent::OptionRequired { request_id: id, choices: dtos, plan: shown }
            && id@ == request_id@ && dtos@ == choices@.map_values(
            |c: OptionChoice| choice_dto(c),
        ) && crate::text::opt_view(shown) == crate::text::opt_str_view(plan),
{
    let shown: Option<String> = match plan {
        Some(text) => Some(text.to_owned()),
        None => None,
    };
    WorkflowEvent::OptionRequired {
        request_id: request_id.to_owned(),
        choices: choices_to_dtos(choices),
        plan: shown,
    }
}

} // verus!
