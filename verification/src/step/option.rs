//! Option steps: the menu, the selection and what it leads to.

use vstd::prelude::*;

use crate::error::CruiseError;
use crate::multiline_input::InputResult;
use crate::step::OptionChoice;
use crate::text::{clone_opt, same_text, views};

verus! {

/// Result of executing an option step.
#[derive(Debug)]
pub struct OptionResult {
    /// Next step name chosen by the user (None = end of workflow).
    pub next_step: Option<String>,
    /// Text entered by the user when a text-input choice was selected.
    pub text_input: Option<String>,
}

/// The labels of the choices, in order.
pub open spec fn labels(choices: Seq<OptionChoice>) -> Seq<Seq<char>> {
    choices.map_values(|c: OptionChoice| c.label_spec())
}

/// The labels shown to the user, in order.
pub fn option_labels(choices: &Vec<OptionChoice>) -> (r: Vec<String>)
    ensures
        views(r@) == labels(choices@),
{
    let mut r: Vec<String> = Vec::new();
    let mut i: usize = 0;
    while i < choices.len()
        invariant
            i <= choices@.len(),
            views(r@) == labels(choices@.take(i as int)),
        decreases choices@.len() - i,
    {
        let ghost done = views(r@);
        let label = choices[i].label().to_owned();
        r.push(label);
        assert(views(r@) == done.push(label@));
        assert(labels(choices@.take(i + 1)) == labels(choices@.take(i as int)).push(
            choices@[i as int].label_spec(),
        ));
        i += 1;
    }
    assert(choices@.take(i as int) == choices@);
    r
}

/// The first index at which `label` stands in `all`, or the length of `all`.
pub open spec fn first_index(all: Seq<Seq<char>>, label: Seq<char>) -> int
    decreases all.len(),
{
    if all.len() == 0 {
        0
    } else if all[0] == label {
        0
    } else {
        1 + first_index(all.drop_first(), label)
    }
}

/// `first_index` is what it says.
pub proof fn lemma_first_index(all: Seq<Seq<char>>, label: Seq<char>)
    ensures
        0 <= first_index(all, label) <= all.len(),
        first_index(all, label) < all.len() ==> all[first_index(all, label)] == label,
        forall|i: int| 0 <= i < first_index(all, label) ==> all[i] != label,
    decreases all.len(),
{
    if all.len() > 0 && all[0] != label {
        lemma_first_index(all.drop_first(), label);
        assert forall|i: int| 0 <= i < first_index(all, label) implies all[i] != label by {
            if i > 0 {
                assert(all[i] == all.drop_first()[i - 1]);
            }
        }
    }
}

/// The position of the first label that equals `wanted`.
pub fn position_of(all: &Vec<String>, wanted: &str) -> (r: Option<usize>)
    ensures
        match r {
            Some(i) => i < all@.len() && i == first_index(views(all@), wanted@),
            None => first_index(views(all@), wanted@) == all@.len(),
        },
{
    let mut i: usize = 0;
    proof {
        lemma_first_index(views(all@), wanted@);
    }
    while i < all.len()
        invariant
            i <= all@.len(),
            i <= first_index(views(all@), wanted@) <= all@.len(),
            first_index(views(all@), wanted@) < all@.len() ==> views(all@)[first_index(
                views(all@),
                wanted@,
            )] == wanted@,
            forall|k: int|
                0 <= k < first_index(views(all@), wanted@) ==> views(all@)[k] != wanted@,
        decreases all@.len() - i,
    {
        assert(views(all@)[i as int] == all@[i as int]@);
        if same_text(all[i].as_str(), wanted) {
            return Some(i);
        }
        i += 1;
    }
    None
}

/// What became of a selection menu.
#[derive(Debug)]
pub enum Selection {
    /// The user selected the item with this label.
    Label(String),
    /// The user left the menu.
    Cancelled,
    /// The menu could not be shown, for this reason.
    Failed(String),
}

/// What an option step does next.
#[derive(Debug)]
pub enum OptionNext {
    /// The step is done.
    Done(OptionResult),
    /// Ask for a text under this label, then go on to the given step.
    AskText { label: String, next: Option<String> },
}

/// Whether there is anything to select. Without a choice an option step is done at once.
pub fn empty_menu(choices: &Vec<OptionChoice>) -> (r: Option<OptionResult>)
    ensures
        r == (if choices@.len() == 0 {
            Some(OptionResult { next_step: None, text_input: None })
        } else {
            None
        }),
{
    if choices.len() == 0 {
        Some(OptionResult { next_step: None, text_input: None })
    } else {
        None
    }
}

/// What the selected choice leads to.
///
/// # Errors
///
/// Returns `StepPaused` if the user left the menu, and `Other` if the menu failed or the label
/// belongs to no choice.
pub fn after_selection(choices: &Vec<OptionChoice>, selection: Selection) -> (r: Result<
    OptionNext,
    CruiseError,
>)
    ensures
        match selection {
            Selection::Cancelled => r == Err::<OptionNext, CruiseError>(CruiseError::StepPaused),
            Selection::Failed(e) => r matches Err(CruiseError::Other(m)) && m@
                == "selection error: "@ + e@,
            Selection::Label(label) => {
                let i = first_index(labels(choices@), label@);
                if i < choices@.len() {
                    r == Ok::<OptionNext, CruiseError>(
                        match choices@[i] {
                            OptionChoice::Selector { label: _, next } => OptionNext::Done(
                                OptionResult { next_step: next, text_input: None },
                            ),
                            OptionChoice::TextInput { label, next } => OptionNext::AskText {
                                label,
                                next,
                            },
                        },
                    )
                } else {
                    r matches Err(CruiseError::Other(m)) && m@ == "selected item not found"@
                }
            },
        },
{
    let label = match selection {
        Selection::Cancelled => return Err(CruiseError::StepPaused),
        Selection::Failed(e) => return Err(
            CruiseError::Other("selection error: ".to_owned().concat(e.as_str())),
        ),
        Selection::Label(label) => label,
    };
    let all = option_labels(choices);
    match position_of(&all, label.as_str()) {
        None => Err(CruiseError::Other("selected item not found".to_owned())),
        Some(i) => match &choices[i] {
            OptionChoice::Selector { label: _, next } => Ok(
                OptionNext::Done(OptionResult { next_step: clone_opt(next), text_input: None }),
            ),
            OptionChoice::TextInput { label, next } => Ok(
                OptionNext::AskText { label: label.clone(), next: clone_opt(next) },
            ),
        },
    }
}

/// What the text that the user entered leads to.
///
/// # Errors
///
/// Returns `StepPaused` if the user cancelled the input.
pub fn after_text(next: Option<String>, input: InputResult) -> (r: Result<OptionResult, CruiseError>)
    ensures
        match input {
            InputResult::Submitted(text) => r == Ok::<OptionResult, CruiseError>(
                OptionResult { next_step: next, text_input: Some(text) },
            ),
            InputResult::Cancelled => r == Err::<OptionResult, CruiseError>(
                CruiseError::StepPaused,
            ),
        },
{
    match input.into_result() {
        Ok(text) => Ok(OptionResult { next_step: next, text_input: Some(text) }),
        Err(e) => Err(e),
    }
}

/// The label of a choice leads to that choice, if no choice before it has the same label.
pub proof fn law_label_selects_its_choice(choices: Seq<OptionChoice>, i: int)
    requires
        0 <= i < choices.len(),
        forall|j: int| 0 <= j < i ==> choices[j].label_spec() != choices[i].label_spec(),
    ensures
        first_index(labels(choices), choices[i].label_spec()) == i,
{
    let all = labels(choices);
    lemma_first_index(all, choices[i].label_spec());
    assert(all[i] == choices[i].label_spec());
    let k = first_index(all, choices[i].label_spec());
    if k < i {
        assert(all[k] == choices[k].label_spec());
    }
}

} // verus!
