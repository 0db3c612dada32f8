//! The outcome of a multiline prompt.

use vstd::prelude::*;

use crate::error::CruiseError;
use crate::text::{blank, is_blank};

verus! {

/// Result of a multiline input prompt.
#[derive(Debug, PartialEq)]
pub enum InputResult {
    /// User confirmed the input with Enter.
    Submitted(String),
    /// User cancelled with Escape or Ctrl+C.
    Cancelled,
}

impl InputResult {
    /// Convert into a plain result: the text with its newlines, or `StepPaused`.
    ///
    /// # Errors
    ///
    /// Returns `StepPaused` if the user cancelled the input.
    pub fn into_result(self) -> (r: Result<String, CruiseError>)
        ensures
            match self {
                InputResult::Submitted(text) => r == Ok::<String, CruiseError>(text),
                InputResult::Cancelled => r == Err::<String, CruiseError>(CruiseError::StepPaused),
            },
    {
        match self {
            InputResult::Submitted(text) => Ok(text),
            InputResult::Cancelled => Err(CruiseError::StepPaused),
        }
    }
}

/// What a line editor reports.
#[derive(Debug)]
pub enum Signal {
    /// The user submitted a text.
    Success(String),
    /// The user pressed Ctrl+C.
    CtrlC,
    /// The user pressed Ctrl+D.
    CtrlD,
}

/// What a signal means: a blank text means nothing, any other text is submitted, and both
/// control keys cancel.
pub open spec fn signal_result(signal: Signal) -> Option<InputResult> {
    match signal {
        Signal::Success(text) => if is_blank(text@) {
            None
        } else {
            Some(InputResult::Submitted(text))
        },
        Signal::CtrlC => Some(InputResult::Cancelled),
        Signal::CtrlD => Some(InputResult::Cancelled),
    }
}

/// Map a line editor's signal to an [`InputResult`].
///
/// Returns `None` when the submitted text is blank (empty or whitespace-only),
/// signalling the caller to discard the submission and prompt again.
pub fn map_signal(signal: Signal) -> (r: Option<InputResult>)
    ensures
        r == signal_result(signal),
{
    match signal {
        Signal::Success(text) => if blank(text.as_str()) {
            None
        } else {
            Some(InputResult::Submitted(text))
        },
        Signal::CtrlC => Some(InputResult::Cancelled),
        Signal::CtrlD => Some(InputResult::Cancelled),
    }
}

/// A prompt never hands a blank text on.
pub proof fn law_submitted_text_is_not_blank(signal: Signal)
    ensures
        signal_result(signal) matches Some(InputResult::Submitted(text)) ==> !is_blank(text@),
{
}

} // verus!
