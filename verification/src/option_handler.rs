//! The interface through which a workflow asks its user to choose.

use std::sync::atomic::AtomicUsize;
use vstd::prelude::*;

use crate::error::CruiseError;
use crate::step::option::OptionResult;
use crate::step::OptionChoice;
use crate::text::clone_opt;

verus! {

/// Abstraction over the UI mechanism used to present option choices to the user.
pub trait OptionHandler {
    /// Present `choices` to the user and return their selection.
    ///
    /// `plan` is optional context text shown before the selection menu.
    ///
    /// # Errors
    ///
    /// Returns an error if the user interaction fails or is cancelled.
    fn select_option(&self, choices: &Vec<OptionChoice>, plan: Option<&str>) -> Result<
        OptionResult,
        CruiseError,
    >;
}

/// A handler that always selects the first choice and counts how often it was asked.
pub struct FirstChoiceOptionHandler {
    call_count: AtomicUsize,
}

impl FirstChoiceOptionHandler {
    /// A handler that was not asked yet.
    pub fn new() -> Self {
        FirstChoiceOptionHandler { call_count: AtomicUsize::new(0) }
    }

    /// Returns the number of times `select_option` was called.
    pub fn call_count(&self) -> usize {
        self.call_count.load(std::sync::atomic::Ordering::Relaxed)
    }
}

impl OptionHandler for FirstChoiceOptionHandler {
    fn select_option(&self, choices: &Vec<OptionChoice>, plan: Option<&str>) -> (r: Result<
        OptionResult,
        CruiseError,
    >)
        ensures
            match r {
                Ok(result) => if choices@.len() == 0 {
                    result == (OptionResult { next_step: None, text_input: None })
                } else {
                    match choices@[0] {
                        OptionChoice::Selector { label: _, next } => result == (OptionResult {
                            next_step: next,
                            text_input: None,
                        }),
                        OptionChoice::TextInput { label: _, next } => {
                            &&& result.next_step == next
                            &&& result.text_input matches Some(text) && text@.len() == 0
                        },
                    }
                },
                Err(_) => false,
            },
    {
        let _ = self.call_count.fetch_add(1, std::sync::atomic::Ordering::Relaxed);
        if choices.len() == 0 {
            return Ok(OptionResult { next_step: None, text_input: None });
        }
        match &choices[0] {
            OptionChoice::Selector { label: _, next } => Ok(
                OptionResult { next_step: clone_opt(next), text_input: None },
            ),
            OptionChoice::TextInput { label: _, next } => Ok(
                OptionResult { next_step: clone_opt(next), text_input: Some(String::new()) },
            ),
        }
    }
}

} // verus!
