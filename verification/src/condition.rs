//! Conditions under which a step runs or is skipped.

use vstd::prelude::*;

use crate::config::{IfCondition, SkipCondition};
use crate::error::CruiseError;
use crate::file_tracker::{FileTracker, Snapshot};
use crate::text::same_text;
use crate::variable::VariableStore;

verus! {

/// Returns true if the step should execute given its `if` condition and the files as they are
/// now.
pub fn evaluate_if_condition(condition: &IfCondition, tracker: &FileTracker, now: &Snapshot) -> (r:
    bool)
    ensures
        r == (match condition.file_changed {
            Some(step_name) => tracker.changed(step_name@, now@),
            None => true,
        }),
{
    match &condition.file_changed {
        Some(step_name) => tracker.has_files_changed(step_name.as_str(), now),
        None => true,
    }
}

/// Returns true if the step should be skipped.
pub fn should_skip(skip: Option<bool>) -> (r: bool)
    ensures
        r == (skip == Some(true)),
{
    match skip {
        Some(b) => b,
        None => false,
    }
}

/// A step is skipped: always, never, or if the named variable holds `true`. An undefined
/// variable is an error, given by its name.
pub open spec fn skips(
    skip: Option<SkipCondition>,
    vars: crate::variable::Variables,
) -> Result<bool, Seq<char>> {
    match skip {
        None => Ok(false),
        Some(SkipCondition::Static(b)) => Ok(b),
        Some(SkipCondition::Variable(name)) => match vars.lookup(name@) {
            Some(value) => Ok(value == "true"@),
            None => Err(name@),
        },
    }
}

/// Evaluates a skip condition.
///
/// # Errors
///
/// Returns `UndefinedVariable` if the condition names a variable that is not defined.
pub fn evaluate_skip(skip: &Option<SkipCondition>, vars: &VariableStore) -> (r: Result<
    bool,
    CruiseError,
>)
    ensures
        match r {
            Ok(b) => skips(*skip, vars@) == Ok::<bool, Seq<char>>(b),
            Err(CruiseError::UndefinedVariable(name)) => skips(*skip, vars@) == Err::<
                bool,
                Seq<char>,
            >(name@),
            Err(_) => false,
        },
{
    let flag: Option<bool> = match skip {
        None => None,
        Some(SkipCondition::Static(b)) => Some(*b),
        Some(SkipCondition::Variable(name)) => match vars.get_variable(name.as_str()) {
            Ok(value) => Some(same_text(value.as_str(), "true")),
            Err(e) => return Err(e),
        },
    };
    Ok(should_skip(flag))
}

} // verus!
