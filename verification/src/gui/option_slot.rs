//! The place where an open question to the front end waits for its answer.

use vstd::prelude::*;

use crate::cancellation::CancellationToken;
use crate::error::CruiseError;
use crate::step::option::OptionResult;

verus! {

/// Holds what answers the open question, if there is one.
#[derive(Debug)]
pub struct OptionSlot<T> {
    pending: Option<T>,
}

impl<T> OptionSlot<T> {
    /// What answers the open question.
    pub closed spec fn pending_spec(self) -> Option<T> {
        self.pending
    }

    /// No question is open.
    pub fn new() -> (r: Self)
        ensures
            r.pending_spec() is None,
    {
        OptionSlot { pending: None }
    }

    /// Whether a question is open.
    pub fn is_pending(&self) -> (r: bool)
        ensures
            r == (self.pending_spec() is Some),
    {
        self.pending.is_some()
    }

    /// Opens a question.
    ///
    /// # Errors
    ///
    /// Returns `Other` if one is open already, which stays.
    pub fn open(&mut self, responder: T) -> (r: Result<(), CruiseError>)
        ensures
            match old(self).pending_spec() {
                Some(_) => {
                    &&& r matches Err(CruiseError::Other(m)) && m@
                        == "pending_response slot already occupied — previous request was not consumed"@
                    &&& final(self).pending_spec() == old(self).pending_spec()
                },
                None => r is Ok && final(self).pending_spec() == Some(responder),
            },
    {
        if self.pending.is_some() {
            return Err(
                CruiseError::Other(
                    "pending_response slot already occupied — previous request was not consumed".to_owned(),
                ),
            );
        }
        self.pending = Some(responder);
        Ok(())
    }

    /// Takes what answers the open question, which is then closed.
    ///
    /// # Errors
    ///
    /// Returns a message if no question is open.
    pub fn respond(&mut self) -> (r: Result<T, String>)
        ensures
            final(self).pending_spec() is None,
            match old(self).pending_spec() {
                Some(responder) => r == Ok::<T, String>(responder),
                None => r matches Err(m) && m@ == "no pending option request"@,
            },
    {
        match self.pending.take() {
            Some(responder) => Ok(responder),
            None => Err("no pending option request".to_owned()),
        }
    }

    /// Closes the open question without an answer.
    pub fn cancel(&mut self) -> (r: Option<T>)
        ensures
            final(self).pending_spec() is None,
            r == old(self).pending_spec(),
    {
        self.pending.take()
    }
}

/// Cancels the session that runs, if there is one, and closes the open question without an
/// answer, so that nobody waits for it any longer. What cancelled the session is used up. Returns
/// the token that was cancelled, and who waited for the answer.
pub fn do_cancel_session<T>(cancel_token: &mut Option<CancellationToken>, slot: &mut OptionSlot<T>)
    -> (r: (Option<CancellationToken>, Option<T>))
    ensures
        *final(cancel_token) is None,
        final(slot).pending_spec() is None,
        r.0 == *old(cancel_token),
        r.1 == old(slot).pending_spec(),
{
    let token = cancel_token.take();
    match &token {
        Some(token) => token.cancel(),
        None => {},
    }
    (token, slot.cancel())
}

/// Takes what the front end's answer is to be handed to.
///
/// # Errors
///
/// Returns a message if no question is open.
pub fn do_respond_to_option<T>(slot: &mut OptionSlot<T>) -> (r: Result<T, String>)
    ensures
        final(slot).pending_spec() is None,
        match old(slot).pending_spec() {
            Some(responder) => r == Ok::<T, String>(responder),
            None => r matches Err(m) && m@ == "no pending option request"@,
        },
{
    slot.respond()
}

/// What an option step gets from the front end: its answer, or nothing if the question was
/// closed without one.
///
/// # Errors
///
/// Returns `Interrupted` if there is no answer.
pub fn answer_received(answer: Option<OptionResult>) -> (r: Result<OptionResult, CruiseError>)
    ensures
        r == (match answer {
            Some(result) => Ok::<OptionResult, CruiseError>(result),
            None => Err(CruiseError::Interrupted),
        }),
{
    match answer {
        Some(result) => Ok(result),
        None => Err(CruiseError::Interrupted),
    }
}

} // verus!
