//! The arguments of the program.

use vstd::prelude::*;

use crate::text::{blank, is_blank, opt_view, trim, trimmed};

verus! {

/// How often a single loop edge may be traversed if nothing else is said.
pub const DEFAULT_MAX_RETRIES: usize = 10;

/// How often a step is tried again after a rate limit if nothing else is said.
pub const DEFAULT_RATE_LIMIT_RETRIES: usize = 5;

/// The arguments of the program.
#[derive(Debug)]
pub struct Args {
    /// Initial input passed to the workflow.
    pub input: Option<String>,
    /// Path to the workflow config file.
    pub config: Option<String>,
    /// Step name to start from (for resuming mid-workflow).
    pub from: Option<String>,
    /// Maximum number of times a single loop edge may be traversed.
    pub max_retries: usize,
    /// Maximum number of rate-limit retries per step.
    pub rate_limit_retries: usize,
    /// Print the workflow flow without executing it.
    pub dry_run: bool,
    /// Run workflow in an isolated git worktree.
    pub worktree: bool,
    /// Keep the worktree after workflow completes (default: auto-delete).
    pub keep_worktree: bool,
    /// Skip worktree resume detection; always create a new worktree.
    pub new_worktree: bool,
}

impl Default for Args {
    fn default() -> (r: Self)
        ensures
            r.input is None && r.config is None && r.from is None,
            r.max_retries == DEFAULT_MAX_RETRIES,
            r.rate_limit_retries == DEFAULT_RATE_LIMIT_RETRIES,
            !r.dry_run && !r.worktree && !r.keep_worktree && !r.new_worktree,
    {
        Args {
            input: None,
            config: None,
            from: None,
            max_retries: DEFAULT_MAX_RETRIES,
            rate_limit_retries: DEFAULT_RATE_LIMIT_RETRIES,
            dry_run: false,
            worktree: false,
            keep_worktree: false,
            new_worktree: false,
        }
    }
}

/// The input: the argument, or else what was piped to the program, without white space around it.
pub open spec fn input_with_pipe(input: Option<Seq<char>>, piped: Seq<char>) -> Option<Seq<char>> {
    match input {
        Some(text) => Some(text),
        None => if is_blank(piped) {
            None
        } else {
            Some(trim(piped))
        },
    }
}

impl Args {
    /// Takes what was piped to the program for the input if there is no argument for it.
    pub fn complete(&mut self, piped: &str)
        ensures
            opt_view(final(self).input) == input_with_pipe(opt_view(old(self).input), piped@),
            *final(self) == (Args { input: final(self).input, ..*old(self) }),
    {
        if self.input.is_none() && !blank(piped) {
            self.input = Some(trimmed(piped));
        }
    }
}

} // verus!
