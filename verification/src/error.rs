//! The errors of a workflow run and the texts that describe them.

use vstd::prelude::*;

use crate::text::{decimal, decimal_of};

verus! {

/// What can go wrong while a workflow is prepared or run.
#[derive(Debug)]
pub enum CruiseError {
    ConfigNotFound(String),
    ConfigParseError(String),
    StepNotFound(String),
    InvalidStepConfig(String),
    UndefinedVariable(String),
    CommandError(String),
    ProcessSpawnError(String),
    LoopProtection {
        from: String,
        to: String,
        max_retries: usize,
        /// All edge traversal counts at the time of the error, sorted by count descending.
        edge_counts: Vec<(String, String, usize)>,
    },
    IoError(String),
    NotGitRepository,
    WorktreeError(String),
    SessionError(String),
    SessionStateConflict(String),
    SessionStateConflictAborted(String),
    StepMadeNoFileChanges(String),
    Interrupted,
    Other(String),
    StepPaused,
}

/// The line of the edge table for one edge.
pub open spec fn edge_line(edge: (String, String, usize)) -> Seq<char> {
    "\n    "@ + edge.0@ + " -> "@ + edge.1@ + ": "@ + decimal(edge.2 as nat)
}

/// The lines of the edge table, one after the other.
pub open spec fn edge_table(edges: Seq<(String, String, usize)>) -> Seq<char>
    decreases edges.len(),
{
    if edges.len() == 0 {
        seq![]
    } else {
        edge_table(edges.drop_last()) + edge_line(edges.last())
    }
}

impl CruiseError {
    /// The text that describes the error.
    pub open spec fn message_spec(self) -> Seq<char> {
        match self {
            CruiseError::ConfigNotFound(s) => "config file not found: "@ + s@,
            CruiseError::ConfigParseError(s) => "failed to parse config file: "@ + s@,
            CruiseError::StepNotFound(s) => "step not found: "@ + s@,
            CruiseError::InvalidStepConfig(s) => "invalid step config: "@ + s@,
            CruiseError::UndefinedVariable(s) => "undefined variable: {"@ + s@ + "}"@,
            CruiseError::CommandError(s) => "command error: "@ + s@,
            CruiseError::ProcessSpawnError(s) => "process spawn error: "@ + s@,
            CruiseError::LoopProtection { from, to, max_retries, edge_counts: _ } => {
                "loop protection: edge "@ + from@ + " -> "@ + to@ + " exceeded max retries "@
                    + decimal(max_retries as nat)
            },
            CruiseError::IoError(s) => "I/O error: "@ + s@,
            CruiseError::NotGitRepository => "not a git repository"@,
            CruiseError::WorktreeError(s) => "git worktree error: "@ + s@,
            CruiseError::SessionError(s) => "session error: "@ + s@,
            CruiseError::SessionStateConflict(s) => {
                "session state.json changed externally during run: "@ + s@
            },
            CruiseError::SessionStateConflictAborted(s) => {
                "run aborted to preserve external session state: "@ + s@
            },
            CruiseError::StepMadeNoFileChanges(s) => {
                "step '"@ + s@ + "' made no tracked file changes (fail-if-no-file-changes)"@
            },
            CruiseError::Interrupted => "interrupted by user (Ctrl+C)"@,
            CruiseError::Other(s) => s@,
            CruiseError::StepPaused => "step paused by user interrupt"@,
        }
    }

    /// The text that describes the error, with the edge table of a `LoopProtection`.
    pub open spec fn detailed_spec(self) -> Seq<char> {
        match self {
            CruiseError::LoopProtection { edge_counts, .. } => if edge_counts@.len() > 0 {
                self.message_spec() + "\n  edge counts:"@ + edge_table(edge_counts@)
            } else {
                self.message_spec()
            },
            _ => self.message_spec(),
        }
    }

    /// The text that describes the error.
    pub fn message(&self) -> (r: String)
        ensures
            r@ == self.message_spec(),
    {
        match self {
            CruiseError::ConfigNotFound(s) => prefixed("config file not found: ", s.as_str()),
            CruiseError::ConfigParseError(s) => prefixed(
                "failed to parse config file: ",
                s.as_str(),
            ),
            CruiseError::StepNotFound(s) => prefixed("step not found: ", s.as_str()),
            CruiseError::InvalidStepConfig(s) => prefixed("invalid step config: ", s.as_str()),
            CruiseError::UndefinedVariable(s) => {
                prefixed("undefined variable: {", s.as_str()).concat("}")
            },
            CruiseError::CommandError(s) => prefixed("command error: ", s.as_str()),
            CruiseError::ProcessSpawnError(s) => prefixed("process spawn error: ", s.as_str()),
            CruiseError::LoopProtection { from, to, max_retries, edge_counts: _ } => {
                prefixed("loop protection: edge ", from.as_str()).concat(" -> ").concat(
                    to.as_str(),
                ).concat(" exceeded max retries ").concat(
                    decimal_of(*max_retries as u64).as_str(),
                )
            },
            CruiseError::IoError(s) => prefixed("I/O error: ", s.as_str()),
            CruiseError::NotGitRepository => "not a git repository".to_owned(),
            CruiseError::WorktreeError(s) => prefixed("git worktree error: ", s.as_str()),
            CruiseError::SessionError(s) => prefixed("session error: ", s.as_str()),
            CruiseError::SessionStateConflict(s) => prefixed(
                "session state.json changed externally during run: ",
                s.as_str(),
            ),
            CruiseError::SessionStateConflictAborted(s) => prefixed(
                "run aborted to preserve external session state: ",
                s.as_str(),
            ),
            CruiseError::StepMadeNoFileChanges(s) => {
                prefixed("step '", s.as_str()).concat(
                    "' made no tracked file changes (fail-if-no-file-changes)",
                )
            },
            CruiseError::Interrupted => "interrupted by user (Ctrl+C)".to_owned(),
            CruiseError::Other(s) => s.clone(),
            CruiseError::StepPaused => "step paused by user interrupt".to_owned(),
        }
    }

    /// Returns a detailed error message with additional diagnostic context.
    ///
    /// For `LoopProtection`, includes the full edge traversal count table.
    /// For all other variants, it is the plain message.
    pub fn detailed_message(&self) -> (r: String)
        ensures
            r@ == self.detailed_spec(),
    {
        let mut msg = self.message();
        if let CruiseError::LoopProtection { from: _, to: _, max_retries: _, edge_counts } = self {
            if edge_counts.len() > 0 {
                msg.append("\n  edge counts:");
                let ghost head = msg@;
                let mut i: usize = 0;
                assert(edge_counts@.take(0) =~= seq![]);
                assert(head + edge_table(edge_counts@.take(0)) == head);
                while i < edge_counts.len()
                    invariant
                        i <= edge_counts@.len(),
                        msg@ == head + edge_table(edge_counts@.take(i as int)),
                    decreases edge_counts@.len() - i,
                {
                    let ghost done = msg@;
                    msg.append("\n    ");
                    msg.append(edge_counts[i].0.as_str());
                    msg.append(" -> ");
                    msg.append(edge_counts[i].1.as_str());
                    msg.append(": ");
                    msg.append(decimal_of(edge_counts[i].2 as u64).as_str());
                    proof {
                        let next = edge_counts@.take(i + 1);
                        assert(next.drop_last() == edge_counts@.take(i as int));
                        assert(msg@ =~= done + edge_line(edge_counts@[i as int]));
                        assert(msg@ =~= head + (edge_table(edge_counts@.take(i as int))
                            + edge_line(edge_counts@[i as int])));
                    }
                    i += 1;
                }
                assert(edge_counts@.take(i as int) == edge_counts@);
            }
        }
        msg
    }
}

/// `head` followed by `tail`.
fn prefixed(head: &str, tail: &str) -> (r: String)
    ensures
        r@ == head@ + tail@,
{
    head.to_owned().concat(tail)
}

} // verus!
