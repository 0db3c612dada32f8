//! Where a session runs.

use vstd::prelude::*;

use crate::error::CruiseError;
use crate::session::{SessionState, WorktreeContext};
use crate::span::{put, span_views, Span, SpanView, Tone};
use crate::text::same_text;

verus! {

/// Where a session runs.
#[derive(Debug)]
pub enum ExecutionWorkspace {
    /// In a worktree, which may have been there before.
    Worktree { ctx: WorktreeContext, reused: bool },
    /// On the current branch of the repository.
    CurrentBranch { path: String },
}

impl ExecutionWorkspace {
    /// The directory of the workspace.
    pub open spec fn path_spec(self) -> Seq<char> {
        match self {
            ExecutionWorkspace::Worktree { ctx, reused: _ } => ctx.path@,
            ExecutionWorkspace::CurrentBranch { path } => path@,
        }
    }

    /// The directory of the workspace.
    pub fn path(&self) -> (r: &str)
        ensures
            r@ == self.path_spec(),
    {
        match self {
            ExecutionWorkspace::Worktree { ctx, reused: _ } => ctx.path.as_str(),
            ExecutionWorkspace::CurrentBranch { path } => path.as_str(),
        }
    }

    /// What is said of the workspace.
    pub open spec fn notice_spec(self) -> Seq<SpanView> {
        match self {
            ExecutionWorkspace::Worktree { ctx, reused } => seq![
                ("→"@, Tone::Cyan),
                (
                    " worktree: "@ + ctx.path@ + (if reused {
                        " (reused)"@
                    } else {
                        ""@
                    }),
                    Tone::Plain,
                ),
            ],
            ExecutionWorkspace::CurrentBranch { path } => seq![
                ("→"@, Tone::Cyan),
                (" current branch: "@ + path@, Tone::Plain),
            ],
        }
    }

    /// What is said of the workspace.
    pub fn notice(&self) -> (r: Vec<Span>)
        ensures
            span_views(r@) == self.notice_spec(),
    {
        let mut out: Vec<Span> = Vec::new();
        put(&mut out, "→".to_owned(), Tone::Cyan);
        match self {
            ExecutionWorkspace::Worktree { ctx, reused } => {
                let suffix: &str = if *reused {
                    " (reused)"
                } else {
                    ""
                };
                put(
                    &mut out,
                    " worktree: ".to_owned().concat(ctx.path.as_str()).concat(suffix),
                    Tone::Plain,
                );
            },
            ExecutionWorkspace::CurrentBranch { path } => {
                put(
                    &mut out,
                    " current branch: ".to_owned().concat(path.as_str()),
                    Tone::Plain,
                );
            },
        }
        assert(span_views(out@) =~= self.notice_spec());
        out
    }
}

/// What the repository of a session is like.
#[derive(Debug)]
pub struct RepoState {
    /// The branch that is checked out; none if the head is detached.
    pub branch: Option<String>,
    /// There are changes that are not committed.
    pub dirty: bool,
}

/// Why a session cannot run on the current branch of its repository. A session stays on the
/// branch that it began on, and begins only in a clean working tree.
pub open spec fn branch_fault(session: SessionState, repo: RepoState) -> Option<Seq<char>> {
    match repo.branch {
        None => Some(
            "cannot run on the current branch: HEAD is detached in "@ + session.base_dir@,
        ),
        Some(branch) => match session.target_branch {
            Some(target) if target@ != branch@ => Some(
                "cannot run on the current branch: the session belongs to branch "@ + target@
                    + ", but "@ + branch@ + " is checked out"@,
            ),
            _ => if session.current_step is None && repo.dirty {
                Some(
                    "cannot run on the current branch: the working tree is dirty in "@
                        + session.base_dir@,
                )
            } else {
                None
            },
        },
    }
}

/// Takes the current branch of the repository for the session to run on.
///
/// # Errors
///
/// Returns `Other` if the head is detached, if another branch is checked out than the one that
/// the session began on, or if the session would begin in a dirty working tree.
pub fn current_branch_workspace(session: &mut SessionState, repo: &RepoState) -> (r: Result<
    ExecutionWorkspace,
    CruiseError,
>)
    ensures
        match branch_fault(*old(session), *repo) {
            Some(text) => {
                &&& r matches Err(CruiseError::Other(m)) && m@ == text
                &&& *final(session) == *old(session)
            },
            None => {
                &&& r == Ok::<ExecutionWorkspace, CruiseError>(
                    ExecutionWorkspace::CurrentBranch { path: old(session).base_dir },
                )
                &&& *final(session) == (SessionState {
                    target_branch: repo.branch,
                    ..*old(session)
                })
            },
        },
{
    let branch = match &repo.branch {
        Some(branch) => branch,
        None => return Err(
            CruiseError::Other(
                "cannot run on the current branch: HEAD is detached in ".to_owned().concat(
                    session.base_dir.as_str(),
                ),
            ),
        ),
    };
    match &session.target_branch {
        Some(target) => if !same_text(target.as_str(), branch.as_str()) {
            return Err(
                CruiseError::Other(
                    "cannot run on the current branch: the session belongs to branch ".to_owned().concat(
                        target.as_str(),
                    ).concat(", but ").concat(branch.as_str()).concat(" is checked out"),
                ),
            );
        },
        None => {},
    }
    if session.current_step.is_none() && repo.dirty {
        return Err(
            CruiseError::Other(
                "cannot run on the current branch: the working tree is dirty in ".to_owned().concat(
                    session.base_dir.as_str(),
                ),
            ),
        );
    }
    session.target_branch = Some(branch.clone());
    Ok(ExecutionWorkspace::CurrentBranch { path: session.base_dir.clone() })
}

/// The session once it is known where it runs.
pub open spec fn with_workspace(session: SessionState, workspace: ExecutionWorkspace) -> SessionState {
    match workspace {
        ExecutionWorkspace::Worktree { ctx, reused: _ } => SessionState {
            worktree_path: Some(ctx.path),
            worktree_branch: Some(ctx.branch),
            ..session
        },
        ExecutionWorkspace::CurrentBranch { path: _ } => SessionState {
            worktree_path: None,
            worktree_branch: None,
            ..session
        },
    }
}

/// Notes in the session where it runs: the worktree and its branch, or neither.
pub fn update_session_workspace(session: &mut SessionState, workspace: &ExecutionWorkspace)
    ensures
        *final(session) == with_workspace(*old(session), *workspace),
{
    match workspace {
        ExecutionWorkspace::Worktree { ctx, reused: _ } => {
            session.worktree_path = Some(ctx.path.clone());
            session.worktree_branch = Some(ctx.branch.clone());
        },
        ExecutionWorkspace::CurrentBranch { path: _ } => {
            session.worktree_path = None;
            session.worktree_branch = None;
        },
    }
}

} // verus!
