//! The stages of a run, and what each outcome leads to.

use vstd::prelude::*;

use crate::engine::ExecutionResult;
use crate::error::CruiseError;
use crate::run_cmd::single_run::{
    advance_run, first_run_stage, Begun, Placed, Ready, RunEvent, RunNext, RunOrder, RunStage,
    RunStep,
};
use crate::session::{
    SessionPhase, SessionState, SessionStateFingerprint, WorkspaceMode, WorktreeContext,
};
use crate::workflow::CompiledWorkflow;
use crate::workspace::{
    current_branch_workspace, update_session_workspace, ExecutionWorkspace, RepoState,
};

verus! {

/// A run begins with the session that was named, and with a choice where none was.
pub proof fn law_named_sessions_are_loaded(order: &RunOrder, r: RunStage)
    requires
        call_ensures(first_run_stage, (order,), r),
    ensures
        order.session matches Some(id) ==> r == RunStage::Load(id),
        order.session is None ==> r is Choose,
{
}

/// A session that was loaded is configured if it may be run, with what was loaded; any other one
/// ends the run, and so does every error.
pub proof fn law_sessions_are_configured_as_loaded(
    order: &RunOrder,
    id: String,
    loaded: Result<(SessionState, SessionStateFingerprint), CruiseError>,
    r: RunStep,
)
    requires
        call_ensures(advance_run, (order, RunStage::Load(id), RunEvent::Loaded(loaded)), r),
    ensures
        loaded matches Ok((session, mark)) ==> {
            if session.phase is AwaitingApproval || session.phase is Completed {
                r.next matches RunNext::End(Err(_))
            } else {
                r.next matches RunNext::Go(RunStage::Configure(b)) && b.id == id && b.session
                    == session && b.fingerprint == mark
            }
        },
        loaded matches Err(e) ==> r.next == RunNext::End(Err(e)),
{
}

/// In a worktree a run is set off only after `gh` was found; on the current branch it is not looked
/// for.
pub proof fn law_worktrees_need_gh(
    order: &RunOrder,
    b: Begun,
    compiled: CompiledWorkflow,
    label: String,
    r: RunStep,
)
    requires
        call_ensures(
            advance_run,
            (
                order,
                RunStage::AskMode(b, compiled),
                RunEvent::Answered(
                    Some(crate::run_cmd::session_run::MenuAnswer::Chosen(label)),
                ),
            ),
            r,
        ),
        b.session.current_step is None && compiled.list().len() > 0,
    ensures
        label@ != "Use current branch"@ ==> (r.next matches RunNext::Go(RunStage::FindGh(next, c))
            && next.session.workspace_mode == WorkspaceMode::Worktree && c == compiled),
        label@ == "Use current branch"@ ==> (r.next matches RunNext::Go(RunStage::EnterBase(ready))
            && ready.begun.session.workspace_mode == WorkspaceMode::CurrentBranch && ready.start@
            == compiled.list()[0].0),
{
}

/// From the directory of the repository a run goes to the worktree or to the current branch, as its
/// session says.
pub proof fn law_runs_go_where_their_session_works(order: &RunOrder, ready: Ready, r: RunStep)
    requires
        call_ensures(
            advance_run,
            (order, RunStage::EnterBase(ready), RunEvent::Entered(Ok(()))),
            r,
        ),
    ensures
        ready.begun.session.workspace_mode == WorkspaceMode::Worktree ==> r.next == RunNext::Go(
            RunStage::CheckOut(ready),
        ),
        ready.begun.session.workspace_mode == WorkspaceMode::CurrentBranch ==> r.next == RunNext::Go(
            RunStage::Inspect(ready),
        ),
{
}

/// A session that gets a worktree is saved as running, with the path and the branch of the worktree,
/// and begins where it was to begin.
pub proof fn law_running_sessions_know_their_worktree(
    order: &RunOrder,
    ready: Ready,
    ctx: WorktreeContext,
    reused: bool,
    r: RunStep,
)
    requires
        call_ensures(
            advance_run,
            (order, RunStage::CheckOut(ready), RunEvent::CheckedOut(Ok((ctx, reused)))),
            r,
        ),
    ensures
        r.next matches RunNext::Go(RunStage::SaveStart(p)) && {
            &&& p.begun.session.phase is Running
            &&& p.begun.session.worktree_path == Some(ctx.path)
            &&& p.begun.session.worktree_branch == Some(ctx.branch)
            &&& p.begun.session.current_step == ready.begun.session.current_step
            &&& p.start == ready.start && p.compiled == ready.compiled
            &&& p.workspace == (ExecutionWorkspace::Worktree { ctx, reused })
        },
{
}

/// A run whose steps were all executed makes a pull request in a worktree, and on the current branch
/// completes its session. An interrupted one is saved as suspended, with the step it stopped at. One
/// that failed is saved as failed.
pub proof fn law_executed_runs_end_by_their_result(
    order: &RunOrder,
    p: Placed,
    result: Result<ExecutionResult, CruiseError>,
    r: RunStep,
)
    requires
        call_ensures(advance_run, (order, RunStage::Execute(p), RunEvent::Executed(result)), r),
    ensures
        result is Ok && p.workspace is Worktree ==> r.next == RunNext::Go(RunStage::Publish(p)),
        result is Ok && p.workspace is CurrentBranch ==> (r.next matches RunNext::Go(
            RunStage::SaveEnd(after, kept),
        ) && kept is Ok && after.begun.session.phase is Completed),
        result matches Err(e) ==> {
            &&& e is Interrupted ==> (r.next matches RunNext::Go(RunStage::SaveSuspended(after))
                && after.begun.session.phase is Suspended && after.begun.session.current_step
                == p.begun.session.current_step && after.begun.session.id == p.begun.session.id)
            &&& !(e is Interrupted) && !(e is StepPaused) && !(e is SessionStateConflict) && !(
            e is SessionStateConflictAborted) ==> (r.next matches RunNext::Go(
                RunStage::SaveEnd(after, kept),
            ) && kept == Err::<(), CruiseError>(e) && (
            after.begun.session.phase matches SessionPhase::Failed(m) && m@ == e.message_spec()))
            &&& e is SessionStateConflict || e is SessionStateConflictAborted ==> r.next
                == RunNext::End(Err(e))
        },
{
}

/// A run in a worktree is completed exactly if its pull request was dealt with.
pub proof fn law_published_runs_are_completed(
    order: &RunOrder,
    p: Placed,
    result: Result<(), CruiseError>,
    r: RunStep,
)
    requires
        call_ensures(advance_run, (order, RunStage::Publish(p), RunEvent::Published(result)), r),
    ensures
        result is Ok ==> (r.next matches RunNext::Go(RunStage::SaveEnd(after, kept)) && kept is Ok
            && after.begun.session.phase is Completed),
        result is Err ==> !(r.next matches RunNext::Go(RunStage::SaveEnd(after, kept))
            && after.begun.session.phase is Completed && !(p.begun.session.phase is Completed)),
{
}

/// A run ends with its result once that was saved, and with the reason where it could not be saved.
/// A suspended one ends as interrupted.
pub proof fn law_runs_end_once_saved(
    order: &RunOrder,
    p: Placed,
    result: Result<(), CruiseError>,
    saved: Result<SessionStateFingerprint, CruiseError>,
    r: RunStep,
    s: RunStep,
)
    requires
        call_ensures(advance_run, (order, RunStage::SaveEnd(p, result), RunEvent::Saved(saved)), r),
        call_ensures(advance_run, (order, RunStage::SaveSuspended(p), RunEvent::Saved(saved)), s),
    ensures
        saved is Ok ==> r.next == RunNext::End(result) && s.next == RunNext::End(
            Err(CruiseError::Interrupted),
        ),
        saved matches Err(e) ==> r.next == RunNext::End(Err(e)) && s.next == RunNext::End(Err(e)),
{
}

/// The fingerprint by which later changes are noticed is that of the state that was saved last.
pub proof fn law_saved_states_are_known_again(
    order: &RunOrder,
    p: Placed,
    mark: SessionStateFingerprint,
    r: RunStep,
)
    requires
        call_ensures(advance_run, (order, RunStage::SaveStart(p), RunEvent::Saved(Ok(mark))), r),
    ensures
        r.next matches RunNext::Go(RunStage::EnterWorkspace(after)) && after.begun.fingerprint
            == mark && after.begun.session == p.begun.session && after.start == p.start,
{
}

/// The step that a session has come to is the one that was entered; nothing else of it changes.
pub proof fn law_entered_steps_are_remembered(b: &mut Begun, step: &str, done: ())
    requires
        call_ensures(Begun::enter_step, (b, step), done),
    ensures
        final(b).session.current_step matches Some(s) && s@ == step@,
        final(b).session == (SessionState {
            current_step: final(b).session.current_step,
            ..old(b).session
        }),
        final(b).id == old(b).id && final(b).fingerprint == old(b).fingerprint,
{
}

// ---------------------------------------------------------------------------
// Workspaces
// ---------------------------------------------------------------------------

/// A session works on the current branch exactly if a branch is checked out, it is the one that the
/// session belongs to, if to any, and nothing is uncommitted where the session has not begun. From
/// that time on it belongs to the branch.
pub proof fn law_sessions_stay_on_their_branch(
    session: &mut SessionState,
    repo: &RepoState,
    r: Result<ExecutionWorkspace, CruiseError>,
)
    requires
        call_ensures(current_branch_workspace, (session, repo), r),
    ensures
        repo.branch is None ==> r is Err,
        repo.branch matches Some(branch) ==> {
            let elsewhere = old(session).target_branch matches Some(t) && t@ != branch@;
            r is Ok <==> !elsewhere && (repo.dirty ==> old(session).current_step is Some)
        },
        r is Ok ==> final(session).target_branch == repo.branch && (
        r matches Ok(ExecutionWorkspace::CurrentBranch { path }) && path == old(session).base_dir),
        r is Err ==> *final(session) == *old(session),
        *final(session) == (SessionState {
            target_branch: final(session).target_branch,
            ..*old(session)
        }),
{
}

/// A session in a worktree knows its path and its branch; one on the current branch knows none.
pub proof fn law_sessions_know_where_they_work(
    session: &mut SessionState,
    workspace: &ExecutionWorkspace,
    done: (),
)
    requires
        call_ensures(update_session_workspace, (session, workspace), done),
    ensures
        *workspace matches ExecutionWorkspace::Worktree { ctx, reused } ==> final(session).worktree_path == Some(ctx.path) && final(session).worktree_branch == Some(ctx.branch),
        *workspace is CurrentBranch ==> final(session).worktree_path is None && final(session).worktree_branch is None,
        *final(session) == (SessionState {
            worktree_path: final(session).worktree_path,
            worktree_branch: final(session).worktree_branch,
            ..*old(session)
        }),
{
}

} // verus!
