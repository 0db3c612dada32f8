//! The run of one session, or of all that wait, for the graphical front end.

use vstd::prelude::*;

use crate::config::{config_fault, config_is_valid, WorkflowConfig};
use crate::engine::ExecutionResult;
use crate::error::CruiseError;
use crate::gui::commands::{
    finish_one_of_all, finish_session, requested_workspace_mode, was_stopped,
};
use crate::gui::events::WorkflowEvent;
use crate::run_cmd::session_run::{completed_line, outcome_text, start_step};
use crate::session::{
    is_candidate, is_iso8601, SessionManager, SessionPhase, SessionState, WorkspaceMode,
    WorktreeContext,
};
use crate::workflow::{compile, compiles_to, CompiledWorkflow};
use crate::workspace::{
    branch_fault, current_branch_workspace, update_session_workspace, with_workspace,
    ExecutionWorkspace, RepoState,
};

verus! {

// ---------------------------------------------------------------------------
// Stages
// ---------------------------------------------------------------------------

/// A session that is about to run, or runs.
#[derive(Debug)]
pub struct Underway {
    pub session: SessionState,
    pub compiled: CompiledWorkflow,
    /// The step to begin with.
    pub start: String,
}

/// Where a run stands: what is done next, and whose outcome is awaited.
#[derive(Debug)]
pub enum GuiStage {
    /// The session is loaded.
    Load(String),
    /// The configuration of the session is loaded.
    Configure(SessionState),
    /// The worktree is looked for or made.
    CheckOut(Underway),
    /// The repository is looked at.
    Inspect(Underway),
    /// The state is saved.
    SaveStart(Underway, ExecutionWorkspace),
    /// The steps are executed in the workspace.
    Execute(Underway, ExecutionWorkspace),
    /// The session is loaded again. Its steps were executed with the given result, and the user
    /// cancelled them before they ended or not.
    Reload(SessionState, Result<ExecutionResult, CruiseError>, bool),
    /// The event is sent, and the state is saved.
    SaveEnd(SessionState, WorkflowEvent),
}

/// The outcome of what was done.
#[derive(Debug)]
pub enum GuiEvent {
    Loaded(Result<SessionState, CruiseError>),
    Configured(Result<WorkflowConfig, CruiseError>),
    /// The worktree, and whether it was there before.
    CheckedOut(Result<(WorktreeContext, bool), CruiseError>),
    Inspected(Result<RepoState, CruiseError>),
    Saved(Result<(), CruiseError>),
    /// The result of the steps, and whether the user cancelled them before they ended.
    Executed { result: Result<ExecutionResult, CruiseError>, cancelled: bool },
    /// The session as it is now, if it could be loaded.
    Reloaded(Option<SessionState>),
}

/// What follows.
#[derive(Debug)]
pub enum GuiNext {
    Go(GuiStage),
    /// The run has ended with this phase, or failed for this reason.
    End(Result<SessionPhase, String>),
}

// ---------------------------------------------------------------------------
// What follows from what
// ---------------------------------------------------------------------------

/// The run fails for the given reason.
pub open spec fn fails(r: GuiNext, text: Seq<char>) -> bool {
    r matches GuiNext::End(Err(m)) && m@ == text
}

/// Why a session cannot be run.
pub open spec fn refusal(session_id: Seq<char>, phase: SessionPhase) -> Seq<char> {
    "Session "@ + session_id + " is in '"@ + phase.label_spec() + "' phase and cannot be run"@
}

/// The workspace mode of a session: as requested before its first step, and later its own.
pub open spec fn mode_of(session: SessionState, requested: WorkspaceMode) -> WorkspaceMode {
    if session.current_step is None {
        requested
    } else {
        session.workspace_mode
    }
}

/// The workflow is known.
pub open spec fn sets_off(
    session: SessionState,
    compiled: CompiledWorkflow,
    requested: WorkspaceMode,
    r: GuiNext,
) -> bool {
    if session.current_step is None && compiled.list().len() == 0 {
        fails(r, "config has no steps"@)
    } else {
        let mode = mode_of(session, requested);
        let u = match mode {
            WorkspaceMode::Worktree => r->Go_0->CheckOut_0,
            WorkspaceMode::CurrentBranch => r->Go_0->Inspect_0,
        };
        &&& r == (match mode {
            WorkspaceMode::Worktree => GuiNext::Go(GuiStage::CheckOut(u)),
            WorkspaceMode::CurrentBranch => GuiNext::Go(GuiStage::Inspect(u)),
        })
        &&& u.session == (SessionState { workspace_mode: mode, ..session })
        &&& u.compiled == compiled
        &&& u.start@ == (match session.current_step {
            Some(step) => step@,
            None => compiled.list()[0].0,
        })
    }
}

/// The session that runs in the given workspace.
pub open spec fn placed(u: Underway, session: SessionState, workspace: ExecutionWorkspace) -> Underway {
    Underway {
        session: SessionState {
            phase: SessionPhase::Running,
            ..with_workspace(session, workspace)
        },
        ..u
    }
}

/// The session after its run, and the event for the front end. A session that the user stopped is
/// suspended.
pub open spec fn is_finished(
    before: SessionState,
    result: Result<ExecutionResult, CruiseError>,
    cancelled: bool,
    after: SessionState,
    event: WorkflowEvent,
) -> bool {
    if was_stopped(result, cancelled) {
        &&& event == WorkflowEvent::WorkflowCancelled
        &&& after == (SessionState {
            phase: SessionPhase::Suspended,
            awaiting_input: false,
            ..before
        })
    } else {
        ends_by_itself(before, result, after, event)
    }
}

/// The session after a run that the user did not stop, and the event for the front end.
pub open spec fn ends_by_itself(
    before: SessionState,
    result: Result<ExecutionResult, CruiseError>,
    after: SessionState,
    event: WorkflowEvent,
) -> bool {
    match result {
        Ok(exec) => {
            &&& event == (WorkflowEvent::WorkflowCompleted {
                run: exec.run,
                skipped: exec.skipped,
                failed: exec.failed,
            })
            &&& after.completed_at matches Some(t) && is_iso8601(t@)
            &&& after == (SessionState {
                phase: SessionPhase::Completed,
                completed_at: after.completed_at,
                awaiting_input: false,
                ..before
            })
        },
        Err(e) => {
            &&& event matches WorkflowEvent::WorkflowFailed { error } && error@ == e.message_spec()
            &&& after.phase matches SessionPhase::Failed(m) && m@ == e.message_spec()
            &&& after.completed_at matches Some(t) && is_iso8601(t@)
            &&& after == (SessionState {
                phase: after.phase,
                completed_at: after.completed_at,
                awaiting_input: false,
                ..before
            })
        },
    }
}

/// `r` is what follows from the outcome of what was done at a stage. An outcome that is not
/// awaited changes nothing.
pub open spec fn runs_on(requested: WorkspaceMode, stage: GuiStage, event: GuiEvent, r: GuiNext) -> bool {
    match (stage, event) {
        (GuiStage::Load(id), GuiEvent::Loaded(loaded)) => match loaded {
            Err(e) => fails(r, e.message_spec()),
            Ok(session) => if session.phase.runnable() {
                r == GuiNext::Go(GuiStage::Configure(session))
            } else {
                fails(r, refusal(id@, session.phase))
            },
        },
        (GuiStage::Configure(session), GuiEvent::Configured(loaded)) => match loaded {
            Err(e) => fails(r, e.message_spec()),
            Ok(config) => if !config_is_valid(config) {
                exists|m: Seq<char>| #[trigger]
                    config_fault(config, m) && fails(r, "invalid step config: "@ + m)
            } else {
                exists|c: CompiledWorkflow| #[trigger]
                    compiles_to(config, c) && sets_off(session, c, requested, r)
            },
        },
        (GuiStage::CheckOut(u), GuiEvent::CheckedOut(found)) => match found {
            Err(e) => fails(r, e.message_spec()),
            Ok((ctx, reused)) => {
                let workspace = ExecutionWorkspace::Worktree { ctx, reused };
                r == GuiNext::Go(GuiStage::SaveStart(placed(u, u.session, workspace), workspace))
            },
        },
        (GuiStage::Inspect(u), GuiEvent::Inspected(found)) => match found {
            Err(e) => fails(r, e.message_spec()),
            Ok(repo) => match branch_fault(u.session, repo) {
                Some(text) => fails(r, text),
                None => {
                    let workspace = ExecutionWorkspace::CurrentBranch { path: u.session.base_dir };
                    r == GuiNext::Go(
                        GuiStage::SaveStart(
                            placed(
                                u,
                                SessionState { target_branch: repo.branch, ..u.session },
                                workspace,
                            ),
                            workspace,
                        ),
                    )
                },
            },
        },
        (GuiStage::SaveStart(u, workspace), GuiEvent::Saved(saved)) => match saved {
            Err(e) => fails(r, e.message_spec()),
            Ok(_) => r == GuiNext::Go(GuiStage::Execute(u, workspace)),
        },
        (GuiStage::Execute(u, _), GuiEvent::Executed { result, cancelled }) => r == GuiNext::Go(
            GuiStage::Reload(u.session, result, cancelled),
        ),
        (GuiStage::Reload(session, result, cancelled), GuiEvent::Reloaded(found)) => {
            let before = match found {
                Some(now) => now,
                None => session,
            };
            r matches GuiNext::Go(GuiStage::SaveEnd(after, sent)) && is_finished(
                before,
                result,
                cancelled,
                after,
                sent,
            )
        },
        (GuiStage::SaveEnd(session, _), GuiEvent::Saved(saved)) => match saved {
            Err(e) if !(session.phase is Failed) => fails(r, e.message_spec()),
            _ => r == GuiNext::End(Ok(session.phase)),
        },
        _ => r == GuiNext::Go(stage),
    }
}

// ---------------------------------------------------------------------------
// Advancing
// ---------------------------------------------------------------------------

fn fail(e: &CruiseError) -> (r: GuiNext)
    ensures
        fails(r, e.message_spec()),
{
    GuiNext::End(Err(e.message()))
}

fn after_load(id: &str, session: SessionState) -> (r: GuiNext)
    ensures
        if session.phase.runnable() {
            r == GuiNext::Go(GuiStage::Configure(session))
        } else {
            fails(r, refusal(id@, session.phase))
        },
{
    if session.phase.is_runnable() {
        GuiNext::Go(GuiStage::Configure(session))
    } else {
        GuiNext::End(
            Err(
                "Session ".to_owned().concat(id).concat(" is in '").concat(
                    session.phase.label(),
                ).concat("' phase and cannot be run"),
            ),
        )
    }
}

fn set_off(session: SessionState, compiled: CompiledWorkflow, requested: WorkspaceMode) -> (r:
    GuiNext)
    ensures
        sets_off(session, compiled, requested, r),
{
    let start = match start_step(&session, &compiled) {
        Ok(start) => start,
        Err(e) => return fail(&e),
    };
    let mut session = session;
    let mode = requested_workspace_mode(&session, requested);
    session.workspace_mode = mode;
    let u = Underway { session, compiled, start };
    match mode {
        WorkspaceMode::Worktree => GuiNext::Go(GuiStage::CheckOut(u)),
        WorkspaceMode::CurrentBranch => GuiNext::Go(GuiStage::Inspect(u)),
    }
}

fn place(u: Underway, session: SessionState, workspace: ExecutionWorkspace) -> (r: GuiNext)
    ensures
        r == GuiNext::Go(GuiStage::SaveStart(placed(u, session, workspace), workspace)),
{
    let mut session = session;
    update_session_workspace(&mut session, &workspace);
    session.phase = SessionPhase::Running;
    GuiNext::Go(
        GuiStage::SaveStart(
            Underway { session, compiled: u.compiled, start: u.start },
            workspace,
        ),
    )
}

/// What follows from the outcome of what was done at a stage: the session is loaded and
/// configured; it is settled where it runs; its state is saved as running; its steps are
/// executed; and its state is saved with the result.
pub fn advance_gui_run(requested: WorkspaceMode, stage: GuiStage, event: GuiEvent) -> (r: GuiNext)
    ensures
        runs_on(requested, stage, event, r),
{
    match (stage, event) {
        (GuiStage::Load(id), GuiEvent::Loaded(loaded)) => match loaded {
            Ok(session) => after_load(id.as_str(), session),
            Err(e) => fail(&e),
        },
        (GuiStage::Configure(session), GuiEvent::Configured(loaded)) => match loaded {
            Ok(config) => match compile(config) {
                Ok(compiled) => {
                    assert(compiles_to(config, compiled));
                    set_off(session, compiled, requested)
                },
                Err(e) => {
                    assert(config_fault(config, e->InvalidStepConfig_0@));
                    fail(&e)
                },
            },
            Err(e) => fail(&e),
        },
        (GuiStage::CheckOut(u), GuiEvent::CheckedOut(found)) => match found {
            Ok((ctx, reused)) => {
                let session = u.session.copy();
                place(u, session, ExecutionWorkspace::Worktree { ctx, reused })
            },
            Err(e) => fail(&e),
        },
        (GuiStage::Inspect(u), GuiEvent::Inspected(found)) => match found {
            Ok(repo) => {
                let mut session = u.session.copy();
                match current_branch_workspace(&mut session, &repo) {
                    Ok(workspace) => place(u, session, workspace),
                    Err(e) => fail(&e),
                }
            },
            Err(e) => fail(&e),
        },
        (GuiStage::SaveStart(u, workspace), GuiEvent::Saved(saved)) => match saved {
            Ok(_) => GuiNext::Go(GuiStage::Execute(u, workspace)),
            Err(e) => fail(&e),
        },
        (GuiStage::Execute(u, _), GuiEvent::Executed { result, cancelled }) => GuiNext::Go(
            GuiStage::Reload(u.session, result, cancelled),
        ),
        (GuiStage::Reload(session, result, cancelled), GuiEvent::Reloaded(found)) => {
            let mut last = match found {
                Some(now) => now,
                None => session,
            };
            let sent = finish_session(&mut last, &result, cancelled);
            GuiNext::Go(GuiStage::SaveEnd(last, sent))
        },
        (GuiStage::SaveEnd(session, _), GuiEvent::Saved(saved)) => match saved {
            Ok(_) => GuiNext::End(Ok(session.phase)),
            Err(e) => match session.phase {
                SessionPhase::Failed(m) => GuiNext::End(Ok(SessionPhase::Failed(m))),
                _ => fail(&e),
            },
        },
        (stage, _) => GuiNext::Go(stage),
    }
}

/// The line of the run log for the end of an execution, which the user cancelled before it ended
/// or not.
pub fn end_line(result: &Result<ExecutionResult, CruiseError>, cancelled: bool) -> (r: String)
    ensures
        r@ == (if was_stopped(*result, cancelled) {
            "⏸ cancelled"@
        } else {
            outcome_text(*result, false)
        }),
{
    match result {
        Ok(exec) => if cancelled {
            "⏸ cancelled".to_owned()
        } else {
            completed_line(exec)
        },
        Err(CruiseError::Interrupted) => "⏸ cancelled".to_owned(),
        Err(e) => "✗ failed: ".to_owned().concat(e.message().as_str()),
    }
}

/// What the front end is told of the run of one session: a failure is an error.
pub fn run_result(ended: Result<SessionPhase, String>) -> (r: Result<(), String>)
    ensures
        match ended {
            Err(m) => r == Err::<(), String>(m),
            Ok(SessionPhase::Failed(m)) => r == Err::<(), String>(m),
            Ok(_) => r is Ok,
        },
{
    match ended {
        Err(m) => Err(m),
        Ok(SessionPhase::Failed(m)) => Err(m),
        Ok(_) => Ok(()),
    }
}

// ---------------------------------------------------------------------------
// All sessions
// ---------------------------------------------------------------------------

/// The run of all sessions that wait.
#[derive(Debug)]
pub struct Batch {
    candidates: Vec<SessionState>,
    next: usize,
    cancelled: usize,
}

impl Batch {
    /// The sessions to run, in their order.
    pub closed spec fn sessions(self) -> Seq<SessionState> {
        self.candidates@
    }

    /// How many sessions were begun.
    pub closed spec fn begun(self) -> int {
        self.next as int
    }

    /// The user stopped the run.
    pub closed spec fn stopped(self) -> bool {
        self.cancelled > 0
    }

    #[verifier::type_invariant]
    spec fn wf(self) -> bool {
        self.next <= self.candidates@.len() && self.cancelled <= 1
    }

    /// The run of all loaded sessions that wait, and the event for its start.
    pub fn start(manager: &SessionManager, sessions: &Vec<SessionState>) -> (r: (
        Self,
        WorkflowEvent,
    ))
        ensures
            r.0.sessions() == sessions@.filter(|s: SessionState| is_candidate(s)),
            r.0.begun() == 0,
            !r.0.stopped(),
            r.1 matches WorkflowEvent::RunAllStarted { total } && total == r.0.sessions().len(),
    {
        let candidates = manager.run_all_candidates(sessions);
        let total: usize = candidates.len();
        (
            Batch { candidates, next: 0, cancelled: 0 },
            WorkflowEvent::RunAllStarted { total },
        )
    }

    /// The session that is run next, and the event for its start; or, at the end, the event for
    /// that. No session follows once the user stopped the run.
    pub fn next(&mut self) -> (r: (Option<SessionState>, WorkflowEvent))
        ensures
            final(self).sessions() == old(self).sessions(),
            final(self).stopped() == old(self).stopped(),
            if !old(self).stopped() && old(self).begun() < old(self).sessions().len() {
                let session = old(self).sessions()[old(self).begun()];
                &&& final(self).begun() == old(self).begun() + 1
                &&& r.0 == Some(session)
                &&& r.1 == (WorkflowEvent::RunAllSessionStarted {
                    session_id: session.id,
                    input: session.input,
                })
            } else {
                &&& final(self).begun() == old(self).begun()
                &&& r.0 is None
                &&& r.1 == (WorkflowEvent::RunAllCompleted {
                    cancelled: if old(self).stopped() {
                        1
                    } else {
                        0
                    },
                })
            },
    {
        proof {
            use_type_invariant(&*self);
        }
        if self.cancelled > 0 || self.next >= self.candidates.len() {
            return (None, WorkflowEvent::RunAllCompleted { cancelled: self.cancelled });
        }
        let session = self.candidates[self.next].copy();
        let event = WorkflowEvent::RunAllSessionStarted {
            session_id: session.id.clone(),
            input: session.input.clone(),
        };
        self.next = self.next + 1;
        (Some(session), event)
    }

    /// Takes note of the end of a session's run, and gives the event for it. A run that failed
    /// for some other reason counts as a failed session, and only the user's interruption stops
    /// the others.
    pub fn record(&mut self, session: SessionState, ended: Result<SessionPhase, String>) -> (r:
        WorkflowEvent)
        ensures
            final(self).sessions() == old(self).sessions(),
            final(self).begun() == old(self).begun(),
            ({
                let phase = match ended {
                    Ok(phase) => phase,
                    Err(m) => SessionPhase::Failed(m),
                };
                &&& final(self).stopped() == (old(self).stopped() || phase is Suspended)
                &&& r matches WorkflowEvent::RunAllSessionFinished {
                    session_id: id,
                    input: shown,
                    phase: label,
                    error,
                } && id == session.id && shown == session.input && label@ == phase.label_spec()
                    && error == (match phase {
                    SessionPhase::Failed(m) => Some(m),
                    _ => None,
                })
            }),
    {
        proof {
            use_type_invariant(&*self);
        }
        let phase = match ended {
            Ok(phase) => phase,
            Err(m) => SessionPhase::Failed(m),
        };
        let (event, stop) = finish_one_of_all(session.id, session.input, &phase);
        if stop {
            self.cancelled = 1;
        }
        event
    }
}

// ---------------------------------------------------------------------------
// Laws
// ---------------------------------------------------------------------------

/// The outcome is that of what is done at the stage.
pub open spec fn is_awaited(stage: GuiStage, event: GuiEvent) -> bool {
    match stage {
        GuiStage::Load(_) => event is Loaded,
        GuiStage::Configure(_) => event is Configured,
        GuiStage::CheckOut(_) => event is CheckedOut,
        GuiStage::Inspect(_) => event is Inspected,
        GuiStage::SaveStart(_, _) => event is Saved,
        GuiStage::Execute(_, _) => event is Executed,
        GuiStage::Reload(_, _, _) => event is Reloaded,
        GuiStage::SaveEnd(_, _) => event is Saved,
    }
}

/// How many outcomes can follow from a stage on, at most.
pub open spec fn stages_left(stage: GuiStage) -> int {
    match stage {
        GuiStage::Load(_) => 7,
        GuiStage::Configure(_) => 6,
        GuiStage::CheckOut(_) => 5,
        GuiStage::Inspect(_) => 5,
        GuiStage::SaveStart(_, _) => 4,
        GuiStage::Execute(_, _) => 3,
        GuiStage::Reload(_, _, _) => 2,
        GuiStage::SaveEnd(_, _) => 1,
    }
}

/// A run ends: each outcome leaves fewer to follow.
pub proof fn law_gui_runs_end(
    requested: WorkspaceMode,
    stage: GuiStage,
    event: GuiEvent,
    r: GuiNext,
)
    requires
        runs_on(requested, stage, event, r),
        is_awaited(stage, event),
    ensures
        stages_left(stage) > 0,
        r matches GuiNext::Go(next) ==> stages_left(next) < stages_left(stage),
{
}

/// What is saved fits the run: nothing before the workspace is prepared, the running session
/// then, and at the end one that completed, failed or was suspended and waits for no answer.
pub open spec fn phase_fits(stage: GuiStage) -> bool {
    match stage {
        GuiStage::SaveStart(u, _) => u.session.phase is Running,
        GuiStage::Execute(u, _) => u.session.phase is Running,
        GuiStage::SaveEnd(session, event) => {
            &&& !session.awaiting_input
            &&& session.phase is Completed <==> event is WorkflowCompleted
            &&& session.phase is Suspended <==> event is WorkflowCancelled
            &&& session.phase is Failed <==> event is WorkflowFailed
            &&& session.phase is Completed || session.phase is Suspended || session.phase is Failed
        },
        _ => true,
    }
}

/// What is saved of a run fits it and the event that the front end gets.
pub proof fn law_gui_saves_fit_the_run(
    requested: WorkspaceMode,
    stage: GuiStage,
    event: GuiEvent,
    r: GuiNext,
)
    requires
        phase_fits(stage),
        runs_on(requested, stage, event, r),
    ensures
        r matches GuiNext::Go(next) ==> phase_fits(next),
{
}

} // verus!
