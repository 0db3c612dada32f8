//! The run of one session, from its choice to the state that is left of it.

use vstd::prelude::*;

use crate::config::{config_fault, config_is_valid, validate_groups, WorkflowConfig};
use crate::dry_run::{dry_run, overview};
use crate::engine::ExecutionResult;
use crate::error::CruiseError;
use crate::run_cmd::pull_request::{ensure_gh_available, gh_answers, gh_missing, ToolReply};
use crate::run_cmd::session_run::{
    apply_run_result_to_session, asked_mode, effective_workspace_mode, ensure_runnable, mode_choice,
    outcome_line, outcome_text, prompt_workspace_mode, resume_message, resume_spans, start_step,
    unrunnable_text, MenuAnswer, ModeChoice, WorkspaceOverride,
};
use crate::session::{
    is_iso8601, SessionPhase, SessionState, SessionStateFingerprint, WorkspaceMode, WorktreeContext,
};
use crate::span::{put, put_plain, span_views, Span, SpanView, Tone};
use crate::text::opt_view;
use crate::workflow::{compile, compiles_to, CompiledWorkflow};
use crate::workspace::{
    branch_fault, current_branch_workspace, update_session_workspace, with_workspace,
    ExecutionWorkspace, RepoState,
};

verus! {

// ---------------------------------------------------------------------------
// Stages
// ---------------------------------------------------------------------------

/// What a run is asked for.
#[derive(Debug)]
pub struct RunOrder {
    /// The session to run, if it is named.
    pub session: Option<String>,
    /// Only show what would be run.
    pub dry_run: bool,
    /// Whether the workspace of the session counts.
    pub workspace: WorkspaceOverride,
}

/// A session that may be run.
#[derive(Debug)]
pub struct Begun {
    /// The identifier by which the session was loaded.
    pub id: String,
    pub session: SessionState,
    /// The fingerprint of the state file as it was left.
    pub fingerprint: SessionStateFingerprint,
}

/// A session that is about to run.
#[derive(Debug)]
pub struct Ready {
    pub begun: Begun,
    pub compiled: CompiledWorkflow,
    /// The step to begin with.
    pub start: String,
}

/// A session that runs.
#[derive(Debug)]
pub struct Placed {
    pub begun: Begun,
    pub compiled: CompiledWorkflow,
    /// The step to begin with.
    pub start: String,
    pub workspace: ExecutionWorkspace,
}

/// Where a run stands: what is done next, and whose outcome is awaited.
#[derive(Debug)]
pub enum RunStage {
    /// A session is chosen.
    Choose,
    /// The state of the session is loaded.
    Load(String),
    /// The configuration of the session is loaded.
    Configure(Begun),
    /// The user is asked where the session runs.
    AskMode(Begun, CompiledWorkflow),
    /// `gh --version` is called.
    FindGh(Begun, CompiledWorkflow),
    /// The directory of the repository is entered.
    EnterBase(Ready),
    /// The worktree is looked for or made.
    CheckOut(Ready),
    /// The repository is looked at.
    Inspect(Ready),
    /// The state is saved unless others changed it.
    SaveStart(Placed),
    /// The directory of the workspace is entered.
    EnterWorkspace(Placed),
    /// The steps are executed.
    Execute(Placed),
    /// The pull request is made.
    Publish(Placed),
    /// The state is saved unless others changed it. The run ends with the result.
    SaveEnd(Placed, Result<(), CruiseError>),
    /// The state is saved whatever others wrote.
    SaveSuspended(Placed),
}

/// The outcome of what was done.
#[derive(Debug)]
pub enum RunEvent {
    Chosen(Result<String, CruiseError>),
    Loaded(Result<(SessionState, SessionStateFingerprint), CruiseError>),
    Configured(Result<WorkflowConfig, CruiseError>),
    /// The answer of the user; none where there is no terminal to ask at.
    Answered(Option<MenuAnswer>),
    Replied(ToolReply),
    /// A directory was entered or not, for the given reason.
    Entered(Result<(), String>),
    /// The worktree, and whether it was there before.
    CheckedOut(Result<(WorktreeContext, bool), CruiseError>),
    Inspected(Result<RepoState, CruiseError>),
    /// The fingerprint of the state file as it is now.
    Saved(Result<SessionStateFingerprint, CruiseError>),
    Executed(Result<ExecutionResult, CruiseError>),
    Published(Result<(), CruiseError>),
}

/// What follows.
#[derive(Debug)]
pub enum RunNext {
    Go(RunStage),
    /// The run has ended.
    End(Result<(), CruiseError>),
}

/// What follows, and before it: what is said to the user, what is printed as the result of the
/// command, and what is written to the run log.
#[derive(Debug)]
pub struct RunStep {
    pub next: RunNext,
    pub said: Option<Vec<Span>>,
    pub printed: Option<Vec<Span>>,
    pub logged: Option<String>,
}

// ---------------------------------------------------------------------------
// What follows from what
// ---------------------------------------------------------------------------

/// Nothing is said or printed.
pub open spec fn mute(r: RunStep) -> bool {
    r.said is None && r.printed is None
}

/// Nothing is said, printed or logged.
pub open spec fn quiet(r: RunStep) -> bool {
    mute(r) && r.logged is None
}

/// The given text is said, or nothing; nothing is printed.
pub open spec fn says(r: RunStep, spans: Option<Seq<SpanView>>) -> bool {
    &&& r.printed is None
    &&& match spans {
        Some(spans) => r.said matches Some(v) && span_views(v@) == spans,
        None => r.said is None,
    }
}

/// The run fails with the given text.
pub open spec fn fails(r: RunStep, text: Seq<char>) -> bool {
    r.next matches RunNext::End(Err(CruiseError::Other(m))) && m@ == text
}

/// A run that only shows what would be run names the session, prints the steps and ends.
pub open spec fn shows_only(b: Begun, config: WorkflowConfig, r: RunStep) -> bool {
    &&& r.said matches Some(v) && span_views(v@) == seq![("Session: "@ + b.id@, Tone::Dim)]
    &&& r.printed matches Some(v) && span_views(v@) == overview(
        config,
        opt_view(b.session.current_step),
    )
    &&& r.logged is None
    &&& r.next == RunNext::End(Ok(()))
}

/// The session with its workspace mode.
pub open spec fn with_mode(b: Begun, mode: WorkspaceMode) -> Begun {
    Begun { session: SessionState { workspace_mode: mode, ..b.session }, ..b }
}

/// The session sets off: from the step at which it stands, or else from the first one.
pub open spec fn sets_off(b: Begun, compiled: CompiledWorkflow, r: RunStep) -> bool {
    &&& r.logged is None
    &&& if b.session.current_step is None && compiled.list().len() == 0 {
        mute(r) && fails(r, "config has no steps"@)
    } else {
        &&& says(r, resume_spans(b.session))
        &&& r.next matches RunNext::Go(RunStage::EnterBase(ready)) && ready.begun == b
            && ready.compiled == compiled && ready.start@ == (match b.session.current_step {
            Some(step) => step@,
            None => compiled.list()[0].0,
        })
    }
}

/// The workspace mode is known. A worktree is of use only with `gh`.
pub open spec fn settles(b: Begun, compiled: CompiledWorkflow, mode: WorkspaceMode, r: RunStep) -> bool {
    match mode {
        WorkspaceMode::Worktree => quiet(r) && r.next == RunNext::Go(
            RunStage::FindGh(with_mode(b, mode), compiled),
        ),
        WorkspaceMode::CurrentBranch => sets_off(with_mode(b, mode), compiled, r),
    }
}

/// The workflow is known.
pub open spec fn takes_up(
    order: RunOrder,
    b: Begun,
    compiled: CompiledWorkflow,
    r: RunStep,
) -> bool {
    match mode_choice(order.workspace, b.session) {
        ModeChoice::Ask => quiet(r) && r.next == RunNext::Go(RunStage::AskMode(b, compiled)),
        ModeChoice::Fixed(mode) => settles(b, compiled, mode, r),
    }
}

/// The session that runs in the given workspace.
pub open spec fn placed(ready: Ready, session: SessionState, workspace: ExecutionWorkspace) -> Placed {
    Placed {
        begun: Begun {
            session: SessionState {
                phase: SessionPhase::Running,
                ..with_workspace(session, workspace)
            },
            ..ready.begun
        },
        compiled: ready.compiled,
        start: ready.start,
        workspace,
    }
}

/// The workspace is known.
pub open spec fn settles_in(
    ready: Ready,
    session: SessionState,
    workspace: ExecutionWorkspace,
    r: RunStep,
) -> bool {
    &&& r.logged is None
    &&& says(r, Some(workspace.notice_spec()))
    &&& r.next == RunNext::Go(RunStage::SaveStart(placed(ready, session, workspace)))
}

/// What is said of a run that the user interrupted.
pub open spec fn interrupted_spans() -> Seq<SpanView> {
    seq![
        ("\n"@, Tone::Plain),
        ("⏸"@, Tone::YellowBold),
        (" Interrupted — session saved as Suspended."@, Tone::Plain),
    ]
}

/// The state was changed by others.
pub open spec fn is_conflict(result: Result<(), CruiseError>) -> bool {
    result matches Err(CruiseError::SessionStateConflict(_)) || result matches Err(
        CruiseError::SessionStateConflictAborted(_),
    )
}

/// The session after a run with the given result.
pub open spec fn has_result(
    before: SessionState,
    result: Result<(), CruiseError>,
    after: SessionState,
) -> bool {
    match result {
        Ok(_) => {
            &&& after.completed_at matches Some(t) && is_iso8601(t@)
            &&& after == (SessionState {
                phase: SessionPhase::Completed,
                completed_at: after.completed_at,
                ..before
            })
        },
        Err(CruiseError::StepPaused) => after == before,
        Err(e) => {
            &&& after.completed_at matches Some(t) && is_iso8601(t@)
            &&& after.phase matches SessionPhase::Failed(m) && m@ == e.message_spec()
            &&& after == (SessionState {
                phase: after.phase,
                completed_at: after.completed_at,
                ..before
            })
        },
    }
}

/// The run has its result. A state that was changed by others is left to them.
pub open spec fn finishes(p: Placed, result: Result<(), CruiseError>, r: RunStep) -> bool {
    if is_conflict(result) {
        r.next == RunNext::End(result)
    } else {
        r.next matches RunNext::Go(RunStage::SaveEnd(after, kept)) && kept == result && has_result(
            p.begun.session,
            result,
            after.begun.session,
        ) && after == (Placed {
            begun: Begun { session: after.begun.session, ..p.begun },
            ..p
        })
    }
}

/// `r` is what follows from the outcome of what was done at a stage. An outcome that is not
/// awaited changes nothing.
pub open spec fn advances(order: RunOrder, stage: RunStage, event: RunEvent, r: RunStep) -> bool {
    match (stage, event) {
        (RunStage::Choose, RunEvent::Chosen(chosen)) => quiet(r) && r.next == (match chosen {
            Ok(id) => RunNext::Go(RunStage::Load(id)),
            Err(e) => RunNext::End(Err(e)),
        }),
        (RunStage::Load(id), RunEvent::Loaded(loaded)) => quiet(r) && (match loaded {
            Ok((session, fingerprint)) => if session.phase.runnable() {
                r.next == RunNext::Go(RunStage::Configure(Begun { id, session, fingerprint }))
            } else {
                fails(r, unrunnable_text(id@, session.phase))
            },
            Err(e) => r.next == RunNext::End(Err(e)),
        }),
        (RunStage::Configure(b), RunEvent::Configured(loaded)) => match loaded {
            Err(e) => quiet(r) && r.next == RunNext::End(Err(e)),
            Ok(config) => if !config_is_valid(config) {
                quiet(r) && (r.next matches RunNext::End(Err(CruiseError::InvalidStepConfig(m)))
                    && config_fault(config, m@))
            } else if order.dry_run {
                shows_only(b, config, r)
            } else {
                exists|c: CompiledWorkflow| #[trigger] compiles_to(config, c) && takes_up(
                    order,
                    b,
                    c,
                    r,
                )
            },
        },
        (RunStage::AskMode(b, compiled), RunEvent::Answered(answer)) => match asked_mode(answer) {
            Ok(mode) => settles(b, compiled, mode, r),
            Err(text) => quiet(r) && fails(r, text),
        },
        (RunStage::FindGh(b, compiled), RunEvent::Replied(reply)) => if gh_answers(reply) {
            sets_off(b, compiled, r)
        } else {
            quiet(r) && fails(r, gh_missing())
        },
        (RunStage::EnterBase(ready), RunEvent::Entered(entered)) => quiet(r) && r.next == (
        match entered {
            Ok(_) => match ready.begun.session.workspace_mode {
                WorkspaceMode::Worktree => RunNext::Go(RunStage::CheckOut(ready)),
                WorkspaceMode::CurrentBranch => RunNext::Go(RunStage::Inspect(ready)),
            },
            Err(e) => RunNext::End(Err(CruiseError::IoError(e))),
        }),
        (RunStage::CheckOut(ready), RunEvent::CheckedOut(found)) => match found {
            Ok((ctx, reused)) => settles_in(
                ready,
                ready.begun.session,
                ExecutionWorkspace::Worktree { ctx, reused },
                r,
            ),
            Err(e) => quiet(r) && r.next == RunNext::End(Err(e)),
        },
        (RunStage::Inspect(ready), RunEvent::Inspected(found)) => match found {
            Ok(repo) => match branch_fault(ready.begun.session, repo) {
                None => settles_in(
                    ready,
                    SessionState { target_branch: repo.branch, ..ready.begun.session },
                    ExecutionWorkspace::CurrentBranch { path: ready.begun.session.base_dir },
                    r,
                ),
                Some(text) => quiet(r) && fails(r, text),
            },
            Err(e) => quiet(r) && r.next == RunNext::End(Err(e)),
        },
        (RunStage::SaveStart(p), RunEvent::Saved(saved)) => quiet(r) && r.next == (match saved {
            Ok(fingerprint) => RunNext::Go(
                RunStage::EnterWorkspace(
                    Placed { begun: Begun { fingerprint, ..p.begun }, ..p },
                ),
            ),
            Err(e) => RunNext::End(Err(e)),
        }),
        (RunStage::EnterWorkspace(p), RunEvent::Entered(entered)) => match entered {
            Ok(_) => {
                &&& mute(r)
                &&& opt_view(r.logged) == Some("--- run started ---"@)
                &&& r.next == RunNext::Go(RunStage::Execute(p))
            },
            Err(e) => quiet(r) && r.next == RunNext::End(Err(CruiseError::IoError(e))),
        },
        (RunStage::Execute(p), RunEvent::Executed(result)) => {
            &&& opt_view(r.logged) == Some(outcome_text(result, true))
            &&& match result {
                Err(CruiseError::Interrupted) => {
                    &&& says(r, Some(interrupted_spans()))
                    &&& r.next == RunNext::Go(
                        RunStage::SaveSuspended(
                            Placed {
                                begun: Begun {
                                    session: SessionState {
                                        phase: SessionPhase::Suspended,
                                        ..p.begun.session
                                    },
                                    ..p.begun
                                },
                                ..p
                            },
                        ),
                    )
                },
                Err(e) => mute(r) && finishes(p, Err(e), r),
                Ok(_) => mute(r) && (match p.workspace {
                    ExecutionWorkspace::Worktree { .. } => r.next == RunNext::Go(
                        RunStage::Publish(p),
                    ),
                    ExecutionWorkspace::CurrentBranch { .. } => finishes(p, Ok(()), r),
                }),
            }
        },
        (RunStage::Publish(p), RunEvent::Published(result)) => quiet(r) && finishes(p, result, r),
        (RunStage::SaveEnd(_, result), RunEvent::Saved(saved)) => quiet(r) && r.next == (
        match saved {
            Ok(_) => RunNext::End(result),
            Err(e) => RunNext::End(Err(e)),
        }),
        (RunStage::SaveSuspended(_), RunEvent::Saved(saved)) => quiet(r) && r.next == (
        match saved {
            Ok(_) => RunNext::End(Err(CruiseError::Interrupted)),
            Err(e) => RunNext::End(Err(e)),
        }),
        _ => quiet(r) && r.next == RunNext::Go(stage),
    }
}

// ---------------------------------------------------------------------------
// Advancing
// ---------------------------------------------------------------------------

fn go(stage: RunStage) -> (r: RunStep)
    ensures
        quiet(r) && r.next == RunNext::Go(stage),
{
    RunStep { next: RunNext::Go(stage), said: None, printed: None, logged: None }
}

fn end(result: Result<(), CruiseError>) -> (r: RunStep)
    ensures
        quiet(r) && r.next == RunNext::End(result),
{
    RunStep { next: RunNext::End(result), said: None, printed: None, logged: None }
}

/// The first stage of a run.
pub fn first_run_stage(order: &RunOrder) -> (r: RunStage)
    ensures
        r == (match order.session {
            Some(id) => RunStage::Load(id),
            None => RunStage::Choose,
        }),
{
    match &order.session {
        Some(id) => RunStage::Load(id.clone()),
        None => RunStage::Choose,
    }
}

fn after_load(id: String, session: SessionState, fingerprint: SessionStateFingerprint) -> (r:
    RunStep)
    ensures
        quiet(r),
        if session.phase.runnable() {
            r.next == RunNext::Go(RunStage::Configure(Begun { id, session, fingerprint }))
        } else {
            fails(r, unrunnable_text(id@, session.phase))
        },
{
    match ensure_runnable(id.as_str(), &session) {
        Ok(()) => go(RunStage::Configure(Begun { id, session, fingerprint })),
        Err(e) => end(Err(e)),
    }
}

fn show_only(b: &Begun, config: &WorkflowConfig) -> (r: RunStep)
    ensures
        shows_only(*b, *config, r),
{
    let mut out: Vec<Span> = Vec::new();
    put(&mut out, "Session: ".to_owned().concat(b.id.as_str()), Tone::Dim);
    assert(span_views(out@) =~= seq![("Session: "@ + b.id@, Tone::Dim)]);
    let steps: Vec<Span> = match &b.session.current_step {
        Some(step) => dry_run(config, Some(step.as_str())),
        None => dry_run(config, None),
    };
    RunStep { next: RunNext::End(Ok(())), said: Some(out), printed: Some(steps), logged: None }
}

fn set_off(b: Begun, compiled: CompiledWorkflow) -> (r: RunStep)
    ensures
        sets_off(b, compiled, r),
{
    match start_step(&b.session, &compiled) {
        Ok(start) => {
            let said = resume_message(&b.session);
            RunStep {
                next: RunNext::Go(RunStage::EnterBase(Ready { begun: b, compiled, start })),
                said,
                printed: None,
                logged: None,
            }
        },
        Err(e) => end(Err(e)),
    }
}

fn settle(b: Begun, compiled: CompiledWorkflow, mode: WorkspaceMode) -> (r: RunStep)
    ensures
        settles(b, compiled, mode, r),
{
    let mut b = b;
    b.session.workspace_mode = mode;
    match mode {
        WorkspaceMode::Worktree => go(RunStage::FindGh(b, compiled)),
        WorkspaceMode::CurrentBranch => set_off(b, compiled),
    }
}

fn after_config(order: &RunOrder, b: Begun, config: WorkflowConfig) -> (r: RunStep)
    ensures
        if !config_is_valid(config) {
            quiet(r) && (r.next matches RunNext::End(Err(CruiseError::InvalidStepConfig(m)))
                && config_fault(config, m@))
        } else if order.dry_run {
            shows_only(b, config, r)
        } else {
            exists|c: CompiledWorkflow| #[trigger] compiles_to(config, c) && takes_up(*order, b, c, r)
        },
{
    match validate_groups(&config) {
        Ok(()) => {},
        Err(e) => return end(Err(e)),
    }
    if order.dry_run {
        return show_only(&b, &config);
    }
    let compiled = match compile(config) {
        Ok(compiled) => compiled,
        Err(e) => return end(Err(e)),
    };
    assert(compiles_to(config, compiled));
    match effective_workspace_mode(order.workspace, &b.session) {
        ModeChoice::Ask => go(RunStage::AskMode(b, compiled)),
        ModeChoice::Fixed(mode) => settle(b, compiled, mode),
    }
}

fn settle_in(ready: Ready, session: SessionState, workspace: ExecutionWorkspace) -> (r: RunStep)
    ensures
        settles_in(ready, session, workspace, r),
{
    let said = Some(workspace.notice());
    let mut session = session;
    update_session_workspace(&mut session, &workspace);
    session.phase = SessionPhase::Running;
    let p = Placed {
        begun: Begun { id: ready.begun.id, session, fingerprint: ready.begun.fingerprint },
        compiled: ready.compiled,
        start: ready.start,
        workspace,
    };
    RunStep { next: RunNext::Go(RunStage::SaveStart(p)), said, printed: None, logged: None }
}

fn after_inspection(ready: Ready, repo: &RepoState) -> (r: RunStep)
    ensures
        match branch_fault(ready.begun.session, *repo) {
            None => settles_in(
                ready,
                SessionState { target_branch: repo.branch, ..ready.begun.session },
                ExecutionWorkspace::CurrentBranch { path: ready.begun.session.base_dir },
                r,
            ),
            Some(text) => quiet(r) && fails(r, text),
        },
{
    let mut session = ready.begun.session.copy();
    match current_branch_workspace(&mut session, repo) {
        Ok(workspace) => settle_in(ready, session, workspace),
        Err(e) => end(Err(e)),
    }
}

fn finish(p: Placed, result: Result<(), CruiseError>) -> (r: RunStep)
    ensures
        quiet(r) && finishes(p, result, r),
{
    match result {
        Err(CruiseError::SessionStateConflict(m)) => end(
            Err(CruiseError::SessionStateConflict(m)),
        ),
        Err(CruiseError::SessionStateConflictAborted(m)) => end(
            Err(CruiseError::SessionStateConflictAborted(m)),
        ),
        result => {
            let mut p = p;
            apply_run_result_to_session(&mut p.begun.session, &result);
            go(RunStage::SaveEnd(p, result))
        },
    }
}

fn after_execution(p: Placed, result: Result<ExecutionResult, CruiseError>) -> (r: RunStep)
    ensures
        forall|order: RunOrder| #[trigger]
            advances(order, RunStage::Execute(p), RunEvent::Executed(result), r),
{
    let line = outcome_line(&result);
    match result {
        Err(CruiseError::Interrupted) => {
            let mut p = p;
            p.begun.session.phase = SessionPhase::Suspended;
            let mut out: Vec<Span> = Vec::new();
            put_plain(&mut out, "\n");
            put(&mut out, "⏸".to_owned(), Tone::YellowBold);
            put_plain(&mut out, " Interrupted — session saved as Suspended.");
            assert(span_views(out@) =~= interrupted_spans());
            RunStep {
                next: RunNext::Go(RunStage::SaveSuspended(p)),
                said: Some(out),
                printed: None,
                logged: Some(line),
            }
        },
        Err(e) => {
            let step = finish(p, Err(e));
            RunStep { next: step.next, said: None, printed: None, logged: Some(line) }
        },
        Ok(_) => {
            let in_worktree = match &p.workspace {
                ExecutionWorkspace::Worktree { ctx: _, reused: _ } => true,
                ExecutionWorkspace::CurrentBranch { path: _ } => false,
            };
            let step = if in_worktree {
                go(RunStage::Publish(p))
            } else {
                finish(p, Ok(()))
            };
            RunStep { next: step.next, said: None, printed: None, logged: Some(line) }
        },
    }
}

/// What follows from the outcome of what was done at a stage: the session is chosen, loaded and
/// configured; it is settled where it runs; its state is saved as running; its steps are
/// executed; in a worktree, a pull request is made; and its state is saved with the result.
pub fn advance_run(order: &RunOrder, stage: RunStage, event: RunEvent) -> (r: RunStep)
    ensures
        advances(*order, stage, event, r),
{
    match (stage, event) {
        (RunStage::Choose, RunEvent::Chosen(chosen)) => match chosen {
            Ok(id) => go(RunStage::Load(id)),
            Err(e) => end(Err(e)),
        },
        (RunStage::Load(id), RunEvent::Loaded(loaded)) => match loaded {
            Ok((session, fingerprint)) => after_load(id, session, fingerprint),
            Err(e) => end(Err(e)),
        },
        (RunStage::Configure(b), RunEvent::Configured(loaded)) => match loaded {
            Ok(config) => after_config(order, b, config),
            Err(e) => end(Err(e)),
        },
        (RunStage::AskMode(b, compiled), RunEvent::Answered(answer)) => {
            match prompt_workspace_mode(&answer) {
                Ok(mode) => settle(b, compiled, mode),
                Err(e) => end(Err(e)),
            }
        },
        (RunStage::FindGh(b, compiled), RunEvent::Replied(reply)) => {
            match ensure_gh_available(&reply) {
                Ok(()) => set_off(b, compiled),
                Err(e) => end(Err(e)),
            }
        },
        (RunStage::EnterBase(ready), RunEvent::Entered(entered)) => match entered {
            Ok(_) => match ready.begun.session.workspace_mode {
                WorkspaceMode::Worktree => go(RunStage::CheckOut(ready)),
                WorkspaceMode::CurrentBranch => go(RunStage::Inspect(ready)),
            },
            Err(e) => end(Err(CruiseError::IoError(e))),
        },
        (RunStage::CheckOut(ready), RunEvent::CheckedOut(found)) => match found {
            Ok((ctx, reused)) => {
                let session = ready.begun.session.copy();
                settle_in(ready, session, ExecutionWorkspace::Worktree { ctx, reused })
            },
            Err(e) => end(Err(e)),
        },
        (RunStage::Inspect(ready), RunEvent::Inspected(found)) => match found {
            Ok(repo) => after_inspection(ready, &repo),
            Err(e) => end(Err(e)),
        },
        (RunStage::SaveStart(p), RunEvent::Saved(saved)) => match saved {
            Ok(fingerprint) => {
                let mut p = p;
                p.begun.fingerprint = fingerprint;
                go(RunStage::EnterWorkspace(p))
            },
            Err(e) => end(Err(e)),
        },
        (RunStage::EnterWorkspace(p), RunEvent::Entered(entered)) => match entered {
            Ok(_) => RunStep {
                next: RunNext::Go(RunStage::Execute(p)),
                said: None,
                printed: None,
                logged: Some("--- run started ---".to_owned()),
            },
            Err(e) => end(Err(CruiseError::IoError(e))),
        },
        (RunStage::Execute(p), RunEvent::Executed(result)) => after_execution(p, result),
        (RunStage::Publish(p), RunEvent::Published(result)) => finish(p, result),
        (RunStage::SaveEnd(_, result), RunEvent::Saved(saved)) => match saved {
            Ok(_) => end(result),
            Err(e) => end(Err(e)),
        },
        (RunStage::SaveSuspended(_), RunEvent::Saved(saved)) => match saved {
            Ok(_) => end(Err(CruiseError::Interrupted)),
            Err(e) => end(Err(e)),
        },
        (stage, _) => go(stage),
    }
}

impl Begun {
    /// The session comes to a step.
    pub fn enter_step(&mut self, step: &str)
        ensures
            opt_view(final(self).session.current_step) == Some(step@),
            *final(self) == (Begun {
                session: SessionState {
                    current_step: final(self).session.current_step,
                    ..old(self).session
                },
                ..*old(self)
            }),
    {
        self.session.current_step = Some(step.to_owned());
    }
}

// ---------------------------------------------------------------------------
// Laws
// ---------------------------------------------------------------------------

/// The outcome is that of what is done at the stage.
pub open spec fn is_awaited(stage: RunStage, event: RunEvent) -> bool {
    match stage {
        RunStage::Choose => event is Chosen,
        RunStage::Load(_) => event is Loaded,
        RunStage::Configure(_) => event is Configured,
        RunStage::AskMode(_, _) => event is Answered,
        RunStage::FindGh(_, _) => event is Replied,
        RunStage::EnterBase(_) => event is Entered,
        RunStage::CheckOut(_) => event is CheckedOut,
        RunStage::Inspect(_) => event is Inspected,
        RunStage::SaveStart(_) => event is Saved,
        RunStage::EnterWorkspace(_) => event is Entered,
        RunStage::Execute(_) => event is Executed,
        RunStage::Publish(_) => event is Published,
        RunStage::SaveEnd(_, _) => event is Saved,
        RunStage::SaveSuspended(_) => event is Saved,
    }
}

/// How many outcomes can follow from a stage on, at most.
pub open spec fn stages_left(stage: RunStage) -> int {
    match stage {
        RunStage::Choose => 12,
        RunStage::Load(_) => 11,
        RunStage::Configure(_) => 10,
        RunStage::AskMode(_, _) => 9,
        RunStage::FindGh(_, _) => 8,
        RunStage::EnterBase(_) => 7,
        RunStage::CheckOut(_) => 6,
        RunStage::Inspect(_) => 6,
        RunStage::SaveStart(_) => 5,
        RunStage::EnterWorkspace(_) => 4,
        RunStage::Execute(_) => 3,
        RunStage::Publish(_) => 2,
        RunStage::SaveEnd(_, _) => 1,
        RunStage::SaveSuspended(_) => 1,
    }
}

/// A run ends: each outcome leaves fewer to follow.
pub proof fn law_single_runs_end(order: RunOrder, stage: RunStage, event: RunEvent, r: RunStep)
    requires
        advances(order, stage, event, r),
        is_awaited(stage, event),
    ensures
        stages_left(stage) > 0,
        r.next matches RunNext::Go(next) ==> stages_left(next) < stages_left(stage),
{
}

/// Nothing was saved or entered yet.
pub open spec fn is_untouched(stage: RunStage) -> bool {
    stage is Choose || stage is Load || stage is Configure
}

/// A run that only shows what would be run comes to no stage at which anything is changed.
pub proof fn law_dry_runs_touch_nothing(
    order: RunOrder,
    stage: RunStage,
    event: RunEvent,
    r: RunStep,
)
    requires
        order.dry_run,
        is_untouched(stage),
        advances(order, stage, event, r),
    ensures
        r.next matches RunNext::Go(next) ==> is_untouched(next),
{
}

/// The session at a stage, once it was loaded.
pub open spec fn session_at(stage: RunStage) -> Option<SessionState> {
    match stage {
        RunStage::Choose => None,
        RunStage::Load(_) => None,
        RunStage::Configure(b) => Some(b.session),
        RunStage::AskMode(b, _) => Some(b.session),
        RunStage::FindGh(b, _) => Some(b.session),
        RunStage::EnterBase(ready) => Some(ready.begun.session),
        RunStage::CheckOut(ready) => Some(ready.begun.session),
        RunStage::Inspect(ready) => Some(ready.begun.session),
        RunStage::SaveStart(p) => Some(p.begun.session),
        RunStage::EnterWorkspace(p) => Some(p.begun.session),
        RunStage::Execute(p) => Some(p.begun.session),
        RunStage::Publish(p) => Some(p.begun.session),
        RunStage::SaveEnd(p, _) => Some(p.begun.session),
        RunStage::SaveSuspended(p) => Some(p.begun.session),
    }
}

/// The phase of the session fits the stage.
pub open spec fn phase_fits(stage: RunStage) -> bool {
    match stage {
        RunStage::Choose => true,
        RunStage::Load(_) => true,
        RunStage::SaveStart(p) => p.begun.session.phase is Running,
        RunStage::EnterWorkspace(p) => p.begun.session.phase is Running,
        RunStage::Execute(p) => p.begun.session.phase is Running,
        RunStage::Publish(p) => p.begun.session.phase is Running && p.workspace is Worktree,
        RunStage::SaveEnd(p, result) => {
            &&& !is_conflict(result)
            &&& match result {
                Ok(_) => p.begun.session.phase is Completed,
                Err(CruiseError::StepPaused) => p.begun.session.phase is Running,
                Err(e) => p.begun.session.phase is Failed,
            }
        },
        RunStage::SaveSuspended(p) => p.begun.session.phase is Suspended,
        _ => session_at(stage)->0.phase.runnable(),
    }
}

/// What is saved of a run fits it: a session is saved as running before its first step, as
/// suspended if the user interrupted it, and else as completed, failed or, if a step was paused,
/// still running. A state that was changed by others is not saved over. Only a session that may
/// be run gets so far, and only one in a worktree gets a pull request.
pub proof fn law_saved_phases_fit_the_run(
    order: RunOrder,
    stage: RunStage,
    event: RunEvent,
    r: RunStep,
)
    requires
        phase_fits(stage),
        advances(order, stage, event, r),
    ensures
        r.next matches RunNext::Go(next) ==> phase_fits(next),
{
}

/// The session at the stage runs in a worktree, or will.
pub open spec fn bound_for_a_worktree(stage: RunStage) -> bool {
    match stage {
        RunStage::Choose => true,
        RunStage::Load(_) => true,
        RunStage::Configure(_) => true,
        RunStage::AskMode(_, _) => false,
        RunStage::Inspect(_) => false,
        RunStage::FindGh(b, _) => b.session.workspace_mode == WorkspaceMode::Worktree,
        RunStage::EnterBase(ready) => ready.begun.session.workspace_mode == WorkspaceMode::Worktree,
        RunStage::CheckOut(ready) => ready.begun.session.workspace_mode == WorkspaceMode::Worktree,
        RunStage::SaveStart(p) => p.workspace is Worktree,
        RunStage::EnterWorkspace(p) => p.workspace is Worktree,
        RunStage::Execute(p) => p.workspace is Worktree,
        RunStage::Publish(p) => p.workspace is Worktree,
        RunStage::SaveEnd(p, _) => p.workspace is Worktree,
        RunStage::SaveSuspended(p) => p.workspace is Worktree,
    }
}

/// Where worktrees are forced, a session runs in one, whatever it says itself, and the user is
/// not asked.
pub proof fn law_forced_worktrees_are_used(
    order: RunOrder,
    stage: RunStage,
    event: RunEvent,
    r: RunStep,
)
    requires
        order.workspace == WorkspaceOverride::ForceWorktree,
        bound_for_a_worktree(stage),
        advances(order, stage, event, r),
    ensures
        r.next matches RunNext::Go(next) ==> bound_for_a_worktree(next),
{
}

} // verus!
