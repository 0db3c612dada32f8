//! What the front end is told and may ask for.

use vstd::prelude::*;

use crate::engine::ExecutionResult;
use crate::error::CruiseError;
use crate::gui::commands::{
    after_generation, ensure_deletable, expand_home, finish_session, list_directory, note_answer,
    note_event, requested_workspace_mode, session_log, step_line, DirEntryDto, FoundEntry,
    OptionResultDto, SessionDto,
};
use crate::gui::events::{PlanEvent, WorkflowEvent};
use crate::gui::option_slot::{answer_received, do_cancel_session, do_respond_to_option, OptionSlot};
use crate::gui::planning::{
    advance_create, advance_fix, CreateEvent, CreateNext, CreateOrder, CreateStage, CreateStep,
    FixEvent, FixNext, FixOrder, FixStage, FixStep,
};
use crate::gui::session_run::{
    advance_gui_run, run_result, Batch, GuiEvent, GuiNext, GuiStage, Underway,
};
use crate::metadata::{PlanContent, PlanFile};
use crate::path::join_path;
use crate::resolver::FileRead;
use crate::session::{SessionManager, SessionPhase, SessionState, WorkspaceMode, WorktreeContext};
use crate::step::option::OptionResult;
use crate::step::prompt::PromptResult;
use crate::text::{decimal, is_blank};

verus! {

// ---------------------------------------------------------------------------
// Ends of runs
// ---------------------------------------------------------------------------

/// A run that the user cancelled suspends its session, and so does one that was interrupted. One that
/// ended completes it, and one that failed leaves it failed. The front end is told the same, and no
/// question is open any more.
pub proof fn law_the_front_end_is_told_how_runs_end(
    session: &mut SessionState,
    result: &Result<ExecutionResult, CruiseError>,
    cancelled: bool,
    r: WorkflowEvent,
)
    requires
        call_ensures(finish_session, (session, result, cancelled), r),
    ensures
        !final(session).awaiting_input,
        *result is Ok && cancelled ==> final(session).phase is Suspended && r is WorkflowCancelled,
        *result matches Ok(exec) ==> (!cancelled ==> final(session).phase is Completed && final(session).completed_at is Some && r == (WorkflowEvent::WorkflowCompleted {
            run: exec.run,
            skipped: exec.skipped,
            failed: exec.failed,
        })),
        *result matches Err(e) ==> {
            &&& e is Interrupted ==> final(session).phase is Suspended && r is WorkflowCancelled
            &&& !(e is Interrupted) ==> r is WorkflowFailed && (
            final(session).phase matches SessionPhase::Failed(m) && m@ == e.message_spec())
        },
        final(session).current_step == old(session).current_step && final(session).id == old(session).id && final(session).pr_url == old(session).pr_url,
{
}

/// The result of a run for the front end is an error exactly if the run could not be made or failed.
pub proof fn law_failed_runs_are_errors(ended: Result<SessionPhase, String>, r: Result<(), String>)
    requires
        call_ensures(run_result, (ended,), r),
    ensures
        r is Err <==> (ended is Err || ended->Ok_0 is Failed),
        ended matches Err(m) ==> r == Err::<(), String>(m),
        ended matches Ok(phase) ==> (phase matches SessionPhase::Failed(m) ==> r == Err::<
            (),
            String,
        >(m)),
{
}

/// A session that has not begun works where the front end asked for, and any other one where it
/// worked before.
pub proof fn law_requests_for_a_workspace_count_at_the_beginning(
    session: &SessionState,
    requested: WorkspaceMode,
    r: WorkspaceMode,
)
    requires
        call_ensures(requested_workspace_mode, (session, requested), r),
    ensures
        session.current_step is None ==> r == requested,
        session.current_step is Some ==> r == session.workspace_mode,
{
}

/// A session that may be run is configured, and any other one is refused.
pub proof fn law_the_front_end_runs_open_sessions_only(
    requested: WorkspaceMode,
    id: String,
    session: SessionState,
    r: GuiNext,
)
    requires
        call_ensures(
            advance_gui_run,
            (requested, GuiStage::Load(id), GuiEvent::Loaded(Ok(session))),
            r,
        ),
    ensures
        session.phase is AwaitingApproval || session.phase is Completed ==> (r matches GuiNext::End(
            Err(_),
        )),
        !(session.phase is AwaitingApproval || session.phase is Completed) ==> r == GuiNext::Go(
            GuiStage::Configure(session),
        ),
{
}

/// A session that gets a worktree is running in it and knows its path and its branch.
pub proof fn law_front_end_runs_know_their_worktree(
    requested: WorkspaceMode,
    u: Underway,
    ctx: WorktreeContext,
    reused: bool,
    r: GuiNext,
)
    requires
        call_ensures(
            advance_gui_run,
            (requested, GuiStage::CheckOut(u), GuiEvent::CheckedOut(Ok((ctx, reused)))),
            r,
        ),
    ensures
        r matches GuiNext::Go(GuiStage::SaveStart(next, workspace)) && next.session.phase is Running
            && next.session.worktree_path == Some(ctx.path) && next.session.worktree_branch == Some(
            ctx.branch,
        ) && next.start == u.start && next.compiled == u.compiled,
{
}

/// A run ends with the session as it is found at its end, not as it was at its beginning.
pub proof fn law_sessions_are_ended_as_found(
    requested: WorkspaceMode,
    before: SessionState,
    now: SessionState,
    result: Result<ExecutionResult, CruiseError>,
    cancelled: bool,
    r: GuiNext,
)
    requires
        call_ensures(
            advance_gui_run,
            (
                requested,
                GuiStage::Reload(before, result, cancelled),
                GuiEvent::Reloaded(Some(now)),
            ),
            r,
        ),
    ensures
        r matches GuiNext::Go(GuiStage::SaveEnd(after, sent)) && after.current_step
            == now.current_step && after.id == now.id && after.input == now.input
            && !after.awaiting_input && (result is Ok && !cancelled ==> after.phase is Completed)
            && (result is Ok && cancelled ==> after.phase is Suspended) && (after.phase is Failed
            <==> (result matches Err(e) && !(e is Interrupted))),
{
}

// ---------------------------------------------------------------------------
// All sessions
// ---------------------------------------------------------------------------

/// The sessions of a batch are run in their order, each once, until one was suspended; what became of
/// each is told.
pub proof fn law_batches_are_run_in_order(
    batch: &mut Batch,
    r: (Option<SessionState>, WorkflowEvent),
)
    requires
        call_ensures(Batch::next, (batch,), r),
        0 <= old(batch).begun(),
    ensures
        old(batch).stopped() ==> r.0 is None,
        !old(batch).stopped() && old(batch).begun() < old(batch).sessions().len() ==> r.0 == Some(
            old(batch).sessions()[old(batch).begun()],
        ) && final(batch).begun() == old(batch).begun() + 1,
        r.0 is None <==> r.1 is RunAllCompleted,
        r.0 matches Some(s) ==> (r.1 matches WorkflowEvent::RunAllSessionStarted {
            session_id,
            input,
        } && session_id == s.id && input == s.input),
        final(batch).sessions() == old(batch).sessions(),
{
}

/// A session that was suspended stops a batch; one that failed does not.
pub proof fn law_suspended_sessions_stop_a_batch(
    batch: &mut Batch,
    session: SessionState,
    ended: Result<SessionPhase, String>,
    r: WorkflowEvent,
)
    requires
        call_ensures(Batch::record, (batch, session, ended), r),
        !old(batch).stopped(),
    ensures
        final(batch).stopped() <==> (ended matches Ok(phase) && phase is Suspended),
        r matches WorkflowEvent::RunAllSessionFinished { session_id, input, phase, error }
            && session_id == session.id && (error is Some <==> (ended is Err
            || ended->Ok_0 is Failed)),
{
}

// ---------------------------------------------------------------------------
// Questions
// ---------------------------------------------------------------------------

/// Only one question is open at a time: a second one is refused, and the first one stays. An answer
/// goes to the open question and closes it; without one it is an error.
pub proof fn law_one_question_is_open<T>(
    slot: &mut OptionSlot<T>,
    asked: T,
    opened: Result<(), CruiseError>,
    other: &mut OptionSlot<T>,
    answered: Result<T, String>,
)
    requires
        call_ensures(OptionSlot::<T>::open, (slot, asked), opened),
        call_ensures(do_respond_to_option::<T>, (other,), answered),
    ensures
        opened is Ok <==> old(slot).pending_spec() is None,
        opened is Ok ==> final(slot).pending_spec() == Some(asked),
        opened is Err ==> final(slot).pending_spec() == old(slot).pending_spec(),
        old(other).pending_spec() matches Some(q) ==> answered == Ok::<T, String>(q),
        old(other).pending_spec() is None ==> answered is Err,
        final(other).pending_spec() is None,
{
}

/// A session that is cancelled leaves no question open.
pub proof fn law_cancelled_sessions_ask_nothing<T>(
    token: &mut Option<crate::cancellation::CancellationToken>,
    slot: &mut OptionSlot<T>,
    r: (Option<crate::cancellation::CancellationToken>, Option<T>),
)
    requires
        call_ensures(do_cancel_session::<T>, (token, slot), r),
    ensures
        final(slot).pending_spec() is None && *final(token) is None,
        r.1 == old(slot).pending_spec(),
{
}

/// A question that nobody answers any more interrupts the run.
pub proof fn law_unanswered_questions_interrupt(
    answer: Option<OptionResult>,
    r: Result<OptionResult, CruiseError>,
)
    requires
        call_ensures(answer_received, (answer,), r),
    ensures
        answer matches Some(a) ==> r == Ok::<OptionResult, CruiseError>(a),
        answer is None ==> (r matches Err(CruiseError::Interrupted)),
{
}

/// A session waits for input from a question on until it is answered.
pub proof fn law_sessions_wait_while_a_question_is_open(
    session: &mut SessionState,
    event: &WorkflowEvent,
    noted: bool,
    later: &mut SessionState,
    done: (),
)
    requires
        call_ensures(note_event, (session, event), noted),
        call_ensures(note_answer, (later,), done),
    ensures
        noted <==> *event is OptionRequired,
        *event is OptionRequired ==> final(session).awaiting_input,
        !(*event is OptionRequired) ==> *final(session) == *old(session),
        !final(later).awaiting_input,
        *final(later) == (SessionState { awaiting_input: false, ..*old(later) }),
{
}

/// An answer of the front end is handed on with its step and its text.
pub proof fn law_answers_are_handed_on(answer: OptionResultDto, r: OptionResult)
    requires
        call_ensures(OptionResultDto::into_result, (answer,), r),
    ensures
        r.next_step == answer.next_step && r.text_input == answer.text_input,
{
}

// ---------------------------------------------------------------------------
// Commands
// ---------------------------------------------------------------------------

/// A session is deleted unless it is running.
pub proof fn law_running_sessions_are_not_deleted(session: &SessionState, r: Result<(), String>)
    requires
        call_ensures(ensure_deletable, (session,), r),
    ensures
        r is Err <==> session.phase is Running,
{
}

/// A path that begins with a tilde leads from the home directory; any other one is kept.
pub proof fn law_tildes_stand_for_the_home_directory(
    rest: Seq<char>,
    path: &str,
    home: &Option<String>,
    r: String,
)
    requires
        call_ensures(expand_home, (path, home), r),
    ensures
        path@ == seq!['~'] + rest ==> (*home matches Some(dir) ==> r@ == dir@ + rest),
        path@.len() == 0 || path@[0] != '~' ==> r@ == path@,
{
    if path@ == seq!['~'] + rest {
        assert(path@.skip(1) =~= rest);
    }
}

/// A log that is not there is empty; one that cannot be read is an error.
pub proof fn law_missing_logs_are_empty(path: &str, read: FileRead, r: Result<String, String>)
    requires
        call_ensures(session_log, (path, read), r),
    ensures
        read matches FileRead::Text(text) ==> r == Ok::<String, String>(text),
        read is NotFound ==> (r matches Ok(text) && text@.len() == 0),
        read is Failed ==> r is Err,
{
}

/// A step is shown with its place, counted from one, and the number of all steps.
pub proof fn law_steps_are_counted_from_one(index: usize, total: usize, step: &str, r: String)
    requires
        index < usize::MAX,
        call_ensures(step_line, (index, total, step), r),
    ensures
        r@ == "["@ + decimal(index as nat + 1) + "/"@ + decimal(total as nat) + "] "@ + step@,
{
}

/// What the front end sees of a session is the session.
pub proof fn law_sessions_are_shown_as_they_are(s: SessionState, r: SessionDto)
    requires
        call_ensures(SessionDto::from, (s,), r),
    ensures
        r.id == s.id && r.input == s.input && r.title == s.title && r.current_step
            == s.current_step && r.pr_url == s.pr_url && r.awaiting_input == s.awaiting_input
            && r.workspace_mode == s.workspace_mode && r.completed_at == s.completed_at,
        r.phase_error is Some <==> s.phase is Failed,
        s.phase matches SessionPhase::Failed(e) ==> r.phase_error == Some(e),
        s.phase is Planned ==> r.phase@ == "Planned"@,
        s.phase is Running ==> r.phase@ == "Running"@,
        s.phase is Completed ==> r.phase@ == "Completed"@,
        s.phase is Suspended ==> r.phase@ == "Suspended"@,
        s.phase is Failed ==> r.phase@ == "Failed"@,
        s.phase is AwaitingApproval ==> r.phase@ == "Awaiting Approval"@,
{
}

/// Each directory that is listed stands under the one that was looked at, and no more are listed
/// than may be.
pub proof fn law_listed_directories_stand_under_the_one_looked_at(
    dir: &str,
    entries: &Vec<FoundEntry>,
    windows: bool,
    r: Vec<DirEntryDto>,
    i: int,
)
    requires
        call_ensures(list_directory, (dir, entries, windows), r),
        0 <= i < r@.len(),
    ensures
        r@[i].path@ == join_path(dir@, r@[i].name@, windows),
        r@.len() <= crate::gui::commands::MAX_DIRECTORY_ENTRIES,
{
}

// ---------------------------------------------------------------------------
// Plans
// ---------------------------------------------------------------------------

/// A plan for the front end is the one in the plan file, or else what was written to the standard
/// output, or else to the standard error; the front end is told the same plan, or why there is none.
pub proof fn law_generated_plans_are_told(
    path: &str,
    out: PromptResult,
    file: PlanFile,
    r: (Result<PlanContent, String>, PlanEvent),
)
    requires
        call_ensures(after_generation, (path, Ok(out), file), r),
    ensures
        file matches PlanFile::Content(text) ==> (!is_blank(text@) ==> (r.0 matches Ok(plan)
            && plan.content@ == text@ && !plan.write)),
        file is NotFound && !is_blank(out.output@) ==> (r.0 matches Ok(plan) && plan.content@
            == out.output@ && plan.write),
        file is NotFound && is_blank(out.output@) && !is_blank(out.stderr@) ==> (
        r.0 matches Ok(plan) && plan.content@ == out.stderr@ && plan.write),
        file is Failed ==> r.0 is Err,
        r.0 matches Ok(plan) ==> (r.1 matches PlanEvent::PlanGenerated { content } && content@
            == plan.content@),
        r.0 matches Err(m) ==> (r.1 matches PlanEvent::PlanFailed { error } && error@ == m@),
{
}

/// A session that is made with a workflow of its own has that written beside it; one that names a
/// file asks for its plan at once.
pub proof fn law_workflows_without_a_file_are_kept(
    manager: &SessionManager,
    order: &CreateOrder,
    draft: crate::gui::planning::Draft,
    r: CreateStep,
)
    requires
        call_ensures(
            advance_create,
            (manager, order, CreateStage::Create(draft), CreateEvent::Created(Ok(()))),
            r,
        ),
    ensures
        draft.session.config_path is None ==> r.next == CreateNext::Go(
            CreateStage::WriteConfig(draft),
        ),
        draft.session.config_path is Some ==> (r.sent matches Some(PlanEvent::PlanGenerating)),
{
}

/// A session whose plan could not be made is deleted, and the front end is told why.
pub proof fn law_sessions_without_a_plan_are_deleted(
    manager: &SessionManager,
    order: &CreateOrder,
    session: SessionState,
    request: crate::step_run::PromptRequest,
    e: CruiseError,
    text: String,
    r: CreateStep,
    s: CreateStep,
)
    requires
        call_ensures(
            advance_create,
            (
                manager,
                order,
                CreateStage::Generate(session, request),
                CreateEvent::Prompted(Err(e)),
            ),
            r,
        ),
        call_ensures(
            advance_create,
            (manager, order, CreateStage::Delete(session, text), CreateEvent::Deleted),
            s,
        ),
    ensures
        r.next matches CreateNext::Go(CreateStage::Delete(gone, why)) && gone == session && why@
            == e.message_spec(),
        s.next == CreateNext::End(Err(text)),
        s.sent matches Some(PlanEvent::PlanFailed { error }) && error == text,
{
}

/// A changed plan that could not be made is told as a failure; the session stays.
pub proof fn law_failed_changes_keep_the_session(
    manager: &SessionManager,
    order: &FixOrder,
    session: SessionState,
    request: crate::step_run::PromptRequest,
    e: CruiseError,
    r: FixStep,
)
    requires
        call_ensures(
            advance_fix,
            (manager, order, FixStage::Generate(session, request), FixEvent::Prompted(Err(e))),
            r,
        ),
    ensures
        r.sent matches Some(PlanEvent::PlanFailed { error }) && error@ == e.message_spec(),
        r.next matches FixNext::End(Err(m)) && m@ == e.message_spec(),
{
}

} // verus!
