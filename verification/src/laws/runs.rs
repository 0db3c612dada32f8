//! Runs of sessions: where they work, how they go on, and how they end.

use vstd::prelude::*;

use crate::error::CruiseError;
use crate::run_cmd::run_all::{run_all_notice, RunAll};
use crate::run_cmd::session_run::{
    apply_run_result_to_session, check_run_args, chosen_session, conflict_choice,
    effective_workspace_mode, ensure_runnable, load_run_all_result_state, prompt_workspace_mode,
    resolve_conflict, save_session_state_with_conflict_resolution, select_pending_session,
    single_result, start_step, MenuAnswer, ModeChoice, PendingChoice, SaveStep,
    SessionStateConflictChoice, WorkspaceOverride,
};
use crate::session::{
    SessionFileContents, SessionManager, SessionPhase, SessionState, SessionStateFingerprint,
    WorkspaceMode,
};
use crate::text::views;
use crate::workflow::CompiledWorkflow;

verus! {

// ---------------------------------------------------------------------------
// Results
// ---------------------------------------------------------------------------

/// A run that succeeded completes its session; one that the user paused leaves it as it is; one that
/// failed leaves it failed, with the reason. Nothing else of the session changes.
pub proof fn law_sessions_end_as_their_run_did(
    session: &mut SessionState,
    result: &Result<(), CruiseError>,
    done: (),
)
    requires
        call_ensures(apply_run_result_to_session, (session, result), done),
    ensures
        *result is Ok ==> final(session).phase is Completed && final(session).completed_at is Some,
        *result matches Err(e) ==> {
            &&& e is StepPaused ==> *final(session) == *old(session)
            &&& !(e is StepPaused) ==> (final(session).phase matches SessionPhase::Failed(m) && m@
                == e.message_spec() && final(session).completed_at is Some)
        },
        *final(session) == (SessionState {
            phase: final(session).phase,
            completed_at: final(session).completed_at,
            ..*old(session)
        }),
{
}

/// A run that the user paused is no failure of the command; every other result is handed on.
pub proof fn law_pauses_are_no_failures(
    result: Result<(), CruiseError>,
    r: (Result<(), CruiseError>, Option<&'static str>),
)
    requires
        call_ensures(single_result, (result,), r),
    ensures
        result matches Err(e) ==> (e is StepPaused ==> r.0 is Ok && r.1 is Some),
        !(result matches Err(CruiseError::StepPaused)) ==> r.0 == result && r.1 is None,
{
}

/// A session begins at the step at which it stopped, or else at the first step of its workflow.
pub proof fn law_runs_begin_where_they_stopped(
    session: &SessionState,
    compiled: &CompiledWorkflow,
    r: Result<String, CruiseError>,
)
    requires
        call_ensures(start_step, (session, compiled), r),
    ensures
        session.current_step matches Some(step) ==> (r matches Ok(s) && s@ == step@),
        session.current_step is None && compiled.list().len() > 0 ==> (r matches Ok(s) && s@
            == compiled.list()[0].0),
        session.current_step is None && compiled.list().len() == 0 ==> r is Err,
{
}

/// A session cannot be run before it was approved or after it was completed.
pub proof fn law_only_open_sessions_are_run(
    id: &str,
    session: &SessionState,
    r: Result<(), CruiseError>,
)
    requires
        call_ensures(ensure_runnable, (id, session), r),
    ensures
        r is Err <==> session.phase is AwaitingApproval || session.phase is Completed,
{
}

/// All sessions or one: both together are refused.
pub proof fn law_all_sessions_or_one(
    all: bool,
    session: &Option<String>,
    r: Result<(), CruiseError>,
)
    requires
        call_ensures(check_run_args, (all, session), r),
    ensures
        r is Err <==> all && *session is Some,
{
}

// ---------------------------------------------------------------------------
// Workspaces
// ---------------------------------------------------------------------------

/// A run of all sessions works in worktrees, whatever a session says. Otherwise the user is asked
/// exactly for a session that has not begun and would work in a worktree; any other one goes on
/// where it works.
pub proof fn law_workspaces_are_asked_for_once(
    forced: ModeChoice,
    session: &SessionState,
    r: ModeChoice,
)
    requires
        call_ensures(effective_workspace_mode, (WorkspaceOverride::ForceWorktree, session), forced),
        call_ensures(effective_workspace_mode, (WorkspaceOverride::RespectSession, session), r),
    ensures
        forced == ModeChoice::Fixed(WorkspaceMode::Worktree),
        r is Ask <==> session.current_step is None && session.workspace_mode
            == WorkspaceMode::Worktree,
        !(r is Ask) ==> r == ModeChoice::Fixed(session.workspace_mode),
{
}

/// The current branch is used only if the user said so; without a terminal, and for any other
/// answer, it is a worktree.
pub proof fn law_the_current_branch_is_used_only_on_request(
    answer: &Option<MenuAnswer>,
    r: Result<WorkspaceMode, CruiseError>,
)
    requires
        call_ensures(prompt_workspace_mode, (answer,), r),
    ensures
        r == Ok::<WorkspaceMode, CruiseError>(WorkspaceMode::CurrentBranch) <==> (
        *answer matches Some(MenuAnswer::Chosen(label)) && label@ == "Use current branch"@),
        *answer is None ==> r == Ok::<WorkspaceMode, CruiseError>(WorkspaceMode::Worktree),
        r is Err <==> (*answer matches Some(a) && (a is Cancelled || a is Failed)),
{
}

// ---------------------------------------------------------------------------
// Conflicts
// ---------------------------------------------------------------------------

/// A session is saved without a question exactly if its file is as it was left. Otherwise the user
/// is asked, and where there is no terminal nothing is written.
pub proof fn law_nothing_is_overwritten_unasked(
    manager: &SessionManager,
    session: &SessionState,
    contents: &SessionFileContents,
    expected: &SessionStateFingerprint,
    terminal: bool,
    mark: Option<SessionStateFingerprint>,
    r: SaveStep,
)
    requires
        call_ensures(SessionFileContents::fingerprint, (contents,), mark),
        call_ensures(
            save_session_state_with_conflict_resolution,
            (manager, session, contents, expected, terminal),
            r,
        ),
    ensures
        r is Save <==> (mark matches Some(m) && m.digest() == expected.digest()),
        !(r is Save) ==> (r is Ask <==> terminal),
        !(r is Save) && !terminal ==> (r matches SaveStep::Refused(
            CruiseError::SessionStateConflict(_),
        )),
        *contents is Missing ==> mark is None && !(r is Save),
{
}

/// The state outside is overwritten only if the user said so; a cancelled question aborts the run.
pub proof fn law_conflicts_are_aborted_by_default(
    answer: &MenuAnswer,
    choice: Result<SessionStateConflictChoice, CruiseError>,
    message: String,
    r: Result<(), CruiseError>,
)
    requires
        call_ensures(conflict_choice, (answer,), choice),
        choice matches Ok(c) && call_ensures(resolve_conflict, (c, message), r),
    ensures
        *answer is Cancelled ==> r is Err,
        *answer matches MenuAnswer::Chosen(label) ==> (r is Err <==> label@ == "Abort run"@),
        r matches Err(e) ==> e == CruiseError::SessionStateConflictAborted(message),
{
}

/// After a run the session is what its file holds; a file that is gone or cannot be read leaves it
/// failed.
pub proof fn law_results_are_read_back(
    manager: &SessionManager,
    before: &SessionState,
    contents: SessionFileContents,
    r: SessionState,
)
    requires
        call_ensures(load_run_all_result_state, (manager, before, contents), r),
    ensures
        contents matches SessionFileContents::Parsed { state, fingerprint } ==> r == *state,
        !(contents is Parsed) ==> r.phase is Failed && r.id == before.id && r.input == before.input,
{
}

// ---------------------------------------------------------------------------
// Choosing a session
// ---------------------------------------------------------------------------

/// The only session that can be run is taken without a question; several are offered, one label for
/// each in their order; without any there is an error.
pub proof fn law_the_only_session_is_taken(
    pending: &Vec<SessionState>,
    r: Result<PendingChoice, CruiseError>,
    i: int,
)
    requires
        call_ensures(select_pending_session, (pending,), r),
    ensures
        r is Err <==> pending@.len() == 0,
        pending@.len() == 1 ==> (r matches Ok(PendingChoice::Only { id, notice }) && id@
            == pending@[0].id@),
        pending@.len() > 1 ==> (r matches Ok(PendingChoice::Menu(labels)) && labels@.len()
            == pending@.len() && (0 <= i < pending@.len() ==> crate::text::starts_with(
            labels@[i]@,
            pending@[i].id@ + " | "@,
        ))),
{
    if pending@.len() > 1 {
        let labels = r->Ok_0->Menu_0;
        assert(views(labels@).len() == labels@.len());
        if 0 <= i < pending@.len() {
            assert(views(labels@)[i] == labels@[i]@);
            let label = labels@[i]@;
            let head = pending@[i].id@ + " | "@;
            assert(label.subrange(0, head.len() as int) =~= head);
        }
    }
}

/// The session that was chosen is the one whose label was chosen, where labels differ.
pub proof fn law_the_chosen_session_is_run(
    pending: &Vec<SessionState>,
    labels: &Vec<String>,
    answer: &MenuAnswer,
    r: Result<String, CruiseError>,
    i: int,
)
    requires
        labels@.len() == pending@.len(),
        call_ensures(chosen_session, (pending, labels, answer), r),
        0 <= i < labels@.len(),
        forall|j: int| 0 <= j < i ==> (#[trigger] labels@[j])@ != labels@[i]@,
    ensures
        *answer matches MenuAnswer::Chosen(label) ==> (label@ == labels@[i]@ ==> (r matches Ok(id)
            && id@ == pending@[i].id@)),
        *answer is Cancelled || *answer is Failed ==> r is Err,
{
    if *answer is Chosen && answer->Chosen_0@ == labels@[i]@ {
        let all = views(labels@);
        crate::step::option::lemma_first_index(all, labels@[i]@);
        let k = crate::step::option::first_index(all, labels@[i]@);
        assert(all[i] == labels@[i]@);
        if k < i {
            assert(all[k] == labels@[k]@);
        }
    }
}

// ---------------------------------------------------------------------------
// Runs of all sessions
// ---------------------------------------------------------------------------

/// A run of all sessions takes the first one that is planned or suspended and was not taken yet, and
/// ends only if there is none, or if it was stopped.
pub proof fn law_all_sessions_are_taken_in_turn(
    run: &mut RunAll,
    manager: &SessionManager,
    sessions: &Vec<SessionState>,
    r: Option<SessionState>,
    i: int,
)
    requires
        old(run).wf(),
        call_ensures(RunAll::next, (run, manager, sessions), r),
    ensures
        old(run).is_stopped() ==> r is None,
        r matches Some(s) ==> {
            &&& s.phase is Planned || s.phase is Suspended
            &&& !old(run).seen_ids().contains(s.id@) && final(run).seen_ids().contains(s.id@)
            &&& sessions@.contains(s)
        },
        r is None && !old(run).is_stopped() && 0 <= i < sessions@.len() && (
        sessions@[i].phase is Planned || sessions@[i].phase is Suspended) ==> old(run).seen_ids().contains(sessions@[i].id@),
        final(run).results_spec() == old(run).results_spec(),
{
    assert forall|keep: spec_fn(SessionState) -> bool, t: SessionState| #[trigger]
        sessions@.filter(keep).contains(t) <==> sessions@.contains(t) && keep(t) by {
        super::sessions::lemma_filter_holds(sessions@, keep);
    }
    let waiting = sessions@.filter(
        |s: SessionState|
            crate::session::is_candidate(s) && !old(run).seen_ids().contains(s.id@),
    );
    if r is Some {
        assert(waiting.contains(waiting[0]));
        let n = old(run).seen_ids().len() as int;
        assert(final(run).seen_ids()[n] == r->0.id@);
    } else if !old(run).is_stopped() && 0 <= i < sessions@.len() {
        assert(sessions@.contains(sessions@[i]));
        assert(!waiting.contains(sessions@[i]));
    }
}

/// What became of a session is noted behind what was noted before. Only an interruption stops a run
/// of all sessions: a failure does not.
pub proof fn law_only_an_interruption_stops_all(
    run: &mut RunAll,
    state: SessionState,
    result: &Result<(), CruiseError>,
    done: (),
)
    requires
        call_ensures(RunAll::record, (run, state, result), done),
    ensures
        final(run).results_spec().len() == old(run).results_spec().len() + 1,
        final(run).results_spec().last() == state,
        forall|i: int|
            0 <= i < old(run).results_spec().len() ==> final(run).results_spec()[i] == old(run).results_spec()[i],
        !old(run).is_stopped() ==> (final(run).is_stopped() <==> (*result matches Err(
            CruiseError::Interrupted,
        ))),
        old(run).is_stopped() ==> final(run).is_stopped(),
{
}

/// A session that failed or was paused is spoken of; one that was completed or interrupted is not.
pub proof fn law_failures_are_spoken_of(
    id: &str,
    result: &Result<(), CruiseError>,
    r: Option<String>,
)
    requires
        call_ensures(run_all_notice, (id, result), r),
    ensures
        r is None <==> *result is Ok || (*result matches Err(CruiseError::Interrupted)),
{
}

} // verus!
