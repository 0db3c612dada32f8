//! Sessions: how they begin, are found again, chosen and removed.

use vstd::prelude::*;

use crate::error::CruiseError;
use crate::path::join_path;
use crate::session::{
    judge_pr, pr_is_closed, pr_to_check, uppercase, CleanupReport, CleanupVerdict, GhReply,
    SessionFileContents, SessionManager, SessionPhase, SessionState, SessionStateFingerprint,
    StateRead, WorkspaceMode, WorktreeContext,
};
use crate::text::{is_blank, text_lt, trim, utf8_lossy, views};

verus! {

// ---------------------------------------------------------------------------
// One session
// ---------------------------------------------------------------------------

/// A new session waits for approval, has not begun, and holds what it was made with. Approved, it
/// can be run; before that it cannot.
pub proof fn law_sessions_are_run_once_approved(
    id: String,
    base_dir: String,
    config_source: String,
    input: String,
    made: SessionState,
    at_first: bool,
)
    requires
        call_ensures(SessionState::new, (id, base_dir, config_source, input), made),
        call_ensures(SessionPhase::is_runnable, (&made.phase,), at_first),
    ensures
        made.id@ == id@ && made.base_dir@ == base_dir@ && made.config_source@ == config_source@
            && made.input@ == input@,
        made.phase is AwaitingApproval && !at_first,
        made.current_step is None && made.pr_url is None && made.title is None,
        made.workspace_mode == WorkspaceMode::Worktree,
{
}

/// Approval makes a session planned, which can be run, and changes nothing else of it.
pub proof fn law_approved_sessions_can_be_run(
    session: &mut SessionState,
    watched: &SessionState,
    done: (),
    r: bool,
)
    requires
        old(session).phase is AwaitingApproval,
        call_ensures(SessionState::approve, (session,), done),
        *watched == *final(session),
        call_ensures(SessionPhase::is_runnable, (&watched.phase,), r),
    ensures
        r,
        final(session).phase is Planned,
        *final(session) == (SessionState { phase: final(session).phase, ..*old(session) }),
{
}

/// A session can be run exactly if it was approved and has not been completed.
pub proof fn law_phases_that_can_be_run(phase: &SessionPhase, r: bool)
    requires
        call_ensures(SessionPhase::is_runnable, (phase,), r),
    ensures
        !r <==> *phase is AwaitingApproval || *phase is Completed,
{
}

/// A session that was reset begins again at its first step, keeps where it works and what it was
/// made with, and has lost its pull request.
pub proof fn law_reset_sessions_begin_again(session: &mut SessionState, done: ())
    requires
        call_ensures(SessionState::reset_to_planned, (session,), done),
    ensures
        final(session).phase is Planned,
        final(session).current_step is None && final(session).completed_at is None
            && final(session).pr_url is None,
        *final(session) == (SessionState {
            phase: final(session).phase,
            current_step: None,
            completed_at: None,
            pr_url: None,
            ..*old(session)
        }),
{
}

/// A session is shown by its title, without the white space around it, and by its input where it
/// has no title or a blank one.
pub proof fn law_sessions_are_shown_by_their_title(session: &SessionState, r: String)
    requires
        call_ensures(SessionState::title_or_input, (session,), r),
    ensures
        session.title is None ==> r@ == session.input@,
        session.title matches Some(t) ==> (is_blank(t@) ==> r@ == session.input@) && (!is_blank(t@)
            ==> r@ == trim(t@)),
{
}

/// A session has a worktree exactly if it knows its path and its branch and the path is there.
pub proof fn law_worktrees_are_known_while_they_exist(
    session: &SessionState,
    exists_on_disk: bool,
    r: Option<WorktreeContext>,
)
    requires
        call_ensures(SessionState::worktree_context, (session, exists_on_disk), r),
    ensures
        r is Some <==> exists_on_disk && session.worktree_path is Some
            && session.worktree_branch is Some,
        r matches Some(ctx) ==> session.worktree_path == Some(ctx.path) && session.worktree_branch
            == Some(ctx.branch) && ctx.original_dir == session.base_dir,
{
}

/// The files of a session stand in a directory of its own, under the one for all sessions.
pub proof fn law_sessions_have_files_of_their_own(
    manager: &SessionManager,
    id: &str,
    all: String,
    dir: String,
    state: String,
    log: String,
)
    requires
        call_ensures(SessionManager::sessions_dir, (manager,), all),
        call_ensures(SessionManager::session_dir, (manager, id), dir),
        call_ensures(SessionManager::state_path, (manager, id), state),
        call_ensures(SessionManager::run_log_path, (manager, id), log),
    ensures
        dir@ == join_path(all@, id@, manager.windows_spec()),
        state@ == join_path(dir@, "state.json"@, manager.windows_spec()),
        log@ == join_path(dir@, "run.log"@, manager.windows_spec()),
{
}

/// The workflow of a session is read from the path that it knows, or else from a file of its own.
pub proof fn law_sessions_know_their_workflow(
    manager: &SessionManager,
    session: &SessionState,
    r: String,
    dir: String,
    id: &str,
)
    requires
        id@ == session.id@,
        call_ensures(SessionManager::session_dir, (manager, id), dir),
        call_ensures(SessionManager::config_file_path, (manager, session), r),
    ensures
        session.config_path matches Some(path) ==> r@ == path@,
        session.config_path is None ==> r@ == join_path(
            dir@,
            "config.yaml"@,
            manager.windows_spec(),
        ),
{
}

/// What is saved is the session, with nothing changed but the time of saving.
pub proof fn law_saving_keeps_the_session(
    manager: &SessionManager,
    session: &SessionState,
    r: SessionState,
)
    requires
        call_ensures(SessionManager::save, (manager, session), r),
    ensures
        r.updated_at is Some,
        r == (SessionState { updated_at: r.updated_at, ..*session }),
{
}

// ---------------------------------------------------------------------------
// Files of sessions
// ---------------------------------------------------------------------------

/// A session is loaded exactly if its file was read and holds one; two files with the same bytes
/// have the same fingerprint, and looking at a file gives the fingerprint that loading it gives.
pub proof fn law_loaded_sessions_are_what_was_read(
    manager: &SessionManager,
    id: &str,
    read: StateRead,
    plain: Result<SessionState, CruiseError>,
    marked: Result<(SessionState, SessionStateFingerprint), CruiseError>,
    looked: Result<SessionFileContents, CruiseError>,
    bytes: &[u8],
    mark: SessionStateFingerprint,
)
    requires
        call_ensures(SessionManager::load, (manager, id, read), plain),
        call_ensures(SessionManager::load_with_fingerprint, (manager, id, read), marked),
        call_ensures(SessionManager::inspect_state_file, (manager, id, read), looked),
        call_ensures(SessionStateFingerprint::from_bytes, (bytes,), mark),
    ensures
        plain is Ok <==> (read matches StateRead::Read { bytes: b, parsed } && parsed is Ok),
        marked is Ok <==> plain is Ok,
        plain matches Ok(s) ==> (marked matches Ok(loaded) && loaded.0 == s) && (
        looked matches Ok(SessionFileContents::Parsed { state, fingerprint }) && *state == s
            && fingerprint.digest() == marked->Ok_0.1.digest()),
        read matches StateRead::Read { bytes: b, parsed } ==> {
            &&& parsed matches Ok(s) ==> plain == Ok::<SessionState, CruiseError>(s)
            &&& b@ == bytes@ ==> (marked matches Ok(loaded) ==> loaded.1.digest() == mark.digest())
            &&& parsed is Err ==> (looked matches Ok(SessionFileContents::Invalid {
                fingerprint,
                error,
            }) && error == parsed->Err_0)
        },
        read is NotFound ==> (looked matches Ok(SessionFileContents::Missing)),
        read is Failed ==> looked is Err,
{
}

// ---------------------------------------------------------------------------
// Many sessions
// ---------------------------------------------------------------------------

/// The list of sessions holds each of them, none other, and goes by their identifiers.
pub proof fn law_the_list_holds_every_session_in_order(
    manager: &SessionManager,
    loaded: &Vec<SessionState>,
    r: Vec<SessionState>,
    i: int,
    j: int,
)
    requires
        call_ensures(SessionManager::list, (manager, loaded), r),
        loaded@.len() <= usize::MAX,
    ensures
        r@.len() == loaded@.len(),
        0 <= i < loaded@.len() ==> r@.contains(loaded@[i]) && loaded@.contains(r@[i]),
        0 <= i < j < r@.len() ==> text_lt(r@[i].id@, r@[j].id@) || r@[i].id@ == r@[j].id@,
{
    crate::session::law_list_is_sorted(loaded@, i, j);
}

/// What is kept of items is each of them that is to be kept, and nothing else.
pub proof fn lemma_filter_holds<T>(items: Seq<T>, keep: spec_fn(T) -> bool)
    ensures
        forall|s: T|
            #![trigger items.filter(keep).contains(s)]
            #![trigger items.contains(s)]
            items.filter(keep).contains(s) <==> items.contains(s) && keep(s),
        items.filter(keep).len() <= items.len(),
    decreases items.len(),
{
    reveal(Seq::filter);
    if items.len() > 0 {
        let front = items.drop_last();
        lemma_filter_holds(front, keep);
        assert forall|s: T|
            items.filter(keep).contains(s) <==> items.contains(s) && keep(s) by {
            let kept = front.filter(keep);
            assert(items =~= front.push(items.last()));
            assert(items.contains(s) <==> front.contains(s) || s == items.last()) by {
                if items.contains(s) {
                    let k = choose|k: int| 0 <= k < items.len() && items[k] == s;
                    if k < front.len() {
                        assert(front[k] == s);
                    }
                } else if front.contains(s) {
                    let k = choose|k: int| 0 <= k < front.len() && front[k] == s;
                    assert(items[k] == s);
                } else if s == items.last() {
                    assert(items[items.len() - 1] == s);
                }
            }
            if keep(items.last()) {
                let all = kept.push(items.last());
                assert(all.contains(s) <==> kept.contains(s) || s == items.last()) by {
                    if all.contains(s) {
                        let k = choose|k: int| 0 <= k < all.len() && all[k] == s;
                        if k < kept.len() {
                            assert(kept[k] == s);
                        }
                    } else if kept.contains(s) {
                        let k = choose|k: int| 0 <= k < kept.len() && kept[k] == s;
                        assert(all[k] == s);
                    } else if s == items.last() {
                        assert(all[all.len() - 1] == s);
                    }
                }
            }
        }
    }
}

/// A session is pending if it can be run: it is planned, running, failed or suspended. It is planned
/// if it was approved and not begun. A run of all sessions takes those that are planned or suspended,
/// and no failed one.
pub proof fn law_sessions_are_chosen_by_their_phase(
    manager: &SessionManager,
    sessions: &Vec<SessionState>,
    pending: Vec<SessionState>,
    planned: Vec<SessionState>,
    all: Vec<SessionState>,
    s: SessionState,
)
    requires
        call_ensures(SessionManager::pending, (manager, sessions), pending),
        call_ensures(SessionManager::planned, (manager, sessions), planned),
        call_ensures(SessionManager::run_all_candidates, (manager, sessions), all),
        sessions@.contains(s),
    ensures
        pending@.contains(s) <==> s.phase is Planned || s.phase is Running || s.phase is Failed
            || s.phase is Suspended,
        planned@.contains(s) <==> s.phase is Planned,
        all@.contains(s) <==> s.phase is Planned || s.phase is Suspended,
{
    lemma_filter_holds(sessions@, |s: SessionState| s.phase.runnable());
    lemma_filter_holds(sessions@, |s: SessionState| s.phase is Planned);
    lemma_filter_holds(sessions@, |s: SessionState| crate::session::is_candidate(s));
}

/// A run of all sessions goes on with those that it has not seen, and never takes one twice.
pub proof fn law_no_session_is_taken_twice(
    manager: &SessionManager,
    sessions: &Vec<SessionState>,
    seen: &Vec<String>,
    all: Vec<SessionState>,
    left: Vec<SessionState>,
    s: SessionState,
)
    requires
        call_ensures(SessionManager::run_all_candidates, (manager, sessions), all),
        call_ensures(SessionManager::run_all_remaining, (manager, sessions, seen), left),
    ensures
        left@.contains(s) <==> all@.contains(s) && !(exists|i: int|
            0 <= i < seen@.len() && #[trigger] seen@[i]@ == s.id@),
{
    assert forall|keep: spec_fn(SessionState) -> bool, t: SessionState| #[trigger]
        sessions@.filter(keep).contains(t) <==> sessions@.contains(t) && keep(t) by {
        lemma_filter_holds(sessions@, keep);
    }
    if views(seen@).contains(s.id@) {
        let k = choose|k: int| 0 <= k < views(seen@).len() && views(seen@)[k] == s.id@;
        assert(seen@[k]@ == s.id@);
    }
    if exists|i: int| 0 <= i < seen@.len() && #[trigger] seen@[i]@ == s.id@ {
        let i = choose|i: int| 0 <= i < seen@.len() && #[trigger] seen@[i]@ == s.id@;
        assert(views(seen@)[i] == s.id@);
    }
}

// ---------------------------------------------------------------------------
// Removal
// ---------------------------------------------------------------------------

/// A session may be removed only if it was completed with a pull request, and then is removed
/// exactly if that request was closed or merged. Where this cannot be found out it is kept, and that
/// is said.
pub proof fn law_sessions_are_removed_once_their_work_is_done(
    session: &SessionState,
    asked: Option<String>,
    id: &str,
    reply: &GhReply,
    r: CleanupVerdict,
)
    requires
        call_ensures(pr_to_check, (session,), asked),
        call_ensures(judge_pr, (id, reply), r),
    ensures
        asked is Some <==> session.phase is Completed && session.pr_url is Some,
        asked is Some ==> asked == session.pr_url,
        r is Delete <==> (*reply matches GhReply::Output { success, stdout, stderr } && success && ({
            let state = uppercase(trim(utf8_lossy(stdout@)));
            state == "CLOSED"@ || state == "MERGED"@
        })),
        *reply is NotRun ==> (r matches CleanupVerdict::Keep(w) && w is Some),
        *reply matches GhReply::Output { success, stdout, stderr } ==> (!success ==> (
        r matches CleanupVerdict::Keep(w) && w is Some)),
        *reply matches GhReply::Output { success, stdout, stderr } ==> (success && !(r is Delete)
            ==> (r matches CleanupVerdict::Keep(w) && w is None)),
{
}

/// A pull request is closed if it is called closed or merged.
pub proof fn law_closed_and_merged_requests_are_done(state: &str, r: bool)
    requires
        call_ensures(pr_is_closed, (state,), r),
    ensures
        r <==> state@ == "CLOSED"@ || state@ == "MERGED"@,
{
}

/// Each session that was looked at is counted once, as removed or as kept.
pub proof fn law_removed_sessions_are_counted(
    report: &mut CleanupReport,
    verdict: &CleanupVerdict,
    done: (),
)
    requires
        old(report).deleted < usize::MAX && old(report).skipped < usize::MAX,
        call_ensures(CleanupReport::count, (report, verdict), done),
    ensures
        final(report).deleted + final(report).skipped == old(report).deleted + old(report).skipped
            + 1,
        final(report).deleted > old(report).deleted <==> *verdict is Delete,
        final(report).skipped > old(report).skipped <==> *verdict is Keep,
{
}

} // verus!
