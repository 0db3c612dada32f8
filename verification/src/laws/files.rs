//! Files and their changes, conditions on steps, and the clean-up of sessions.

use vstd::prelude::*;

use crate::cleanup::{next_with_pr, CleanTask, Cleanup};
use crate::condition::{evaluate_if_condition, evaluate_skip};
use crate::config::{IfCondition, SkipCondition};
use crate::edges::EdgeCounts;
use crate::error::CruiseError;
use crate::file_tracker::{is_excluded, FileTracker, Snapshot};
use crate::multiline_input::{map_signal, InputResult, Signal};
use crate::path::parts;
use crate::session::{judge_pr, CleanupVerdict, GhReply, SessionState};
use crate::text::is_blank;
use crate::variable::VariableStore;

verus! {

// ---------------------------------------------------------------------------
// Files
// ---------------------------------------------------------------------------

/// After a snapshot nothing has changed until a file is added, lost or rewritten with other
/// contents. Without a snapshot nothing counts as changed, and snapshots of other names stay.
pub proof fn law_changes_are_seen_since_the_snapshot(
    tracker: &mut FileTracker,
    watched: &FileTracker,
    before: &FileTracker,
    name: &str,
    other: &str,
    taken: Snapshot,
    now: &Snapshot,
    done: (),
    changed: bool,
    other_before: bool,
    other_after: bool,
    known: bool,
)
    requires
        *before == *old(tracker),
        call_ensures(FileTracker::take_snapshot, (tracker, name, taken), done),
        *watched == *final(tracker),
        call_ensures(FileTracker::has_files_changed, (watched, name, now), changed),
        call_ensures(FileTracker::has_files_changed, (before, other, now), other_before),
        call_ensures(FileTracker::has_files_changed, (watched, other, now), other_after),
        call_ensures(FileTracker::has_snapshot, (before, other), known),
    ensures
        changed <==> taken@ != now@,
        other@ != name@ ==> other_before == other_after,
        !known ==> !other_before,
{
}

/// Two states of the files are the same exactly if they hold the same files with the same digests.
pub proof fn law_states_differ_by_their_files(a: &Snapshot, b: &Snapshot, r: bool)
    requires
        call_ensures(Snapshot::differs_from, (a, b), r),
    ensures
        !r <==> (forall|path: Seq<char>|
            #![trigger a@.dom().contains(path)]
            #![trigger b@.dom().contains(path)]
            a@.dom().contains(path) == b@.dom().contains(path) && (a@.dom().contains(path)
                ==> a@[path] == b@[path])),
{
    if forall|path: Seq<char>|
        #![trigger a@.dom().contains(path)]
        #![trigger b@.dom().contains(path)]
        a@.dom().contains(path) == b@.dom().contains(path) && (a@.dom().contains(path)
            ==> a@[path] == b@[path]) {
        assert(a@.dom() =~= b@.dom());
        assert(a@ =~= b@);
    }
}

/// A file does not count if one of the parts of its path is `.git`, `target` or `node_modules`.
pub proof fn law_other_peoples_files_do_not_count(path: &str, windows: bool, r: bool)
    requires
        call_ensures(is_excluded, (path, windows), r),
    ensures
        r <==> exists|i: int|
            0 <= i < parts(path@, windows).len() && {
                let part = #[trigger] parts(path@, windows)[i];
                part == ".git"@ || part == "target"@ || part == "node_modules"@
            },
{
    let all = parts(path@, windows);
    if r {
        let i = choose|i: int|
            0 <= i < all.len() && crate::file_tracker::excluded_name(#[trigger] all[i]);
        let part = all[i];
        assert(part == ".git"@ || part == "target"@ || part == "node_modules"@);
    }
    if exists|i: int|
        0 <= i < all.len() && {
            let part = #[trigger] all[i];
            part == ".git"@ || part == "target"@ || part == "node_modules"@
        } {
        let i = choose|i: int|
            0 <= i < all.len() && {
                let part = #[trigger] all[i];
                part == ".git"@ || part == "target"@ || part == "node_modules"@
            };
        assert(crate::file_tracker::excluded_name(all[i]));
    }
}

// ---------------------------------------------------------------------------
// Conditions
// ---------------------------------------------------------------------------

/// A condition on changed files holds if they have changed since the snapshot of the step that it
/// names; one that names none always holds.
pub proof fn law_conditions_look_at_the_step_they_name(
    condition: &IfCondition,
    tracker: &FileTracker,
    now: &Snapshot,
    name: &str,
    changed: bool,
    r: bool,
)
    requires
        call_ensures(evaluate_if_condition, (condition, tracker, now), r),
        call_ensures(FileTracker::has_files_changed, (tracker, name, now), changed),
    ensures
        condition.file_changed is None ==> r,
        condition.file_changed matches Some(n) ==> (n@ == name@ ==> r == changed),
{
}

/// A step is skipped if it is said so, or if the variable that it names holds `true`. A variable
/// that is not there is an error, and without a condition nothing is skipped.
pub proof fn law_steps_are_skipped_where_they_say_so(
    skip: &Option<SkipCondition>,
    vars: &VariableStore,
    r: Result<bool, CruiseError>,
)
    requires
        call_ensures(evaluate_skip, (skip, vars), r),
    ensures
        *skip is None ==> (r matches Ok(b) && !b),
        *skip matches Some(SkipCondition::Static(said)) ==> (r matches Ok(b) && b == said),
        *skip matches Some(SkipCondition::Variable(name)) ==> {
            &&& r is Err <==> vars@.lookup(name@) is None
            &&& r matches Ok(b) ==> (b <==> vars@.lookup(name@) == Some("true"@))
        },
{
}

/// What the user typed counts if it holds anything but white space; otherwise they are asked again.
/// An interrupted question is cancelled.
pub proof fn law_blank_input_is_asked_for_again(signal: Signal, r: Option<InputResult>)
    requires
        call_ensures(map_signal, (signal,), r),
    ensures
        r is None <==> (signal matches Signal::Success(text) && is_blank(text@)),
        signal matches Signal::Success(text) ==> (!is_blank(text@) ==> (
        r matches Some(InputResult::Submitted(t)) && t@ == text@)),
        signal is CtrlC || signal is CtrlD ==> (r matches Some(InputResult::Cancelled)),
{
}

// ---------------------------------------------------------------------------
// Counts
// ---------------------------------------------------------------------------

/// A way that was taken is counted once more; the other ways keep their counts.
pub proof fn law_taken_ways_are_counted(
    counts: &mut EdgeCounts,
    before: &EdgeCounts,
    after: &EdgeCounts,
    from: &str,
    to: &str,
    a: &str,
    b: &str,
    r: usize,
    was: usize,
    is: usize,
)
    requires
        old(counts).count_spec((from@, to@)) < usize::MAX,
        *before == *old(counts),
        call_ensures(EdgeCounts::bump, (counts, from, to), r),
        *after == *final(counts),
        call_ensures(EdgeCounts::count, (before, a, b), was),
        call_ensures(EdgeCounts::count, (after, a, b), is),
    ensures
        a@ == from@ && b@ == to@ ==> is == was + 1 && is == r,
        !(a@ == from@ && b@ == to@) ==> is == was,
{
}

/// The ways that were taken are listed with the most frequent ones first, each with its count.
pub proof fn law_frequent_ways_come_first(
    counts: &EdgeCounts,
    r: Vec<(String, String, usize)>,
    i: int,
    j: int,
    from: &str,
    to: &str,
    n: usize,
)
    requires
        call_ensures(EdgeCounts::by_count, (counts,), r),
        0 <= i < r@.len(),
        from@ == r@[i].0@ && to@ == r@[i].1@,
        call_ensures(EdgeCounts::count, (counts, from, to), n),
    ensures
        n == r@[i].2,
        i < j < r@.len() ==> r@[i].2 >= r@[j].2 && (r@[i].0@ != r@[j].0@ || r@[i].1@ != r@[j].1@),
{
    let e = crate::edges::edge_entry(r@[i]);
    assert(counts@.dom().contains(e.0));
    if i < j < r@.len() {
        assert(crate::edges::edge_entry(r@[i]).0 != crate::edges::edge_entry(r@[j]).0);
    }
}

// ---------------------------------------------------------------------------
// Clean-up
// ---------------------------------------------------------------------------

proof fn lemma_next_with_pr(sessions: Seq<SessionState>, from: int)
    requires
        0 <= from <= sessions.len(),
    ensures
        from <= next_with_pr(sessions, from) <= sessions.len(),
        forall|k: int|
            from <= k < next_with_pr(sessions, from) ==> !((#[trigger] sessions[k]).phase is Completed
                && sessions[k].pr_url is Some),
        next_with_pr(sessions, from) < sessions.len() ==> {
            let s = sessions[next_with_pr(sessions, from)];
            s.phase is Completed && s.pr_url is Some
        },
    decreases sessions.len() - from,
{
    if from < sessions.len() && crate::session::deciding_pr(sessions[from]) is None {
        lemma_next_with_pr(sessions, from + 1);
    }
}

/// A clean-up asks first about the first completed session with a pull request, and is over at once
/// if there is none.
pub proof fn law_cleaning_begins_with_the_first_request(
    sessions: Vec<SessionState>,
    begun: Cleanup,
    task: CleanTask,
    i: int,
)
    requires
        call_ensures(Cleanup::start, (sessions,), begun),
        call_ensures(Cleanup::task, (&begun,), task),
        0 <= i < sessions@.len(),
        sessions@[i].phase is Completed && sessions@[i].pr_url is Some,
        forall|k: int|
            0 <= k < i ==> !((#[trigger] sessions@[k]).phase is Completed
                && sessions@[k].pr_url is Some),
    ensures
        task matches CleanTask::Ask(session, url) && session == sessions@[i] && Some(url)
            == session.pr_url,
{
    lemma_next_with_pr(sessions@, 0);
}

/// A session is deleted exactly if its request is closed or merged; otherwise the next completed
/// session with a request is looked at, and none in between. Nothing that is kept is counted as
/// deleted.
pub proof fn law_sessions_are_deleted_after_their_request(
    cleanup: &mut Cleanup,
    before: &Cleanup,
    after: &Cleanup,
    session: SessionState,
    url: String,
    id: &str,
    reply: &GhReply,
    verdict: CleanupVerdict,
    warned: Option<String>,
    next: CleanTask,
)
    requires
        *before == *old(cleanup),
        call_ensures(Cleanup::task, (before,), CleanTask::Ask(session, url)),
        call_ensures(Cleanup::replied, (cleanup, reply), warned),
        *after == *final(cleanup),
        call_ensures(Cleanup::task, (after,), next),
        call_ensures(judge_pr, (id, reply), verdict),
    ensures
        verdict is Delete <==> next == CleanTask::Delete(session) && after@.deleting,
        verdict is Keep ==> after@.skipped == before@.skipped + 1,
        after@.deleted == before@.deleted,
        verdict matches CleanupVerdict::Keep(w) ==> (w is Some <==> warned is Some),
        verdict is Keep ==> forall|k: int|
            before@.at < k < after@.at ==> !((#[trigger] before@.sessions[k]).phase is Completed
                && before@.sessions[k].pr_url is Some),
{
    lemma_next_with_pr(before@.sessions, before@.at + 1);
}

/// A session that was deleted is counted as such, and the next completed session with a request is
/// looked at; without any further one the clean-up is over.
pub proof fn law_deleted_sessions_are_counted(
    cleanup: &mut Cleanup,
    before: &Cleanup,
    after: &Cleanup,
    session: SessionState,
    done: (),
    next: CleanTask,
    i: int,
)
    requires
        *before == *old(cleanup),
        call_ensures(Cleanup::task, (before,), CleanTask::Delete(session)),
        call_ensures(Cleanup::deleted, (cleanup,), done),
        *after == *final(cleanup),
        call_ensures(Cleanup::task, (after,), next),
        before@.at < i < before@.sessions.len(),
        forall|k: int|
            before@.at < k < i ==> !((#[trigger] before@.sessions[k]).phase is Completed
                && before@.sessions[k].pr_url is Some),
    ensures
        after@.deleted == before@.deleted + 1 && after@.skipped == before@.skipped,
        before@.sessions[i].phase is Completed && before@.sessions[i].pr_url is Some ==> (
        next matches CleanTask::Ask(s, url) && s == before@.sessions[i]),
        i == before@.sessions.len() - 1 && !(before@.sessions[i].phase is Completed
            && before@.sessions[i].pr_url is Some) ==> next is Done,
{
    lemma_next_with_pr(before@.sessions, before@.at + 1);
}

} // verus!
