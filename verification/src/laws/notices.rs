//! What the user is told.

use vstd::prelude::*;

use crate::clean_cmd::cleanup_notice;
use crate::engine::ExecutionResult;
use crate::error::CruiseError;
use crate::gui::session_run::end_line;
use crate::list_cmd::{format_session_label, format_suffix, session_to_json, ListSessionJson};
use crate::resolver::ConfigSource;
use crate::run_cmd::run_all::{format_run_all_summary, summary_line, summary_lines};
use crate::run_cmd::session_run::{
    describe_pr, outcome_line, resume_message, session_state_conflict_message, PrDescription,
};
use crate::session::{CleanupReport, SessionFileContents, SessionPhase, SessionState};
use crate::span::{span_views, Span};
use crate::text::{contains, decimal, is_blank, matches_at};

verus! {

proof fn lemma_holds(a: Seq<char>, pat: Seq<char>, b: Seq<char>)
    ensures
        contains(a + pat + b, pat),
{
    let s = a + pat + b;
    let i = a.len() as int;
    assert(s.subrange(i, i + pat.len()) =~= pat);
    assert(matches_at(s, pat, i));
}

/// An error says what it is about: the file, the step, the variable or the way that it came from.
pub proof fn law_errors_say_what_they_are_about(e: &CruiseError, r: String)
    requires
        call_ensures(CruiseError::message, (e,), r),
    ensures
        *e matches CruiseError::Other(text) ==> r@ == text@,
        *e matches CruiseError::ConfigNotFound(path) ==> r@ == "config file not found: "@ + path@,
        *e matches CruiseError::StepNotFound(step) ==> r@ == "step not found: "@ + step@,
        *e matches CruiseError::InvalidStepConfig(why) ==> r@ == "invalid step config: "@ + why@,
        *e matches CruiseError::UndefinedVariable(name) ==> r@ == "undefined variable: {"@ + name@
            + "}"@,
        *e matches CruiseError::CommandError(why) ==> r@ == "command error: "@ + why@,
        *e matches CruiseError::StepMadeNoFileChanges(step) ==> r@ == "step '"@ + step@
            + "' made no tracked file changes (fail-if-no-file-changes)"@,
        *e matches CruiseError::LoopProtection { from, to, max_retries, edge_counts } ==> r@
            == "loop protection: edge "@ + from@ + " -> "@ + to@ + " exceeded max retries "@
            + decimal(max_retries as nat),
{
}

/// In detail an error says no less; a loop that was stopped also says how often each way was taken.
pub proof fn law_details_come_behind_the_message(e: &CruiseError, r: String, d: String)
    requires
        call_ensures(CruiseError::message, (e,), r),
        call_ensures(CruiseError::detailed_message, (e,), d),
    ensures
        d@.len() >= r@.len() && d@.take(r@.len() as int) == r@,
        !(*e is LoopProtection) ==> d@ == r@,
{
    assert(d@.take(r@.len() as int) =~= r@);
}

/// The end of a run is told with what was counted, or with the error; an interrupted one is told as
/// cancelled.
pub proof fn law_ends_are_told(result: &Result<ExecutionResult, CruiseError>, r: String)
    requires
        call_ensures(outcome_line, (result,), r),
    ensures
        *result matches Ok(exec) ==> r@ == "✓ completed — run: "@ + decimal(exec.run as nat)
            + ", skipped: "@ + decimal(exec.skipped as nat) + ", failed: "@ + decimal(
            exec.failed as nat,
        ),
        *result matches Err(e) ==> (e is Interrupted ==> r@ == "⏸ cancelled"@) && (!(
        e is Interrupted) ==> r@ == "✗ failed: "@ + e.detailed_spec()),
{
}

/// The front end logs the same, and a run that the user cancelled as cancelled.
pub proof fn law_ends_are_logged(
    result: &Result<ExecutionResult, CruiseError>,
    cancelled: bool,
    r: String,
)
    requires
        call_ensures(end_line, (result, cancelled), r),
    ensures
        *result is Ok && cancelled ==> r@ == "⏸ cancelled"@,
        *result matches Err(e) ==> (e is Interrupted ==> r@ == "⏸ cancelled"@) && (!(
        e is Interrupted) ==> r@ == "✗ failed: "@ + e.message_spec()),
        *result matches Ok(exec) ==> (!cancelled ==> r@ == "✓ completed — run: "@ + decimal(
            exec.run as nat,
        ) + ", skipped: "@ + decimal(exec.skipped as nat) + ", failed: "@ + decimal(
            exec.failed as nat,
        )),
{
}

/// A session that goes on at a step is said to do so; one that begins is not.
pub proof fn law_resumed_sessions_are_spoken_of(session: &SessionState, r: Option<Vec<Span>>)
    requires
        call_ensures(resume_message, (session,), r),
    ensures
        r is Some <==> session.current_step is Some && (session.phase is Running
            || session.phase is Suspended || session.phase is Failed),
        session.current_step matches Some(step) ==> (r matches Some(said) ==> said@.len() == 2
            && contains(span_views(said@)[1].0, step@)),
{
    if r is Some {
        let step = session.current_step->0@;
        let said = span_views(r->0@);
        assert(said.len() == r->0@.len());
        lemma_holds(" Resuming from step: "@, step, Seq::<char>::empty());
        lemma_holds(" Retrying from failed step: "@, step, Seq::<char>::empty());
        assert(" Resuming from step: "@ + step + Seq::<char>::empty() =~= " Resuming from step: "@
            + step);
        assert(" Retrying from failed step: "@ + step + Seq::<char>::empty()
            =~= " Retrying from failed step: "@ + step);
    }
}

/// A label in the list ends with the step at which a session stands, or with the number of its pull
/// request.
pub proof fn law_labels_show_where_sessions_stand(session: &SessionState, r: String)
    requires
        call_ensures(format_suffix, (session,), r),
    ensures
        session.phase is Running || session.phase is Suspended ==> {
            &&& session.current_step matches Some(step) ==> r@ == " ["@ + step@ + "]"@
            &&& session.current_step is None ==> r@.len() == 0
        },
        session.phase is Completed && session.pr_url is None ==> r@.len() == 0,
        session.phase is Planned || session.phase is AwaitingApproval || session.phase is Failed
            ==> r@.len() == 0,
        session.phase is Completed && session.pr_url is Some ==> crate::text::starts_with(
            r@,
            " PR#"@,
        ),
{
    if session.phase is Completed && session.pr_url is Some {
        assert(r@.subrange(0, " PR#"@.len() as int) =~= " PR#"@);
    }
}

/// A session in the list shows its phase in words.
pub proof fn law_labels_show_the_phase(session: &SessionState, r: Vec<Span>, word: &'static str)
    requires
        call_ensures(SessionPhase::label, (&session.phase,), word),
        call_ensures(format_session_label, (session,), r),
    ensures
        r@.len() == 4 && span_views(r@)[2].0 == word@,
        session.phase is Planned ==> word@ == "Planned"@,
        session.phase is Running ==> word@ == "Running"@,
        session.phase is Completed ==> word@ == "Completed"@,
        session.phase is Suspended ==> word@ == "Suspended"@,
        session.phase is Failed ==> word@ == "Failed"@,
        session.phase is AwaitingApproval ==> word@ == "Awaiting Approval"@,
{
    assert(span_views(r@).len() == r@.len());
}

/// What is written of a session for other programs is the session.
pub proof fn law_sessions_are_written_as_they_are(session: SessionState, r: ListSessionJson)
    requires
        call_ensures(session_to_json, (session,), r),
    ensures
        r.id == session.id && r.input == session.input && r.title == session.title
            && r.current_step == session.current_step && r.pr_url == session.pr_url
            && r.worktree_path == session.worktree_path && r.worktree_branch
            == session.worktree_branch && r.completed_at == session.completed_at,
        r.phase_error is Some <==> session.phase is Failed,
        session.phase matches SessionPhase::Failed(m) ==> r.phase_error == Some(m),
        session.phase is Planned ==> r.phase@ == "Planned"@,
        session.phase is Completed ==> r.phase@ == "Completed"@,
        session.phase is AwaitingApproval ==> r.phase@ == "AwaitingApproval"@,
{
}

/// A state that others changed is spoken of by what became of it.
pub proof fn law_conflicts_are_spoken_of(path: &str, contents: &SessionFileContents, r: String)
    requires
        call_ensures(session_state_conflict_message, (path, contents), r),
    ensures
        *contents is Missing ==> r@ == path@ + " was deleted while the session was running"@,
        *contents is Parsed ==> r@ == path@ + " changed externally while the session was running"@,
        *contents matches SessionFileContents::Invalid { fingerprint, error } ==> r@ == path@
            + " changed externally and now contains invalid JSON: "@ + error@,
{
}

/// An answer without a title that holds something is shown to the user, and any other one is not.
pub proof fn law_answers_without_a_title_are_shown(output: &str, r: PrDescription)
    requires
        call_ensures(describe_pr, (output,), r),
    ensures
        r.notice is Some <==> r.title@.len() == 0 && !is_blank(output@),
        r.title@.len() == 0 ==> r.body@.len() == 0,
{
}

/// After a clean-up it is said how many sessions were removed, and how many were kept, if any were.
pub proof fn law_clean_ups_are_told(report: &CleanupReport, r: (Vec<Span>, Option<String>))
    requires
        call_ensures(cleanup_notice, (report,), r),
    ensures
        report.deleted > 0 ==> r.0@.len() == 2 && contains(
            span_views(r.0@)[1].0,
            decimal(report.deleted as nat),
        ),
        report.deleted == 0 ==> r.0@.len() == 1,
        r.1 is Some <==> report.skipped > 0,
        r.1 matches Some(text) ==> contains(text@, decimal(report.skipped as nat)),
{
    assert(span_views(r.0@).len() == r.0@.len());
    lemma_holds(
        " Removed "@,
        decimal(report.deleted as nat),
        " session(s) with closed/merged PRs."@,
    );
    lemma_holds(
        "  "@,
        decimal(report.skipped as nat),
        " session(s) skipped (PR still open or check failed)."@,
    );
}

/// The source of a workflow is shown by its path, or as built in.
pub proof fn law_sources_are_shown_by_their_path(source: &ConfigSource, r: String)
    requires
        call_ensures(ConfigSource::display_string, (source,), r),
    ensures
        *source is Builtin ==> r@ == "config: (builtin default)"@,
        *source matches ConfigSource::Explicit(p) ==> r@ == "config: "@ + p@,
        *source matches ConfigSource::EnvVar(p) ==> r@ == "config: "@ + p@,
        *source matches ConfigSource::Local(p) ==> r@ == "config: "@ + p@,
        *source matches ConfigSource::UserDir(p) ==> r@ == "config: "@ + p@,
{
}

proof fn lemma_summary_line(results: Seq<SessionState>, n: int, k: int)
    requires
        0 <= k < n <= results.len(),
    ensures
        exists|p: int|
            0 <= p && p + summary_line(results[k], k).len() <= summary_lines(results, n).len()
                && #[trigger] summary_lines(results, n).subrange(
                p,
                p + summary_line(results[k], k).len(),
            ) == summary_line(results[k], k),
    decreases n,
{
    let before = summary_lines(results, n - 1);
    let broken = before.push(("\n"@, crate::span::Tone::Plain));
    let line = summary_line(results[n - 1], n - 1);
    let all = summary_lines(results, n);
    assert(all == broken + line);
    if k == n - 1 {
        let p = broken.len() as int;
        assert(all.subrange(p, p + line.len()) =~= line);
    } else {
        lemma_summary_line(results, n - 1, k);
        let m = summary_line(results[k], k).len();
        let p = choose|p: int|
            0 <= p && p + m <= before.len() && #[trigger] before.subrange(p, p + m) == summary_line(
                results[k],
                k,
            );
        assert(all.subrange(p, p + m) =~= before.subrange(p, p + m));
    }
}

/// The summary of a run of all sessions has a line for each of them, counted from one.
pub proof fn law_every_session_is_in_the_summary(
    results: &Vec<SessionState>,
    r: Vec<Span>,
    k: int,
)
    requires
        call_ensures(format_run_all_summary, (results,), r),
        0 <= k < results@.len(),
    ensures
        exists|p: int|
            0 <= p && p + summary_line(results@[k], k).len() <= r@.len()
                && #[trigger] span_views(r@).subrange(p, p + summary_line(results@[k], k).len())
                == summary_line(results@[k], k),
        contains(span_views(r@)[0].0, decimal(results@.len())),
        crate::text::starts_with(
            summary_line(results@[k], k)[0].0,
            "["@ + decimal((k + 1) as nat) + "] "@,
        ),
        results@[k].phase is Completed ==> summary_line(results@[k], k)[1].0 == "✓"@,
        results@[k].phase is Failed ==> summary_line(results@[k], k)[1].0 == "✗"@,
        results@[k].phase is Suspended ==> summary_line(results@[k], k)[1].0 == "⏸"@,
{
    let n = results@.len() as int;
    lemma_summary_line(results@, n, k);
    let body = summary_lines(results@, n);
    let all = span_views(r@);
    assert(all.len() == r@.len());
    let m = summary_line(results@[k], k).len();
    let p = choose|p: int|
        0 <= p && p + m <= body.len() && #[trigger] body.subrange(p, p + m) == summary_line(
            results@[k],
            k,
        );
    assert(all.subrange(p + 1, p + 1 + m) =~= body.subrange(p, p + m));
    lemma_holds("=== Run All Summary ("@, decimal(results@.len()), " sessions) ==="@);
    let head = "["@ + decimal((k + 1) as nat) + "] "@;
    let first = summary_line(results@[k], k)[0].0;
    assert(first.subrange(0, head.len() as int) =~= head);
}

} // verus!
