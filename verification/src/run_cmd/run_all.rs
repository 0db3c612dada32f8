//! Running all sessions that wait.

use vstd::prelude::*;

use crate::display::{truncate, truncated};
use crate::error::CruiseError;
use crate::session::{is_candidate, SessionManager, SessionPhase, SessionState};
use crate::span::{put, put_plain, span_views, Span, SpanView, Tone};
use crate::text::{decimal, decimal_of, views};

verus! {

// ---------------------------------------------------------------------------
// The loop
// ---------------------------------------------------------------------------

/// What was run so far by `run --all`.
#[derive(Debug)]
pub struct RunAll {
    /// The sessions that were begun.
    seen: Vec<String>,
    /// How they ended.
    results: Vec<SessionState>,
    /// The user asked to stop.
    stopped: bool,
}

impl RunAll {
    /// The IDs of the sessions that were begun, in that order.
    pub closed spec fn seen_ids(self) -> Seq<Seq<char>> {
        views(self.seen@)
    }

    /// How the sessions ended, in the order in which they were run.
    pub closed spec fn results_spec(self) -> Seq<SessionState> {
        self.results@
    }

    /// Whether no further session is begun.
    pub closed spec fn is_stopped(self) -> bool {
        self.stopped
    }

    /// No session was begun twice.
    pub open spec fn wf(self) -> bool {
        self.seen_ids().no_duplicates()
    }

    /// Nothing was run yet.
    pub fn new() -> (r: Self)
        ensures
            r.seen_ids() == Seq::<Seq<char>>::empty(),
            r.results_spec() == Seq::<SessionState>::empty(),
            !r.is_stopped(),
            r.wf(),
    {
        let r = RunAll { seen: Vec::new(), results: Vec::new(), stopped: false };
        assert(views(r.seen@) =~= seq![]);
        r
    }

    /// Begins the next session: the first of the given ones that waits and was not begun yet.
    pub fn next(&mut self, manager: &SessionManager, sessions: &Vec<SessionState>) -> (r: Option<
        SessionState,
    >)
        requires
            old(self).wf(),
        ensures
            final(self).wf(),
            final(self).results_spec() == old(self).results_spec(),
            final(self).is_stopped() == old(self).is_stopped(),
            ({
                let waiting = sessions@.filter(
                    |s: SessionState| is_candidate(s) && !old(self).seen_ids().contains(s.id@),
                );
                if old(self).is_stopped() || waiting.len() == 0 {
                    r is None && final(self).seen_ids() == old(self).seen_ids()
                } else {
                    r == Some(waiting[0]) && final(self).seen_ids() == old(self).seen_ids().push(
                        waiting[0].id@,
                    )
                }
            }),
    {
        if self.stopped {
            return None;
        }
        let remaining = manager.run_all_remaining(sessions, &self.seen);
        let ghost keep = |s: SessionState|
            is_candidate(s) && !old(self).seen_ids().contains(s.id@);
        assert(remaining@ == sessions@.filter(keep)) by {
            let other = |s: SessionState| is_candidate(s) && !views(self.seen@).contains(s.id@);
            assert(other =~= keep);
        }
        if remaining.len() == 0 {
            return None;
        }
        let session = remaining[0].copy();
        proof {
            sessions@.lemma_filter_pred(keep, 0);
            assert(!self.seen_ids().contains(session.id@));
        }
        self.seen.push(session.id.clone());
        assert(views(self.seen@) =~= old(self).seen_ids().push(session.id@));
        Some(session)
    }

    /// Takes note of the state that a session ended in. After an interruption no further
    /// session is begun.
    pub fn record(&mut self, state: SessionState, result: &Result<(), CruiseError>)
        ensures
            final(self).seen_ids() == old(self).seen_ids(),
            final(self).results_spec() == old(self).results_spec().push(state),
            final(self).is_stopped() == (old(self).is_stopped() || *result == Err::<
                (),
                CruiseError,
            >(CruiseError::Interrupted)),
            old(self).wf() ==> final(self).wf(),
    {
        self.results.push(state);
        match result {
            Err(CruiseError::Interrupted) => {
                self.stopped = true;
            },
            _ => {},
        }
    }

    /// How the sessions ended, in the order in which they were run.
    pub fn results(&self) -> (r: &Vec<SessionState>)
        ensures
            r@ == self.results_spec(),
    {
        &self.results
    }
}

/// What is said of the end of one session.
pub open spec fn end_notice(id: Seq<char>, result: Result<(), CruiseError>) -> Option<Seq<char>> {
    match result {
        Ok(_) => None,
        Err(CruiseError::Interrupted) => None,
        Err(CruiseError::StepPaused) => Some("session "@ + id + " paused by user"@),
        Err(e) => Some(
            "warning: session "@ + id + " encountered an error: "@ + e.detailed_spec(),
        ),
    }
}

/// What is said of the end of one session, if anything.
pub fn run_all_notice(session_id: &str, result: &Result<(), CruiseError>) -> (r: Option<String>)
    ensures
        crate::text::opt_view(r) == end_notice(session_id@, *result),
{
    match result {
        Ok(_) => None,
        Err(CruiseError::Interrupted) => None,
        Err(CruiseError::StepPaused) => Some(
            "session ".to_owned().concat(session_id).concat(" paused by user"),
        ),
        Err(e) => Some(
            "warning: session ".to_owned().concat(session_id).concat(
                " encountered an error: ",
            ).concat(e.detailed_message().as_str()),
        ),
    }
}

// ---------------------------------------------------------------------------
// The summary
// ---------------------------------------------------------------------------

/// The line of the summary for the `i`th session.
pub open spec fn summary_line(s: SessionState, i: int) -> Seq<SpanView> {
    let shown = truncated(s.input@, 60);
    let place = "["@ + decimal((i + 1) as nat) + "] "@;
    match s.phase {
        SessionPhase::Completed => seq![
            (place, Tone::Plain),
            ("✓"@, Tone::GreenBold),
            (" "@ + shown, Tone::Plain),
        ] + (match s.pr_url {
            Some(url) => seq![
                (" "@, Tone::Plain),
                ("→"@, Tone::Yellow),
                (" "@ + url@, Tone::Plain),
            ],
            None => seq![],
        }),
        SessionPhase::Failed(err) => seq![
            (place, Tone::Plain),
            ("✗"@, Tone::RedBold),
            (" "@ + shown + " — Failed: "@ + err@, Tone::Plain),
        ],
        SessionPhase::Suspended => seq![
            (place, Tone::Plain),
            ("⏸"@, Tone::YellowBold),
            (" "@ + shown + " — Suspended"@, Tone::Plain),
        ],
        _ => seq![(place + "? "@ + shown, Tone::Plain)],
    }
}

/// The lines of the summary for the first `n` sessions, each after a line feed.
pub open spec fn summary_lines(results: Seq<SessionState>, n: int) -> Seq<SpanView>
    decreases n,
{
    if n <= 0 {
        seq![]
    } else {
        summary_lines(results, n - 1).push(("\n"@, Tone::Plain)) + summary_line(
            results[n - 1],
            n - 1,
        )
    }
}

/// The summary of all sessions that were run.
pub open spec fn summary(results: Seq<SessionState>) -> Seq<SpanView> {
    if results.len() == 0 {
        seq![]
    } else {
        seq![
            (
                "=== Run All Summary ("@ + decimal(results.len()) + " sessions) ==="@,
                Tone::Plain,
            ),
        ] + summary_lines(results, results.len() as int)
    }
}

fn put_summary_line(out: &mut Vec<Span>, s: &SessionState, i: usize)
    requires
        i < usize::MAX,
    ensures
        span_views(final(out)@) == span_views(old(out)@) + summary_line(*s, i as int),
{
    let shown = truncate(s.input.as_str(), 60);
    let place = "[".to_owned().concat(decimal_of(i as u64 + 1).as_str()).concat("] ");
    match &s.phase {
        SessionPhase::Completed => {
            put(out, place, Tone::Plain);
            put(out, "✓".to_owned(), Tone::GreenBold);
            put(out, " ".to_owned().concat(shown.as_str()), Tone::Plain);
            match &s.pr_url {
                Some(url) => {
                    put_plain(out, " ");
                    put(out, "→".to_owned(), Tone::Yellow);
                    put(out, " ".to_owned().concat(url.as_str()), Tone::Plain);
                },
                None => {},
            }
        },
        SessionPhase::Failed(err) => {
            put(out, place, Tone::Plain);
            put(out, "✗".to_owned(), Tone::RedBold);
            put(
                out,
                " ".to_owned().concat(shown.as_str()).concat(" — Failed: ").concat(err.as_str()),
                Tone::Plain,
            );
        },
        SessionPhase::Suspended => {
            put(out, place, Tone::Plain);
            put(out, "⏸".to_owned(), Tone::YellowBold);
            put(
                out,
                " ".to_owned().concat(shown.as_str()).concat(" — Suspended"),
                Tone::Plain,
            );
        },
        _ => {
            put(out, place.concat("? ").concat(shown.as_str()), Tone::Plain);
        },
    }
    assert(span_views(out@) =~= span_views(old(out)@) + summary_line(*s, i as int));
}

/// The summary of all sessions that were run: a heading and one line for each. Without sessions
/// there is none.
pub fn format_run_all_summary(results: &Vec<SessionState>) -> (r: Vec<Span>)
    ensures
        span_views(r@) == summary(results@),
{
    let mut out: Vec<Span> = Vec::new();
    let n: usize = results.len();
    if n == 0 {
        assert(span_views(out@) =~= seq![]);
        return out;
    }
    put(
        &mut out,
        "=== Run All Summary (".to_owned().concat(decimal_of(n as u64).as_str()).concat(
            " sessions) ===",
        ),
        Tone::Plain,
    );
    let ghost head: Seq<SpanView> = seq![
        ("=== Run All Summary ("@ + decimal(results@.len()) + " sessions) ==="@, Tone::Plain),
    ];
    assert(span_views(out@) =~= head + summary_lines(results@, 0));
    let mut i: usize = 0;
    while i < n
        invariant
            i <= n == results@.len(),
            span_views(out@) == head + summary_lines(results@, i as int),
        decreases n - i,
    {
        let ghost before = summary_lines(results@, i as int);
        put_plain(&mut out, "\n");
        put_summary_line(&mut out, &results[i], i);
        assert(span_views(out@) =~= head + (before.push(("\n"@, Tone::Plain)) + summary_line(
            results@[i as int],
            i as int,
        )));
        i += 1;
    }
    out
}

// ---------------------------------------------------------------------------
// Laws
// ---------------------------------------------------------------------------

/// A session that was begun is not begun again: as long as the user does not stop, each call
/// begins a session that was not begun before, until there is none left.
pub proof fn law_no_session_is_run_twice(seen: Seq<Seq<char>>, sessions: Seq<SessionState>, k: int)
    requires
        seen.no_duplicates(),
        ({
            let waiting = sessions.filter(
                |s: SessionState| is_candidate(s) && !seen.contains(s.id@),
            );
            0 <= k < waiting.len()
        }),
    ensures
        ({
            let waiting = sessions.filter(
                |s: SessionState| is_candidate(s) && !seen.contains(s.id@),
            );
            is_candidate(waiting[k]) && seen.push(waiting[k].id@).no_duplicates()
        }),
{
    let keep = |s: SessionState| is_candidate(s) && !seen.contains(s.id@);
    sessions.lemma_filter_pred(keep, k);
}

} // verus!
