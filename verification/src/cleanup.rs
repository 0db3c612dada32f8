//! The clean-up of sessions whose pull requests are closed or merged.
//!
//! [`Cleanup::task`] says what is done next. Its outcome goes to [`Cleanup::replied`] or
//! [`Cleanup::deleted`].

use vstd::prelude::*;

use crate::session::{
    deciding_pr, is_closed_state, judge_pr, pr_to_check, uppercase, CleanupReport, CleanupVerdict,
    GhReply, SessionState,
};
use crate::text::{opt_view, trim, utf8_lossy};

verus! {

// ---------------------------------------------------------------------------
// Model
// ---------------------------------------------------------------------------

/// The first session from `from` on with a pull request that decides on it, or the end.
pub open spec fn next_with_pr(sessions: Seq<SessionState>, from: int) -> int
    decreases sessions.len() - from,
{
    if from >= sessions.len() {
        sessions.len() as int
    } else if deciding_pr(sessions[from]) is Some {
        from
    } else {
        next_with_pr(sessions, from + 1)
    }
}

/// How many of the first `n` sessions have a pull request that decides on them.
pub open spec fn with_pr(sessions: Seq<SessionState>, n: int) -> int
    decreases n,
{
    if n <= 0 {
        0
    } else if deciding_pr(sessions[n - 1]) is Some {
        with_pr(sessions, n - 1) + 1
    } else {
        with_pr(sessions, n - 1)
    }
}

/// The reply says that the pull request is closed or merged.
pub open spec fn closes(reply: GhReply) -> bool {
    reply matches GhReply::Output { success: true, stdout, .. } && is_closed_state(
        uppercase(trim(utf8_lossy(stdout@))),
    )
}

/// The warning about a reply that does not say how a pull request stands.
pub open spec fn warning(session_id: Seq<char>, reply: GhReply) -> Option<Seq<char>> {
    match reply {
        GhReply::NotRun(e) => Some(
            "warning: failed to run gh for "@ + session_id + ": "@ + e@,
        ),
        GhReply::Output { success: false, stderr, .. } => Some(
            "warning: gh pr view failed for "@ + session_id + ": "@ + trim(utf8_lossy(stderr@)),
        ),
        GhReply::Output { .. } => None,
    }
}

/// Where a clean-up stands.
pub struct Cleaning {
    pub sessions: Seq<SessionState>,
    /// The session in question; the number of all sessions at the end.
    pub at: int,
    /// The session in question is deleted.
    pub deleting: bool,
    /// How many sessions were deleted.
    pub deleted: int,
    /// How many sessions were left though their pull requests were asked for.
    pub skipped: int,
}

impl Cleaning {
    /// Each session before the one in question that has a pull request was counted once.
    pub open spec fn sound(self) -> bool {
        &&& 0 <= self.at <= self.sessions.len()
        &&& 0 <= self.deleted && 0 <= self.skipped
        &&& self.deleted + self.skipped == with_pr(self.sessions, self.at)
        &&& self.at < self.sessions.len() ==> deciding_pr(self.sessions[self.at]) is Some
        &&& self.deleting ==> self.at < self.sessions.len()
    }

    /// The clean-up has ended.
    pub open spec fn over(self) -> bool {
        self.at >= self.sessions.len()
    }

    /// The session in question is done with.
    pub open spec fn moved_on(self) -> Cleaning {
        Cleaning {
            at: next_with_pr(self.sessions, self.at + 1),
            deleting: false,
            ..self
        }
    }

    /// The clean-up after `gh` was asked for the pull request of the session in question.
    pub open spec fn after_reply(self, reply: GhReply) -> Cleaning {
        if self.over() || self.deleting {
            self
        } else if closes(reply) {
            Cleaning { deleting: true, ..self }
        } else {
            Cleaning { skipped: self.skipped + 1, ..self }.moved_on()
        }
    }

    /// The clean-up after the session in question was deleted.
    pub open spec fn after_deletion(self) -> Cleaning {
        if self.deleting {
            Cleaning { deleted: self.deleted + 1, ..self }.moved_on()
        } else {
            self
        }
    }

    /// How many outcomes can follow, at most.
    pub open spec fn left(self) -> int {
        2 * (self.sessions.len() - self.at) - if self.deleting {
            1int
        } else {
            0int
        }
    }
}

proof fn lemma_next_with_pr(sessions: Seq<SessionState>, from: int)
    requires
        0 <= from <= sessions.len(),
    ensures
        from <= next_with_pr(sessions, from) <= sessions.len(),
        next_with_pr(sessions, from) < sessions.len() ==> deciding_pr(
            sessions[next_with_pr(sessions, from)],
        ) is Some,
        with_pr(sessions, next_with_pr(sessions, from)) == with_pr(sessions, from),
    decreases sessions.len() - from,
{
    if from < sessions.len() && deciding_pr(sessions[from]) is None {
        lemma_next_with_pr(sessions, from + 1);
    }
}

proof fn lemma_with_pr_bound(sessions: Seq<SessionState>, n: int)
    requires
        0 <= n,
    ensures
        0 <= with_pr(sessions, n) <= n,
    decreases n,
{
    if n > 0 {
        lemma_with_pr_bound(sessions, n - 1);
    }
}

proof fn lemma_moved_on(c: Cleaning, counted: Cleaning)
    requires
        c.sound(),
        !c.over(),
        counted.sessions == c.sessions && counted.at == c.at,
        counted.deleted + counted.skipped == c.deleted + c.skipped + 1,
        counted.deleted >= 0 && counted.skipped >= 0,
    ensures
        counted.moved_on().sound(),
{
    lemma_next_with_pr(c.sessions, c.at + 1);
}

// ---------------------------------------------------------------------------
// Cleaning up
// ---------------------------------------------------------------------------

/// What is done next.
#[derive(Debug)]
pub enum CleanTask {
    /// `gh` is asked for the state of the session's pull request at the URL.
    Ask(SessionState, String),
    /// The worktree of the session is removed, and the session is deleted.
    Delete(SessionState),
    /// Nothing is left to do.
    Done(CleanupReport),
}

/// How far a clean-up got.
#[derive(Debug, Clone, Copy)]
struct Position {
    at: usize,
    deleting: bool,
    report: CleanupReport,
}

/// A clean-up of sessions.
#[derive(Debug)]
pub struct Cleanup {
    sessions: Vec<SessionState>,
    position: Position,
}

impl View for Cleanup {
    type V = Cleaning;

    closed spec fn view(&self) -> Cleaning {
        Cleaning {
            sessions: self.sessions@,
            at: self.position.at as int,
            deleting: self.position.deleting,
            deleted: self.position.report.deleted as int,
            skipped: self.position.report.skipped as int,
        }
    }
}

fn find_pr(sessions: &Vec<SessionState>, from: usize) -> (r: usize)
    requires
        from <= sessions@.len(),
    ensures
        r == next_with_pr(sessions@, from as int),
{
    let mut i: usize = from;
    while i < sessions.len()
        invariant
            from <= i <= sessions@.len(),
            next_with_pr(sessions@, from as int) == next_with_pr(sessions@, i as int),
        decreases sessions@.len() - i,
    {
        if pr_to_check(&sessions[i]).is_some() {
            return i;
        }
        i += 1;
    }
    i
}

impl Cleanup {
    #[verifier::type_invariant]
    spec fn wf(self) -> bool {
        self.view().sound()
    }

    /// The clean-up of the sessions.
    pub fn start(sessions: Vec<SessionState>) -> (r: Self)
        ensures
            r@ == (Cleaning {
                sessions: sessions@,
                at: next_with_pr(sessions@, 0),
                deleting: false,
                deleted: 0,
                skipped: 0,
            }),
            r@.sound(),
    {
        proof {
            lemma_next_with_pr(sessions@, 0);
        }
        let at: usize = find_pr(&sessions, 0);
        Cleanup {
            sessions,
            position: Position {
                at,
                deleting: false,
                report: CleanupReport { deleted: 0, skipped: 0 },
            },
        }
    }

    /// What is done next.
    pub fn task(&self) -> (r: CleanTask)
        ensures
            self@.sound(),
            if self@.over() {
                r matches CleanTask::Done(report) && report.deleted == self@.deleted
                    && report.skipped == self@.skipped
            } else {
                let session = self@.sessions[self@.at];
                if self@.deleting {
                    r == CleanTask::Delete(session)
                } else {
                    r == CleanTask::Ask(session, deciding_pr(session)->0)
                }
            },
    {
        proof {
            use_type_invariant(self);
        }
        if self.position.at >= self.sessions.len() {
            return CleanTask::Done(self.position.report);
        }
        let session = self.sessions[self.position.at].copy();
        if self.position.deleting {
            return CleanTask::Delete(session);
        }
        match pr_to_check(&session) {
            Some(url) => CleanTask::Ask(session, url),
            None => CleanTask::Done(self.position.report),
        }
    }

    /// Takes note of what `gh` replied about the session in question, and gives a warning if that
    /// does not say how the pull request stands. The session is deleted if its pull request is
    /// closed or merged, and left otherwise.
    pub fn replied(&mut self, reply: &GhReply) -> (r: Option<String>)
        ensures
            final(self)@ == old(self)@.after_reply(*reply),
            final(self)@.sound(),
            opt_view(r) == if old(self)@.over() || old(self)@.deleting {
                None
            } else {
                warning(old(self)@.sessions[old(self)@.at].id@, *reply)
            },
    {
        proof {
            use_type_invariant(&*self);
        }
        if self.position.at >= self.sessions.len() || self.position.deleting {
            return None;
        }
        let verdict = judge_pr(self.sessions[self.position.at].id.as_str(), reply);
        match verdict {
            CleanupVerdict::Delete => {
                self.position = Position { deleting: true, ..self.position };
                None
            },
            CleanupVerdict::Keep(warned) => {
                self.count(CleanupVerdict::Keep(None));
                warned
            },
        }
    }

    /// Takes note that the session in question was deleted.
    pub fn deleted(&mut self)
        ensures
            final(self)@ == old(self)@.after_deletion(),
            final(self)@.sound(),
    {
        proof {
            use_type_invariant(&*self);
        }
        if self.position.deleting {
            self.count(CleanupVerdict::Delete);
        }
    }

    fn count(&mut self, verdict: CleanupVerdict)
        requires
            !old(self)@.over(),
        ensures
            final(self)@ == (match verdict {
                CleanupVerdict::Delete => Cleaning {
                    deleted: old(self)@.deleted + 1,
                    ..old(self)@
                },
                CleanupVerdict::Keep(_) => Cleaning {
                    skipped: old(self)@.skipped + 1,
                    ..old(self)@
                },
            }).moved_on(),
            final(self)@.sound(),
    {
        proof {
            use_type_invariant(&*self);
            lemma_with_pr_bound(self.sessions@, self.position.at as int);
            let c = self.view();
            lemma_moved_on(c, Cleaning { deleted: c.deleted + 1, ..c });
            lemma_moved_on(c, Cleaning { skipped: c.skipped + 1, ..c });
        }
        let all: usize = self.sessions.len();
        assert(self.position.at < all);
        let mut report = self.position.report;
        report.count(&verdict);
        let at: usize = find_pr(&self.sessions, self.position.at + 1);
        self.position = Position { at, deleting: false, report };
    }
}

// ---------------------------------------------------------------------------
// Laws
// ---------------------------------------------------------------------------

/// A clean-up ends: each outcome of what is done leaves fewer to follow.
pub proof fn law_cleaning_ends(c: Cleaning, reply: GhReply)
    requires
        c.sound(),
        !c.over(),
    ensures
        c.left() > 0,
        !c.deleting ==> c.after_reply(reply).left() < c.left() && c.after_reply(reply).sound(),
        c.deleting ==> c.after_deletion().left() < c.left() && c.after_deletion().sound(),
{
    lemma_next_with_pr(c.sessions, c.at + 1);
    lemma_with_pr_bound(c.sessions, c.at);
}

/// A session is deleted only where it is completed, has a pull request, and the reply says that
/// the pull request is closed or merged.
pub proof fn law_only_closed_pull_requests_count(c: Cleaning, reply: GhReply)
    requires
        c.sound(),
        !c.over(),
        !c.deleting,
    ensures
        c.after_reply(reply).deleting ==> closes(reply) && c.sessions[c.at].phase is Completed
            && c.sessions[c.at].pr_url is Some,
        !c.after_reply(reply).deleting ==> c.after_reply(reply).deleted == c.deleted,
{
}

/// At the end each completed session with a pull request was counted once.
pub proof fn law_every_pull_request_is_counted(c: Cleaning)
    requires
        c.sound(),
        c.over(),
    ensures
        c.deleted + c.skipped == with_pr(c.sessions, c.sessions.len() as int),
{
}

} // verus!
