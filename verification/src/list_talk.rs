//! The talk over the list of sessions: one is picked, and something is done with it.

use vstd::prelude::*;

use crate::error::CruiseError;
use crate::list_cmd::{
    action_named, actions, approve_session, approved_notice, approved_spans, chosen_action, done_notice,
    law_offered_actions_fit_the_phase, pr_to_open, ListAction,
};
use crate::metadata::{title_of_plan, PlanRead};
use crate::multiline_input::InputResult;
use crate::run_cmd::session_run::MenuAnswer;
use crate::session::{sorted_by_id, SessionManager, SessionPhase, SessionState};
use crate::span::{put, put_plain, span_views, Span, SpanView, Tone};
use crate::text::{is_blank, opt_view};

verus! {

// ---------------------------------------------------------------------------
// Stages
// ---------------------------------------------------------------------------

/// Where the talk stands: what is done next, and whose outcome is awaited.
#[derive(Debug)]
pub enum ListStage {
    /// The sessions are loaded.
    Load,
    /// The user picks one of the sessions.
    Pick(Vec<SessionState>),
    /// The plan of the session is shown, and the user is asked what to do.
    Menu(SessionState),
    /// The plan of the session is read for its title.
    ReadPlan(SessionState),
    /// The session, which was approved, is saved.
    SaveApproved(SessionState),
    /// The session, which was reset, is saved.
    SaveReset(SessionState),
    /// The user says what to change about the plan.
    AskChanges(SessionState),
    /// The plan is changed as the user said.
    Replan(SessionState, String),
    /// The session with this identifier is loaded again.
    Reload(String),
    /// The pull request at the URL is opened.
    OpenPr(SessionState, String),
    /// The session is deleted.
    Delete(SessionState),
}

/// What became of opening a pull request.
#[derive(Debug)]
pub enum Opened {
    Done,
    /// `gh` could not be called, for this reason.
    NotStarted(String),
    /// `gh` failed with this status.
    Failed(String),
}

/// The outcome of what was done.
#[derive(Debug)]
pub enum ListEvent {
    Loaded(Result<Vec<SessionState>, CruiseError>),
    Picked(Result<Option<SessionState>, CruiseError>),
    Answered(MenuAnswer),
    Read(PlanRead),
    Saved(Result<(), CruiseError>),
    Typed(Result<InputResult, CruiseError>),
    Replanned(Result<(), CruiseError>),
    Reloaded(Result<SessionState, CruiseError>),
    Opened(Opened),
    Deleted(Result<(), CruiseError>),
}

/// What follows.
#[derive(Debug)]
pub enum ListNext {
    Go(ListStage),
    /// The talk has ended.
    End(Result<(), CruiseError>),
    /// The talk has ended, and the session with this identifier is run.
    Run(String),
}

/// What follows, and what is shown before.
#[derive(Debug)]
pub struct ListStep {
    pub next: ListNext,
    pub said: Option<Vec<Span>>,
}

// ---------------------------------------------------------------------------
// What follows from what
// ---------------------------------------------------------------------------

/// The given text is shown, or nothing.
pub open spec fn shows(r: ListStep, spans: Option<Seq<SpanView>>) -> bool {
    match spans {
        Some(spans) => r.said matches Some(v) && span_views(v@) == spans,
        None => r.said is None,
    }
}

/// What is said of a session after an action on it.
pub open spec fn done_spans(id: Seq<char>, what: Seq<char>) -> Seq<SpanView> {
    seq![("✓"@, Tone::Green), (" Session "@ + id + what, Tone::Plain)]
}

/// What is said of a pull request that was opened or not.
pub open spec fn opened_spans(opened: Opened) -> Seq<SpanView> {
    match opened {
        Opened::Done => seq![
            ("✓"@, Tone::Green),
            (" Opening PR in browser…"@, Tone::Plain),
        ],
        Opened::NotStarted(e) => seq![
            ("✗"@, Tone::Red),
            (" failed to run gh: "@ + e@, Tone::Plain),
        ],
        Opened::Failed(status) => seq![
            ("✗"@, Tone::Red),
            (" gh pr view --web exited with "@ + status@, Tone::Plain),
        ],
    }
}

/// The title of an approved session by its plan, and the warning if there is none.
pub open spec fn title_or_warning(path: Seq<char>, old_title: Option<Seq<char>>, read: PlanRead) -> (
    Option<Seq<char>>,
    Option<Seq<char>>,
) {
    match read {
        Ok(plan) => if is_blank(plan@) {
            (
                old_title,
                Some(
                    "warning: failed to refresh session title: generated plan "@ + path
                        + " is empty"@,
                ),
            )
        } else {
            (Some(title_of_plan(plan@)), None)
        },
        Err(e) => (
            old_title,
            Some(
                "warning: failed to refresh session title: failed to read generated plan "@ + path
                    + ": "@ + e@,
            ),
        ),
    }
}

/// What follows from the action that the user wants.
pub open spec fn acts(session: SessionState, action: ListAction, r: ListStep) -> bool {
    &&& r.said is None
    &&& match action {
        ListAction::Approve => r.next == ListNext::Go(ListStage::ReadPlan(session)),
        ListAction::Run => r.next == ListNext::Run(session.id),
        ListAction::Replan => r.next == ListNext::Go(ListStage::AskChanges(session)),
        ListAction::OpenPr => match session.pr_url {
            Some(url) => r.next == ListNext::Go(ListStage::OpenPr(session, url)),
            None => r.next matches ListNext::End(Err(CruiseError::Other(m))) && m@
                == "Open PR action requires pr_url"@,
        },
        ListAction::Reset => r.next == ListNext::Go(ListStage::SaveReset(session.reset())),
        ListAction::Delete => r.next == ListNext::Go(ListStage::Delete(session)),
        ListAction::Back => r.next == ListNext::Go(ListStage::Load),
    }
}

/// `r` is what follows from the outcome of what was done at a stage. An outcome that is not
/// awaited changes nothing.
pub open spec fn lists_on(
    manager: SessionManager,
    stage: ListStage,
    event: ListEvent,
    r: ListStep,
) -> bool {
    match (stage, event) {
        (ListStage::Load, ListEvent::Loaded(loaded)) => match loaded {
            Err(e) => r.said is None && r.next == ListNext::End(Err(e)),
            Ok(sessions) => if sessions@.len() == 0 {
                shows(r, Some(seq![("No sessions found."@, Tone::Plain)])) && r.next
                    == ListNext::End(Ok(()))
            } else {
                r.said is None && (r.next matches ListNext::Go(ListStage::Pick(v)) && v@
                    == sorted_by_id(sessions@))
            },
        },
        (ListStage::Pick(_), ListEvent::Picked(picked)) => r.said is None && r.next == (
        match picked {
            Err(e) => ListNext::End(Err(e)),
            Ok(None) => ListNext::End(Ok(())),
            Ok(Some(session)) => ListNext::Go(ListStage::Menu(session)),
        }),
        (ListStage::Menu(session), ListEvent::Answered(answer)) => match answer {
            MenuAnswer::Chosen(name) => acts(session, action_named(name@), r),
            MenuAnswer::Cancelled => acts(session, ListAction::Back, r),
            MenuAnswer::Failed(e) => r.said is None && (r.next matches ListNext::End(
                Err(CruiseError::Other(m)),
            ) && m@ == "selection error: "@ + e@),
        },
        (ListStage::ReadPlan(session), ListEvent::Read(read)) => {
            let path = manager.file_path(session.id@, "plan.md"@);
            let (title, warning) = title_or_warning(path, opt_view(session.title), read);
            &&& match warning {
                Some(text) => shows(r, Some(seq![(text, Tone::Plain)])),
                None => r.said is None,
            }
            &&& r.next matches ListNext::Go(ListStage::SaveApproved(after)) && opt_view(after.title)
                == title && after == (SessionState {
                phase: SessionPhase::Planned,
                title: after.title,
                ..session
            })
        },
        (ListStage::SaveApproved(session), ListEvent::Saved(saved)) => match saved {
            Err(e) => r.said is None && r.next == ListNext::End(Err(e)),
            Ok(_) => shows(r, Some(approved_spans(session.id@))) && r.next == ListNext::Go(
                ListStage::Menu(session),
            ),
        },
        (ListStage::SaveReset(session), ListEvent::Saved(saved)) => match saved {
            Err(e) => r.said is None && r.next == ListNext::End(Err(e)),
            Ok(_) => shows(r, Some(done_spans(session.id@, " reset to Planned."@))) && r.next
                == ListNext::Go(ListStage::Menu(session)),
        },
        (ListStage::AskChanges(session), ListEvent::Typed(typed)) => r.said is None && r.next == (
        match typed {
            Err(e) => ListNext::End(Err(e)),
            Ok(InputResult::Cancelled) => ListNext::Go(ListStage::Menu(session)),
            Ok(InputResult::Submitted(text)) => ListNext::Go(ListStage::Replan(session, text)),
        }),
        (ListStage::Replan(session, _), ListEvent::Replanned(replanned)) => r.said is None && r.next
            == (match replanned {
            Err(e) => ListNext::End(Err(e)),
            Ok(_) => ListNext::Go(ListStage::Reload(session.id)),
        }),
        (ListStage::Reload(_), ListEvent::Reloaded(loaded)) => r.said is None && r.next == (
        match loaded {
            Err(e) => ListNext::End(Err(e)),
            Ok(session) => ListNext::Go(ListStage::Menu(session)),
        }),
        (ListStage::OpenPr(session, _), ListEvent::Opened(opened)) => shows(
            r,
            Some(opened_spans(opened)),
        ) && r.next == ListNext::Go(ListStage::Menu(session)),
        (ListStage::Delete(session), ListEvent::Deleted(deleted)) => match deleted {
            Err(e) => r.said is None && r.next == ListNext::End(Err(e)),
            Ok(_) => shows(r, Some(done_spans(session.id@, " deleted."@))) && r.next
                == ListNext::Go(ListStage::Load),
        },
        _ => r.said is None && r.next == ListNext::Go(stage),
    }
}

/// A session whose plan is read for its title waits for approval.
pub open spec fn list_fits(stage: ListStage) -> bool {
    stage matches ListStage::ReadPlan(session) ==> session.phase is AwaitingApproval
}

/// The answer is one of those that the menu offers.
pub open spec fn is_offered(stage: ListStage, event: ListEvent) -> bool {
    (stage matches ListStage::Menu(session) && event matches ListEvent::Answered(
        MenuAnswer::Chosen(name),
    )) ==> actions(stage->Menu_0).contains(event->Answered_0->Chosen_0@)
}

// ---------------------------------------------------------------------------
// Advancing
// ---------------------------------------------------------------------------

fn go(stage: ListStage) -> (r: ListStep)
    ensures
        r.said is None && r.next == ListNext::Go(stage),
{
    ListStep { next: ListNext::Go(stage), said: None }
}

fn end(result: Result<(), CruiseError>) -> (r: ListStep)
    ensures
        r.said is None && r.next == ListNext::End(result),
{
    ListStep { next: ListNext::End(result), said: None }
}

fn after_listing(manager: &SessionManager, sessions: &Vec<SessionState>) -> (r: ListStep)
    ensures
        if sessions@.len() == 0 {
            shows(r, Some(seq![("No sessions found."@, Tone::Plain)])) && r.next == ListNext::End(
                Ok(()),
            )
        } else {
            r.said is None && (r.next matches ListNext::Go(ListStage::Pick(v)) && v@
                == sorted_by_id(sessions@))
        },
{
    if sessions.len() == 0 {
        let mut out: Vec<Span> = Vec::new();
        put_plain(&mut out, "No sessions found.");
        assert(span_views(out@) =~= seq![("No sessions found."@, Tone::Plain)]);
        return ListStep { next: ListNext::End(Ok(())), said: Some(out) };
    }
    go(ListStage::Pick(manager.list(sessions)))
}

fn act(session: SessionState, action: ListAction) -> (r: ListStep)
    ensures
        acts(session, action, r),
{
    match action {
        ListAction::Approve => go(ListStage::ReadPlan(session)),
        ListAction::Run => ListStep { next: ListNext::Run(session.id), said: None },
        ListAction::Replan => go(ListStage::AskChanges(session)),
        ListAction::OpenPr => match pr_to_open(&session) {
            Ok(url) => go(ListStage::OpenPr(session, url)),
            Err(e) => end(Err(e)),
        },
        ListAction::Reset => {
            let mut session = session;
            session.reset_to_planned();
            go(ListStage::SaveReset(session))
        },
        ListAction::Delete => go(ListStage::Delete(session)),
        ListAction::Back => go(ListStage::Load),
    }
}

fn opened_notice(opened: &Opened) -> (r: Vec<Span>)
    ensures
        span_views(r@) == opened_spans(*opened),
{
    let mut out: Vec<Span> = Vec::new();
    match opened {
        Opened::Done => {
            put(&mut out, "✓".to_owned(), Tone::Green);
            put_plain(&mut out, " Opening PR in browser…");
        },
        Opened::NotStarted(e) => {
            put(&mut out, "✗".to_owned(), Tone::Red);
            put(&mut out, " failed to run gh: ".to_owned().concat(e.as_str()), Tone::Plain);
        },
        Opened::Failed(status) => {
            put(&mut out, "✗".to_owned(), Tone::Red);
            put(
                &mut out,
                " gh pr view --web exited with ".to_owned().concat(status.as_str()),
                Tone::Plain,
            );
        },
    }
    assert(span_views(out@) =~= opened_spans(*opened));
    out
}

fn after_plan(manager: &SessionManager, session: SessionState, read: PlanRead) -> (r: ListStep)
    requires
        session.phase is AwaitingApproval,
    ensures
        lists_on(*manager, ListStage::ReadPlan(session), ListEvent::Read(read), r),
{
    let mut session = session;
    let warning = approve_session(manager, &mut session, read);
    let said: Option<Vec<Span>> = match warning {
        Some(text) => {
            let mut out: Vec<Span> = Vec::new();
            put_plain(&mut out, text.as_str());
            assert(span_views(out@) =~= seq![(text@, Tone::Plain)]);
            Some(out)
        },
        None => None,
    };
    ListStep { next: ListNext::Go(ListStage::SaveApproved(session)), said }
}

/// What follows from the outcome of what was done at a stage: a session is picked from the list;
/// it is approved, run, changed, opened, reset or deleted; and the talk goes back to the session
/// or to the list.
pub fn advance_list(manager: &SessionManager, stage: ListStage, event: ListEvent) -> (r: ListStep)
    requires
        list_fits(stage),
        is_offered(stage, event),
    ensures
        lists_on(*manager, stage, event, r),
        r.next matches ListNext::Go(next) ==> list_fits(next),
{
    match (stage, event) {
        (ListStage::Load, ListEvent::Loaded(loaded)) => match loaded {
            Ok(sessions) => after_listing(manager, &sessions),
            Err(e) => end(Err(e)),
        },
        (ListStage::Pick(_), ListEvent::Picked(picked)) => match picked {
            Err(e) => end(Err(e)),
            Ok(None) => end(Ok(())),
            Ok(Some(session)) => go(ListStage::Menu(session)),
        },
        (ListStage::Menu(session), ListEvent::Answered(answer)) => match chosen_action(&answer) {
            Ok(action) => {
                proof {
                    law_offered_actions_fit_the_phase(session);
                }
                act(session, action)
            },
            Err(e) => end(Err(e)),
        },
        (ListStage::ReadPlan(session), ListEvent::Read(read)) => after_plan(manager, session, read),
        (ListStage::SaveApproved(session), ListEvent::Saved(saved)) => match saved {
            Err(e) => end(Err(e)),
            Ok(_) => {
                let said = Some(approved_notice(session.id.as_str()));
                ListStep { next: ListNext::Go(ListStage::Menu(session)), said }
            },
        },
        (ListStage::SaveReset(session), ListEvent::Saved(saved)) => match saved {
            Err(e) => end(Err(e)),
            Ok(_) => {
                let said = Some(done_notice(session.id.as_str(), " reset to Planned."));
                ListStep { next: ListNext::Go(ListStage::Menu(session)), said }
            },
        },
        (ListStage::AskChanges(session), ListEvent::Typed(typed)) => match typed {
            Err(e) => end(Err(e)),
            Ok(InputResult::Cancelled) => go(ListStage::Menu(session)),
            Ok(InputResult::Submitted(text)) => go(ListStage::Replan(session, text)),
        },
        (ListStage::Replan(session, _), ListEvent::Replanned(replanned)) => match replanned {
            Err(e) => end(Err(e)),
            Ok(_) => go(ListStage::Reload(session.id)),
        },
        (ListStage::Reload(_), ListEvent::Reloaded(loaded)) => match loaded {
            Err(e) => end(Err(e)),
            Ok(session) => go(ListStage::Menu(session)),
        },
        (ListStage::OpenPr(session, _), ListEvent::Opened(opened)) => ListStep {
            next: ListNext::Go(ListStage::Menu(session)),
            said: Some(opened_notice(&opened)),
        },
        (ListStage::Delete(session), ListEvent::Deleted(deleted)) => match deleted {
            Err(e) => end(Err(e)),
            Ok(_) => ListStep {
                next: ListNext::Go(ListStage::Load),
                said: Some(done_notice(session.id.as_str(), " deleted.")),
            },
        },
        (stage, _) => go(stage),
    }
}

// ---------------------------------------------------------------------------
// Laws
// ---------------------------------------------------------------------------

/// From the list, only a session that may be run is run, and a session is approved only while it
/// waits for approval.
pub proof fn law_list_keeps_to_the_phase(
    manager: SessionManager,
    stage: ListStage,
    event: ListEvent,
    r: ListStep,
)
    requires
        list_fits(stage),
        is_offered(stage, event),
        lists_on(manager, stage, event, r),
    ensures
        r.next matches ListNext::Run(id) ==> {
            &&& stage matches ListStage::Menu(session) && session.id == id
                && session.phase.runnable()
        },
        (r.next is Go && r.next->Go_0 is SaveApproved && !(stage is SaveApproved)) ==> {
            &&& stage matches ListStage::ReadPlan(session) && session.phase is AwaitingApproval
            &&& r.next->Go_0->SaveApproved_0.phase is Planned
        },
{
    match (stage, event) {
        (ListStage::Menu(session), ListEvent::Answered(MenuAnswer::Chosen(name))) => {
            law_offered_actions_fit_the_phase(session);
            let i = choose|i: int| 0 <= i < actions(session).len() && actions(session)[i] == name@;
            assert(action_named(actions(session)[i]) == action_named(name@));
        },
        _ => {},
    }
}

} // verus!
