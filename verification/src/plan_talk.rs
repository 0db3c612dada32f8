//! The talk about a new plan: it is shown, fixed, asked about, approved or discarded.

use vstd::prelude::*;

use crate::error::CruiseError;
use crate::metadata::{read_plan_markdown, PlanRead};
use crate::multiline_input::InputResult;
use crate::plan_cmd::{
    action_of, cancelled_notice, created_notice, created_spans, executing_notice, no_plan_notice,
    no_plan_spans, plan_action, plan_model, plan_request, prompt_notice, prompt_spans, PlanAction,
};
use crate::resolver::ConfigSource;
use crate::run_cmd::session_run::MenuAnswer;
use crate::session::{is_iso8601, SessionPhase, SessionState, WorkspaceMode};
use crate::span::{put_plain, span_views, Span, SpanView, Tone};
use crate::step::prompt::PromptResult;
use crate::step_run::{finish_prompt, is_request, PromptRequest};
use crate::text::{is_blank, trim, trimmed};
use crate::variable::{VariableStore, Variables};
use crate::workflow::CompiledWorkflow;

verus! {

// ---------------------------------------------------------------------------
// New sessions
// ---------------------------------------------------------------------------

/// A session as it is made: for the given input, by the configuration from the given source, and
/// waiting for the approval of its plan.
pub open spec fn is_new(session: SessionState, source: ConfigSource, input: Seq<char>) -> bool {
    &&& session.config_source@ == source.display_spec()
    &&& session.input@ == trim(input)
    &&& session.config_path == source.path_spec()
    &&& session.phase == SessionPhase::AwaitingApproval
    &&& is_iso8601(session.created_at@)
    &&& session.workspace_mode == WorkspaceMode::Worktree
    &&& session.title is None && session.current_step is None && session.completed_at is None
    &&& session.worktree_path is None && session.worktree_branch is None
    &&& session.target_branch is None && session.pr_url is None && session.updated_at is None
    &&& !session.awaiting_input
}

/// A new session for the given input, which waits for the approval of its plan.
pub fn new_session(id: String, base_dir: String, source: &ConfigSource, input: &str) -> (r:
    SessionState)
    ensures
        r.id == id,
        r.base_dir == base_dir,
        is_new(r, *source, input@),
{
    let mut session = SessionState::new(id, base_dir, source.display_string(), trimmed(input));
    session.config_path = match source.path() {
        Some(path) => Some(path.clone()),
        None => None,
    };
    session
}

// ---------------------------------------------------------------------------
// Stages
// ---------------------------------------------------------------------------

/// Where the talk stands: what is done next, and whose outcome is awaited.
#[derive(Debug)]
pub enum TalkStage {
    /// The plan that was made first is read.
    ReadFirst,
    /// The plan that was fixed is read.
    ReadAgain,
    /// The plan is shown, and the user is asked what becomes of it.
    Menu(String),
    /// The user says what to change about the plan.
    AskChanges(String),
    /// The user puts a question about the plan.
    AskQuestion(String),
    /// The plan is fixed.
    Fix(PromptRequest),
    /// The question is answered.
    Answer(PromptRequest, String),
    /// The session is saved.
    Save,
    /// The session is saved, and is run then.
    SaveAndRun,
    /// The session is deleted. The talk ends with the error, if there is one.
    Discard(Option<CruiseError>),
}

/// The outcome of what was done.
#[derive(Debug)]
pub enum TalkEvent {
    Read(PlanRead),
    /// The answer of the user; none where there is no terminal to ask at.
    Answered(Option<MenuAnswer>),
    Typed(Result<InputResult, CruiseError>),
    Prompted(Result<PromptResult, CruiseError>),
    Saved(Result<(), CruiseError>),
    Deleted(Result<(), CruiseError>),
}

/// What follows.
#[derive(Debug)]
pub enum TalkNext {
    Go(TalkStage),
    /// The talk has ended.
    End(Result<(), CruiseError>),
    /// The talk has ended, and the session is run.
    Run,
}

/// What follows, and what is shown before.
#[derive(Debug)]
pub struct TalkStep {
    pub next: TalkNext,
    pub said: Option<Vec<Span>>,
}

/// The prompts that a talk is led with.
#[derive(Debug)]
pub struct TalkTemplates {
    pub fix: String,
    pub ask: String,
}

// ---------------------------------------------------------------------------
// What follows from what
// ---------------------------------------------------------------------------

/// The given text is shown, or nothing.
pub open spec fn shows(r: TalkStep, spans: Option<Seq<SpanView>>) -> bool {
    match spans {
        Some(spans) => r.said matches Some(v) && span_views(v@) == spans,
        None => r.said is None,
    }
}

/// The talk ends with an error of the given text.
pub open spec fn stops(r: TalkStep, text: Seq<char>) -> bool {
    r.next matches TalkNext::End(Err(CruiseError::Other(m))) && m@ == text
}

/// Why a plan cannot be talked about.
pub open spec fn plan_fault(path: Seq<char>, read: PlanRead) -> Option<Seq<char>> {
    match read {
        Err(e) => Some("failed to read generated plan "@ + path + ": "@ + e@),
        Ok(content) => if is_blank(content@) {
            Some("generated plan "@ + path + " is empty"@)
        } else {
            None
        },
    }
}

/// The variables with what the user typed.
pub open spec fn with_typed(vars: Variables, text: Seq<char>) -> Variables {
    Variables { prev_input: Some(text), ..vars }
}

/// The variables after a prompt.
pub open spec fn after_prompt(vars: Variables, result: PromptResult) -> Variables {
    Variables {
        prev_output: Some(result.output@),
        prev_stderr: Some(result.stderr@),
        prev_input: None,
        ..vars
    }
}

/// A prompt on the plan is run: `request`, where the template and what it expands to name only
/// variables that are defined, and else the talk ends. The label is shown once the template was
/// expanded.
pub open spec fn prompts(
    vars: Variables,
    compiled: CompiledWorkflow,
    template: Seq<char>,
    label: Seq<char>,
    request: Option<PromptRequest>,
    r: TalkStep,
) -> bool {
    match vars.expand(template) {
        Ok(text) => {
            &&& shows(r, Some(prompt_spans(label)))
            &&& match vars.expand(text) {
                Ok(prompt) => request matches Some(q) && is_request(
                    q,
                    compiled,
                    plan_model(compiled),
                    prompt,
                ),
                Err(name) => request is None && (r.next matches TalkNext::End(
                    Err(CruiseError::UndefinedVariable(n)),
                ) && n@ == name),
            }
        },
        Err(name) => {
            &&& r.said is None
            &&& request is None
            &&& r.next matches TalkNext::End(Err(CruiseError::UndefinedVariable(n))) && n@ == name
        },
    }
}

/// The request for a fixed plan that follows.
pub open spec fn fix_of(next: TalkNext) -> Option<PromptRequest> {
    match next {
        TalkNext::Go(TalkStage::Fix(q)) => Some(q),
        _ => None,
    }
}

/// The request for an answer that follows, while the given plan is shown.
pub open spec fn answer_of(next: TalkNext, plan: String) -> Option<PromptRequest> {
    match next {
        TalkNext::Go(TalkStage::Answer(q, shown)) => if shown == plan {
            Some(q)
        } else {
            None
        },
        _ => None,
    }
}

/// What follows from the user's answer on a plan that was shown.
pub open spec fn decides(
    plan: String,
    answer: Option<MenuAnswer>,
    session: SessionState,
    after: SessionState,
    r: TalkStep,
) -> bool {
    let approved = SessionState { phase: SessionPhase::Planned, ..session };
    match action_of(answer) {
        Err(text) => after == session && r.said is None && stops(r, text),
        Ok(PlanAction::Approve) => after == approved && r.said is None && r.next == TalkNext::Go(
            TalkStage::Save,
        ),
        Ok(PlanAction::Execute) => after == approved && r.said is None && r.next == TalkNext::Go(
            TalkStage::SaveAndRun,
        ),
        Ok(PlanAction::Fix) => after == session && r.said is None && r.next == TalkNext::Go(
            TalkStage::AskChanges(plan),
        ),
        Ok(PlanAction::Ask) => after == session && r.said is None && r.next == TalkNext::Go(
            TalkStage::AskQuestion(plan),
        ),
        Ok(PlanAction::ShowAgain) => after == session && r.said is None && r.next == TalkNext::Go(
            TalkStage::Menu(plan),
        ),
        Ok(PlanAction::Discard) => {
            &&& after == session
            &&& shows(
                r,
                Some(
                    seq![
                        (
                            "\nCancelled. Session "@ + session.id@ + " discarded."@,
                            Tone::Plain,
                        ),
                    ],
                ),
            )
            &&& r.next == TalkNext::Go(TalkStage::Discard(None))
        },
    }
}

/// `r` is what follows from the outcome of what was done at a stage. An outcome that is not
/// awaited changes nothing.
pub open spec fn talks(
    path: Seq<char>,
    compiled: CompiledWorkflow,
    templates: TalkTemplates,
    stage: TalkStage,
    event: TalkEvent,
    vars: Variables,
    session: SessionState,
    after_vars: Variables,
    after: SessionState,
    r: TalkStep,
) -> bool {
    match (stage, event) {
        (TalkStage::ReadFirst, TalkEvent::Read(read)) => {
            &&& after_vars == vars && after == session
            &&& match plan_fault(path, read) {
                None => r.said is None && r.next == TalkNext::Go(TalkStage::Menu(read->Ok_0)),
                Some(text) => {
                    &&& shows(r, Some(no_plan_spans(session.id@)))
                    &&& r.next matches TalkNext::Go(
                        TalkStage::Discard(Some(CruiseError::Other(m))),
                    ) && m@ == text
                },
            }
        },
        (TalkStage::ReadAgain, TalkEvent::Read(read)) => {
            &&& after_vars == vars && after == session && r.said is None
            &&& match plan_fault(path, read) {
                None => r.next == TalkNext::Go(TalkStage::Menu(read->Ok_0)),
                Some(text) => stops(r, text),
            }
        },
        (TalkStage::Menu(plan), TalkEvent::Answered(answer)) => after_vars == vars && decides(
            plan,
            answer,
            session,
            after,
            r,
        ),
        (TalkStage::AskChanges(plan), TalkEvent::Typed(typed)) => after == session && (match typed {
            Err(e) => after_vars == vars && r.said is None && r.next == TalkNext::End(Err(e)),
            Ok(InputResult::Cancelled) => after_vars == vars && r.said is None && r.next
                == TalkNext::Go(TalkStage::Menu(plan)),
            Ok(InputResult::Submitted(text)) => after_vars == with_typed(vars, text@) && prompts(
                after_vars,
                compiled,
                templates.fix@,
                "[fix-plan] applying fixes..."@,
                fix_of(r.next),
                r,
            ),
        }),
        (TalkStage::AskQuestion(plan), TalkEvent::Typed(typed)) => after == session && (
        match typed {
            Err(e) => after_vars == vars && r.said is None && r.next == TalkNext::End(Err(e)),
            Ok(InputResult::Cancelled) => after_vars == vars && r.said is None && r.next
                == TalkNext::Go(TalkStage::Menu(plan)),
            Ok(InputResult::Submitted(text)) => after_vars == with_typed(vars, text@) && prompts(
                after_vars,
                compiled,
                templates.ask@,
                "[ask-plan] answering question..."@,
                answer_of(r.next, plan),
                r,
            ),
        }),
        (TalkStage::Fix(_), TalkEvent::Prompted(result)) => after == session && r.said is None && (
        match result {
            Err(e) => after_vars == vars && r.next == TalkNext::End(Err(e)),
            Ok(out) => after_vars == after_prompt(vars, out) && r.next == TalkNext::Go(
                TalkStage::ReadAgain,
            ),
        }),
        (TalkStage::Answer(_, plan), TalkEvent::Prompted(result)) => after == session && r.said
            is None && (match result {
            Err(e) => after_vars == vars && r.next == TalkNext::End(Err(e)),
            Ok(out) => after_vars == after_prompt(vars, out) && r.next == TalkNext::Go(
                TalkStage::Menu(plan),
            ),
        }),
        (TalkStage::Save, TalkEvent::Saved(saved)) => {
            &&& after_vars == vars && after == session
            &&& match saved {
                Ok(_) => shows(r, Some(created_spans(session.id@))) && r.next == TalkNext::End(
                    Ok(()),
                ),
                Err(e) => r.said is None && r.next == TalkNext::End(Err(e)),
            }
        },
        (TalkStage::SaveAndRun, TalkEvent::Saved(saved)) => {
            &&& after_vars == vars && after == session
            &&& match saved {
                Ok(_) => {
                    &&& shows(
                        r,
                        Some(
                            seq![
                                ("\n"@, Tone::Plain),
                                ("->"@, Tone::Cyan),
                                (
                                    " Executing session "@ + session.id@ + "..."@,
                                    Tone::Plain,
                                ),
                            ],
                        ),
                    )
                    &&& r.next == TalkNext::Run
                },
                Err(e) => r.said is None && r.next == TalkNext::End(Err(e)),
            }
        },
        (TalkStage::Discard(fault), TalkEvent::Deleted(deleted)) => {
            &&& after_vars == vars && after == session
            &&& match (fault, deleted) {
                (Some(e), Ok(_)) => r.said is None && r.next == TalkNext::End(Err(e)),
                (Some(e), Err(d)) => {
                    &&& shows(
                        r,
                        Some(
                            seq![
                                (
                                    "warning: failed to clean up session: "@ + d.message_spec(),
                                    Tone::Plain,
                                ),
                            ],
                        ),
                    )
                    &&& r.next == TalkNext::End(Err(e))
                },
                (None, deleted) => r.said is None && r.next == TalkNext::End(deleted),
            }
        },
        _ => after_vars == vars && after == session && r.said is None && r.next == TalkNext::Go(
            stage,
        ),
    }
}

/// The session waits for approval until it is saved, and every plan that is shown holds
/// something.
pub open spec fn talk_fits(stage: TalkStage, session: SessionState) -> bool {
    match stage {
        TalkStage::Menu(plan) => session.phase is AwaitingApproval && !is_blank(plan@),
        TalkStage::AskChanges(plan) => session.phase is AwaitingApproval && !is_blank(plan@),
        TalkStage::AskQuestion(plan) => session.phase is AwaitingApproval && !is_blank(plan@),
        TalkStage::Answer(_, plan) => session.phase is AwaitingApproval && !is_blank(plan@),
        TalkStage::Save => session.phase is Planned,
        TalkStage::SaveAndRun => session.phase is Planned,
        _ => session.phase is AwaitingApproval,
    }
}

// ---------------------------------------------------------------------------
// Advancing
// ---------------------------------------------------------------------------

fn go(stage: TalkStage) -> (r: TalkStep)
    ensures
        r.said is None && r.next == TalkNext::Go(stage),
{
    TalkStep { next: TalkNext::Go(stage), said: None }
}

fn end(result: Result<(), CruiseError>) -> (r: TalkStep)
    ensures
        r.said is None && r.next == TalkNext::End(result),
{
    TalkStep { next: TalkNext::End(result), said: None }
}

fn plain_line(text: String) -> (r: Vec<Span>)
    ensures
        span_views(r@) == seq![(text@, Tone::Plain)],
{
    let mut out: Vec<Span> = Vec::new();
    put_plain(&mut out, text.as_str());
    assert(span_views(out@) =~= seq![(text@, Tone::Plain)]);
    out
}

fn decide(plan: String, answer: &Option<MenuAnswer>, session: &mut SessionState) -> (r: TalkStep)
    requires
        old(session).phase is AwaitingApproval,
    ensures
        decides(plan, *answer, *old(session), *final(session), r),
{
    match plan_action(answer) {
        Err(e) => end(Err(e)),
        Ok(PlanAction::Approve) => {
            session.approve();
            go(TalkStage::Save)
        },
        Ok(PlanAction::Execute) => {
            session.approve();
            go(TalkStage::SaveAndRun)
        },
        Ok(PlanAction::Fix) => go(TalkStage::AskChanges(plan)),
        Ok(PlanAction::Ask) => go(TalkStage::AskQuestion(plan)),
        Ok(PlanAction::ShowAgain) => go(TalkStage::Menu(plan)),
        Ok(PlanAction::Discard) => TalkStep {
            next: TalkNext::Go(TalkStage::Discard(None)),
            said: Some(plain_line(cancelled_notice(session.id.as_str()))),
        },
    }
}

/// The request for a prompt on the plan, and the label to show; or the error that ends the talk,
/// and the label if it is shown first.
fn ask_for(vars: &VariableStore, compiled: &CompiledWorkflow, template: &str, label: &str) -> (r: (
    Result<PromptRequest, CruiseError>,
    Option<Vec<Span>>,
))
    ensures
        match vars@.expand(template@) {
            Ok(text) => {
                &&& r.1 matches Some(v) && span_views(v@) == prompt_spans(label@)
                &&& match vars@.expand(text) {
                    Ok(prompt) => r.0 matches Ok(q) && is_request(
                        q,
                        *compiled,
                        plan_model(*compiled),
                        prompt,
                    ),
                    Err(name) => r.0 matches Err(CruiseError::UndefinedVariable(n)) && n@ == name,
                }
            },
            Err(name) => r.1 is None && (r.0 matches Err(CruiseError::UndefinedVariable(n)) && n@
                == name),
        },
{
    match vars.resolve(template) {
        Ok(_) => (plan_request(vars, compiled, template), Some(prompt_notice(label))),
        Err(e) => (Err(e), None),
    }
}

/// What follows from the outcome of what was done at a stage: the plan is read and shown; the
/// user has it fixed or asks about it, as often as they like; and at last it is approved, and
/// perhaps run, or discarded.
pub fn advance_talk(
    path: &str,
    compiled: &CompiledWorkflow,
    templates: &TalkTemplates,
    stage: TalkStage,
    event: TalkEvent,
    vars: &mut VariableStore,
    session: &mut SessionState,
) -> (r: TalkStep)
    requires
        talk_fits(stage, *old(session)),
    ensures
        talks(
            path@,
            *compiled,
            *templates,
            stage,
            event,
            old(vars)@,
            *old(session),
            final(vars)@,
            *final(session),
            r,
        ),
        r.next matches TalkNext::Go(next) ==> talk_fits(next, *final(session)),
{
    match (stage, event) {
        (TalkStage::ReadFirst, TalkEvent::Read(read)) => match read_plan_markdown(path, read) {
            Ok(plan) => go(TalkStage::Menu(plan)),
            Err(e) => TalkStep {
                next: TalkNext::Go(TalkStage::Discard(Some(e))),
                said: Some(no_plan_notice(session.id.as_str())),
            },
        },
        (TalkStage::ReadAgain, TalkEvent::Read(read)) => match read_plan_markdown(path, read) {
            Ok(plan) => go(TalkStage::Menu(plan)),
            Err(e) => end(Err(e)),
        },
        (TalkStage::Menu(plan), TalkEvent::Answered(answer)) => decide(plan, &answer, session),
        (TalkStage::AskChanges(plan), TalkEvent::Typed(typed)) => match typed {
            Err(e) => end(Err(e)),
            Ok(InputResult::Cancelled) => go(TalkStage::Menu(plan)),
            Ok(InputResult::Submitted(text)) => {
                vars.set_prev_input(Some(text));
                match ask_for(
                    vars,
                    compiled,
                    templates.fix.as_str(),
                    "[fix-plan] applying fixes...",
                ) {
                    (Ok(request), said) => TalkStep {
                        next: TalkNext::Go(TalkStage::Fix(request)),
                        said,
                    },
                    (Err(e), said) => TalkStep { next: TalkNext::End(Err(e)), said },
                }
            },
        },
        (TalkStage::AskQuestion(plan), TalkEvent::Typed(typed)) => match typed {
            Err(e) => end(Err(e)),
            Ok(InputResult::Cancelled) => go(TalkStage::Menu(plan)),
            Ok(InputResult::Submitted(text)) => {
                vars.set_prev_input(Some(text));
                match ask_for(
                    vars,
                    compiled,
                    templates.ask.as_str(),
                    "[ask-plan] answering question...",
                ) {
                    (Ok(request), said) => TalkStep {
                        next: TalkNext::Go(TalkStage::Answer(request, plan)),
                        said,
                    },
                    (Err(e), said) => TalkStep { next: TalkNext::End(Err(e)), said },
                }
            },
        },
        (TalkStage::Fix(_), TalkEvent::Prompted(result)) => match result {
            Err(e) => end(Err(e)),
            Ok(out) => {
                finish_prompt(vars, out);
                go(TalkStage::ReadAgain)
            },
        },
        (TalkStage::Answer(_, plan), TalkEvent::Prompted(result)) => match result {
            Err(e) => end(Err(e)),
            Ok(out) => {
                finish_prompt(vars, out);
                go(TalkStage::Menu(plan))
            },
        },
        (TalkStage::Save, TalkEvent::Saved(saved)) => match saved {
            Ok(_) => TalkStep {
                next: TalkNext::End(Ok(())),
                said: Some(created_notice(session.id.as_str())),
            },
            Err(e) => end(Err(e)),
        },
        (TalkStage::SaveAndRun, TalkEvent::Saved(saved)) => match saved {
            Ok(_) => TalkStep {
                next: TalkNext::Run,
                said: Some(executing_notice(session.id.as_str())),
            },
            Err(e) => end(Err(e)),
        },
        (TalkStage::Discard(fault), TalkEvent::Deleted(deleted)) => match (fault, deleted) {
            (Some(e), Ok(_)) => end(Err(e)),
            (Some(e), Err(d)) => TalkStep {
                next: TalkNext::End(Err(e)),
                said: Some(
                    plain_line(
                        "warning: failed to clean up session: ".to_owned().concat(
                            d.message().as_str(),
                        ),
                    ),
                ),
            },
            (None, deleted) => end(deleted),
        },
        (stage, _) => go(stage),
    }
}

// ---------------------------------------------------------------------------
// Laws
// ---------------------------------------------------------------------------

/// A session becomes runnable in a talk only by the user's word, or where there is no user to
/// ask, and only with a plan that holds something. What is not approved keeps its phase.
pub proof fn law_only_shown_plans_are_approved(
    path: Seq<char>,
    compiled: CompiledWorkflow,
    templates: TalkTemplates,
    stage: TalkStage,
    event: TalkEvent,
    vars: Variables,
    session: SessionState,
    after_vars: Variables,
    after: SessionState,
    r: TalkStep,
)
    requires
        talk_fits(stage, session),
        talks(
            path,
            compiled,
            templates,
            stage,
            event,
            vars,
            session,
            after_vars,
            after,
            r,
        ),
    ensures
        after.phase != session.phase ==> {
            &&& stage matches TalkStage::Menu(plan) && !is_blank(plan@)
            &&& event matches TalkEvent::Answered(answer) && (action_of(answer) == Ok::<
                PlanAction,
                Seq<char>,
            >(PlanAction::Approve) || action_of(answer) == Ok::<PlanAction, Seq<char>>(
                PlanAction::Execute,
            ))
            &&& after.phase is Planned
        },
        after == (SessionState { phase: after.phase, ..session }),
{
}

} // verus!
