//! The pull request of a session: its description, its creation and the steps after it.

use vstd::prelude::*;

use crate::config::{step_list, step_name_at, steps_len};
use crate::engine::ExecutionResult;
use crate::error::CruiseError;
use crate::plan_cmd::PLAN_VAR;
use crate::run_cmd::pr_text::pr_metadata;
use crate::run_cmd::pull_request::{
    advance, advances, calls_left, commit_message_of, first_stage, law_attempts_end, PrAdvance,
    PrAttemptOutcome, PrJob, PrStage, ToolReply,
};
use crate::run_cmd::session_run::{
    build_pr_prompt, describe_pr, note_pr_attempt, unparsed_spans, with_language, with_pr,
    PrFollowUp,
};
use crate::session::{SessionState, WorktreeContext};
use crate::span::{put_plain, span_views, Span, SpanView, Tone};
use crate::step::prompt::PromptResult;
use crate::step_run::{is_request, request_for, PromptRequest};
use crate::text::{is_blank, opt_view, trim};
use crate::variable::{VariableStore, Variables};
use crate::workflow::CompiledWorkflow;

verus! {

// ---------------------------------------------------------------------------
// Stages
// ---------------------------------------------------------------------------

/// Where the pull request stands: what is done next, and whose outcome is awaited.
#[derive(Debug)]
pub enum PublishStage {
    /// The chat interface is asked for a title and a body by the plan at the given path.
    AskApi(String),
    /// The command of the workflow is asked for them.
    AskCommand(PromptRequest),
    /// The command of the stage of the attempt is called.
    Attempt(PrJob, PrStage),
    /// The steps after the pull request are executed from the given one on.
    AfterSteps(String),
}

/// The outcome of what was done.
#[derive(Debug)]
pub enum PublishEvent {
    /// The title and the body.
    Described(Result<(String, String), CruiseError>),
    Prompted(Result<PromptResult, CruiseError>),
    Replied(ToolReply),
    Executed(Result<ExecutionResult, CruiseError>),
}

/// What follows.
#[derive(Debug)]
pub enum PublishNext {
    Go(PublishStage),
    /// All is done, or failed.
    End(Result<(), CruiseError>),
}

/// What follows, and the messages that are shown before.
#[derive(Debug)]
pub struct PublishStep {
    pub next: PublishNext,
    pub said: Vec<Vec<Span>>,
}

// ---------------------------------------------------------------------------
// What follows from what
// ---------------------------------------------------------------------------

/// The messages as mathematical values.
pub open spec fn messages(said: Seq<Vec<Span>>) -> Seq<Seq<SpanView>> {
    said.map_values(|m: Vec<Span>| span_views(m@))
}

/// A message in the plain tone.
pub open spec fn plain_message(text: Seq<char>) -> Seq<SpanView> {
    seq![(text, Tone::Plain)]
}

/// What the attempt at a pull request with the given title and body is made of.
pub open spec fn is_job(
    job: PrJob,
    ctx: WorktreeContext,
    input: Seq<char>,
    title: Seq<char>,
    body: Seq<char>,
) -> bool {
    &&& job.ctx == ctx
    &&& job.commit_message@ == commit_message_of(input, title)
    &&& job.title@ == trim(title)
    &&& job.body@ == body
}

/// The attempt begins with the given title and body.
pub open spec fn begins_attempt(
    next: PublishNext,
    ctx: WorktreeContext,
    input: Seq<char>,
    title: Seq<char>,
    body: Seq<char>,
) -> bool {
    next matches PublishNext::Go(PublishStage::Attempt(job, stage)) && stage == PrStage::Add
        && is_job(job, ctx, input, title, body)
}

/// The command of the workflow is asked for a title and a body, after the given messages. Where
/// the question cannot be put, the attempt begins without them.
pub open spec fn asks_command(
    ctx: WorktreeContext,
    compiled: CompiledWorkflow,
    template: Seq<char>,
    input: Seq<char>,
    before: Seq<Seq<SpanView>>,
    vars: Variables,
    after: Variables,
    r: PublishStep,
) -> bool {
    &&& with_language(vars, compiled.pr_language@, after)
    &&& match after.expand(template) {
        Ok(prompt) => {
            &&& messages(r.said@) == before
            &&& r.next matches PublishNext::Go(PublishStage::AskCommand(request)) && is_request(
                request,
                compiled,
                opt_view(compiled.model),
                prompt,
            )
        },
        Err(name) => {
            &&& messages(r.said@) == before.push(
                plain_message(
                    "warning: PR prompt resolution failed: undefined variable: {"@ + name + "}"@,
                ),
            )
            &&& begins_attempt(r.next, ctx, input, ""@, ""@)
        },
    }
}

/// The messages on the answer of the command.
pub open spec fn answer_messages(result: Result<PromptResult, CruiseError>) -> Seq<Seq<SpanView>> {
    match result {
        Ok(answer) => if pr_metadata(answer.output@).0.len() == 0 && !is_blank(answer.output@) {
            seq![unparsed_spans(answer.output@)]
        } else {
            seq![]
        },
        Err(e) => seq![
            plain_message("warning: PR description generation failed: "@ + e.message_spec()),
        ],
    }
}

/// The answer of the command; nothing if it failed.
pub open spec fn answer_of(result: Result<PromptResult, CruiseError>) -> Seq<char> {
    match result {
        Ok(answer) => answer.output@,
        Err(_) => ""@,
    }
}

/// The messages on the commit of an attempt.
pub open spec fn commit_messages(outcome: PrAttemptOutcome) -> Seq<Seq<SpanView>> {
    match outcome.report_spec() {
        Some(spans) => seq![spans],
        None => seq![],
    }
}

/// What is said of a pull request that stands.
pub open spec fn created_message(url: Seq<char>) -> Seq<SpanView> {
    seq![("✓"@, Tone::GreenBold), (" PR created: "@ + url, Tone::Plain)]
}

/// The attempt is over. Where the pull request stands, the variables and the session keep it
/// and the steps after it follow; where it was not created, that is only worth a warning; where
/// there is nothing to publish, that is an error.
pub open spec fn ends_attempt(
    ctx: WorktreeContext,
    compiled: CompiledWorkflow,
    outcome: PrAttemptOutcome,
    vars: Variables,
    session: SessionState,
    after_vars: Variables,
    after_session: SessionState,
    r: PublishStep,
) -> bool {
    match outcome {
        PrAttemptOutcome::Created { url, commit_outcome: _ } => {
            &&& with_pr(vars, url@, after_vars)
            &&& after_session == (SessionState { pr_url: Some(url), ..session })
            &&& messages(r.said@) == commit_messages(outcome).push(created_message(url@))
            &&& if step_list(compiled.after_pr).len() > 0 {
                r.next matches PublishNext::Go(PublishStage::AfterSteps(first)) && first@
                    == step_list(compiled.after_pr)[0].0
            } else {
                r.next == PublishNext::End(Ok(()))
            }
        },
        PrAttemptOutcome::SkippedNoCommits => {
            &&& after_vars == vars && after_session == session
            &&& messages(r.said@) == commit_messages(outcome)
            &&& r.next matches PublishNext::End(Err(CruiseError::Other(m))) && m@
                == "cannot create PR for "@ + ctx.branch@
                + ": branch has no commits beyond its base; make changes and rerun `cruise run`"@
        },
        PrAttemptOutcome::CreateFailed { error, commit_outcome: _ } => {
            &&& after_vars == vars && after_session == session
            &&& messages(r.said@) == commit_messages(outcome).push(
                plain_message("warning: PR creation failed: "@ + error@),
            )
            &&& r.next == PublishNext::End(Ok(()))
        },
    }
}

/// `r` is what follows from the outcome of what was done at a stage. An outcome that is not
/// awaited changes nothing.
pub open spec fn publishes(
    ctx: WorktreeContext,
    compiled: CompiledWorkflow,
    template: Seq<char>,
    stage: PublishStage,
    event: PublishEvent,
    vars: Variables,
    session: SessionState,
    after_vars: Variables,
    after_session: SessionState,
    r: PublishStep,
) -> bool {
    match (stage, event) {
        (PublishStage::AskApi(_), PublishEvent::Described(described)) => after_session == session
            && (match described {
            Ok((title, body)) => {
                &&& after_vars == vars
                &&& messages(r.said@) == Seq::<Seq<SpanView>>::empty()
                &&& begins_attempt(r.next, ctx, session.input@, title@, body@)
            },
            Err(e) => asks_command(
                ctx,
                compiled,
                template,
                session.input@,
                seq![
                    plain_message(
                        "warning: LLM API call failed, falling back to CLI: "@ + e.message_spec(),
                    ),
                ],
                vars,
                after_vars,
                r,
            ),
        }),
        (PublishStage::AskCommand(_), PublishEvent::Prompted(result)) => {
            let description = pr_metadata(answer_of(result));
            &&& after_vars == vars && after_session == session
            &&& messages(r.said@) == answer_messages(result)
            &&& begins_attempt(r.next, ctx, session.input@, description.0, description.1)
        },
        (PublishStage::Attempt(job, stage), PublishEvent::Replied(reply)) => exists|a: PrAdvance|
            #[trigger] advances(stage, reply, a) && (match a {
                PrAdvance::Next(next) => {
                    &&& after_vars == vars && after_session == session
                    &&& messages(r.said@) == Seq::<Seq<SpanView>>::empty()
                    &&& r.next == PublishNext::Go(PublishStage::Attempt(job, next))
                },
                PrAdvance::Failed(e) => {
                    &&& after_vars == vars && after_session == session
                    &&& messages(r.said@) == Seq::<Seq<SpanView>>::empty()
                    &&& r.next == PublishNext::End(Err(e))
                },
                PrAdvance::Done(outcome) => ends_attempt(
                    ctx,
                    compiled,
                    outcome,
                    vars,
                    session,
                    after_vars,
                    after_session,
                    r,
                ),
            }),
        (PublishStage::AfterSteps(_), PublishEvent::Executed(result)) => {
            &&& after_vars == vars && after_session == session
            &&& r.next == PublishNext::End(Ok(()))
            &&& messages(r.said@) == (match result {
                Ok(_) => seq![],
                Err(CruiseError::StepPaused) => seq![],
                Err(e) => seq![
                    plain_message("warning: after-pr steps failed: "@ + e.message_spec()),
                ],
            })
        },
        _ => {
            &&& after_vars == vars && after_session == session
            &&& messages(r.said@) == Seq::<Seq<SpanView>>::empty()
            &&& r.next == PublishNext::Go(stage)
        },
    }
}

// ---------------------------------------------------------------------------
// Advancing
// ---------------------------------------------------------------------------

/// Adds a message in the plain tone.
fn say(said: &mut Vec<Vec<Span>>, text: String)
    ensures
        messages(final(said)@) == messages(old(said)@).push(plain_message(text@)),
{
    let mut m: Vec<Span> = Vec::new();
    put_plain(&mut m, text.as_str());
    assert(span_views(m@) =~= plain_message(text@));
    said.push(m);
    assert(messages(said@) =~= messages(old(said)@).push(plain_message(text@)));
}

/// Adds a message.
fn add_message(said: &mut Vec<Vec<Span>>, m: Vec<Span>)
    ensures
        messages(final(said)@) == messages(old(said)@).push(span_views(m@)),
{
    said.push(m);
    assert(messages(said@) =~= messages(old(said)@).push(span_views(m@)));
}

/// No messages.
fn no_messages() -> (r: Vec<Vec<Span>>)
    ensures
        messages(r@) == Seq::<Seq<SpanView>>::empty(),
{
    let r: Vec<Vec<Span>> = Vec::new();
    assert(messages(r@) =~= Seq::<Seq<SpanView>>::empty());
    r
}

fn attempt(ctx: &WorktreeContext, input: &str, title: &str, body: &str) -> (r: PublishNext)
    ensures
        begins_attempt(r, *ctx, input@, title@, body@),
{
    let job = PrJob::new(ctx.copy(), input, title, body);
    PublishNext::Go(PublishStage::Attempt(job, first_stage()))
}

fn ask_command(
    ctx: &WorktreeContext,
    compiled: &CompiledWorkflow,
    template: &str,
    input: &str,
    said: Vec<Vec<Span>>,
    vars: &mut VariableStore,
) -> (r: PublishStep)
    ensures
        asks_command(
            *ctx,
            *compiled,
            template@,
            input@,
            messages(said@),
            old(vars)@,
            final(vars)@,
            r,
        ),
{
    let mut said = said;
    match build_pr_prompt(vars, compiled.pr_language.as_str(), template) {
        Ok(prompt) => PublishStep {
            next: PublishNext::Go(
                PublishStage::AskCommand(request_for(compiled, &compiled.model, prompt)),
            ),
            said,
        },
        Err(e) => {
            let text = "warning: PR prompt resolution failed: ".to_owned().concat(
                e.message().as_str(),
            );
            proof {
                let name = e->UndefinedVariable_0@;
                reveal_strlit("warning: PR prompt resolution failed: ");
                reveal_strlit("undefined variable: {");
                reveal_strlit("warning: PR prompt resolution failed: undefined variable: {");
                assert("warning: PR prompt resolution failed: "@ + ("undefined variable: {"@ + name
                    + "}"@)
                    =~= "warning: PR prompt resolution failed: undefined variable: {"@ + name
                    + "}"@);
            }
            say(&mut said, text);
            PublishStep { next: attempt(ctx, input, "", ""), said }
        },
    }
}

/// The first stage of a pull request: the chat interface is asked if it is configured and the
/// plan is known, or else the command of the workflow.
pub fn first_publish_stage(
    ctx: &WorktreeContext,
    compiled: &CompiledWorkflow,
    template: &str,
    has_api: bool,
    vars: &mut VariableStore,
    session: &SessionState,
) -> (r: PublishStep)
    ensures
        match old(vars)@.lookup(PLAN_VAR@) {
            Some(path) if has_api => {
                &&& final(vars)@ == old(vars)@
                &&& messages(r.said@) == Seq::<Seq<SpanView>>::empty()
                &&& r.next matches PublishNext::Go(PublishStage::AskApi(p)) && p@ == path
            },
            _ => asks_command(
                *ctx,
                *compiled,
                template@,
                session.input@,
                Seq::empty(),
                old(vars)@,
                final(vars)@,
                r,
            ),
        },
{
    if has_api {
        match vars.get_variable(PLAN_VAR) {
            Ok(path) => return PublishStep {
                next: PublishNext::Go(PublishStage::AskApi(path)),
                said: no_messages(),
            },
            Err(_) => {},
        }
    }
    ask_command(ctx, compiled, template, session.input.as_str(), no_messages(), vars)
}

fn after_answer(
    ctx: &WorktreeContext,
    session: &SessionState,
    result: Result<PromptResult, CruiseError>,
) -> (r: PublishStep)
    ensures
        messages(r.said@) == answer_messages(result),
        begins_attempt(
            r.next,
            *ctx,
            session.input@,
            pr_metadata(answer_of(result)).0,
            pr_metadata(answer_of(result)).1,
        ),
{
    let mut said = no_messages();
    let output: String = match &result {
        Ok(answer) => answer.output.clone(),
        Err(e) => {
            say(
                &mut said,
                "warning: PR description generation failed: ".to_owned().concat(
                    e.message().as_str(),
                ),
            );
            proof {
                reveal_strlit("");
                assert(""@ =~= Seq::<char>::empty());
            }
            String::new()
        },
    };
    let description = describe_pr(output.as_str());
    match description.notice {
        Some(notice) => {
            proof {
                if result is Err {
                    reveal_strlit("");
                    crate::text::lemma_trim_blank(output@);
                    assert(is_blank(output@));
                }
            }
            add_message(&mut said, notice);
        },
        None => {},
    }
    assert(messages(said@) =~= answer_messages(result));
    PublishStep {
        next: attempt(
            ctx,
            session.input.as_str(),
            description.title.as_str(),
            description.body.as_str(),
        ),
        said,
    }
}

fn after_attempt(
    ctx: &WorktreeContext,
    compiled: &CompiledWorkflow,
    outcome: PrAttemptOutcome,
    vars: &mut VariableStore,
    session: &mut SessionState,
) -> (r: PublishStep)
    ensures
        ends_attempt(
            *ctx,
            *compiled,
            outcome,
            old(vars)@,
            *old(session),
            final(vars)@,
            *final(session),
            r,
        ),
{
    let mut said = no_messages();
    match outcome.report() {
        Some(m) => add_message(&mut said, m),
        None => {},
    }
    assert(messages(said@) =~= commit_messages(outcome));
    match note_pr_attempt(outcome, ctx.branch.as_str(), vars, session) {
        Ok(PrFollowUp::RunAfterSteps(m)) => {
            add_message(&mut said, m);
            let next = if steps_len(&compiled.after_pr) > 0 {
                PublishNext::Go(
                    PublishStage::AfterSteps(step_name_at(&compiled.after_pr, 0).clone()),
                )
            } else {
                PublishNext::End(Ok(()))
            };
            PublishStep { next, said }
        },
        Ok(PrFollowUp::Warn(text)) => {
            say(&mut said, text);
            PublishStep { next: PublishNext::End(Ok(())), said }
        },
        Err(e) => PublishStep { next: PublishNext::End(Err(e)), said },
    }
}

fn after_steps(result: Result<ExecutionResult, CruiseError>) -> (r: PublishStep)
    ensures
        r.next == PublishNext::End(Ok(())),
        messages(r.said@) == (match result {
            Ok(_) => seq![],
            Err(CruiseError::StepPaused) => seq![],
            Err(e) => seq![
                plain_message("warning: after-pr steps failed: "@ + e.message_spec()),
            ],
        }),
{
    let mut said = no_messages();
    match result {
        Ok(_) => {},
        Err(CruiseError::StepPaused) => {},
        Err(e) => {
            say(
                &mut said,
                "warning: after-pr steps failed: ".to_owned().concat(e.message().as_str()),
            );
        },
    }
    PublishStep { next: PublishNext::End(Ok(())), said }
}

/// What follows from the outcome of what was done at a stage: a title and a body are asked for,
/// first from the chat interface and then from the command of the workflow; the pull request is
/// attempted; and, where it stands, the steps after it are executed.
pub fn advance_publish(
    ctx: &WorktreeContext,
    compiled: &CompiledWorkflow,
    template: &str,
    stage: PublishStage,
    event: PublishEvent,
    vars: &mut VariableStore,
    session: &mut SessionState,
) -> (r: PublishStep)
    ensures
        publishes(
            *ctx,
            *compiled,
            template@,
            stage,
            event,
            old(vars)@,
            *old(session),
            final(vars)@,
            *final(session),
            r,
        ),
{
    match (stage, event) {
        (PublishStage::AskApi(_), PublishEvent::Described(described)) => match described {
            Ok((title, body)) => PublishStep {
                next: attempt(ctx, session.input.as_str(), title.as_str(), body.as_str()),
                said: no_messages(),
            },
            Err(e) => {
                let mut said = no_messages();
                say(
                    &mut said,
                    "warning: LLM API call failed, falling back to CLI: ".to_owned().concat(
                        e.message().as_str(),
                    ),
                );
                ask_command(ctx, compiled, template, session.input.as_str(), said, vars)
            },
        },
        (PublishStage::AskCommand(_), PublishEvent::Prompted(result)) => after_answer(
            ctx,
            session,
            result,
        ),
        (PublishStage::Attempt(job, stage), PublishEvent::Replied(reply)) => {
            match advance(stage, &reply) {
                PrAdvance::Next(next) => PublishStep {
                    next: PublishNext::Go(PublishStage::Attempt(job, next)),
                    said: no_messages(),
                },
                PrAdvance::Failed(e) => PublishStep {
                    next: PublishNext::End(Err(e)),
                    said: no_messages(),
                },
                PrAdvance::Done(outcome) => after_attempt(ctx, compiled, outcome, vars, session),
            }
        },
        (PublishStage::AfterSteps(_), PublishEvent::Executed(result)) => after_steps(result),
        (stage, _) => PublishStep { next: PublishNext::Go(stage), said: no_messages() },
    }
}

// ---------------------------------------------------------------------------
// Laws
// ---------------------------------------------------------------------------

/// The outcome is that of what is done at the stage.
pub open spec fn is_reply_to(stage: PublishStage, event: PublishEvent) -> bool {
    match stage {
        PublishStage::AskApi(_) => event is Described,
        PublishStage::AskCommand(_) => event is Prompted,
        PublishStage::Attempt(_, _) => event is Replied,
        PublishStage::AfterSteps(_) => event is Executed,
    }
}

/// How many outcomes can follow from a stage on, at most.
pub open spec fn outcomes_left(stage: PublishStage) -> int {
    match stage {
        PublishStage::AskApi(_) => calls_left(PrStage::Add) + 3,
        PublishStage::AskCommand(_) => calls_left(PrStage::Add) + 2,
        PublishStage::Attempt(_, stage) => calls_left(stage) + 1,
        PublishStage::AfterSteps(_) => 1,
    }
}

/// The work on a pull request ends: each outcome leaves fewer to follow.
pub proof fn law_publishing_ends(
    ctx: WorktreeContext,
    compiled: CompiledWorkflow,
    template: Seq<char>,
    stage: PublishStage,
    event: PublishEvent,
    vars: Variables,
    session: SessionState,
    after_vars: Variables,
    after_session: SessionState,
    r: PublishStep,
)
    requires
        publishes(
            ctx,
            compiled,
            template,
            stage,
            event,
            vars,
            session,
            after_vars,
            after_session,
            r,
        ),
        is_reply_to(stage, event),
    ensures
        outcomes_left(stage) > 0,
        r.next matches PublishNext::Go(next) ==> outcomes_left(next) < outcomes_left(stage),
{
    match (stage, event) {
        (PublishStage::Attempt(job, at), PublishEvent::Replied(reply)) => {
            let a = choose|a: PrAdvance|
                #[trigger] advances(at, reply, a) && (match a {
                    PrAdvance::Next(next) => {
                        &&& after_vars == vars && after_session == session
                        &&& messages(r.said@) == Seq::<Seq<SpanView>>::empty()
                        &&& r.next == PublishNext::Go(PublishStage::Attempt(job, next))
                    },
                    PrAdvance::Failed(e) => {
                        &&& after_vars == vars && after_session == session
                        &&& messages(r.said@) == Seq::<Seq<SpanView>>::empty()
                        &&& r.next == PublishNext::End(Err(e))
                    },
                    PrAdvance::Done(outcome) => ends_attempt(
                        ctx,
                        compiled,
                        outcome,
                        vars,
                        session,
                        after_vars,
                        after_session,
                        r,
                    ),
                });
            law_attempts_end(at, reply, a);
        },
        _ => {},
    }
}

/// A session keeps the URL of a pull request only where one stands, and is else left as it is.
/// The steps after the pull request are executed only then.
pub proof fn law_only_a_pull_request_changes_the_session(
    ctx: WorktreeContext,
    compiled: CompiledWorkflow,
    template: Seq<char>,
    stage: PublishStage,
    event: PublishEvent,
    vars: Variables,
    session: SessionState,
    after_vars: Variables,
    after_session: SessionState,
    r: PublishStep,
)
    requires
        publishes(
            ctx,
            compiled,
            template,
            stage,
            event,
            vars,
            session,
            after_vars,
            after_session,
            r,
        ),
    ensures
        after_session != session ==> {
            &&& stage is Attempt
            &&& after_session.pr_url is Some
            &&& after_session == (SessionState { pr_url: after_session.pr_url, ..session })
        },
        (r.next matches PublishNext::Go(PublishStage::AfterSteps(first)) && !(stage
            is AfterSteps)) ==> after_session.pr_url is Some,
{
}

} // verus!
