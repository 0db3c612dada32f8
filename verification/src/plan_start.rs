//! The start of a plan: its input and its configuration are settled, the session is made, and the
//! plan is asked for.

use std::time::SystemTime;

use vstd::prelude::*;

use crate::clock::{is_free_id, seconds_at};
use crate::config::{config_fault, config_is_valid, WorkflowConfig};
use crate::error::CruiseError;
use crate::gui::planning::are_plan_variables;
use crate::plan_cmd::{
    dry_run_notice, first_plan_request, plan_model, plan_variables, prompt_notice, prompt_spans,
};
use crate::plan_talk::{is_new, new_session};
use crate::resolver::ConfigSource;
use crate::session::{is_new_id, SessionManager, SessionPhase, SessionState};
use crate::span::{put, span_views, Span, Tone};
use crate::step::prompt::PromptResult;
use crate::step_run::{is_request, PromptRequest};
use crate::text::{trim, views};
use crate::variable::{VariableStore, Variables};
use crate::workflow::{compile, compiles_to, CompiledWorkflow};

verus! {

// ---------------------------------------------------------------------------
// What is planned
// ---------------------------------------------------------------------------

/// What a session is made of.
#[derive(Debug)]
pub struct Outline {
    pub input: String,
    /// The text of the configuration.
    pub yaml: String,
    pub source: ConfigSource,
    pub compiled: CompiledWorkflow,
}

/// Where it stands what is planned: what is done next, and whose outcome is awaited.
#[derive(Debug)]
pub enum OutlineStage {
    /// The configuration is looked for.
    Resolve,
    /// The input is read.
    ReadInput(String, ConfigSource),
    /// The text of the configuration is parsed.
    Parse(String, ConfigSource, String),
}

/// The outcome of what was done.
#[derive(Debug)]
pub enum OutlineEvent {
    /// The text of the configuration and its source.
    Resolved(Result<(String, ConfigSource), CruiseError>),
    Entered(Result<String, CruiseError>),
    Parsed(Result<WorkflowConfig, CruiseError>),
}

/// What follows.
#[derive(Debug)]
pub enum OutlineNext {
    Go(OutlineStage),
    /// Nothing is planned.
    End(Result<(), CruiseError>),
    /// The session is made.
    Make(Outline),
}

/// What follows, and what is shown before.
#[derive(Debug)]
pub struct OutlineStep {
    pub next: OutlineNext,
    pub said: Option<Vec<Span>>,
}

/// The given text is shown faintly, or nothing.
pub open spec fn whispers(r: OutlineStep, text: Option<Seq<char>>) -> bool {
    match text {
        Some(text) => r.said matches Some(v) && span_views(v@) == seq![(text, Tone::Dim)],
        None => r.said is None,
    }
}

/// `r` is what follows from the outcome of what was done at a stage. Where a plan is only talked
/// of, that ends with the input. An outcome that is not awaited changes nothing.
pub open spec fn outlines(
    dry_run: bool,
    stage: OutlineStage,
    event: OutlineEvent,
    r: OutlineStep,
) -> bool {
    match (stage, event) {
        (OutlineStage::Resolve, OutlineEvent::Resolved(found)) => match found {
            Err(e) => whispers(r, None) && r.next == OutlineNext::End(Err(e)),
            Ok((yaml, source)) => {
                &&& whispers(r, Some(source.display_spec()))
                &&& r.next == OutlineNext::Go(OutlineStage::ReadInput(yaml, source))
            },
        },
        (OutlineStage::ReadInput(yaml, source), OutlineEvent::Entered(entered)) => match entered {
            Err(e) => whispers(r, None) && r.next == OutlineNext::End(Err(e)),
            Ok(input) => if dry_run {
                &&& whispers(r, Some("Would plan: \""@ + trim(input@) + "\""@))
                &&& r.next == OutlineNext::End(Ok(()))
            } else {
                &&& whispers(r, None)
                &&& r.next == OutlineNext::Go(OutlineStage::Parse(yaml, source, input))
            },
        },
        (OutlineStage::Parse(yaml, source, input), OutlineEvent::Parsed(parsed)) => {
            &&& whispers(r, None)
            &&& match parsed {
                Err(e) => r.next == OutlineNext::End(Err(e)),
                Ok(config) => if config_is_valid(config) {
                    r.next matches OutlineNext::Make(o) && o.input == input && o.yaml == yaml
                        && o.source == source && compiles_to(config, o.compiled)
                } else {
                    r.next matches OutlineNext::End(Err(CruiseError::InvalidStepConfig(m)))
                        && config_fault(config, m@)
                },
            }
        },
        _ => whispers(r, None) && r.next == OutlineNext::Go(stage),
    }
}

fn whisper(text: String) -> (r: Vec<Span>)
    ensures
        span_views(r@) == seq![(text@, Tone::Dim)],
{
    let mut out: Vec<Span> = Vec::new();
    put(&mut out, text, Tone::Dim);
    assert(span_views(out@) =~= seq![(text@, Tone::Dim)]);
    out
}

/// What follows from the outcome of what was done at a stage: the configuration is found, the
/// input is read, and the configuration is parsed and laid out.
pub fn advance_outline(dry_run: bool, stage: OutlineStage, event: OutlineEvent) -> (r: OutlineStep)
    ensures
        outlines(dry_run, stage, event, r),
{
    match (stage, event) {
        (OutlineStage::Resolve, OutlineEvent::Resolved(found)) => match found {
            Ok((yaml, source)) => OutlineStep {
                said: Some(whisper(source.display_string())),
                next: OutlineNext::Go(OutlineStage::ReadInput(yaml, source)),
            },
            Err(e) => OutlineStep { next: OutlineNext::End(Err(e)), said: None },
        },
        (OutlineStage::ReadInput(yaml, source), OutlineEvent::Entered(entered)) => match entered {
            Ok(input) => if dry_run {
                OutlineStep {
                    said: Some(whisper(dry_run_notice(input.as_str()))),
                    next: OutlineNext::End(Ok(())),
                }
            } else {
                OutlineStep {
                    next: OutlineNext::Go(OutlineStage::Parse(yaml, source, input)),
                    said: None,
                }
            },
            Err(e) => OutlineStep { next: OutlineNext::End(Err(e)), said: None },
        },
        (OutlineStage::Parse(yaml, source, input), OutlineEvent::Parsed(parsed)) => {
            let config = match parsed {
                Ok(config) => config,
                Err(e) => return OutlineStep { next: OutlineNext::End(Err(e)), said: None },
            };
            match compile(config) {
                Ok(compiled) => OutlineStep {
                    next: OutlineNext::Make(Outline { input, yaml, source, compiled }),
                    said: None,
                },
                Err(e) => OutlineStep { next: OutlineNext::End(Err(e)), said: None },
            }
        },
        (stage, _) => OutlineStep { next: OutlineNext::Go(stage), said: None },
    }
}

// ---------------------------------------------------------------------------
// The session and its first plan
// ---------------------------------------------------------------------------

/// A session that is made, and the configuration that it is made by.
#[derive(Debug)]
pub struct Making {
    pub session: SessionState,
    pub compiled: CompiledWorkflow,
    /// The text of the configuration.
    pub yaml: String,
}

/// Where the making of a session stands: what is done next, and whose outcome is awaited.
#[derive(Debug)]
pub enum MakeStage {
    /// The session is written to disk.
    Create(Making),
    /// The configuration is written beside the session.
    WriteConfig(Making),
    /// The plan is asked for.
    Generate(Making, VariableStore, PromptRequest),
}

/// The outcome of what was done.
#[derive(Debug)]
pub enum MakeEvent {
    Created(Result<(), CruiseError>),
    Written(Result<(), CruiseError>),
    Prompted(Result<PromptResult, CruiseError>),
}

/// What follows.
#[derive(Debug)]
pub enum MakeNext {
    Go(MakeStage),
    /// There is no plan.
    Fail(CruiseError),
    /// The plan is there to be talked about.
    Talk(Making, VariableStore),
}

/// What follows, and what is shown before.
#[derive(Debug)]
pub struct MakeStep {
    pub next: MakeNext,
    pub said: Option<Vec<Span>>,
}

/// The first plan of a session is asked for, unless the template names what is not defined.
pub open spec fn asks_first(
    manager: SessionManager,
    template: Seq<char>,
    making: Making,
    r: MakeStep,
) -> bool {
    match r.next {
        MakeNext::Go(MakeStage::Generate(m, vars, request)) => {
            &&& r.said matches Some(v) && span_views(v@) == prompt_spans("[plan] creating plan..."@)
            &&& m == making
            &&& are_plan_variables(vars@, manager, making.session, None)
            &&& vars@.expand(template) matches Ok(prompt) && is_request(
                request,
                making.compiled,
                plan_model(making.compiled),
                prompt,
            )
        },
        MakeNext::Fail(CruiseError::UndefinedVariable(n)) => {
            &&& r.said is None
            &&& exists|vars: Variables| #[trigger]
                are_plan_variables(vars, manager, making.session, None) && vars.expand(template) == Err::<
                    Seq<char>,
                    Seq<char>,
                >(n@)
        },
        _ => false,
    }
}

/// `r` is what follows from the outcome of what was done at a stage. An outcome that is not
/// awaited changes nothing.
pub open spec fn makes_up(
    manager: SessionManager,
    template: Seq<char>,
    stage: MakeStage,
    event: MakeEvent,
    r: MakeStep,
) -> bool {
    match (stage, event) {
        (MakeStage::Create(making), MakeEvent::Created(created)) => match created {
            Err(e) => r.said is None && r.next == MakeNext::Fail(e),
            Ok(_) => if making.session.config_path is None {
                r.said is None && r.next == MakeNext::Go(MakeStage::WriteConfig(making))
            } else {
                asks_first(manager, template, making, r)
            },
        },
        (MakeStage::WriteConfig(making), MakeEvent::Written(written)) => match written {
            Err(e) => r.said is None && r.next == MakeNext::Fail(e),
            Ok(_) => asks_first(manager, template, making, r),
        },
        (MakeStage::Generate(making, vars, _), MakeEvent::Prompted(result)) => {
            &&& r.said is None
            &&& r.next == (match result {
                Err(e) => MakeNext::Fail(e),
                Ok(_) => MakeNext::Talk(making, vars),
            })
        },
        _ => r.said is None && r.next == MakeNext::Go(stage),
    }
}

/// The first stage of the making of a session: a new one, with an identifier that no other has.
pub fn first_make_stage(outline: Outline, base_dir: String, in_use: &mut Vec<String>) -> (r:
    MakeStage)
    ensures
        r matches MakeStage::Create(making) && {
            &&& is_new(making.session, outline.source, outline.input@)
            &&& making.session.base_dir == base_dir
            &&& is_new_id(views(old(in_use)@), making.session.id@, views(final(in_use)@))
            &&& exists|t: SystemTime|
                is_free_id(making.session.id@, #[trigger] seconds_at(t), views(old(in_use)@))
            &&& making.compiled == outline.compiled
            &&& making.yaml == outline.yaml
        },
{
    let session = new_session(
        SessionManager::new_session_id(in_use),
        base_dir,
        &outline.source,
        outline.input.as_str(),
    );
    MakeStage::Create(Making { session, compiled: outline.compiled, yaml: outline.yaml })
}

fn ask_first(manager: &SessionManager, template: &str, making: Making) -> (r: MakeStep)
    ensures
        asks_first(*manager, template@, making, r),
{
    let vars = plan_variables(manager, &making.session, None);
    assert(are_plan_variables(vars@, *manager, making.session, None));
    match first_plan_request(&vars, &making.compiled, template) {
        Ok(request) => MakeStep {
            next: MakeNext::Go(MakeStage::Generate(making, vars, request)),
            said: Some(prompt_notice("[plan] creating plan...")),
        },
        Err(e) => MakeStep { next: MakeNext::Fail(e), said: None },
    }
}

/// What follows from the outcome of what was done at a stage: the session is written, with the
/// configuration where that stands in no file, and the first plan is asked for.
pub fn advance_making(manager: &SessionManager, template: &str, stage: MakeStage, event: MakeEvent)
    -> (r: MakeStep)
    ensures
        makes_up(*manager, template@, stage, event, r),
{
    match (stage, event) {
        (MakeStage::Create(making), MakeEvent::Created(created)) => match created {
            Ok(_) => if making.session.config_path.is_none() {
                MakeStep { next: MakeNext::Go(MakeStage::WriteConfig(making)), said: None }
            } else {
                ask_first(manager, template, making)
            },
            Err(e) => MakeStep { next: MakeNext::Fail(e), said: None },
        },
        (MakeStage::WriteConfig(making), MakeEvent::Written(written)) => match written {
            Ok(_) => ask_first(manager, template, making),
            Err(e) => MakeStep { next: MakeNext::Fail(e), said: None },
        },
        (MakeStage::Generate(making, vars, _), MakeEvent::Prompted(result)) => match result {
            Ok(_) => MakeStep { next: MakeNext::Talk(making, vars), said: None },
            Err(e) => MakeStep { next: MakeNext::Fail(e), said: None },
        },
        (stage, _) => MakeStep { next: MakeNext::Go(stage), said: None },
    }
}

// ---------------------------------------------------------------------------
// Laws
// ---------------------------------------------------------------------------

/// A plan that is only talked of leads to no session.
pub proof fn law_dry_plans_make_nothing(stage: OutlineStage, event: OutlineEvent, r: OutlineStep)
    requires
        !(stage is Parse),
        outlines(true, stage, event, r),
    ensures
        !(r.next is Make),
        r.next matches OutlineNext::Go(next) ==> !(next is Parse),
{
}

/// The configuration of a session can always be found again: it stands in the file that the
/// session names, or it is written beside the session before the plan is asked for.
pub proof fn law_configurations_are_kept(
    manager: SessionManager,
    template: Seq<char>,
    stage: MakeStage,
    event: MakeEvent,
    r: MakeStep,
)
    requires
        makes_up(manager, template, stage, event, r),
        !(stage is Generate),
    ensures
        r.next matches MakeNext::Go(MakeStage::Generate(making, _, _)) ==> (
        making.session.config_path is Some || (stage is WriteConfig && event matches MakeEvent::Written(
            Ok(_),
        ))),
{
}

/// The session at a stage.
pub open spec fn made(stage: MakeStage) -> SessionState {
    match stage {
        MakeStage::Create(making) => making.session,
        MakeStage::WriteConfig(making) => making.session,
        MakeStage::Generate(making, _, _) => making.session,
    }
}

/// The session whose plan is talked about is the one that was made; it still waits for approval.
pub proof fn law_making_keeps_the_session(
    manager: SessionManager,
    template: Seq<char>,
    stage: MakeStage,
    event: MakeEvent,
    r: MakeStep,
)
    requires
        makes_up(manager, template, stage, event, r),
        made(stage).phase == SessionPhase::AwaitingApproval,
    ensures
        r.next matches MakeNext::Go(next) ==> made(next) == made(stage) && made(next).phase
            == SessionPhase::AwaitingApproval,
        r.next matches MakeNext::Talk(making, _) ==> making.session == made(stage)
            && making.session.phase == SessionPhase::AwaitingApproval,
{
}

} // verus!
