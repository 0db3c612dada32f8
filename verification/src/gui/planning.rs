//! The plan of a new session, and the plan of a session that is changed, for the graphical front
//! end.

use std::time::SystemTime;
use vstd::prelude::*;

use crate::clock::{is_free_id, seconds_at};
use crate::config::{config_fault, config_is_valid, validate_groups, WorkflowConfig};
use crate::error::CruiseError;
use crate::gui::commands::{after_generation, generated};
use crate::gui::events::PlanEvent;
use crate::metadata::{refresh_session_title_from_plan, title_of_plan, PlanFile};
use crate::plan_cmd::{plan_variables, PLAN_VAR};
use crate::plan_talk::{is_new, new_session};
use crate::resolver::ConfigSource;
use crate::session::{SessionManager, SessionState};
use crate::step::prompt::PromptResult;
use crate::step_run::{call_of, calls_with, PromptRequest};
use crate::text::{clone_opt, clone_strings, opt_view, views};
use crate::variable::{NamedVariable, VariableStore, Variables};

verus! {

// ---------------------------------------------------------------------------
// The call for a plan
// ---------------------------------------------------------------------------

/// The variables that a plan is asked for with.
pub open spec fn are_plan_variables(
    vars: Variables,
    manager: SessionManager,
    session: SessionState,
    feedback: Option<Seq<char>>,
) -> bool {
    &&& vars.input == session.input@
    &&& vars.prev_input == feedback
    &&& vars.prev_output is None && vars.prev_stderr is None && vars.prev_success is None
    &&& vars.named.dom() == set![PLAN_VAR@]
    &&& vars.named[PLAN_VAR@] matches NamedVariable::FilePath(path) && path@ == plan_file(
        manager,
        session,
    )
}

/// The plan file of a session.
pub open spec fn plan_file(manager: SessionManager, session: SessionState) -> Seq<char> {
    manager.file_path(session.id@, "plan.md"@)
}

/// The model for plans: that of the configuration for plans, or else that for all.
pub open spec fn planning_model(config: WorkflowConfig) -> Option<Seq<char>> {
    match config.plan_model {
        Some(m) => Some(m@),
        None => opt_view(config.model),
    }
}

/// Works out the call that makes or changes a plan.
///
/// # Errors
///
/// Returns `UndefinedVariable` with the first name in the template that is not defined.
pub fn planning_call(vars: &VariableStore, config: &WorkflowConfig, template: &str) -> (r: Result<
    PromptRequest,
    CruiseError,
>)
    ensures
        match vars@.expand(template@) {
            Ok(prompt) => r matches Ok(request) && calls_with(
                request,
                config.command@,
                planning_model(*config),
                prompt,
            ),
            Err(name) => r matches Err(CruiseError::UndefinedVariable(n)) && n@ == name,
        },
{
    let prompt = match vars.resolve(template) {
        Ok(prompt) => prompt,
        Err(e) => return Err(e),
    };
    let model: Option<String> = match &config.plan_model {
        Some(m) => Some(m.clone()),
        None => clone_opt(&config.model),
    };
    Ok(call_of(&config.command, &model, prompt))
}

/// `r` is the call for the plan of a session, or the reason why there is none.
pub open spec fn is_call(
    manager: SessionManager,
    session: SessionState,
    feedback: Option<Seq<char>>,
    config: WorkflowConfig,
    template: Seq<char>,
    r: Result<PromptRequest, Seq<char>>,
) -> bool {
    exists|vars: Variables| #[trigger]
        are_plan_variables(vars, manager, session, feedback) && (match vars.expand(template) {
            Ok(prompt) => r matches Ok(request) && calls_with(
                request,
                config.command@,
                planning_model(config),
                prompt,
            ),
            Err(name) => r == Err::<PromptRequest, Seq<char>>(
                "undefined variable: {"@ + name + "}"@,
            ),
        })
}

fn call_for(
    manager: &SessionManager,
    session: &SessionState,
    feedback: Option<String>,
    config: &WorkflowConfig,
    template: &str,
) -> (r: Result<PromptRequest, String>)
    ensures
        is_call(
            *manager,
            *session,
            opt_view(feedback),
            *config,
            template@,
            match r {
                Ok(request) => Ok(request),
                Err(text) => Err(text@),
            },
        ),
{
    let vars = plan_variables(manager, session, feedback);
    assert(are_plan_variables(vars@, *manager, *session, opt_view(feedback)));
    match planning_call(&vars, config, template) {
        Ok(request) => Ok(request),
        Err(e) => Err(e.message()),
    }
}

// ---------------------------------------------------------------------------
// New sessions
// ---------------------------------------------------------------------------

/// What the front end asks for.
#[derive(Debug)]
pub struct CreateOrder {
    pub input: String,
    pub base_dir: String,
    /// The identifiers of the sessions that there are.
    pub in_use: Vec<String>,
    /// What a plan is asked for with.
    pub template: String,
}

/// A session that is made.
#[derive(Debug)]
pub struct Draft {
    pub session: SessionState,
    pub config: WorkflowConfig,
    /// The text of the configuration.
    pub yaml: String,
}

/// Where the making of a session stands: what is done next, and whose outcome is awaited.
#[derive(Debug)]
pub enum CreateStage {
    /// The configuration is looked for.
    Resolve,
    /// The text of the configuration is parsed.
    Parse(String, ConfigSource),
    /// The session is written to disk.
    Create(Draft),
    /// The configuration is written beside the session.
    WriteConfig(Draft),
    /// The plan is asked for.
    Generate(SessionState, PromptRequest),
    /// The plan file is read.
    ReadPlan(SessionState, PromptResult),
    /// The plan is written to the plan file.
    WritePlan(SessionState, String),
    /// The session is deleted, whether that works or not; the making fails for the given reason.
    Delete(SessionState, String),
}

/// The outcome of what was done.
#[derive(Debug)]
pub enum CreateEvent {
    /// The text of the configuration and its source.
    Resolved(Result<(String, ConfigSource), CruiseError>),
    Parsed(Result<WorkflowConfig, String>),
    Created(Result<(), CruiseError>),
    Written(Result<(), String>),
    Prompted(Result<PromptResult, CruiseError>),
    Read(PlanFile),
    Deleted,
}

/// What follows.
#[derive(Debug)]
pub enum CreateNext {
    Go(CreateStage),
    /// The session with this identifier has a plan, or there is none for this reason.
    End(Result<String, String>),
}

/// What follows, and the event that is sent before.
#[derive(Debug)]
pub struct CreateStep {
    pub next: CreateNext,
    pub sent: Option<PlanEvent>,
}

/// Nothing is sent, and the making fails for the given reason.
pub open spec fn gives_up(r: CreateStep, text: Seq<char>) -> bool {
    &&& r.sent is None
    &&& r.next matches CreateNext::End(Err(m)) && m@ == text
}

/// Nothing is sent, and the session is deleted for the given reason.
pub open spec fn takes_back(r: CreateStep, session: SessionState, text: Seq<char>) -> bool {
    &&& r.sent is None
    &&& r.next matches CreateNext::Go(CreateStage::Delete(s, m)) && s == session && m@ == text
}

/// The plan of a new session is there.
pub open spec fn is_planned(r: CreateStep, session: SessionState, content: Seq<char>) -> bool {
    &&& r.sent matches Some(PlanEvent::PlanGenerated { content: shown }) && shown@ == content
    &&& r.next == CreateNext::End(Ok(session.id))
}

/// The plan of a new session is asked for.
pub open spec fn asks_for_plan(
    manager: SessionManager,
    template: Seq<char>,
    draft: Draft,
    r: CreateStep,
) -> bool {
    let call = match r.next {
        CreateNext::Go(CreateStage::Generate(_, request)) => Ok(request),
        CreateNext::Go(CreateStage::Delete(_, text)) => Err(text@),
        _ => Err(seq![]),
    };
    &&& r.sent == Some(PlanEvent::PlanGenerating)
    &&& is_call(manager, draft.session, None, draft.config, template, call)
    &&& match r.next {
        CreateNext::Go(CreateStage::Generate(session, _)) => session == draft.session,
        CreateNext::Go(CreateStage::Delete(session, _)) => session == draft.session,
        _ => false,
    }
}

/// The configuration is settled: the session is written, or the configuration breaks a rule.
pub open spec fn drafts(
    order: CreateOrder,
    yaml: String,
    source: ConfigSource,
    config: WorkflowConfig,
    r: CreateStep,
) -> bool {
    if !config_is_valid(config) {
        exists|m: Seq<char>| #[trigger]
            config_fault(config, m) && gives_up(r, "invalid step config: "@ + m)
    } else {
        &&& r.sent is None
        &&& r.next matches CreateNext::Go(CreateStage::Create(draft)) && draft.config == config
            && draft.yaml == yaml && is_new(draft.session, source, order.input@)
            && draft.session.base_dir@ == order.base_dir@ && !views(order.in_use@).contains(
            draft.session.id@,
        ) && (exists|t: SystemTime|
            is_free_id(draft.session.id@, #[trigger] seconds_at(t), views(order.in_use@)))
    }
}

/// `r` is what follows from the outcome of what was done at a stage. An outcome that is not
/// awaited changes nothing.
pub open spec fn makes(
    manager: SessionManager,
    order: CreateOrder,
    stage: CreateStage,
    event: CreateEvent,
    r: CreateStep,
) -> bool {
    match (stage, event) {
        (CreateStage::Resolve, CreateEvent::Resolved(found)) => match found {
            Err(e) => gives_up(r, e.message_spec()),
            Ok((yaml, source)) => r.sent is None && r.next == CreateNext::Go(
                CreateStage::Parse(yaml, source),
            ),
        },
        (CreateStage::Parse(yaml, source), CreateEvent::Parsed(parsed)) => match parsed {
            Err(e) => gives_up(r, "config parse error: "@ + e@),
            Ok(config) => drafts(order, yaml, source, config, r),
        },
        (CreateStage::Create(draft), CreateEvent::Created(created)) => match created {
            Err(e) => gives_up(r, e.message_spec()),
            Ok(_) => if draft.session.config_path is None {
                r.sent is None && r.next == CreateNext::Go(CreateStage::WriteConfig(draft))
            } else {
                asks_for_plan(manager, order.template@, draft, r)
            },
        },
        (CreateStage::WriteConfig(draft), CreateEvent::Written(written)) => match written {
            Err(e) => gives_up(r, "failed to write session config: "@ + e@),
            Ok(_) => asks_for_plan(manager, order.template@, draft, r),
        },
        (CreateStage::Generate(session, _), CreateEvent::Prompted(result)) => match result {
            Err(e) => takes_back(r, session, e.message_spec()),
            Ok(out) => r.sent is None && r.next == CreateNext::Go(
                CreateStage::ReadPlan(session, out),
            ),
        },
        (CreateStage::ReadPlan(session, out), CreateEvent::Read(file)) => match generated(
            plan_file(manager, session),
            Ok(out),
            file,
        ) {
            Err(text) => takes_back(r, session, text),
            Ok((content, true)) => {
                &&& r.sent is None
                &&& r.next matches CreateNext::Go(CreateStage::WritePlan(s, text)) && s == session
                    && text@ == content
            },
            Ok((content, false)) => is_planned(r, session, content),
        },
        (CreateStage::WritePlan(session, content), CreateEvent::Written(written)) => match written {
            Err(e) => takes_back(r, session, "failed to write plan: "@ + e@),
            Ok(_) => is_planned(r, session, content@),
        },
        (CreateStage::Delete(_, text), CreateEvent::Deleted) => {
            &&& r.sent == Some(PlanEvent::PlanFailed { error: text })
            &&& r.next == CreateNext::End(Err(text))
        },
        _ => r.sent is None && r.next == CreateNext::Go(stage),
    }
}

fn go(stage: CreateStage) -> (r: CreateStep)
    ensures
        r.sent is None && r.next == CreateNext::Go(stage),
{
    CreateStep { next: CreateNext::Go(stage), sent: None }
}

fn give_up(text: String) -> (r: CreateStep)
    ensures
        gives_up(r, text@),
{
    CreateStep { next: CreateNext::End(Err(text)), sent: None }
}

fn planned(session: SessionState, content: String) -> (r: CreateStep)
    ensures
        is_planned(r, session, content@),
{
    CreateStep {
        next: CreateNext::End(Ok(session.id)),
        sent: Some(PlanEvent::PlanGenerated { content }),
    }
}

fn ask_for_plan(manager: &SessionManager, template: &str, draft: Draft) -> (r: CreateStep)
    ensures
        asks_for_plan(*manager, template@, draft, r),
{
    let next = match call_for(manager, &draft.session, None, &draft.config, template) {
        Ok(request) => CreateStage::Generate(draft.session, request),
        Err(text) => CreateStage::Delete(draft.session, text),
    };
    CreateStep { next: CreateNext::Go(next), sent: Some(PlanEvent::PlanGenerating) }
}

fn draft(order: &CreateOrder, yaml: String, source: &ConfigSource, config: WorkflowConfig) -> (r:
    CreateStep)
    ensures
        drafts(*order, yaml, *source, config, r),
{
    match validate_groups(&config) {
        Ok(_) => {
            let mut in_use = clone_strings(&order.in_use);
            let session = new_session(
                SessionManager::new_session_id(&mut in_use),
                order.base_dir.clone(),
                source,
                order.input.as_str(),
            );
            go(CreateStage::Create(Draft { session, config, yaml }))
        },
        Err(e) => {
            assert(config_fault(config, e->InvalidStepConfig_0@));
            give_up(e.message())
        },
    }
}

/// What follows from the outcome of what was done at a stage: the configuration is found and
/// parsed; the session is written, with the configuration where that stands in no file; and the
/// plan is asked for. A session without a plan is deleted again.
pub fn advance_create(
    manager: &SessionManager,
    order: &CreateOrder,
    stage: CreateStage,
    event: CreateEvent,
) -> (r: CreateStep)
    ensures
        makes(*manager, *order, stage, event, r),
{
    match (stage, event) {
        (CreateStage::Resolve, CreateEvent::Resolved(found)) => match found {
            Ok((yaml, source)) => go(CreateStage::Parse(yaml, source)),
            Err(e) => give_up(e.message()),
        },
        (CreateStage::Parse(yaml, source), CreateEvent::Parsed(parsed)) => match parsed {
            Ok(config) => draft(order, yaml, &source, config),
            Err(e) => give_up("config parse error: ".to_owned().concat(e.as_str())),
        },
        (CreateStage::Create(draft), CreateEvent::Created(created)) => match created {
            Ok(_) => if draft.session.config_path.is_none() {
                go(CreateStage::WriteConfig(draft))
            } else {
                ask_for_plan(manager, order.template.as_str(), draft)
            },
            Err(e) => give_up(e.message()),
        },
        (CreateStage::WriteConfig(draft), CreateEvent::Written(written)) => match written {
            Ok(_) => ask_for_plan(manager, order.template.as_str(), draft),
            Err(e) => give_up("failed to write session config: ".to_owned().concat(e.as_str())),
        },
        (CreateStage::Generate(session, _), CreateEvent::Prompted(result)) => match result {
            Ok(out) => go(CreateStage::ReadPlan(session, out)),
            Err(e) => go(CreateStage::Delete(session, e.message())),
        },
        (CreateStage::ReadPlan(session, out), CreateEvent::Read(file)) => {
            let path = session.plan_path(manager.sessions_dir().as_str(), manager.windows());
            match after_generation(path.as_str(), Ok(out), file).0 {
                Ok(plan) => if plan.write {
                    go(CreateStage::WritePlan(session, plan.content))
                } else {
                    planned(session, plan.content)
                },
                Err(text) => go(CreateStage::Delete(session, text)),
            }
        },
        (CreateStage::WritePlan(session, content), CreateEvent::Written(written)) => match written {
            Ok(_) => planned(session, content),
            Err(e) => go(
                CreateStage::Delete(
                    session,
                    "failed to write plan: ".to_owned().concat(e.as_str()),
                ),
            ),
        },
        (CreateStage::Delete(_, text), CreateEvent::Deleted) => CreateStep {
            sent: Some(PlanEvent::PlanFailed { error: text.clone() }),
            next: CreateNext::End(Err(text)),
        },
        (stage, _) => go(stage),
    }
}

// ---------------------------------------------------------------------------
// Changed plans
// ---------------------------------------------------------------------------

/// What the front end asks for.
#[derive(Debug)]
pub struct FixOrder {
    pub session_id: String,
    /// What to change about the plan.
    pub feedback: String,
    /// What a changed plan is asked for with.
    pub template: String,
}

/// Where the change of a plan stands: what is done next, and whose outcome is awaited.
#[derive(Debug)]
pub enum FixStage {
    /// The session is loaded.
    Load,
    /// The configuration of the session is loaded.
    Configure(SessionState),
    /// The changed plan is asked for.
    Generate(SessionState, PromptRequest),
    /// The plan file is read.
    ReadPlan(SessionState, PromptResult),
    /// The plan is written to the plan file.
    WritePlan(SessionState, String),
    /// The session is saved, with the title of the plan.
    Save(SessionState, String),
}

/// The outcome of what was done.
#[derive(Debug)]
pub enum FixEvent {
    Loaded(Result<SessionState, CruiseError>),
    Configured(Result<WorkflowConfig, CruiseError>),
    Prompted(Result<PromptResult, CruiseError>),
    Read(PlanFile),
    Written(Result<(), String>),
    Saved(Result<(), CruiseError>),
}

/// What follows.
#[derive(Debug)]
pub enum FixNext {
    Go(FixStage),
    /// The plan is this one, or it was not changed for this reason.
    End(Result<String, String>),
}

/// What follows, and the event that is sent before.
#[derive(Debug)]
pub struct FixStep {
    pub next: FixNext,
    pub sent: Option<PlanEvent>,
}

/// Nothing is sent, and the change fails for the given reason.
pub open spec fn breaks_off(r: FixStep, text: Seq<char>) -> bool {
    &&& r.sent is None
    &&& r.next matches FixNext::End(Err(m)) && m@ == text
}

/// The front end is told that the change failed for the given reason.
pub open spec fn reports_failure(r: FixStep, text: Seq<char>) -> bool {
    &&& r.sent matches Some(PlanEvent::PlanFailed { error }) && error@ == text
    &&& r.next matches FixNext::End(Err(m)) && m@ == text
}

/// The session is saved with the title of the plan.
pub open spec fn saves_plan(r: FixStep, session: SessionState, content: Seq<char>) -> bool {
    &&& r.sent is None
    &&& r.next matches FixNext::Go(FixStage::Save(after, text)) && text@ == content && opt_view(
        after.title,
    ) == Some(title_of_plan(content)) && after == (SessionState { title: after.title, ..session })
}

/// `r` is what follows from the outcome of what was done at a stage. An outcome that is not
/// awaited changes nothing.
pub open spec fn mends(
    manager: SessionManager,
    order: FixOrder,
    stage: FixStage,
    event: FixEvent,
    r: FixStep,
) -> bool {
    match (stage, event) {
        (FixStage::Load, FixEvent::Loaded(loaded)) => match loaded {
            Err(e) => breaks_off(r, e.message_spec()),
            Ok(session) => r.sent == Some(PlanEvent::PlanGenerating) && r.next == FixNext::Go(
                FixStage::Configure(session),
            ),
        },
        (FixStage::Configure(session), FixEvent::Configured(loaded)) => match loaded {
            Err(e) => breaks_off(r, e.message_spec()),
            Ok(config) => {
                let call = match r.next {
                    FixNext::Go(FixStage::Generate(_, request)) => Ok(request),
                    FixNext::End(Err(text)) => Err(text@),
                    _ => Err(seq![]),
                };
                &&& is_call(
                    manager,
                    session,
                    Some(order.feedback@),
                    config,
                    order.template@,
                    call,
                )
                &&& match call {
                    Ok(request) => r.sent is None && r.next == FixNext::Go(
                        FixStage::Generate(session, request),
                    ),
                    Err(text) => reports_failure(r, text),
                }
            },
        },
        (FixStage::Generate(session, _), FixEvent::Prompted(result)) => match result {
            Err(e) => reports_failure(r, e.message_spec()),
            Ok(out) => r.sent is None && r.next == FixNext::Go(FixStage::ReadPlan(session, out)),
        },
        (FixStage::ReadPlan(session, out), FixEvent::Read(file)) => match generated(
            plan_file(manager, session),
            Ok(out),
            file,
        ) {
            Err(text) => reports_failure(r, text),
            Ok((content, true)) => {
                &&& r.sent is None
                &&& r.next matches FixNext::Go(FixStage::WritePlan(s, text)) && s == session
                    && text@ == content
            },
            Ok((content, false)) => saves_plan(r, session, content),
        },
        (FixStage::WritePlan(session, content), FixEvent::Written(written)) => match written {
            Err(e) => reports_failure(r, "failed to write plan: "@ + e@),
            Ok(_) => saves_plan(r, session, content@),
        },
        (FixStage::Save(_, content), FixEvent::Saved(saved)) => match saved {
            Err(e) => breaks_off(r, e.message_spec()),
            Ok(_) => {
                &&& r.sent == Some(PlanEvent::PlanGenerated { content })
                &&& r.next == FixNext::End(Ok(content))
            },
        },
        _ => r.sent is None && r.next == FixNext::Go(stage),
    }
}

fn carry_on(stage: FixStage) -> (r: FixStep)
    ensures
        r.sent is None && r.next == FixNext::Go(stage),
{
    FixStep { next: FixNext::Go(stage), sent: None }
}

fn break_off(e: &CruiseError) -> (r: FixStep)
    ensures
        breaks_off(r, e.message_spec()),
{
    FixStep { next: FixNext::End(Err(e.message())), sent: None }
}

fn report_failure(text: String) -> (r: FixStep)
    ensures
        reports_failure(r, text@),
{
    FixStep {
        sent: Some(PlanEvent::PlanFailed { error: text.clone() }),
        next: FixNext::End(Err(text)),
    }
}

fn save_plan(session: SessionState, content: String) -> (r: FixStep)
    ensures
        saves_plan(r, session, content@),
{
    let mut session = session;
    refresh_session_title_from_plan(&mut session, content.as_str());
    carry_on(FixStage::Save(session, content))
}

/// What follows from the outcome of what was done at a stage: the session and its configuration
/// are loaded; the changed plan is asked for; and the session is saved with the title of the
/// plan. A session whose plan was not changed stays as it is.
pub fn advance_fix(manager: &SessionManager, order: &FixOrder, stage: FixStage, event: FixEvent)
    -> (r: FixStep)
    ensures
        mends(*manager, *order, stage, event, r),
{
    match (stage, event) {
        (FixStage::Load, FixEvent::Loaded(loaded)) => match loaded {
            Ok(session) => FixStep {
                next: FixNext::Go(FixStage::Configure(session)),
                sent: Some(PlanEvent::PlanGenerating),
            },
            Err(e) => break_off(&e),
        },
        (FixStage::Configure(session), FixEvent::Configured(loaded)) => match loaded {
            Ok(config) => match call_for(
                manager,
                &session,
                Some(order.feedback.clone()),
                &config,
                order.template.as_str(),
            ) {
                Ok(request) => carry_on(FixStage::Generate(session, request)),
                Err(text) => report_failure(text),
            },
            Err(e) => break_off(&e),
        },
        (FixStage::Generate(session, _), FixEvent::Prompted(result)) => match result {
            Ok(out) => carry_on(FixStage::ReadPlan(session, out)),
            Err(e) => report_failure(e.message()),
        },
        (FixStage::ReadPlan(session, out), FixEvent::Read(file)) => {
            let path = session.plan_path(manager.sessions_dir().as_str(), manager.windows());
            match after_generation(path.as_str(), Ok(out), file).0 {
                Ok(plan) => if plan.write {
                    carry_on(FixStage::WritePlan(session, plan.content))
                } else {
                    save_plan(session, plan.content)
                },
                Err(text) => report_failure(text),
            }
        },
        (FixStage::WritePlan(session, content), FixEvent::Written(written)) => match written {
            Ok(_) => save_plan(session, content),
            Err(e) => report_failure("failed to write plan: ".to_owned().concat(e.as_str())),
        },
        (FixStage::Save(_, content), FixEvent::Saved(saved)) => match saved {
            Ok(_) => FixStep {
                sent: Some(PlanEvent::PlanGenerated { content: content.clone() }),
                next: FixNext::End(Ok(content)),
            },
            Err(e) => break_off(&e),
        },
        (stage, _) => carry_on(stage),
    }
}

// ---------------------------------------------------------------------------
// Laws
// ---------------------------------------------------------------------------

/// The outcome is that of what is done at the stage of the making of a session.
pub open spec fn is_awaited(stage: CreateStage, event: CreateEvent) -> bool {
    match stage {
        CreateStage::Resolve => event is Resolved,
        CreateStage::Parse(_, _) => event is Parsed,
        CreateStage::Create(_) => event is Created,
        CreateStage::WriteConfig(_) => event is Written,
        CreateStage::Generate(_, _) => event is Prompted,
        CreateStage::ReadPlan(_, _) => event is Read,
        CreateStage::WritePlan(_, _) => event is Written,
        CreateStage::Delete(_, _) => event is Deleted,
    }
}

/// How many outcomes can follow from a stage of the making of a session on, at most.
pub open spec fn stages_left(stage: CreateStage) -> int {
    match stage {
        CreateStage::Resolve => 8,
        CreateStage::Parse(_, _) => 7,
        CreateStage::Create(_) => 6,
        CreateStage::WriteConfig(_) => 5,
        CreateStage::Generate(_, _) => 4,
        CreateStage::ReadPlan(_, _) => 3,
        CreateStage::WritePlan(_, _) => 2,
        CreateStage::Delete(_, _) => 1,
    }
}

/// The making of a session ends: each outcome leaves fewer to follow.
pub proof fn law_creating_ends(
    manager: SessionManager,
    order: CreateOrder,
    stage: CreateStage,
    event: CreateEvent,
    r: CreateStep,
)
    requires
        makes(manager, order, stage, event, r),
        is_awaited(stage, event),
    ensures
        stages_left(stage) > 0,
        r.next matches CreateNext::Go(next) ==> stages_left(next) < stages_left(stage),
{
}

/// A session that was written to disk stays there only with a plan: once its plan is asked for,
/// the making ends well, with the plan sent to the front end, or the session is deleted first and
/// the front end is told why.
pub proof fn law_no_session_stays_without_a_plan(
    manager: SessionManager,
    order: CreateOrder,
    stage: CreateStage,
    event: CreateEvent,
    r: CreateStep,
)
    requires
        makes(manager, order, stage, event, r),
        is_awaited(stage, event),
        stages_left(stage) <= 4,
    ensures
        r.next matches CreateNext::End(Ok(_)) ==> r.sent matches Some(
            PlanEvent::PlanGenerated { .. },
        ),
        r.next matches CreateNext::End(Err(text)) ==> stage is Delete && r.sent == Some(
            PlanEvent::PlanFailed { error: text },
        ),
{
}

/// A plan that was changed leaves the session as it was, but for its title.
pub proof fn law_fixing_keeps_the_session(
    manager: SessionManager,
    order: FixOrder,
    stage: FixStage,
    event: FixEvent,
    r: FixStep,
)
    requires
        mends(manager, order, stage, event, r),
    ensures
        (stage matches FixStage::ReadPlan(session, _) && r.next matches FixNext::Go(
            FixStage::Save(after, _),
        )) ==> r.next->Go_0->Save_0 == (SessionState {
            title: r.next->Go_0->Save_0.title,
            ..stage->ReadPlan_0
        }),
        (stage matches FixStage::WritePlan(session, _) && r.next matches FixNext::Go(
            FixStage::Save(after, _),
        )) ==> r.next->Go_0->Save_0 == (SessionState {
            title: r.next->Go_0->Save_0.title,
            ..stage->WritePlan_0
        }),
{
}

} // verus!
