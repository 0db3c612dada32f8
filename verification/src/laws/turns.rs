//! What follows from what, in the talks with the user and in the runs of sessions.

use vstd::prelude::*;

use crate::config::{step_list, validate_groups, WorkflowConfig};
use crate::engine::ExecutionResult;
use crate::error::CruiseError;
use crate::gui::events::{PlanEvent, WorkflowEvent};
use crate::gui::planning::{
    advance_create, advance_fix, CreateEvent, CreateNext, CreateOrder, CreateStage, CreateStep,
    FixEvent, FixNext, FixOrder, FixStage, FixStep,
};
use crate::gui::session_run::{advance_gui_run, GuiEvent, GuiNext, GuiStage, Underway};
use crate::list_talk::{advance_list, ListEvent, ListNext, ListStage, ListStep, Opened};
use crate::metadata::{derive_session_title, PlanFile};
use crate::multiline_input::InputResult;
use crate::plan_start::{
    advance_making, advance_outline, first_make_stage, MakeEvent, MakeNext, MakeStage, MakeStep,
    Making, Outline, OutlineEvent, OutlineNext, OutlineStage, OutlineStep,
};
use crate::plan_talk::{
    advance_talk, TalkEvent, TalkNext, TalkStage, TalkStep, TalkTemplates,
};
use crate::resolver::ConfigSource;
use crate::run_cmd::pull_request::{ensure_gh_available, ToolReply};
use crate::run_cmd::single_run::{
    advance_run, Begun, Placed, Ready, RunEvent, RunNext, RunOrder, RunStage, RunStep,
};
use crate::session::{SessionManager, SessionState, WorkspaceMode};
use crate::step::prompt::PromptResult;
use crate::step_run::PromptRequest;
use crate::text::{is_blank, opt_view, trim, views};
use crate::variable::VariableStore;
use crate::workflow::CompiledWorkflow;
use crate::workspace::{ExecutionWorkspace, RepoState};

verus! {

// ---------------------------------------------------------------------------
// The list of sessions
// ---------------------------------------------------------------------------

/// The sessions are shown in the order of their identifiers; without any the list ends, and says so.
pub proof fn law_the_list_is_shown_in_order(
    manager: &SessionManager,
    sessions: Vec<SessionState>,
    sorted: Vec<SessionState>,
    r: ListStep,
)
    requires
        call_ensures(SessionManager::list, (manager, &sessions), sorted),
        call_ensures(advance_list, (manager, ListStage::Load, ListEvent::Loaded(Ok(sessions))), r),
    ensures
        sessions@.len() == 0 ==> r.next == ListNext::End(Ok(())) && r.said is Some,
        sessions@.len() > 0 ==> (r.next matches ListNext::Go(ListStage::Pick(shown))
            && shown@ == sorted@),
{
}

/// The session that was picked is looked at; without one the list ends.
pub proof fn law_the_list_ends_without_a_choice(
    manager: &SessionManager,
    sessions: Vec<SessionState>,
    picked: Option<SessionState>,
    r: ListStep,
)
    requires
        call_ensures(advance_list, (manager, ListStage::Pick(sessions),
            ListEvent::Picked(Ok(picked))), r),
    ensures
        picked matches Some(s) ==> r.next == ListNext::Go(ListStage::Menu(s)),
        picked is None ==> r.next == ListNext::End(Ok(())),
{
}

/// A session that was approved is saved as planned, and looked at again once it was saved.
pub proof fn law_approved_sessions_are_saved_from_the_list(
    manager: &SessionManager,
    session: SessionState,
    read: Result<String, String>,
    saved: Result<(), CruiseError>,
    r: ListStep,
    s: ListStep,
)
    requires
        call_ensures(advance_list, (manager, ListStage::ReadPlan(session),
            ListEvent::Read(read)), r),
        call_ensures(advance_list, (manager, ListStage::SaveApproved(session),
            ListEvent::Saved(saved)), s),
    ensures
        r.next matches ListNext::Go(ListStage::SaveApproved(after)) && after.phase is Planned
            && after == (SessionState { phase: after.phase, title: after.title, ..session }),
        saved is Ok ==> s.next == ListNext::Go(ListStage::Menu(session)),
        saved matches Err(e) ==> s.next == ListNext::End(Err(e)),
{
}

/// A session that was reset is looked at again; one that was deleted is not, and the list is shown.
pub proof fn law_deleted_sessions_are_left(
    manager: &SessionManager,
    session: SessionState,
    done: Result<(), CruiseError>,
    r: ListStep,
    s: ListStep,
)
    requires
        call_ensures(advance_list, (manager, ListStage::SaveReset(session),
            ListEvent::Saved(done)), r),
        call_ensures(advance_list, (manager, ListStage::Delete(session),
            ListEvent::Deleted(done)), s),
    ensures
        done is Ok ==> r.next == ListNext::Go(ListStage::Menu(session))
            && s.next == ListNext::Go(ListStage::Load),
        done matches Err(e) ==> r.next == ListNext::End(Err(e)) && s.next == ListNext::End(Err(e)),
{
}

/// A plan is made again with what the user typed; a cancelled text leads back. The session is loaded
/// again after that.
pub proof fn law_plans_are_made_again_from_the_list(
    manager: &SessionManager,
    session: SessionState,
    text: String,
    r: ListStep,
    back: ListStep,
    s: ListStep,
    t: ListStep,
    now: SessionState,
)
    requires
        call_ensures(advance_list, (manager, ListStage::AskChanges(session),
            ListEvent::Typed(Ok(InputResult::Submitted(text)))), r),
        call_ensures(advance_list, (manager, ListStage::AskChanges(session),
            ListEvent::Typed(Ok(InputResult::Cancelled))), back),
        call_ensures(advance_list, (manager, ListStage::Replan(session, text),
            ListEvent::Replanned(Ok(()))), s),
        call_ensures(advance_list, (manager, ListStage::Reload(session.id),
            ListEvent::Reloaded(Ok(now))), t),
    ensures
        r.next == ListNext::Go(ListStage::Replan(session, text)),
        back.next == ListNext::Go(ListStage::Menu(session)),
        s.next == ListNext::Go(ListStage::Reload(session.id)),
        t.next == ListNext::Go(ListStage::Menu(now)),
{
}

/// After its pull request was opened, or was not, the session is looked at again.
pub proof fn law_opened_requests_lead_back(
    manager: &SessionManager,
    session: SessionState,
    url: String,
    opened: Opened,
    r: ListStep,
)
    requires
        call_ensures(advance_list, (manager, ListStage::OpenPr(session, url),
            ListEvent::Opened(opened)), r),
    ensures
        r.next == ListNext::Go(ListStage::Menu(session)),
        r.said is Some,
{
}

// ---------------------------------------------------------------------------
// Talks about plans
// ---------------------------------------------------------------------------

/// A first plan that holds anything is shown; without one the session is discarded.
pub proof fn law_first_plans_are_shown(
    path: &str,
    compiled: &CompiledWorkflow,
    templates: &TalkTemplates,
    vars: &mut VariableStore,
    session: &mut SessionState,
    read: Result<String, String>,
    r: TalkStep,
)
    requires
        call_ensures(advance_talk, (path, compiled, templates, TalkStage::ReadFirst,
            TalkEvent::Read(read), vars, session), r),
    ensures
        *final(session) == *old(session),
        read matches Ok(plan) ==> (!is_blank(plan@)
            ==> r.next == TalkNext::Go(TalkStage::Menu(plan))),
        read is Err || is_blank(read->Ok_0@)
            ==> (r.next matches TalkNext::Go(TalkStage::Discard(why)) && why is Some),
{
}

/// A changed plan that holds anything is shown; without one the talk ends with an error, and the
/// session stays.
pub proof fn law_changed_plans_are_shown(
    path: &str,
    compiled: &CompiledWorkflow,
    templates: &TalkTemplates,
    vars: &mut VariableStore,
    session: &mut SessionState,
    read: Result<String, String>,
    r: TalkStep,
)
    requires
        call_ensures(advance_talk, (path, compiled, templates, TalkStage::ReadAgain,
            TalkEvent::Read(read), vars, session), r),
    ensures
        *final(session) == *old(session),
        read matches Ok(plan) ==> (!is_blank(plan@)
            ==> r.next == TalkNext::Go(TalkStage::Menu(plan))),
        read is Err || is_blank(read->Ok_0@) ==> (r.next matches TalkNext::End(Err(_))),
{
}

/// After an answer the same plan is shown again, and the answer is found by the prompts that follow.
pub proof fn law_answers_lead_back_to_the_plan(
    path: &str,
    compiled: &CompiledWorkflow,
    templates: &TalkTemplates,
    vars: &mut VariableStore,
    session: &mut SessionState,
    request: PromptRequest,
    plan: String,
    out: PromptResult,
    r: TalkStep,
)
    requires
        call_ensures(advance_talk, (path, compiled, templates, TalkStage::Answer(request, plan),
            TalkEvent::Prompted(Ok(out)), vars, session), r),
    ensures
        r.next == TalkNext::Go(TalkStage::Menu(plan)),
        final(vars)@.prev_output == Some(out.output@),
        *final(session) == *old(session),
{
}

/// A text that was cancelled leads back to the plan that was shown.
pub proof fn law_cancelled_texts_lead_back_to_the_plan(
    path: &str,
    compiled: &CompiledWorkflow,
    templates: &TalkTemplates,
    vars: &mut VariableStore,
    session: &mut SessionState,
    plan: String,
    changes: bool,
    r: TalkStep,
)
    requires
        changes ==> call_ensures(advance_talk, (path, compiled, templates,
            TalkStage::AskChanges(plan), TalkEvent::Typed(Ok(InputResult::Cancelled)), vars,
            session), r),
        !changes ==> call_ensures(advance_talk, (path, compiled, templates,
            TalkStage::AskQuestion(plan), TalkEvent::Typed(Ok(InputResult::Cancelled)), vars,
            session), r),
    ensures
        r.next == TalkNext::Go(TalkStage::Menu(plan)),
        *final(session) == *old(session) && final(vars)@ == old(vars)@,
{
}

/// A prompt that failed ends the talk with its error.
pub proof fn law_failed_prompts_end_the_talk(
    path: &str,
    compiled: &CompiledWorkflow,
    templates: &TalkTemplates,
    vars: &mut VariableStore,
    session: &mut SessionState,
    request: PromptRequest,
    e: CruiseError,
    r: TalkStep,
)
    requires
        call_ensures(advance_talk, (path, compiled, templates, TalkStage::Fix(request),
            TalkEvent::Prompted(Err(e)), vars, session), r),
    ensures
        r.next == TalkNext::End(Err(e)),
        *final(session) == *old(session) && final(vars)@ == old(vars)@,
{
}

/// An approved session is left once it was saved, and run where the user said so.
pub proof fn law_saved_sessions_are_left_or_run(
    path: &str,
    compiled: &CompiledWorkflow,
    templates: &TalkTemplates,
    vars: &mut VariableStore,
    session: &mut SessionState,
    now: bool,
    saved: Result<(), CruiseError>,
    r: TalkStep,
)
    requires
        now ==> call_ensures(advance_talk, (path, compiled, templates, TalkStage::SaveAndRun,
            TalkEvent::Saved(saved), vars, session), r),
        !now ==> call_ensures(advance_talk, (path, compiled, templates, TalkStage::Save,
            TalkEvent::Saved(saved), vars, session), r),
    ensures
        saved is Ok && now ==> r.next is Run,
        saved is Ok && !now ==> r.next == TalkNext::End(Ok(())),
        saved matches Err(e) ==> r.next == TalkNext::End(Err(e)),
        *final(session) == *old(session),
{
}

/// A discarded session ends the talk with the reason for which it was discarded, if there is one.
pub proof fn law_discarded_sessions_end_the_talk(
    path: &str,
    compiled: &CompiledWorkflow,
    templates: &TalkTemplates,
    vars: &mut VariableStore,
    session: &mut SessionState,
    why: Option<CruiseError>,
    deleted: Result<(), CruiseError>,
    r: TalkStep,
)
    requires
        call_ensures(advance_talk, (path, compiled, templates, TalkStage::Discard(why),
            TalkEvent::Deleted(deleted), vars, session), r),
    ensures
        why matches Some(e) ==> r.next == TalkNext::End(Err(e)),
        why is None ==> r.next == TalkNext::End(deleted),
{
}

// ---------------------------------------------------------------------------
// New sessions
// ---------------------------------------------------------------------------

/// A workflow that was found is used for the input that is entered; a plan that is only talked of ends
/// there.
pub proof fn law_plans_need_a_workflow_and_an_input(
    dry_run: bool,
    yaml: String,
    source: ConfigSource,
    input: String,
    r: OutlineStep,
    s: OutlineStep,
)
    requires
        call_ensures(advance_outline, (dry_run, OutlineStage::Resolve,
            OutlineEvent::Resolved(Ok((yaml, source)))), r),
        call_ensures(advance_outline, (dry_run, OutlineStage::ReadInput(yaml, source),
            OutlineEvent::Entered(Ok(input))), s),
    ensures
        r.next == OutlineNext::Go(OutlineStage::ReadInput(yaml, source)),
        dry_run ==> s.next == OutlineNext::End(Ok(())),
        !dry_run ==> s.next == OutlineNext::Go(OutlineStage::Parse(yaml, source, input)),
{
}

/// A session is made with the workflow and the input that were found, if the workflow is valid.
pub proof fn law_valid_workflows_make_sessions(
    dry_run: bool,
    yaml: String,
    source: ConfigSource,
    input: String,
    config: WorkflowConfig,
    checked: Result<(), CruiseError>,
    r: OutlineStep,
)
    requires
        call_ensures(validate_groups, (&config,), checked),
        call_ensures(advance_outline, (dry_run, OutlineStage::Parse(yaml, source, input),
            OutlineEvent::Parsed(Ok(config))), r),
    ensures
        checked is Ok ==> (r.next matches OutlineNext::Make(o) && o.input == input
            && o.yaml == yaml && o.source == source && o.compiled.steps == config.steps
            && o.compiled.command == config.command),
        checked is Err ==> (r.next matches OutlineNext::End(Err(_))),
{
    super::workflows::lemma_checked_or_not(config, checked);
}

/// An error on the way to a session ends it.
pub proof fn law_errors_end_the_outline(
    dry_run: bool,
    yaml: String,
    source: ConfigSource,
    input: String,
    e: CruiseError,
    r: OutlineStep,
    s: OutlineStep,
    t: OutlineStep,
)
    requires
        call_ensures(advance_outline, (dry_run, OutlineStage::Resolve,
            OutlineEvent::Resolved(Err(e))), r),
        call_ensures(advance_outline, (dry_run, OutlineStage::ReadInput(yaml, source),
            OutlineEvent::Entered(Err(e))), s),
        call_ensures(advance_outline, (dry_run, OutlineStage::Parse(yaml, source, input),
            OutlineEvent::Parsed(Err(e))), t),
    ensures
        r.next == OutlineNext::End(Err(e)) && s.next == OutlineNext::End(Err(e))
            && t.next == OutlineNext::End(Err(e)),
{
}

/// A new session has the input of the outline, an identifier that none had, and the workflow that was
/// found.
pub proof fn law_new_sessions_get_new_identifiers(
    outline: Outline,
    base_dir: String,
    in_use: &mut Vec<String>,
    r: MakeStage,
)
    requires
        call_ensures(first_make_stage, (outline, base_dir, in_use), r),
    ensures
        r matches MakeStage::Create(m) && m.session.input@ == trim(outline.input@)
            && m.session.base_dir == base_dir && m.session.phase is AwaitingApproval
            && m.session.config_path == outline.source.path_spec()
            && m.compiled == outline.compiled && m.yaml == outline.yaml
            && !views(old(in_use)@).contains(m.session.id@)
            && views(final(in_use)@) == views(old(in_use)@).push(m.session.id@),
{
}

/// A workflow that stands in no file is written beside the session before its plan is asked for; then,
/// and where it does, the plan is asked for with the model for plans.
pub proof fn law_workflows_are_written_before_plans_are_asked_for(
    manager: &SessionManager,
    template: &str,
    making: Making,
    r: MakeStep,
    s: MakeStep,
)
    requires
        call_ensures(advance_making, (manager, template, MakeStage::Create(making),
            MakeEvent::Created(Ok(()))), r),
        call_ensures(advance_making, (manager, template, MakeStage::WriteConfig(making),
            MakeEvent::Written(Ok(()))), s),
    ensures
        making.session.config_path is None
            ==> r.next == MakeNext::Go(MakeStage::WriteConfig(making)),
        making.session.config_path is Some
            ==> (r.next matches MakeNext::Go(MakeStage::Generate(m, vars, request))
            && m == making) || r.next is Fail,
        (s.next matches MakeNext::Go(MakeStage::Generate(m, vars, request)) && m == making
            && vars@.input == making.session.input@
            && vars@.expand(template@) == Ok::<Seq<char>, Seq<char>>(request.prompt@))
            || s.next is Fail,
{
}

/// A plan that was made is talked about; one that could not be made fails.
pub proof fn law_made_plans_are_talked_about(
    manager: &SessionManager,
    template: &str,
    making: Making,
    vars: VariableStore,
    request: PromptRequest,
    result: Result<PromptResult, CruiseError>,
    r: MakeStep,
)
    requires
        call_ensures(advance_making, (manager, template, MakeStage::Generate(making, vars,
            request), MakeEvent::Prompted(result)), r),
    ensures
        result is Ok ==> r.next == MakeNext::Talk(making, vars),
        result matches Err(e) ==> r.next == MakeNext::Fail(e),
{
}

// ---------------------------------------------------------------------------
// Stages of runs
// ---------------------------------------------------------------------------

/// A run that only shows what would be run ends at once; a workflow that is not valid ends any run.
pub proof fn law_dry_runs_end_at_once(
    order: &RunOrder,
    b: Begun,
    config: WorkflowConfig,
    checked: Result<(), CruiseError>,
    r: RunStep,
)
    requires
        call_ensures(validate_groups, (&config,), checked),
        call_ensures(advance_run, (order, RunStage::Configure(b),
            RunEvent::Configured(Ok(config))), r),
    ensures
        checked is Ok && order.dry_run ==> r.next == RunNext::End(Ok(())) && r.printed is Some,
        checked is Err ==> (r.next matches RunNext::End(Err(_))),
        checked is Ok && !order.dry_run ==> r.printed is None && r.next != RunNext::End(Ok(())),
{
    super::workflows::lemma_checked_or_not(config, checked);
}

/// A run that is to be made works in a worktree where that is forced; otherwise the user is asked for
/// a session that has not begun and would work in one, and any other one goes on where it works.
pub proof fn law_runs_are_taken_up(
    order: &RunOrder,
    b: Begun,
    config: WorkflowConfig,
    checked: Result<(), CruiseError>,
    r: RunStep,
)
    requires
        call_ensures(validate_groups, (&config,), checked),
        checked is Ok && !order.dry_run,
        call_ensures(
            advance_run,
            (order, RunStage::Configure(b), RunEvent::Configured(Ok(config))),
            r,
        ),
    ensures
        order.workspace is ForceWorktree ==> (r.next matches RunNext::Go(RunStage::FindGh(next, c))
            && next.session.workspace_mode == WorkspaceMode::Worktree && next.session.id
            == b.session.id && c.steps == config.steps),
        order.workspace is RespectSession && b.session.current_step is None
            && b.session.workspace_mode == WorkspaceMode::Worktree ==> (r.next matches RunNext::Go(
            RunStage::AskMode(same, c),
        ) && same == b && c.steps == config.steps),
        order.workspace is RespectSession && b.session.current_step is Some
            && b.session.workspace_mode == WorkspaceMode::Worktree ==> (r.next matches RunNext::Go(
            RunStage::FindGh(same, c),
        ) && same.session == b.session && c.steps == config.steps),
        order.workspace is RespectSession && b.session.current_step is Some
            && b.session.workspace_mode == WorkspaceMode::CurrentBranch ==> (
        r.next matches RunNext::Go(RunStage::EnterBase(ready)) && ready.begun.session == b.session
            && Some(ready.start@) == opt_view(b.session.current_step)),
{
    super::workflows::lemma_checked_or_not(config, checked);
}

/// A run in a worktree needs `gh`; where it is there the run is set off from the step that its session
/// stopped at, or else from the first one.
pub proof fn law_runs_are_set_off_where_they_stopped(
    order: &RunOrder,
    b: Begun,
    compiled: CompiledWorkflow,
    reply: ToolReply,
    there: Result<(), CruiseError>,
    r: RunStep,
)
    requires
        call_ensures(ensure_gh_available, (&reply,), there),
        compiled.list().len() > 0,
        call_ensures(advance_run, (order, RunStage::FindGh(b, compiled),
            RunEvent::Replied(reply)), r),
    ensures
        there is Err ==> (r.next matches RunNext::End(Err(_))),
        there is Ok ==> (r.next matches RunNext::Go(RunStage::EnterBase(ready))
            && ready.begun == b && ready.compiled == compiled
            && (b.session.current_step matches Some(step) ==> ready.start@ == step@)
            && (b.session.current_step is None ==> ready.start@ == compiled.list()[0].0)),
{
}

/// On the current branch a run goes on exactly where its session may work there; it is then saved as
/// running on that branch, without a worktree.
pub proof fn law_runs_on_the_current_branch(
    order: &RunOrder,
    ready: Ready,
    repo: RepoState,
    r: RunStep,
    branch: String,
)
    requires
        repo.branch == Some(branch),
        call_ensures(advance_run, (order, RunStage::Inspect(ready),
            RunEvent::Inspected(Ok(repo))), r),
    ensures
        (ready.begun.session.target_branch matches Some(t) && t@ != branch@)
            ==> (r.next matches RunNext::End(Err(_))),
        ready.begun.session.current_step is None && repo.dirty
            ==> (r.next matches RunNext::End(Err(_))),
        !(ready.begun.session.target_branch matches Some(t) && t@ != branch@) && (repo.dirty
            ==> ready.begun.session.current_step is Some)
            ==> (r.next matches RunNext::Go(RunStage::SaveStart(p))
            && p.begun.session.phase is Running
            && p.begun.session.target_branch == Some(branch)
            && p.begun.session.worktree_path is None && p.workspace is CurrentBranch
            && p.start == ready.start),
{
}

/// A run whose directory was entered is executed, and that is written to its log; one whose was not ends.
pub proof fn law_entered_runs_are_executed(
    order: &RunOrder,
    p: Placed,
    entered: Result<(), String>,
    r: RunStep,
)
    requires
        call_ensures(advance_run, (order, RunStage::EnterWorkspace(p),
            RunEvent::Entered(entered)), r),
    ensures
        entered is Ok ==> r.next == RunNext::Go(RunStage::Execute(p)) && r.logged is Some,
        entered is Err ==> (r.next matches RunNext::End(Err(_))),
{
}

/// The session that was chosen is loaded.
pub proof fn law_chosen_sessions_are_loaded(
    order: &RunOrder,
    chosen: Result<String, CruiseError>,
    r: RunStep,
)
    requires
        call_ensures(advance_run, (order, RunStage::Choose, RunEvent::Chosen(chosen)), r),
    ensures
        chosen matches Ok(id) ==> r.next == RunNext::Go(RunStage::Load(id)),
        chosen matches Err(e) ==> r.next == RunNext::End(Err(e)),
{
}

// ---------------------------------------------------------------------------
// Runs for the front end
// ---------------------------------------------------------------------------

/// A session that has not begun is set off where the front end asked for, from its first step; any
/// other one where it worked, from the step it stopped at.
pub proof fn law_front_end_runs_are_set_off(
    requested: WorkspaceMode,
    session: SessionState,
    config: WorkflowConfig,
    checked: Result<(), CruiseError>,
    r: GuiNext,
)
    requires
        call_ensures(validate_groups, (&config,), checked),
        call_ensures(
            advance_gui_run,
            (requested, GuiStage::Configure(session), GuiEvent::Configured(Ok(config))),
            r,
        ),
    ensures
        checked is Err ==> (r matches GuiNext::End(Err(_))),
        checked is Ok && session.current_step is None && step_list(config.steps).len() > 0 ==> {
            &&& requested == WorkspaceMode::Worktree ==> (r matches GuiNext::Go(
                GuiStage::CheckOut(u),
            ) && u.session.workspace_mode == requested && u.start@ == step_list(config.steps)[0].0)
            &&& requested == WorkspaceMode::CurrentBranch ==> (r matches GuiNext::Go(
                GuiStage::Inspect(u),
            ) && u.session.workspace_mode == requested && u.start@ == step_list(config.steps)[0].0)
        },
        checked is Ok ==> (session.current_step matches Some(step) ==> {
            &&& session.workspace_mode == WorkspaceMode::Worktree ==> (r matches GuiNext::Go(
                GuiStage::CheckOut(u),
            ) && u.session == session && u.start@ == step@)
            &&& session.workspace_mode == WorkspaceMode::CurrentBranch ==> (r matches GuiNext::Go(
                GuiStage::Inspect(u),
            ) && u.session == session && u.start@ == step@)
        }),
{
    super::workflows::lemma_checked_or_not(config, checked);
}

/// On the current branch a run goes on exactly where its session may work there.
pub proof fn law_front_end_runs_on_the_current_branch(
    requested: WorkspaceMode,
    u: Underway,
    repo: RepoState,
    branch: String,
    r: GuiNext,
)
    requires
        repo.branch == Some(branch),
        call_ensures(advance_gui_run, (requested, GuiStage::Inspect(u),
            GuiEvent::Inspected(Ok(repo))), r),
    ensures
        (u.session.target_branch matches Some(t) && t@ != branch@)
            || (u.session.current_step is None && repo.dirty) ==> (r matches GuiNext::End(Err(_))),
        !(u.session.target_branch matches Some(t) && t@ != branch@) && (repo.dirty
            ==> u.session.current_step is Some)
            ==> (r matches GuiNext::Go(GuiStage::SaveStart(next, w))
            && next.session.phase is Running && next.session.target_branch == Some(branch)
            && next.session.worktree_path is None && w is CurrentBranch && next.start == u.start),
{
}

/// A run is executed once its session was saved, and its session is loaded again afterwards.
pub proof fn law_front_end_runs_are_executed_once_saved(
    requested: WorkspaceMode,
    u: Underway,
    w: ExecutionWorkspace,
    result: Result<ExecutionResult, CruiseError>,
    cancelled: bool,
    r: GuiNext,
    s: GuiNext,
)
    requires
        call_ensures(advance_gui_run, (requested, GuiStage::SaveStart(u, w),
            GuiEvent::Saved(Ok(()))), r),
        call_ensures(advance_gui_run, (requested, GuiStage::Execute(u, w),
            GuiEvent::Executed { result, cancelled }), s),
    ensures
        r == GuiNext::Go(GuiStage::Execute(u, w)),
        s == GuiNext::Go(GuiStage::Reload(u.session, result, cancelled)),
{
}

/// A run ends with the phase of its session; that it could not be saved is an error, unless the run
/// failed anyway.
pub proof fn law_front_end_runs_end_with_their_phase(
    requested: WorkspaceMode,
    session: SessionState,
    sent: WorkflowEvent,
    saved: Result<(), CruiseError>,
    r: GuiNext,
)
    requires
        call_ensures(advance_gui_run, (requested, GuiStage::SaveEnd(session, sent),
            GuiEvent::Saved(saved)), r),
    ensures
        saved is Ok || session.phase is Failed ==> r == GuiNext::End(Ok(session.phase)),
        saved is Err && !(session.phase is Failed) ==> (r matches GuiNext::End(Err(_))),
{
}

/// A session that cannot be found again ends as it was when it was begun.
pub proof fn law_lost_sessions_end_as_begun(
    requested: WorkspaceMode,
    before: SessionState,
    result: Result<ExecutionResult, CruiseError>,
    cancelled: bool,
    r: GuiNext,
)
    requires
        call_ensures(advance_gui_run, (requested, GuiStage::Reload(before, result, cancelled),
            GuiEvent::Reloaded(None)), r),
    ensures
        r matches GuiNext::Go(GuiStage::SaveEnd(after, sent)) && after.id == before.id
            && after.current_step == before.current_step && after.input == before.input,
{
}

// ---------------------------------------------------------------------------
// Plans for the front end
// ---------------------------------------------------------------------------

/// A session is made with the workflow that was found, if it is valid; it has the input that was given
/// and an identifier that none has.
pub proof fn law_the_front_end_makes_sessions_of_valid_workflows(
    manager: &SessionManager,
    order: &CreateOrder,
    yaml: String,
    source: ConfigSource,
    config: WorkflowConfig,
    checked: Result<(), CruiseError>,
    r: CreateStep,
    s: CreateStep,
)
    requires
        call_ensures(validate_groups, (&config,), checked),
        call_ensures(advance_create, (manager, order, CreateStage::Resolve,
            CreateEvent::Resolved(Ok((yaml, source)))), r),
        call_ensures(advance_create, (manager, order, CreateStage::Parse(yaml, source),
            CreateEvent::Parsed(Ok(config))), s),
    ensures
        r.next == CreateNext::Go(CreateStage::Parse(yaml, source)),
        checked is Err ==> (s.next matches CreateNext::End(Err(_))),
        checked is Ok ==> (s.next matches CreateNext::Go(CreateStage::Create(draft))
            && draft.config == config && draft.yaml == yaml
            && draft.session.input@ == trim(order.input@)
            && draft.session.base_dir@ == order.base_dir@
            && draft.session.phase is AwaitingApproval
            && draft.session.config_path == source.path_spec()
            && !views(order.in_use@).contains(draft.session.id@)),
{
    super::workflows::lemma_checked_or_not(config, checked);
}

/// A plan is read once it was asked for; what was not in its file is written to it, and the front end is
/// told the plan at the end.
pub proof fn law_the_front_end_is_told_the_plan(
    manager: &SessionManager,
    order: &CreateOrder,
    session: SessionState,
    request: PromptRequest,
    out: PromptResult,
    text: String,
    r: CreateStep,
    s: CreateStep,
    t: CreateStep,
    u: CreateStep,
)
    requires
        call_ensures(advance_create, (manager, order, CreateStage::Generate(session, request),
            CreateEvent::Prompted(Ok(out))), r),
        call_ensures(advance_create, (manager, order, CreateStage::ReadPlan(session, out),
            CreateEvent::Read(PlanFile::Content(text))), s),
        call_ensures(advance_create, (manager, order, CreateStage::ReadPlan(session, out),
            CreateEvent::Read(PlanFile::NotFound)), t),
        call_ensures(advance_create, (manager, order, CreateStage::WritePlan(session, text),
            CreateEvent::Written(Ok(()))), u),
    ensures
        r.next == CreateNext::Go(CreateStage::ReadPlan(session, out)),
        !is_blank(text@) ==> s.next == CreateNext::End(Ok(session.id))
            && (s.sent matches Some(PlanEvent::PlanGenerated { content }) && content@ == text@),
        !is_blank(out.output@) ==> (t.next matches CreateNext::Go(CreateStage::WritePlan(same,
            plan)) && same == session && plan@ == out.output@),
        u.next == CreateNext::End(Ok(session.id))
            && (u.sent matches Some(PlanEvent::PlanGenerated { content }) && content@ == text@),
{
}

/// A changed plan gives the session its title, and is told once the session was saved.
pub proof fn law_changed_plans_give_the_title(
    manager: &SessionManager,
    order: &FixOrder,
    session: SessionState,
    out: PromptResult,
    text: String,
    plan: &str,
    title: String,
    r: FixStep,
    s: FixStep,
    t: FixStep,
)
    requires
        plan@ == text@,
        call_ensures(derive_session_title, (plan,), title),
        call_ensures(advance_fix, (manager, order, FixStage::Load,
            FixEvent::Loaded(Ok(session))), r),
        call_ensures(advance_fix, (manager, order, FixStage::ReadPlan(session, out),
            FixEvent::Read(PlanFile::Content(text))), s),
        call_ensures(advance_fix, (manager, order, FixStage::Save(session, text),
            FixEvent::Saved(Ok(()))), t),
    ensures
        r.next == FixNext::Go(FixStage::Configure(session))
            && (r.sent matches Some(PlanEvent::PlanGenerating)),
        !is_blank(text@) ==> (s.next matches FixNext::Go(FixStage::Save(after, told))
            && told@ == text@ && (after.title matches Some(now) && now@ == title@)
            && after == (SessionState { title: after.title, ..session })),
        t.next == FixNext::End(Ok(text))
            && (t.sent matches Some(PlanEvent::PlanGenerated { content }) && content@ == text@),
{
}

} // verus!
