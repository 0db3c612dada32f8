//! What is offered to the user about sessions and plans, and what their choice leads to.

use vstd::prelude::*;

use crate::config::WorkflowConfig;
use crate::error::CruiseError;
use crate::gui::planning::planning_call;
use crate::list_cmd::{
    actions, approve_session, chosen_action, format_session_date, pick_session, pr_to_open,
    session_actions, str_views, ListAction,
};
use crate::list_talk::{advance_list, ListEvent, ListNext, ListStage, ListStep};
use crate::multiline_input::InputResult;
use crate::plan_cmd::{
    first_plan_request, plan_action, plan_request, plan_variables, resolve_input, PlanAction,
};
use crate::plan_talk::{
    advance_talk, new_session, talk_fits, TalkEvent, TalkNext, TalkStage, TalkStep, TalkTemplates,
};
use crate::resolver::ConfigSource;
use crate::run_cmd::session_run::MenuAnswer;
use crate::session::{SessionManager, SessionState};
use crate::step::prompt::PromptResult;
use crate::step_run::PromptRequest;
use crate::text::{is_blank, trim, views};
use crate::variable::VariableStore;
use crate::workflow::CompiledWorkflow;

use super::steps::has_no_place_for_a_model;

verus! {

// ---------------------------------------------------------------------------
// The list of sessions
// ---------------------------------------------------------------------------

/// A session that waits for approval can be approved. A planned one can be run or planned again, one
/// that was begun can be gone on with, a failed one can be run again; each that was begun can be
/// reset. A completed one can be looked at where it has a pull request. Each can be deleted.
pub proof fn law_actions_are_offered_by_phase(session: &SessionState, r: Vec<&'static str>)
    requires
        call_ensures(session_actions, (session,), r),
    ensures
        session.phase is AwaitingApproval ==> str_views(r@) == seq![
            "Approve"@,
            "Delete"@,
            "Back"@,
        ],
        session.phase is Planned ==> str_views(r@) == seq![
            "Run"@,
            "Replan"@,
            "Delete"@,
            "Back"@,
        ],
        session.phase is Running || session.phase is Suspended ==> str_views(r@) == seq![
            "Resume"@,
            "Reset to Planned"@,
            "Delete"@,
            "Back"@,
        ],
        session.phase is Failed ==> str_views(r@) == seq![
            "Run"@,
            "Reset to Planned"@,
            "Delete"@,
            "Back"@,
        ],
        session.phase is Completed && session.pr_url is None ==> str_views(r@) == seq![
            "Reset to Planned"@,
            "Delete"@,
            "Back"@,
        ],
        session.phase is Completed && session.pr_url is Some ==> str_views(r@) == seq![
            "Open PR"@,
            "Reset to Planned"@,
            "Delete"@,
            "Back"@,
        ],
{
    let shown = str_views(r@);
    assert(shown == actions(*session));
    if session.phase is AwaitingApproval {
        assert(shown =~= seq!["Approve"@, "Delete"@, "Back"@]);
    } else if session.phase is Planned {
        assert(shown =~= seq!["Run"@, "Replan"@, "Delete"@, "Back"@]);
    } else if session.phase is Failed {
        assert(shown =~= seq!["Run"@, "Reset to Planned"@, "Delete"@, "Back"@]);
    } else if session.phase is Completed && session.pr_url is Some {
        assert(shown =~= seq!["Open PR"@, "Reset to Planned"@, "Delete"@, "Back"@]);
    } else if session.phase is Completed {
        assert(shown =~= seq!["Reset to Planned"@, "Delete"@, "Back"@]);
    } else {
        assert(shown =~= seq!["Resume"@, "Reset to Planned"@, "Delete"@, "Back"@]);
    }
}

/// What is done is what was chosen, by its name.
pub proof fn law_chosen_actions_are_done(answer: &MenuAnswer, r: Result<ListAction, CruiseError>)
    requires
        call_ensures(chosen_action, (answer,), r),
    ensures
        *answer is Cancelled ==> r == Ok::<ListAction, CruiseError>(ListAction::Back),
        *answer is Failed ==> r is Err,
        *answer matches MenuAnswer::Chosen(name) ==> (r matches Ok(action) && {
            &&& action is Approve <==> name@ == "Approve"@
            &&& action is Run <==> name@ == "Run"@ || name@ == "Resume"@
            &&& action is Replan <==> name@ == "Replan"@
            &&& action is OpenPr <==> name@ == "Open PR"@
            &&& action is Reset <==> name@ == "Reset to Planned"@
            &&& action is Delete <==> name@ == "Delete"@
        }),
{
    lemma_action_names_differ();
}

proof fn lemma_action_names_differ()
    ensures
        "Approve"@ != "Run"@ && "Approve"@ != "Resume"@ && "Approve"@ != "Replan"@ && "Approve"@
            != "Open PR"@ && "Approve"@ != "Reset to Planned"@ && "Approve"@ != "Delete"@,
        "Run"@ != "Replan"@ && "Run"@ != "Open PR"@ && "Run"@ != "Reset to Planned"@ && "Run"@
            != "Delete"@,
        "Resume"@ != "Replan"@ && "Resume"@ != "Open PR"@ && "Resume"@ != "Reset to Planned"@
            && "Resume"@ != "Delete"@,
        "Replan"@ != "Open PR"@ && "Replan"@ != "Reset to Planned"@ && "Replan"@ != "Delete"@,
        "Open PR"@ != "Reset to Planned"@ && "Open PR"@ != "Delete"@,
        "Reset to Planned"@ != "Delete"@,
{
    reveal_strlit("Approve");
    reveal_strlit("Run");
    reveal_strlit("Resume");
    reveal_strlit("Replan");
    reveal_strlit("Open PR");
    reveal_strlit("Reset to Planned");
    reveal_strlit("Delete");
    assert("Approve"@[0] == 'A' && "Open PR"@[0] == 'O' && "Delete"@[0] == 'D' && "Run"@[0]
        == 'R');
    assert("Reset to Planned"@.len() == 16 && "Run"@.len() == 3 && "Resume"@.len() == 6
        && "Replan"@.len() == 6 && "Delete"@.len() == 6 && "Open PR"@.len() == 7);
    assert("Resume"@[2] == 's' && "Replan"@[2] == 'p');
}

/// An action that was chosen for a session concerns that session: it is run, read for approval, reset
/// or deleted, and its own pull request is opened.
pub proof fn law_actions_concern_the_session_they_were_chosen_for(
    manager: &SessionManager,
    session: SessionState,
    name: String,
    r: ListStep,
)
    requires
        call_ensures(
            advance_list,
            (
                manager,
                ListStage::Menu(session),
                ListEvent::Answered(MenuAnswer::Chosen(name)),
            ),
            r,
        ),
    ensures
        name@ == "Run"@ || name@ == "Resume"@ ==> r.next == ListNext::Run(session.id),
        name@ == "Approve"@ ==> r.next == ListNext::Go(ListStage::ReadPlan(session)),
        name@ == "Delete"@ ==> r.next == ListNext::Go(ListStage::Delete(session)),
        name@ == "Replan"@ ==> r.next == ListNext::Go(ListStage::AskChanges(session)),
        name@ == "Reset to Planned"@ ==> (r.next matches ListNext::Go(ListStage::SaveReset(after))
            && after.id == session.id && after.phase is Planned && after.current_step is None
            && after.pr_url is None),
        name@ == "Open PR"@ ==> (session.pr_url matches Some(url) ==> r.next == ListNext::Go(
            ListStage::OpenPr(session, url),
        )),
{
    lemma_action_names_differ();
}

/// The session that was picked is the one whose label was picked, where labels differ; a cancelled
/// choice picks none.
pub proof fn law_the_picked_session_is_shown(
    sessions: &Vec<SessionState>,
    labels: &Vec<String>,
    answer: &MenuAnswer,
    r: Result<Option<SessionState>, CruiseError>,
    i: int,
)
    requires
        labels@.len() == sessions@.len(),
        call_ensures(pick_session, (sessions, labels, answer), r),
        0 <= i < labels@.len(),
        forall|j: int| 0 <= j < i ==> (#[trigger] labels@[j])@ != labels@[i]@,
    ensures
        *answer matches MenuAnswer::Chosen(label) ==> (label@ == labels@[i]@ ==> r == Ok::<
            Option<SessionState>,
            CruiseError,
        >(Some(sessions@[i]))),
        *answer is Cancelled ==> r == Ok::<Option<SessionState>, CruiseError>(None),
        *answer is Failed ==> r is Err,
{
    if *answer is Chosen && answer->Chosen_0@ == labels@[i]@ {
        let all = views(labels@);
        crate::step::option::lemma_first_index(all, labels@[i]@);
        let k = crate::step::option::first_index(all, labels@[i]@);
        assert(all[i] == labels@[i]@);
        if k < i {
            assert(all[k] == labels@[k]@);
        }
    }
}

/// A session that is approved from the list gets the title of its plan; it is approved though its
/// plan cannot be read, and that is said.
pub proof fn law_approval_does_not_need_the_title(
    manager: &SessionManager,
    session: &mut SessionState,
    read: Result<String, String>,
    r: Option<String>,
)
    requires
        old(session).phase is AwaitingApproval,
        call_ensures(approve_session, (manager, session, read), r),
    ensures
        final(session).phase is Planned,
        r is None <==> (read matches Ok(plan) && !is_blank(plan@)),
        r is Some ==> final(session).title == old(session).title,
        r is None ==> final(session).title is Some,
        *final(session) == (SessionState {
            phase: final(session).phase,
            title: final(session).title,
            ..*old(session)
        }),
{
}

/// A session is opened in the browser at its own pull request, if it has one.
pub proof fn law_the_request_of_the_session_is_opened(
    session: &SessionState,
    r: Result<String, CruiseError>,
)
    requires
        call_ensures(pr_to_open, (session,), r),
    ensures
        session.pr_url matches Some(url) ==> (r matches Ok(u) && u@ == url@),
        session.pr_url is None ==> r is Err,
{
}

/// A session is dated by the month, the day, the hour and the minute in its identifier.
pub proof fn law_sessions_are_dated_by_their_identifier(id: &str, r: String)
    requires
        call_ensures(format_session_date, (id,), r),
        id@.len() >= 12,
        forall|i: int| 0 <= i < 12 ==> '0' <= #[trigger] id@[i] <= '9',
    ensures
        r@ == id@.subrange(4, 6) + "/"@ + id@.subrange(6, 8) + " "@ + id@.subrange(8, 10) + ":"@
            + id@.subrange(10, 12),
{
    lemma_digits_take_one_byte(id@, 4);
    lemma_digits_take_one_byte(id@, 6);
    lemma_digits_take_one_byte(id@, 8);
    lemma_digits_take_one_byte(id@, 10);
    lemma_digits_take_one_byte(id@, 12);
}

proof fn lemma_digits_take_one_byte(s: Seq<char>, n: int)
    requires
        0 <= n <= s.len(),
        forall|i: int| 0 <= i < n ==> '0' <= #[trigger] s[i] <= '9',
    ensures
        crate::list_cmd::char_at_byte(s, n) == Some(n),
    decreases n,
{
    if n > 0 {
        assert('0' <= s[0] <= '9');
        assert(crate::list_cmd::utf8_width(s[0]) == 1);
        assert forall|i: int| 0 <= i < n - 1 implies '0' <= #[trigger] s.skip(1)[i] <= '9' by {
            assert(s.skip(1)[i] == s[i + 1]);
        }
        lemma_digits_take_one_byte(s.skip(1), n - 1);
    }
}

// ---------------------------------------------------------------------------
// Plans
// ---------------------------------------------------------------------------

/// What is to be planned is what was given; without it what was piped in, if it holds anything; and
/// only without either the user is asked.
pub proof fn law_given_input_comes_first<F: FnOnce() -> Result<String, CruiseError>>(
    arg: Option<String>,
    piped: Option<String>,
    ask: F,
    r: Result<String, CruiseError>,
)
    requires
        call_ensures(resolve_input::<F>, (arg, piped, ask), r),
    ensures
        arg matches Some(text) ==> (r matches Ok(t) && t@ == text@),
        arg is None ==> (piped matches Some(text) ==> (!is_blank(text@) ==> (r matches Ok(t) && t@
            == trim(text@)))),
        arg is None && (piped is None || is_blank(piped->0@)) ==> ask.ensures((), r),
{
}

/// A plan is asked for with the model for plans, or else with that of the workflow.
pub proof fn law_plans_are_asked_of_the_model_for_plans(
    vars: &VariableStore,
    compiled: &CompiledWorkflow,
    template: &str,
    request: PromptRequest,
)
    requires
        call_ensures(first_plan_request, (vars, compiled, template), Ok(request)),
        has_no_place_for_a_model(compiled.command@),
    ensures
        request.command@ == compiled.command@,
        vars@.expand(template@) == Ok::<Seq<char>, Seq<char>>(request.prompt@),
        compiled.plan_model matches Some(own) ==> (request.model_arg matches Some(m) && m@ == own@),
        compiled.plan_model is None ==> (compiled.model matches Some(all) ==> (
        request.model_arg matches Some(m) && m@ == all@)),
        compiled.plan_model is None && compiled.model is None ==> request.model_arg is None,
{
    super::steps::lemma_no_place(compiled.command@);
}

/// A plan that is talked about is changed with the model for plans, or else with that of the
/// workflow.
pub proof fn law_plans_are_changed_by_the_model_for_plans(
    vars: &VariableStore,
    compiled: &CompiledWorkflow,
    template: &str,
    request: PromptRequest,
)
    requires
        call_ensures(plan_request, (vars, compiled, template), Ok(request)),
        has_no_place_for_a_model(compiled.command@),
    ensures
        request.command@ == compiled.command@,
        compiled.plan_model matches Some(own) ==> (request.model_arg matches Some(m) && m@ == own@),
        compiled.plan_model is None ==> (compiled.model matches Some(all) ==> (
        request.model_arg matches Some(m) && m@ == all@)),
        compiled.plan_model is None && compiled.model is None ==> request.model_arg is None,
{
    super::steps::lemma_no_place(compiled.command@);
}

/// The front end asks for plans with the same models.
pub proof fn law_the_front_end_uses_the_model_for_plans(
    vars: &VariableStore,
    config: &WorkflowConfig,
    template: &str,
    request: PromptRequest,
)
    requires
        call_ensures(planning_call, (vars, config, template), Ok(request)),
        has_no_place_for_a_model(config.command@),
    ensures
        request.command@ == config.command@,
        vars@.expand(template@) == Ok::<Seq<char>, Seq<char>>(request.prompt@),
        config.plan_model matches Some(own) ==> (request.model_arg matches Some(m) && m@ == own@),
        config.plan_model is None ==> (config.model matches Some(all) ==> (
        request.model_arg matches Some(m) && m@ == all@)),
        config.plan_model is None && config.model is None ==> request.model_arg is None,
{
    super::steps::lemma_no_place(config.command@);
}

/// A plan is made from the input of the session and what the user said of it, into the plan file of
/// the session.
pub proof fn law_plans_are_made_from_the_input(
    manager: &SessionManager,
    session: &SessionState,
    feedback: Option<String>,
    dir: String,
    id: &str,
    r: VariableStore,
)
    requires
        id@ == session.id@,
        call_ensures(SessionManager::session_dir, (manager, id), dir),
        call_ensures(plan_variables, (manager, session, feedback), r),
    ensures
        r@.lookup("input"@) == Some(session.input@),
        feedback matches Some(text) ==> r@.prev_input == Some(text@),
        feedback is None ==> r@.prev_input is None,
        r@.named["plan"@].text() == crate::path::join_path(
            dir@,
            "plan.md"@,
            manager.windows_spec(),
        ),
{
    reveal_strlit("plan");
    assert(r@.named.dom().contains("plan"@));
}

/// Without a user a plan is approved; a user who cancels discards the session. Otherwise what is done
/// is what was chosen.
pub proof fn law_plans_are_dealt_with_as_chosen(
    answer: &Option<MenuAnswer>,
    r: Result<PlanAction, CruiseError>,
)
    requires
        call_ensures(plan_action, (answer,), r),
    ensures
        *answer is None ==> r == Ok::<PlanAction, CruiseError>(PlanAction::Approve),
        *answer matches Some(a) ==> {
            &&& a is Cancelled <==> r == Ok::<PlanAction, CruiseError>(PlanAction::Discard)
            &&& a is Failed <==> r is Err
            &&& a matches MenuAnswer::Chosen(label) ==> {
                &&& r == Ok::<PlanAction, CruiseError>(PlanAction::Approve) <==> label@ == "Approve"@
                &&& r == Ok::<PlanAction, CruiseError>(PlanAction::Fix) <==> label@ == "Fix"@
                &&& r == Ok::<PlanAction, CruiseError>(PlanAction::Ask) <==> label@ == "Ask"@
                &&& r == Ok::<PlanAction, CruiseError>(PlanAction::Execute) <==> label@
                    == "Execute now"@
            }
        },
{
    reveal_strlit("Approve");
    reveal_strlit("Fix");
    reveal_strlit("Ask");
    reveal_strlit("Execute now");
    assert("Approve"@.len() == 7 && "Fix"@[0] == 'F' && "Ask"@[0] == 'A' && "Ask"@.len() == 3
        && "Fix"@.len() == 3 && "Execute now"@.len() == 11);
}

/// A new session holds the input without the white space around it, knows where its workflow is, and
/// waits for approval.
pub proof fn law_new_sessions_wait_for_approval(
    id: String,
    base_dir: String,
    source: &ConfigSource,
    input: &str,
    r: SessionState,
)
    requires
        call_ensures(new_session, (id, base_dir, source, input), r),
    ensures
        r.id@ == id@ && r.base_dir@ == base_dir@ && r.input@ == trim(input@),
        r.phase is AwaitingApproval && r.current_step is None && r.pr_url is None,
        r.config_path == source.path_spec(),
        *source is Builtin ==> r.config_path is None,
{
}

/// A plan that the user approved makes the session planned; only then it may be saved as such, and
/// only at the user's word it is run at once. A cancelled menu discards the session.
pub proof fn law_approved_plans_are_saved(
    path: &str,
    compiled: &CompiledWorkflow,
    templates: &TalkTemplates,
    plan: String,
    answer: Option<MenuAnswer>,
    action: Result<PlanAction, CruiseError>,
    vars: &mut VariableStore,
    session: &mut SessionState,
    r: TalkStep,
)
    requires
        talk_fits(TalkStage::Menu(plan), *old(session)),
        call_ensures(plan_action, (&answer,), action),
        call_ensures(
            advance_talk,
            (
                path,
                compiled,
                templates,
                TalkStage::Menu(plan),
                TalkEvent::Answered(answer),
                vars,
                session,
            ),
            r,
        ),
    ensures
        action == Ok::<PlanAction, CruiseError>(PlanAction::Approve) ==> final(session).phase is Planned && r.next == TalkNext::Go(TalkStage::Save),
        action == Ok::<PlanAction, CruiseError>(PlanAction::Execute) ==> final(session).phase is Planned && r.next == TalkNext::Go(TalkStage::SaveAndRun),
        action == Ok::<PlanAction, CruiseError>(PlanAction::Discard) ==> r.next == TalkNext::Go(
            TalkStage::Discard(None),
        ),
        action == Ok::<PlanAction, CruiseError>(PlanAction::Fix) ==> r.next == TalkNext::Go(
            TalkStage::AskChanges(plan),
        ),
        action == Ok::<PlanAction, CruiseError>(PlanAction::Ask) ==> r.next == TalkNext::Go(
            TalkStage::AskQuestion(plan),
        ),
        !(action matches Ok(a) && (a is Approve || a is Execute)) ==> *final(session) == *old(session),
{
}

/// What the user typed about a plan is found by the prompt that changes it; after a change the plan
/// is read again.
pub proof fn law_changed_plans_are_read_again(
    path: &str,
    compiled: &CompiledWorkflow,
    templates: &TalkTemplates,
    plan: String,
    text: String,
    request: PromptRequest,
    out: PromptResult,
    vars: &mut VariableStore,
    session: &mut SessionState,
    later_vars: &mut VariableStore,
    later: &mut SessionState,
    r: TalkStep,
    s: TalkStep,
)
    requires
        talk_fits(TalkStage::AskChanges(plan), *old(session)),
        talk_fits(TalkStage::Fix(request), *old(later)),
        call_ensures(
            advance_talk,
            (
                path,
                compiled,
                templates,
                TalkStage::AskChanges(plan),
                TalkEvent::Typed(Ok(InputResult::Submitted(text))),
                vars,
                session,
            ),
            r,
        ),
        call_ensures(
            advance_talk,
            (
                path,
                compiled,
                templates,
                TalkStage::Fix(request),
                TalkEvent::Prompted(Ok(out)),
                later_vars,
                later,
            ),
            s,
        ),
    ensures
        final(vars)@.prev_input == Some(text@) && final(vars)@.input == old(vars)@.input,
        *final(session) == *old(session) && *final(later) == *old(later),
        s.next == TalkNext::Go(TalkStage::ReadAgain),
        final(later_vars)@.prev_output == Some(out.output@) && final(later_vars)@.prev_stderr
            == Some(out.stderr@) && final(later_vars)@.prev_input is None,
{
}

} // verus!
