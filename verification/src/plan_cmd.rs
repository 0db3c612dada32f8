//! Planning a session: its input, its prompts and the approval of its plan.

use vstd::prelude::*;

use crate::error::CruiseError;
use crate::run_cmd::session_run::MenuAnswer;
use crate::session::{SessionManager, SessionState};
use crate::span::{put, put_plain, span_views, Span, SpanView, Tone};
use crate::step::PromptStep;
use crate::step_run::{effective_model, is_request, prompt_request, request_for, PromptRequest};
use crate::text::{clone_opt, is_blank, opt_view, same_text, trim, trimmed};
use crate::variable::{NamedVariable, VariableStore};
use crate::workflow::CompiledWorkflow;

verus! {

/// Name of the variable that holds the plan file path.
pub const PLAN_VAR: &'static str = "plan";

// ---------------------------------------------------------------------------
// Input
// ---------------------------------------------------------------------------

/// The input that is there without asking the user: the argument as it is, or else what was
/// piped to the program, without white space around it, if that is anything.
pub open spec fn given_input(arg: Option<Seq<char>>, stdin_input: Option<Seq<char>>) -> Option<
    Seq<char>,
> {
    match arg {
        Some(input) => Some(input),
        None => match stdin_input {
            Some(input) => if is_blank(input) {
                None
            } else {
                Some(trim(input))
            },
            None => None,
        },
    }
}

/// The input of a plan. The user is asked, by a call of `interactive`, only if there is none.
pub fn resolve_input<F: FnOnce() -> Result<String, CruiseError>>(
    arg: Option<String>,
    stdin_input: Option<String>,
    interactive: F,
) -> (r: Result<String, CruiseError>)
    requires
        interactive.requires(()),
    ensures
        match given_input(opt_view(arg), opt_view(stdin_input)) {
            Some(input) => r matches Ok(text) && text@ == input,
            None => interactive.ensures((), r),
        },
{
    match arg {
        Some(input) => return Ok(input),
        None => {},
    }
    match stdin_input {
        Some(input) => {
            let text = trimmed(input.as_str());
            proof {
                crate::text::lemma_trim_blank(input@);
            }
            if !text.as_str().is_empty() {
                return Ok(text);
            }
        },
        None => {},
    }
    interactive()
}

/// The error where there is no input and no terminal to ask at.
pub fn no_input() -> (r: CruiseError)
    ensures
        r matches CruiseError::Other(m) && m@
            == "no input provided: stdin is not a terminal and no --input flag was given"@,
{
    CruiseError::Other(
        "no input provided: stdin is not a terminal and no --input flag was given".to_owned(),
    )
}

/// What is said of a plan that is not made.
pub fn dry_run_notice(input: &str) -> (r: String)
    ensures
        r@ == "Would plan: \""@ + trim(input@) + "\""@,
{
    "Would plan: \"".to_owned().concat(trimmed(input).as_str()).concat("\"")
}

// ---------------------------------------------------------------------------
// Prompts
// ---------------------------------------------------------------------------

/// The variables of a session: its input, the path of its plan and what the user says of it.
pub fn plan_variables(manager: &SessionManager, session: &SessionState, feedback: Option<String>)
    -> (r: VariableStore)
    ensures
        r@.input == session.input@,
        r@.prev_input == opt_view(feedback),
        r@.prev_output is None && r@.prev_stderr is None && r@.prev_success is None,
        r@.named.dom() == set![PLAN_VAR@],
        r@.named[PLAN_VAR@] matches NamedVariable::FilePath(path) && path@ == manager.file_path(session.id@, "plan.md"@),
{
    let mut vars = VariableStore::new(session.input.clone());
    let path = session.plan_path(manager.sessions_dir().as_str(), manager.windows());
    vars.set_named_file(PLAN_VAR, path);
    assert(vars@.named.dom() =~= set![PLAN_VAR@]);
    vars.set_prev_input(feedback);
    vars
}

/// The model for plans: that of the configuration for plans, or else that for all.
pub open spec fn plan_model(compiled: CompiledWorkflow) -> Option<Seq<char>> {
    match compiled.plan_model {
        Some(m) => Some(m@),
        None => opt_view(compiled.model),
    }
}

fn model_for_plans(compiled: &CompiledWorkflow) -> (r: Option<String>)
    ensures
        opt_view(r) == plan_model(*compiled),
{
    match &compiled.plan_model {
        Some(m) => Some(m.clone()),
        None => clone_opt(&compiled.model),
    }
}

/// Works out the call that makes the first plan: the template with its variables put in.
///
/// # Errors
///
/// Returns `UndefinedVariable` with the first name in the template that is not defined.
pub fn first_plan_request(vars: &VariableStore, compiled: &CompiledWorkflow, template: &str) -> (r:
    Result<PromptRequest, CruiseError>)
    ensures
        match vars@.expand(template@) {
            Ok(prompt) => r matches Ok(request) && is_request(
                request,
                *compiled,
                plan_model(*compiled),
                prompt,
            ),
            Err(name) => r matches Err(CruiseError::UndefinedVariable(n)) && n@ == name,
        },
{
    let prompt = match vars.resolve(template) {
        Ok(prompt) => prompt,
        Err(e) => return Err(e),
    };
    Ok(request_for(compiled, &model_for_plans(compiled), prompt))
}

/// Works out the call of a prompt step on a plan. The step's prompt is the template with its
/// variables put in, and the step puts in those that the result names.
///
/// # Errors
///
/// Returns `UndefinedVariable` with the first name that is not defined.
pub fn plan_request(vars: &VariableStore, compiled: &CompiledWorkflow, template: &str) -> (r: Result<
    PromptRequest,
    CruiseError,
>)
    ensures
        match vars@.expand(template@) {
            Ok(text) => match vars@.expand(text) {
                Ok(prompt) => r matches Ok(request) && is_request(
                request,
                *compiled,
                plan_model(*compiled),
                prompt,
            ),
                Err(name) => r matches Err(CruiseError::UndefinedVariable(n)) && n@ == name,
            },
            Err(name) => r matches Err(CruiseError::UndefinedVariable(n)) && n@ == name,
        },
{
    let prompt = match vars.resolve(template) {
        Ok(prompt) => prompt,
        Err(e) => return Err(e),
    };
    let step = PromptStep { model: model_for_plans(compiled), prompt, instruction: None };
    assert(effective_model(step, *compiled) == plan_model(*compiled));
    prompt_request(vars, compiled, &step)
}

/// What is said of a prompt.
pub open spec fn prompt_spans(label: Seq<char>) -> Seq<SpanView> {
    seq![
        ("\n"@, Tone::Plain),
        (">"@, Tone::CyanBold),
        (" "@, Tone::Plain),
        (label, Tone::Bold),
    ]
}

/// What is said when a prompt on a plan is run.
pub fn prompt_notice(label: &str) -> (r: Vec<Span>)
    ensures
        span_views(r@) == prompt_spans(label@),
{
    let mut out: Vec<Span> = Vec::new();
    put_plain(&mut out, "\n");
    put(&mut out, ">".to_owned(), Tone::CyanBold);
    put_plain(&mut out, " ");
    put(&mut out, label.to_owned(), Tone::Bold);
    assert(span_views(out@) =~= prompt_spans(label@));
    out
}

// ---------------------------------------------------------------------------
// Approval
// ---------------------------------------------------------------------------

/// What becomes of a plan.
#[derive(Debug, Clone, Copy, PartialEq, Eq, Structural)]
pub enum PlanAction {
    /// The session may be run.
    Approve,
    /// The user says what to change.
    Fix,
    /// The user asks something.
    Ask,
    /// The session may be run, and is run now.
    Execute,
    /// The session is deleted.
    Discard,
    /// The plan is shown again.
    ShowAgain,
}

/// The action that the answer stands for.
pub open spec fn action_of(answer: Option<MenuAnswer>) -> Result<PlanAction, Seq<char>> {
    match answer {
        None => Ok(PlanAction::Approve),
        Some(MenuAnswer::Chosen(label)) => Ok(
            if label@ == "Approve"@ {
                PlanAction::Approve
            } else if label@ == "Fix"@ {
                PlanAction::Fix
            } else if label@ == "Ask"@ {
                PlanAction::Ask
            } else if label@ == "Execute now"@ {
                PlanAction::Execute
            } else {
                PlanAction::ShowAgain
            },
        ),
        Some(MenuAnswer::Cancelled) => Ok(PlanAction::Discard),
        Some(MenuAnswer::Failed(e)) => Err("selection error: "@ + e@),
    }
}

/// What becomes of a plan that was shown. `answer` is `None` where there is no terminal to ask
/// at: then it is approved.
///
/// # Errors
///
/// Returns `Other` if the menu could not be shown.
pub fn plan_action(answer: &Option<MenuAnswer>) -> (r: Result<PlanAction, CruiseError>)
    ensures
        match action_of(*answer) {
            Ok(action) => r == Ok::<PlanAction, CruiseError>(action),
            Err(text) => r matches Err(CruiseError::Other(m)) && m@ == text,
        },
{
    match answer {
        None => Ok(PlanAction::Approve),
        Some(MenuAnswer::Chosen(label)) => {
            let label = label.as_str();
            if same_text(label, "Approve") {
                Ok(PlanAction::Approve)
            } else if same_text(label, "Fix") {
                Ok(PlanAction::Fix)
            } else if same_text(label, "Ask") {
                Ok(PlanAction::Ask)
            } else if same_text(label, "Execute now") {
                Ok(PlanAction::Execute)
            } else {
                Ok(PlanAction::ShowAgain)
            }
        },
        Some(MenuAnswer::Cancelled) => Ok(PlanAction::Discard),
        Some(MenuAnswer::Failed(e)) => Err(
            CruiseError::Other("selection error: ".to_owned().concat(e.as_str())),
        ),
    }
}

/// The entries of the menu for a plan.
pub fn plan_menu() -> (r: Vec<&'static str>)
    ensures
        crate::list_cmd::str_views(r@) == seq!["Approve"@, "Fix"@, "Ask"@, "Execute now"@],
{
    let mut r: Vec<&'static str> = Vec::new();
    r.push("Approve");
    r.push("Fix");
    r.push("Ask");
    r.push("Execute now");
    assert(crate::list_cmd::str_views(r@) =~= seq!["Approve"@, "Fix"@, "Ask"@, "Execute now"@]);
    r
}

/// What is said of a session that was created.
pub open spec fn created_spans(id: Seq<char>) -> Seq<SpanView> {
    seq![
        ("\n"@, Tone::Plain),
        ("[ok]"@, Tone::GreenBold),
        (" Session "@ + id + " created.\n  Run with: "@, Tone::Plain),
        ("cruise run "@ + id, Tone::Cyan),
    ]
}

/// What is said of a session that was created.
pub fn created_notice(session_id: &str) -> (r: Vec<Span>)
    ensures
        span_views(r@) == created_spans(session_id@),
{
    let mut out: Vec<Span> = Vec::new();
    put_plain(&mut out, "\n");
    put(&mut out, "[ok]".to_owned(), Tone::GreenBold);
    put(
        &mut out,
        " Session ".to_owned().concat(session_id).concat(" created.\n  Run with: "),
        Tone::Plain,
    );
    put(&mut out, "cruise run ".to_owned().concat(session_id), Tone::Cyan);
    assert(span_views(out@) =~= created_spans(session_id@));
    out
}

/// What is said of a session without a plan.
pub open spec fn no_plan_spans(id: Seq<char>) -> Seq<SpanView> {
    seq![
        ("\n"@, Tone::Plain),
        ("[fail]"@, Tone::RedBold),
        (
            " Generated plan is missing or empty. Session "@ + id + " discarded."@,
            Tone::Plain,
        ),
    ]
}

/// What is said of a session that was deleted because it has no plan.
pub fn no_plan_notice(session_id: &str) -> (r: Vec<Span>)
    ensures
        span_views(r@) == no_plan_spans(session_id@),
{
    let mut out: Vec<Span> = Vec::new();
    put_plain(&mut out, "\n");
    put(&mut out, "[fail]".to_owned(), Tone::RedBold);
    put(
        &mut out,
        " Generated plan is missing or empty. Session ".to_owned().concat(session_id).concat(
            " discarded.",
        ),
        Tone::Plain,
    );
    assert(span_views(out@) =~= no_plan_spans(session_id@));
    out
}

/// What is said of a session that the user left.
pub fn cancelled_notice(session_id: &str) -> (r: String)
    ensures
        r@ == "\nCancelled. Session "@ + session_id@ + " discarded."@,
{
    "\nCancelled. Session ".to_owned().concat(session_id).concat(" discarded.")
}

/// What is said of a session that is run now.
pub fn executing_notice(session_id: &str) -> (r: Vec<Span>)
    ensures
        span_views(r@) == seq![
            ("\n"@, Tone::Plain),
            ("->"@, Tone::Cyan),
            (" Executing session "@ + session_id@ + "..."@, Tone::Plain),
        ],
{
    let mut out: Vec<Span> = Vec::new();
    put_plain(&mut out, "\n");
    put(&mut out, "->".to_owned(), Tone::Cyan);
    put(
        &mut out,
        " Executing session ".to_owned().concat(session_id).concat("..."),
        Tone::Plain,
    );
    assert(span_views(out@) =~= seq![
        ("\n"@, Tone::Plain),
        ("->"@, Tone::Cyan),
        (" Executing session "@ + session_id@ + "..."@, Tone::Plain),
    ]);
    out
}

} // verus!
