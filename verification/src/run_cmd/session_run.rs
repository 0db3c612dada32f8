//! The decisions around the run of a session.

use vstd::prelude::*;

use crate::clock::current_iso8601;
use crate::config::{step_name_at, steps_len, DEFAULT_PR_LANGUAGE};
use crate::display::{truncate, truncated};
use crate::engine::ExecutionResult;
use crate::error::CruiseError;
use crate::run_cmd::pr_text::{law_no_body_without_a_title, parse_pr_metadata, pr_metadata};
use crate::run_cmd::pull_request::{
    extract_last_path_segment, last_segment, CommitOutcome, PrAttemptOutcome,
};
use crate::session::{
    is_iso8601, SessionFileContents, SessionManager, SessionPhase, SessionState,
    SessionStateFingerprint, WorkspaceMode,
};
use crate::step::option::{first_index, position_of};
use crate::span::{put, put_plain, span_views, Span, SpanView, Tone};
use crate::text::{
    blank, decimal, decimal_of, front, front_of, is_blank, same_text, trim, trimmed, views,
};
use crate::variable::{NamedVariable, VariableStore, Variables};
use crate::workflow::CompiledWorkflow;

verus! {

/// The variable that holds the language of pull requests.
pub const PR_LANGUAGE_VAR: &'static str = "pr.language";

/// The variable that holds the number of the pull request.
pub const PR_NUMBER_VAR: &'static str = "pr.number";

/// The variable that holds the URL of the pull request.
pub const PR_URL_VAR: &'static str = "pr.url";

/// What the user chose from a menu.
#[derive(Debug)]
pub enum MenuAnswer {
    /// The label of an entry.
    Chosen(String),
    /// The user left the menu.
    Cancelled,
    /// The menu could not be shown, for this reason.
    Failed(String),
}

// ---------------------------------------------------------------------------
// States that were changed by others
// ---------------------------------------------------------------------------

/// What to do with a state that was changed by others.
#[derive(Debug, Clone, Copy, PartialEq, Eq, Structural)]
pub enum SessionStateConflictChoice {
    Abort,
    Overwrite,
}

/// How a state is to be saved.
#[derive(Debug)]
pub enum SaveStep {
    /// The state is saved.
    Save,
    /// The user is asked, after this message.
    Ask(String),
    /// The state is not saved.
    Refused(CruiseError),
}

/// The message on a state file that was changed by others.
pub open spec fn conflict_message(path: Seq<char>, contents: SessionFileContents) -> Seq<char> {
    match contents {
        SessionFileContents::Missing => path + " was deleted while the session was running"@,
        SessionFileContents::Parsed { state: _, fingerprint: _ } => path
            + " changed externally while the session was running"@,
        SessionFileContents::Invalid { fingerprint: _, error } => path
            + " changed externally and now contains invalid JSON: "@ + error@,
    }
}

/// The message on a state file that was changed by others.
pub fn session_state_conflict_message(path: &str, contents: &SessionFileContents) -> (r: String)
    ensures
        r@ == conflict_message(path@, *contents),
{
    match contents {
        SessionFileContents::Missing => path.to_owned().concat(
            " was deleted while the session was running",
        ),
        SessionFileContents::Parsed { state: _, fingerprint: _ } => path.to_owned().concat(
            " changed externally while the session was running",
        ),
        SessionFileContents::Invalid { fingerprint: _, error } => path.to_owned().concat(
            " changed externally and now contains invalid JSON: ",
        ).concat(error.as_str()),
    }
}

/// The state file is the one with the given fingerprint.
pub open spec fn is_unchanged(
    contents: SessionFileContents,
    expected: SessionStateFingerprint,
) -> bool {
    match contents {
        SessionFileContents::Missing => false,
        SessionFileContents::Parsed { state: _, fingerprint } => fingerprint.digest()
            == expected.digest(),
        SessionFileContents::Invalid { fingerprint, error: _ } => fingerprint.digest()
            == expected.digest(),
    }
}

/// How the state of a session is to be saved, where the state file was left with the expected
/// fingerprint and now has the given contents. A file that was changed by others is overwritten
/// only if the user says so; without a terminal there is no user to ask.
pub fn save_session_state_with_conflict_resolution(
    manager: &SessionManager,
    session: &SessionState,
    contents: &SessionFileContents,
    expected: &SessionStateFingerprint,
    terminal: bool,
) -> (r: SaveStep)
    ensures
        ({
            let path = manager.file_path(session.id@, "state.json"@);
            if is_unchanged(*contents, *expected) {
                r == SaveStep::Save
            } else if terminal {
                r matches SaveStep::Ask(m) && m@ == conflict_message(path, *contents)
            } else {
                r matches SaveStep::Refused(CruiseError::SessionStateConflict(m)) && m@
                    == conflict_message(path, *contents)
            }
        }),
{
    match contents.fingerprint() {
        Some(current) => if current.same(expected) {
            return SaveStep::Save;
        },
        None => {},
    }
    let path = manager.state_path(session.id.as_str());
    let message = session_state_conflict_message(path.as_str(), contents);
    if terminal {
        SaveStep::Ask(message)
    } else {
        SaveStep::Refused(CruiseError::SessionStateConflict(message))
    }
}

/// The labels of the menu for a state that was changed by others.
pub fn conflict_labels() -> (r: (&'static str, &'static str))
    ensures
        r.0@ == "Abort run"@,
        r.1@ == "Overwrite external state"@,
{
    ("Abort run", "Overwrite external state")
}

/// What the user chose for a state that was changed by others. Leaving the menu aborts.
///
/// # Errors
///
/// Returns `Other` if the menu could not be shown.
pub fn conflict_choice(answer: &MenuAnswer) -> (r: Result<SessionStateConflictChoice, CruiseError>)
    ensures
        match *answer {
            MenuAnswer::Chosen(label) => r == Ok::<SessionStateConflictChoice, CruiseError>(
                if label@ == "Abort run"@ {
                    SessionStateConflictChoice::Abort
                } else {
                    SessionStateConflictChoice::Overwrite
                },
            ),
            MenuAnswer::Cancelled => r == Ok::<SessionStateConflictChoice, CruiseError>(
                SessionStateConflictChoice::Abort,
            ),
            MenuAnswer::Failed(e) => r matches Err(CruiseError::Other(m)) && m@
                == "selection error: "@ + e@,
        },
{
    match answer {
        MenuAnswer::Chosen(label) => if same_text(label.as_str(), "Abort run") {
            Ok(SessionStateConflictChoice::Abort)
        } else {
            Ok(SessionStateConflictChoice::Overwrite)
        },
        MenuAnswer::Cancelled => Ok(SessionStateConflictChoice::Abort),
        MenuAnswer::Failed(e) => Err(
            CruiseError::Other("selection error: ".to_owned().concat(e.as_str())),
        ),
    }
}

/// Whether the state is saved after the user's choice.
///
/// # Errors
///
/// Returns `SessionStateConflictAborted` with the message if the user aborts.
pub fn resolve_conflict(choice: SessionStateConflictChoice, message: String) -> (r: Result<
    (),
    CruiseError,
>)
    ensures
        match choice {
            SessionStateConflictChoice::Overwrite => r is Ok,
            SessionStateConflictChoice::Abort => r == Err::<(), CruiseError>(
                CruiseError::SessionStateConflictAborted(message),
            ),
        },
{
    match choice {
        SessionStateConflictChoice::Abort => Err(CruiseError::SessionStateConflictAborted(message)),
        SessionStateConflictChoice::Overwrite => Ok(()),
    }
}

/// The state of a session after its run by `run --all`: that of its state file, or else a
/// failure at this moment.
pub fn load_run_all_result_state(
    manager: &SessionManager,
    fallback: &SessionState,
    contents: SessionFileContents,
) -> (r: SessionState)
    ensures
        match contents {
            SessionFileContents::Parsed { state, fingerprint: _ } => r == *state,
            _ => {
                &&& r.phase matches SessionPhase::Failed(m) && m@ == conflict_message(
                    manager.file_path(fallback.id@, "state.json"@),
                    contents,
                )
                &&& r.completed_at matches Some(t) && is_iso8601(t@)
                &&& r == (SessionState {
                    phase: r.phase,
                    completed_at: r.completed_at,
                    ..*fallback
                })
            },
        },
{
    match contents {
        SessionFileContents::Parsed { state, fingerprint: _ } => *state,
        contents => {
            let path = manager.state_path(fallback.id.as_str());
            let message = session_state_conflict_message(path.as_str(), &contents);
            let mut state = fallback.copy();
            state.phase = SessionPhase::Failed(message);
            state.completed_at = Some(current_iso8601());
            state
        },
    }
}

// ---------------------------------------------------------------------------
// Beginning a run
// ---------------------------------------------------------------------------

/// Refuses arguments that name a session and ask for all.
///
/// # Errors
///
/// Returns `Other` if `all` is set and a session is named.
pub fn check_run_args(all: bool, session: &Option<String>) -> (r: Result<(), CruiseError>)
    ensures
        if all && *session is Some {
            r matches Err(CruiseError::Other(m)) && m@
                == "Cannot specify both --all and a session ID"@
        } else {
            r is Ok
        },
{
    if all && session.is_some() {
        Err(CruiseError::Other("Cannot specify both --all and a session ID".to_owned()))
    } else {
        Ok(())
    }
}

/// Why a session cannot be run.
pub open spec fn unrunnable_text(session_id: Seq<char>, phase: SessionPhase) -> Seq<char> {
    "Session "@ + session_id + " is in '"@ + phase.label_spec()
        + "' phase and cannot be run. Approve it first with `cruise list`."@
}

/// Refuses a session that is in no phase to be run in.
///
/// # Errors
///
/// Returns `Other` if the session's phase does not allow a run.
pub fn ensure_runnable(session_id: &str, session: &SessionState) -> (r: Result<(), CruiseError>)
    ensures
        if session.phase.runnable() {
            r is Ok
        } else {
            r matches Err(CruiseError::Other(m)) && m@ == unrunnable_text(
                session_id@,
                session.phase,
            )
        },
{
    if session.phase.is_runnable() {
        Ok(())
    } else {
        Err(
            CruiseError::Other(
                "Session ".to_owned().concat(session_id).concat(" is in '").concat(
                    session.phase.label(),
                ).concat("' phase and cannot be run. Approve it first with `cruise list`."),
            ),
        )
    }
}

/// Whether the workspace of the session counts.
#[derive(Debug, Clone, Copy, PartialEq, Eq, Structural)]
pub enum WorkspaceOverride {
    RespectSession,
    ForceWorktree,
}

/// Where a session is to be run, as far as it is known.
#[derive(Debug, Clone, Copy, PartialEq, Eq, Structural)]
pub enum ModeChoice {
    Fixed(WorkspaceMode),
    /// The user is asked.
    Ask,
}

/// Where a session is to be run. The user is asked before the first step of a session that
/// would run in a worktree.
pub open spec fn mode_choice(workspace_override: WorkspaceOverride, session: SessionState) -> ModeChoice {
    match workspace_override {
        WorkspaceOverride::ForceWorktree => ModeChoice::Fixed(WorkspaceMode::Worktree),
        WorkspaceOverride::RespectSession => if session.current_step is None
            && session.workspace_mode == WorkspaceMode::Worktree {
            ModeChoice::Ask
        } else {
            ModeChoice::Fixed(session.workspace_mode)
        },
    }
}

/// Where a session is to be run. The user is asked before the first step of a session that
/// would run in a worktree.
pub fn effective_workspace_mode(workspace_override: WorkspaceOverride, session: &SessionState) -> (r:
    ModeChoice)
    ensures
        r == mode_choice(workspace_override, *session),
{
    match workspace_override {
        WorkspaceOverride::ForceWorktree => ModeChoice::Fixed(WorkspaceMode::Worktree),
        WorkspaceOverride::RespectSession => if session.current_step.is_none()
            && session.workspace_mode == WorkspaceMode::Worktree {
            ModeChoice::Ask
        } else {
            ModeChoice::Fixed(session.workspace_mode)
        },
    }
}

/// The labels of the menu for the workspace.
pub fn workspace_labels() -> (r: (&'static str, &'static str))
    ensures
        r.0@ == "Create worktree (new branch)"@,
        r.1@ == "Use current branch"@,
{
    ("Create worktree (new branch)", "Use current branch")
}

/// Where the user wants a session to be run, or why that is not known. Without a terminal to ask
/// at it is a worktree.
pub open spec fn asked_mode(answer: Option<MenuAnswer>) -> Result<WorkspaceMode, Seq<char>> {
    match answer {
        None => Ok(WorkspaceMode::Worktree),
        Some(MenuAnswer::Chosen(label)) => if label@ == "Use current branch"@ {
            Ok(WorkspaceMode::CurrentBranch)
        } else {
            Ok(WorkspaceMode::Worktree)
        },
        Some(MenuAnswer::Cancelled) => Err("workspace mode selection cancelled"@),
        Some(MenuAnswer::Failed(e)) => Err("selection error: "@ + e@),
    }
}

/// Where the user wants a session to be run. `answer` is `None` where there is no terminal to
/// ask at: then it is a worktree.
///
/// # Errors
///
/// Returns `Other` if the user left the menu or it could not be shown.
pub fn prompt_workspace_mode(answer: &Option<MenuAnswer>) -> (r: Result<WorkspaceMode, CruiseError>)
    ensures
        match asked_mode(*answer) {
            Ok(mode) => r == Ok::<WorkspaceMode, CruiseError>(mode),
            Err(text) => r matches Err(CruiseError::Other(m)) && m@ == text,
        },
{
    match answer {
        None => Ok(WorkspaceMode::Worktree),
        Some(MenuAnswer::Chosen(label)) => if same_text(label.as_str(), "Use current branch") {
            Ok(WorkspaceMode::CurrentBranch)
        } else {
            Ok(WorkspaceMode::Worktree)
        },
        Some(MenuAnswer::Cancelled) => Err(
            CruiseError::Other("workspace mode selection cancelled".to_owned()),
        ),
        Some(MenuAnswer::Failed(e)) => Err(
            CruiseError::Other("selection error: ".to_owned().concat(e.as_str())),
        ),
    }
}

/// The step to begin with: that at which the session stands, or else the first one.
///
/// # Errors
///
/// Returns `Other` if the session stands at no step and the workflow has none.
pub fn start_step(session: &SessionState, compiled: &CompiledWorkflow) -> (r: Result<
    String,
    CruiseError,
>)
    ensures
        match session.current_step {
            Some(step) => r == Ok::<String, CruiseError>(step),
            None => if compiled.list().len() > 0 {
                r matches Ok(step) && step@ == compiled.list()[0].0
            } else {
                r matches Err(CruiseError::Other(m)) && m@ == "config has no steps"@
            },
        },
{
    match &session.current_step {
        Some(step) => Ok(step.clone()),
        None => if steps_len(&compiled.steps) > 0 {
            Ok(step_name_at(&compiled.steps, 0).clone())
        } else {
            Err(CruiseError::Other("config has no steps".to_owned()))
        },
    }
}

/// What is said when a session is taken up again.
pub open spec fn resume_spans(session: SessionState) -> Option<Seq<SpanView>> {
    match session.current_step {
        None => None,
        Some(step) => match session.phase {
            SessionPhase::Running | SessionPhase::Suspended => Some(
                seq![("↺"@, Tone::Cyan), (" Resuming from step: "@ + step@, Tone::Plain)],
            ),
            SessionPhase::Failed(_) => Some(
                seq![("↺"@, Tone::Yellow), (" Retrying from failed step: "@ + step@, Tone::Plain)],
            ),
            _ => None,
        },
    }
}

/// What is said when a session is taken up again, if anything.
pub fn resume_message(session: &SessionState) -> (r: Option<Vec<Span>>)
    ensures
        match resume_spans(*session) {
            Some(spans) => r matches Some(v) && span_views(v@) == spans,
            None => r is None,
        },
{
    let step = match &session.current_step {
        Some(step) => step,
        None => return None,
    };
    let mut out: Vec<Span> = Vec::new();
    match &session.phase {
        SessionPhase::Running | SessionPhase::Suspended => {
            put(&mut out, "↺".to_owned(), Tone::Cyan);
            put(
                &mut out,
                " Resuming from step: ".to_owned().concat(step.as_str()),
                Tone::Plain,
            );
        },
        SessionPhase::Failed(_) => {
            put(&mut out, "↺".to_owned(), Tone::Yellow);
            put(
                &mut out,
                " Retrying from failed step: ".to_owned().concat(step.as_str()),
                Tone::Plain,
            );
        },
        _ => return None,
    }
    assert(span_views(out@) =~= resume_spans(*session)->0);
    Some(out)
}

// ---------------------------------------------------------------------------
// Ending a run
// ---------------------------------------------------------------------------

/// The line of the run log for the end of an execution, with the details of an error or without.
pub open spec fn outcome_text(
    result: Result<ExecutionResult, CruiseError>,
    detailed: bool,
) -> Seq<char> {
    match result {
        Ok(exec) => "✓ completed — run: "@ + decimal(exec.run as nat) + ", skipped: "@ + decimal(
            exec.skipped as nat,
        ) + ", failed: "@ + decimal(exec.failed as nat),
        Err(CruiseError::Interrupted) => "⏸ cancelled"@,
        Err(e) => "✗ failed: "@ + if detailed {
            e.detailed_spec()
        } else {
            e.message_spec()
        },
    }
}

/// The line of the run log for an execution that ended without an error.
pub fn completed_line(exec: &ExecutionResult) -> (r: String)
    ensures
        r@ == outcome_text(Ok(*exec), false),
{
    "✓ completed — run: ".to_owned().concat(decimal_of(exec.run as u64).as_str()).concat(
        ", skipped: ",
    ).concat(decimal_of(exec.skipped as u64).as_str()).concat(", failed: ").concat(
        decimal_of(exec.failed as u64).as_str(),
    )
}

/// The line of the run log for the end of an execution.
pub fn outcome_line(result: &Result<ExecutionResult, CruiseError>) -> (r: String)
    ensures
        r@ == outcome_text(*result, true),
{
    match result {
        Ok(exec) => completed_line(exec),
        Err(CruiseError::Interrupted) => "⏸ cancelled".to_owned(),
        Err(e) => "✗ failed: ".to_owned().concat(e.detailed_message().as_str()),
    }
}

/// Apply the result of a step execution to the session state.
///
/// - `Ok(())`: `Completed`
/// - `Err(StepPaused)`: the phase is kept, so that the session can be resumed
/// - `Err(other)`: `Failed`
pub fn apply_run_result_to_session(session: &mut SessionState, result: &Result<(), CruiseError>)
    ensures
        match *result {
            Ok(_) => {
                &&& final(session).completed_at matches Some(t) && is_iso8601(t@)
                &&& *final(session) == (SessionState {
                    phase: SessionPhase::Completed,
                    completed_at: final(session).completed_at,
                    ..*old(session)
                })
            },
            Err(CruiseError::StepPaused) => *final(session) == *old(session),
            Err(e) => {
                &&& final(session).completed_at matches Some(t) && is_iso8601(t@)
                &&& final(session).phase matches SessionPhase::Failed(m) && m@ == e.message_spec()
                &&& *final(session) == (SessionState {
                    phase: final(session).phase,
                    completed_at: final(session).completed_at,
                    ..*old(session)
                })
            },
        },
{
    match result {
        Ok(_) => {
            session.phase = SessionPhase::Completed;
            session.completed_at = Some(current_iso8601());
        },
        Err(CruiseError::StepPaused) => {},
        Err(e) => {
            session.phase = SessionPhase::Failed(e.message());
            session.completed_at = Some(current_iso8601());
        },
    }
}

/// The result of a command that ran one session: a session that was paused is no failure.
pub fn single_result(result: Result<(), CruiseError>) -> (r: (
    Result<(), CruiseError>,
    Option<&'static str>,
))
    ensures
        match result {
            Err(CruiseError::StepPaused) => r.0 is Ok && (r.1 matches Some(m) && m@
                == "Session paused. Resume with `cruise run`."@),
            _ => r.0 == result && r.1 is None,
        },
{
    match result {
        Err(CruiseError::StepPaused) => (
            Ok(()),
            Some("Session paused. Resume with `cruise run`."),
        ),
        other => (other, None),
    }
}

// ---------------------------------------------------------------------------
// Pull requests
// ---------------------------------------------------------------------------

/// The language of a pull request.
pub open spec fn pr_language(configured: Seq<char>) -> Seq<char> {
    if is_blank(configured) {
        DEFAULT_PR_LANGUAGE@
    } else {
        trim(configured)
    }
}

/// The variables once the language of pull requests is among them.
pub open spec fn with_language(vars: Variables, configured: Seq<char>, after: Variables) -> bool {
    let language = after.named[PR_LANGUAGE_VAR@];
    &&& language matches NamedVariable::Value(v) && v@ == pr_language(configured)
    &&& after == (Variables { named: vars.named.insert(PR_LANGUAGE_VAR@, language), ..vars })
}

/// Builds the request for a title and a body: sets the language and resolves the template.
///
/// # Errors
///
/// Returns `UndefinedVariable` with the first name in the template that is not defined.
pub fn build_pr_prompt(vars: &mut VariableStore, configured_language: &str, template: &str) -> (r:
    Result<String, CruiseError>)
    ensures
        with_language(old(vars)@, configured_language@, final(vars)@),
        match r {
            Ok(text) => final(vars)@.expand(template@) == Ok::<Seq<char>, Seq<char>>(text@),
            Err(CruiseError::UndefinedVariable(name)) => final(vars)@.expand(template@) == Err::<
                Seq<char>,
                Seq<char>,
            >(name@),
            Err(_) => false,
        },
{
    let language: String = if blank(configured_language) {
        DEFAULT_PR_LANGUAGE.to_owned()
    } else {
        trimmed(configured_language)
    };
    vars.set_named_value(PR_LANGUAGE_VAR, language);
    vars.resolve(template)
}

/// A title and a body, and what is said if the answer that they come from was not understood.
#[derive(Debug)]
pub struct PrDescription {
    pub title: String,
    pub body: String,
    pub notice: Option<Vec<Span>>,
}

/// What is said of an answer that gives no title.
pub open spec fn unparsed_spans(output: Seq<char>) -> Seq<SpanView> {
    seq![
        ("⚠"@, Tone::Yellow),
        (
            " Failed to parse PR metadata from LLM output (first 500 chars):\n"@ + front(
                output,
                500,
            ),
            Tone::Plain,
        ),
    ]
}

/// The title and the body in the answer of a model. An answer that holds anything but gives no
/// title is shown.
pub fn describe_pr(output: &str) -> (r: PrDescription)
    ensures
        (r.title@, r.body@) == pr_metadata(output@),
        r.title@.len() == 0 ==> r.body@.len() == 0,
        if r.title@.len() == 0 && !is_blank(output@) {
            r.notice matches Some(v) && span_views(v@) == unparsed_spans(output@)
        } else {
            r.notice is None
        },
{
    let (title, body) = parse_pr_metadata(output);
    proof {
        law_no_body_without_a_title(output@);
    }
    let mut notice: Option<Vec<Span>> = None;
    if title.as_str().is_empty() && !blank(output) {
        let mut out: Vec<Span> = Vec::new();
        put(&mut out, "⚠".to_owned(), Tone::Yellow);
        put(
            &mut out,
            " Failed to parse PR metadata from LLM output (first 500 chars):\n".to_owned().concat(
                front_of(output, 500).as_str(),
            ),
            Tone::Plain,
        );
        assert(span_views(out@) =~= unparsed_spans(output@));
        notice = Some(out);
    }
    PrDescription { title, body, notice }
}

/// What is said of a commit.
pub open spec fn commit_spans(commit: CommitOutcome) -> Seq<SpanView> {
    match commit {
        CommitOutcome::Created => seq![
            ("✓"@, Tone::GreenBold),
            (" Changes committed"@, Tone::Plain),
        ],
        CommitOutcome::NoChanges => seq![
            ("→"@, Tone::Cyan),
            (" No new changes to commit; using existing branch commits"@, Tone::Plain),
        ],
    }
}

/// What is said of a commit.
pub fn report_commit_outcome(commit_outcome: CommitOutcome) -> (r: Vec<Span>)
    ensures
        span_views(r@) == commit_spans(commit_outcome),
{
    let mut out: Vec<Span> = Vec::new();
    match commit_outcome {
        CommitOutcome::Created => {
            put(&mut out, "✓".to_owned(), Tone::GreenBold);
            put_plain(&mut out, " Changes committed");
        },
        CommitOutcome::NoChanges => {
            put(&mut out, "→".to_owned(), Tone::Cyan);
            put_plain(&mut out, " No new changes to commit; using existing branch commits");
        },
    }
    assert(span_views(out@) =~= commit_spans(commit_outcome));
    out
}

impl PrAttemptOutcome {
    /// What is said of the attempt.
    pub open spec fn report_spec(self) -> Option<Seq<SpanView>> {
        match self {
            PrAttemptOutcome::Created { url: _, commit_outcome } => Some(
                commit_spans(commit_outcome),
            ),
            PrAttemptOutcome::CreateFailed { error: _, commit_outcome } => Some(
                commit_spans(commit_outcome),
            ),
            PrAttemptOutcome::SkippedNoCommits => None,
        }
    }

    /// What is said of the commit that the attempt began with, if anything.
    pub fn report(&self) -> (r: Option<Vec<Span>>)
        ensures
            match self.report_spec() {
                Some(spans) => r matches Some(v) && span_views(v@) == spans,
                None => r is None,
            },
    {
        match self {
            PrAttemptOutcome::Created { url: _, commit_outcome } => Some(
                report_commit_outcome(*commit_outcome),
            ),
            PrAttemptOutcome::CreateFailed { error: _, commit_outcome } => Some(
                report_commit_outcome(*commit_outcome),
            ),
            PrAttemptOutcome::SkippedNoCommits => None,
        }
    }
}

/// What follows from the attempt to create a pull request.
#[derive(Debug)]
pub enum PrFollowUp {
    /// The pull request stands; the steps after it are run.
    RunAfterSteps(Vec<Span>),
    /// There is no pull request, which is only worth a warning.
    Warn(String),
}

/// The variables once a pull request stands at `url`.
pub open spec fn with_pr(vars: Variables, url: Seq<char>, after: Variables) -> bool {
    let urls = after.named[PR_URL_VAR@];
    let numbered = match last_segment(url) {
        Some(number) => vars.named.insert(PR_NUMBER_VAR@, after.named[PR_NUMBER_VAR@]),
        None => vars.named,
    };
    &&& urls matches NamedVariable::Value(v) && v@ == url
    &&& last_segment(url) matches Some(number) ==> (after.named[PR_NUMBER_VAR@]
        matches NamedVariable::Value(v) && v@ == number)
    &&& after == (Variables { named: numbered.insert(PR_URL_VAR@, urls), ..vars })
}

/// Takes note of the attempt to create a pull request for a branch. Where it stands, the
/// variables give its number and URL and the session keeps the URL.
///
/// # Errors
///
/// Returns `Other` if the branch has no commits.
pub fn note_pr_attempt(
    outcome: PrAttemptOutcome,
    branch: &str,
    vars: &mut VariableStore,
    session: &mut SessionState,
) -> (r: Result<PrFollowUp, CruiseError>)
    ensures
        match outcome {
            PrAttemptOutcome::Created { url, commit_outcome: _ } => {
                &&& r matches Ok(PrFollowUp::RunAfterSteps(v)) && span_views(v@) == seq![
                    ("✓"@, Tone::GreenBold),
                    (" PR created: "@ + url@, Tone::Plain),
                ]
                &&& with_pr(old(vars)@, url@, final(vars)@)
                &&& *final(session) == (SessionState { pr_url: Some(url), ..*old(session) })
            },
            PrAttemptOutcome::SkippedNoCommits => {
                &&& r matches Err(CruiseError::Other(m)) && m@ == "cannot create PR for "@ + branch@
                    + ": branch has no commits beyond its base; make changes and rerun `cruise run`"@
                &&& final(vars)@ == old(vars)@
                &&& *final(session) == *old(session)
            },
            PrAttemptOutcome::CreateFailed { error, commit_outcome: _ } => {
                &&& r matches Ok(PrFollowUp::Warn(m)) && m@ == "warning: PR creation failed: "@
                    + error@
                &&& final(vars)@ == old(vars)@
                &&& *final(session) == *old(session)
            },
        },
{
    match outcome {
        PrAttemptOutcome::Created { url, commit_outcome: _ } => {
            let mut out: Vec<Span> = Vec::new();
            put(&mut out, "✓".to_owned(), Tone::GreenBold);
            put(&mut out, " PR created: ".to_owned().concat(url.as_str()), Tone::Plain);
            proof {
                reveal_strlit("pr.number");
                reveal_strlit("pr.url");
                assert(PR_NUMBER_VAR@.len() == 9);
                assert(PR_URL_VAR@.len() == 6);
            }
            match extract_last_path_segment(url.as_str()) {
                Some(number) => vars.set_named_value(PR_NUMBER_VAR, number),
                None => {},
            }
            vars.set_named_value(PR_URL_VAR, url.clone());
            session.pr_url = Some(url);
            assert(span_views(out@) =~= seq![
                ("✓"@, Tone::GreenBold),
                (" PR created: "@ + url@, Tone::Plain),
            ]);
            Ok(PrFollowUp::RunAfterSteps(out))
        },
        PrAttemptOutcome::SkippedNoCommits => Err(
            CruiseError::Other(
                "cannot create PR for ".to_owned().concat(branch).concat(
                    ": branch has no commits beyond its base; make changes and rerun `cruise run`",
                ),
            ),
        ),
        PrAttemptOutcome::CreateFailed { error, commit_outcome: _ } => Ok(
            PrFollowUp::Warn("warning: PR creation failed: ".to_owned().concat(error.as_str())),
        ),
    }
}

// ---------------------------------------------------------------------------
// Choosing a session
// ---------------------------------------------------------------------------

/// How one of the sessions that can be run is chosen.
#[derive(Debug)]
pub enum PendingChoice {
    /// There is only one.
    Only { id: String, notice: Vec<Span> },
    /// The user chooses one of these labels.
    Menu(Vec<String>),
}

/// The label of a session in the menu.
pub open spec fn pending_label(s: SessionState) -> Seq<char> {
    s.id@ + " | "@ + s.phase.label_spec() + " | "@ + truncated(s.input@, 60)
}

/// The labels of the sessions in the menu.
pub open spec fn pending_labels(pending: Seq<SessionState>) -> Seq<Seq<char>> {
    pending.map_values(|s: SessionState| pending_label(s))
}

/// How one of the sessions that can be run is chosen: a single one is taken.
///
/// # Errors
///
/// Returns `Other` if there is none.
pub fn select_pending_session(pending: &Vec<SessionState>) -> (r: Result<PendingChoice, CruiseError>)
    ensures
        if pending@.len() == 0 {
            r matches Err(CruiseError::Other(m)) && m@
                == "No pending sessions. Run `cruise plan` first."@
        } else if pending@.len() == 1 {
            r matches Ok(PendingChoice::Only { id, notice }) && id == pending@[0].id && span_views(
                notice@,
            ) == seq![
                ("→"@, Tone::Cyan),
                (
                    " Selected session: "@ + pending@[0].id@ + " — "@ + truncated(
                        pending@[0].input@,
                        60,
                    ),
                    Tone::Plain,
                ),
            ]
        } else {
            r matches Ok(PendingChoice::Menu(labels)) && views(labels@) == pending_labels(pending@)
        },
{
    if pending.len() == 0 {
        return Err(CruiseError::Other("No pending sessions. Run `cruise plan` first.".to_owned()));
    }
    if pending.len() == 1 {
        let s = &pending[0];
        let mut notice: Vec<Span> = Vec::new();
        put(&mut notice, "→".to_owned(), Tone::Cyan);
        put(
            &mut notice,
            " Selected session: ".to_owned().concat(s.id.as_str()).concat(" — ").concat(
                truncate(s.input.as_str(), 60).as_str(),
            ),
            Tone::Plain,
        );
        assert(span_views(notice@) =~= seq![
            ("→"@, Tone::Cyan),
            (
                " Selected session: "@ + s.id@ + " — "@ + truncated(s.input@, 60),
                Tone::Plain,
            ),
        ]);
        return Ok(PendingChoice::Only { id: s.id.clone(), notice });
    }
    let mut labels: Vec<String> = Vec::new();
    let mut i: usize = 0;
    while i < pending.len()
        invariant
            i <= pending@.len(),
            labels@.len() == i,
            forall|k: int| 0 <= k < i ==> (#[trigger] labels@[k])@ == pending_label(pending@[k]),
        decreases pending@.len() - i,
    {
        let s = &pending[i];
        labels.push(
            s.id.clone().concat(" | ").concat(s.phase.label()).concat(" | ").concat(
                truncate(s.input.as_str(), 60).as_str(),
            ),
        );
        i += 1;
    }
    assert(views(labels@) =~= pending_labels(pending@));
    Ok(PendingChoice::Menu(labels))
}

/// The session that the user chose from the menu: the first one with that label.
///
/// # Errors
///
/// Returns `Other` if the user left the menu, if it could not be shown, or if no session has the
/// label.
pub fn chosen_session(pending: &Vec<SessionState>, labels: &Vec<String>, answer: &MenuAnswer) -> (r:
    Result<String, CruiseError>)
    requires
        labels@.len() == pending@.len(),
    ensures
        match *answer {
            MenuAnswer::Chosen(label) => if first_index(views(labels@), label@) < labels@.len() {
                r == Ok::<String, CruiseError>(
                    pending@[first_index(views(labels@), label@)].id,
                )
            } else {
                r matches Err(CruiseError::Other(m)) && m@ == "selected session not found: "@
                    + label@
            },
            MenuAnswer::Cancelled => r matches Err(CruiseError::Other(m)) && m@
                == "session selection cancelled"@,
            MenuAnswer::Failed(e) => r matches Err(CruiseError::Other(m)) && m@
                == "selection error: "@ + e@,
        },
{
    match answer {
        MenuAnswer::Chosen(label) => match position_of(labels, label.as_str()) {
            Some(i) => Ok(pending[i].id.clone()),
            None => Err(
                CruiseError::Other("selected session not found: ".to_owned().concat(label.as_str())),
            ),
        },
        MenuAnswer::Cancelled => Err(CruiseError::Other("session selection cancelled".to_owned())),
        MenuAnswer::Failed(e) => Err(
            CruiseError::Other("selection error: ".to_owned().concat(e.as_str())),
        ),
    }
}

} // verus!
