//! The commands of the graphical front end.

use vstd::prelude::*;

use crate::clock::current_iso8601;
use crate::engine::ExecutionResult;
use crate::error::CruiseError;
use crate::gui::events::{PlanEvent, WorkflowEvent};
use crate::metadata::{resolve_plan_content, PlanContent, PlanFile, PlanRead};
use crate::path::{join_path, joined_path};
use crate::resolver::{collect_yaml_files, config_names, DirEntry, FileRead};
use crate::session::{is_iso8601, CleanupReport, SessionPhase, SessionState, WorkspaceMode};
use crate::step::option::OptionResult;
use crate::step::prompt::PromptResult;
use crate::text::{
    chars_of, decimal, decimal_of, in_order, in_order_of, is_blank, opt_view, string_of, views,
};

verus! {

// ---------------------------------------------------------------------------
// What is sent
// ---------------------------------------------------------------------------

/// A session as the front end sees it.
#[derive(Debug)]
pub struct SessionDto {
    pub id: String,
    pub phase: String,
    /// Error message when `phase == "Failed"`.
    pub phase_error: Option<String>,
    pub config_source: String,
    pub base_dir: String,
    pub input: String,
    pub title: Option<String>,
    pub current_step: Option<String>,
    pub created_at: String,
    pub completed_at: Option<String>,
    pub worktree_branch: Option<String>,
    pub pr_url: Option<String>,
    pub updated_at: Option<String>,
    pub awaiting_input: bool,
    pub workspace_mode: WorkspaceMode,
}

impl SessionDto {
    /// A session as the front end sees it.
    pub fn from(s: SessionState) -> (r: Self)
        ensures
            r.id == s.id,
            r.phase@ == s.phase.label_spec(),
            r.phase_error == (match s.phase {
                SessionPhase::Failed(e) => Some(e),
                _ => None,
            }),
            r.config_source == s.config_source,
            r.base_dir == s.base_dir,
            r.input == s.input,
            r.title == s.title,
            r.current_step == s.current_step,
            r.created_at == s.created_at,
            r.completed_at == s.completed_at,
            r.worktree_branch == s.worktree_branch,
            r.pr_url == s.pr_url,
            r.updated_at == s.updated_at,
            r.awaiting_input == s.awaiting_input,
            r.workspace_mode == s.workspace_mode,
    {
        let phase = s.phase.label().to_owned();
        let phase_error: Option<String> = match s.phase {
            SessionPhase::Failed(e) => Some(e),
            _ => None,
        };
        SessionDto {
            id: s.id,
            phase,
            phase_error,
            config_source: s.config_source,
            base_dir: s.base_dir,
            input: s.input,
            title: s.title,
            current_step: s.current_step,
            created_at: s.created_at,
            completed_at: s.completed_at,
            worktree_branch: s.worktree_branch,
            pr_url: s.pr_url,
            updated_at: s.updated_at,
            awaiting_input: s.awaiting_input,
            workspace_mode: s.workspace_mode,
        }
    }
}

/// A directory entry returned by `list_directory`.
#[derive(Debug)]
pub struct DirEntryDto {
    pub name: String,
    pub path: String,
}

/// Result of a cleanup operation.
#[derive(Debug)]
pub struct CleanupResultDto {
    pub deleted: usize,
    pub skipped: usize,
}

impl CleanupResultDto {
    /// The result of a cleanup.
    pub fn from(report: &CleanupReport) -> (r: Self)
        ensures
            r.deleted == report.deleted,
            r.skipped == report.skipped,
    {
        CleanupResultDto { deleted: report.deleted, skipped: report.skipped }
    }
}

/// What the user chose in the front end.
#[derive(Debug)]
pub struct OptionResultDto {
    pub next_step: Option<String>,
    pub text_input: Option<String>,
}

impl OptionResultDto {
    /// The result of the option step.
    pub fn into_result(self) -> (r: OptionResult)
        ensures
            r.next_step == self.next_step,
            r.text_input == self.text_input,
    {
        OptionResult { next_step: self.next_step, text_input: self.text_input }
    }
}

/// A discovered workflow config file.
#[derive(Debug)]
pub struct ConfigEntryDto {
    pub path: String,
    pub name: String,
}

// ---------------------------------------------------------------------------
// Directories
// ---------------------------------------------------------------------------

/// The greatest number of directories that are listed.
pub const MAX_DIRECTORY_ENTRIES: usize = 50;

/// `path` with the user's directory in place of a tilde at its beginning.
pub open spec fn home_expanded(path: Seq<char>, home: Option<Seq<char>>) -> Seq<char> {
    if path.len() > 0 && path[0] == '~' {
        (match home {
            Some(dir) => dir,
            None => seq![],
        }) + path.skip(1)
    } else {
        path
    }
}

/// `path` with the user's directory in place of a tilde at its beginning.
pub fn expand_home(path: &str, home: &Option<String>) -> (r: String)
    ensures
        r@ == home_expanded(path@, opt_view(*home)),
{
    let v = chars_of(path);
    if v.len() > 0 && v[0] == '~' {
        let rest = string_of(v.as_slice(), 1, v.len());
        assert(rest@ =~= path@.skip(1));
        match home {
            Some(dir) => dir.clone().concat(rest.as_str()),
            None => {
                assert(seq![] + path@.skip(1) =~= path@.skip(1));
                rest
            },
        }
    } else {
        path.to_owned()
    }
}

/// An entry of a directory, and whether it is one itself.
#[derive(Debug)]
pub struct FoundEntry {
    pub name: String,
    pub is_dir: bool,
}

/// An entry that is listed: a directory that is not hidden.
pub open spec fn is_listed(e: FoundEntry) -> bool {
    e.is_dir && !(e.name@.len() > 0 && e.name@[0] == '.')
}

/// The names of the directories that are listed, in the order of the entries.
pub open spec fn listed_names(entries: Seq<FoundEntry>) -> Seq<Seq<char>> {
    entries.filter(|e: FoundEntry| is_listed(e)).map_values(|e: FoundEntry| e.name@)
}

/// The first of the names.
pub open spec fn first_names(names: Seq<Seq<char>>, n: int) -> Seq<Seq<char>> {
    if names.len() <= n {
        names
    } else {
        names.take(n)
    }
}

/// The entries with the given names in a directory.
pub open spec fn are_entries(
    dtos: Seq<DirEntryDto>,
    dir: Seq<char>,
    names: Seq<Seq<char>>,
    windows: bool,
) -> bool {
    &&& dtos.len() == names.len()
    &&& forall|i: int|
        0 <= i < dtos.len() ==> (#[trigger] dtos[i]).name@ == names[i] && dtos[i].path@
            == join_path(dir, names[i], windows)
}

/// Lists the subdirectories among the entries of `dir`, sorted by name, up to a fixed number.
/// Hidden ones are left out.
pub fn list_directory(dir: &str, entries: &Vec<FoundEntry>, windows: bool) -> (r: Vec<DirEntryDto>)
    ensures
        are_entries(
            r@,
            dir@,
            first_names(in_order(listed_names(entries@)), MAX_DIRECTORY_ENTRIES as int),
            windows,
        ),
{
    let mut names: Vec<String> = Vec::new();
    let mut i: usize = 0;
    let ghost keep = |e: FoundEntry| is_listed(e);
    assert(views(names@) =~= listed_names(entries@.take(0))) by {
        reveal(Seq::filter);
    }
    while i < entries.len()
        invariant
            i <= entries@.len(),
            keep == (|e: FoundEntry| is_listed(e)),
            views(names@) == listed_names(entries@.take(i as int)),
        decreases entries@.len() - i,
    {
        let e = &entries[i];
        let ghost before = entries@.take(i as int);
        proof {
            reveal(Seq::filter);
            assert(entries@.take(i + 1).drop_last() =~= before);
        }
        if e.is_dir && !is_hidden(e.name.as_str()) {
            let ghost done = names@;
            names.push(e.name.clone());
            assert(views(names@) =~= views(done).push(e.name@));
            assert(listed_names(entries@.take(i + 1)) =~= listed_names(before).push(e.name@));
        } else {
            assert(listed_names(entries@.take(i + 1)) =~= listed_names(before));
        }
        i += 1;
    }
    assert(entries@.take(i as int) =~= entries@);
    let sorted = in_order_of(&names);
    assert(views(sorted@).len() == sorted@.len());
    let mut r: Vec<DirEntryDto> = Vec::new();
    let mut k: usize = 0;
    while k < sorted.len() && k < MAX_DIRECTORY_ENTRIES
        invariant
            k <= sorted@.len(),
            k <= MAX_DIRECTORY_ENTRIES,
            are_entries(r@, dir@, views(sorted@).take(k as int), windows),
        decreases sorted@.len() - k,
    {
        assert(views(sorted@)[k as int] == sorted@[k as int]@);
        let dto = DirEntryDto {
            name: sorted[k].clone(),
            path: joined_path(dir, sorted[k].as_str(), windows),
        };
        let ghost done = r@;
        r.push(dto);
        assert(are_entries(r@, dir@, views(sorted@).take(k + 1), windows)) by {
            assert forall|j: int| 0 <= j < r@.len() implies (#[trigger] r@[j]).name@ == views(
                sorted@,
            ).take(k + 1)[j] && r@[j].path@ == join_path(
                dir@,
                views(sorted@).take(k + 1)[j],
                windows,
            ) by {
                if j < k {
                    assert(r@[j] == done[j]);
                    assert(views(sorted@).take(k + 1)[j] == views(sorted@).take(k as int)[j]);
                }
            }
        }
        k += 1;
    }
    assert(views(sorted@).take(k as int) =~= first_names(
        views(sorted@),
        MAX_DIRECTORY_ENTRIES as int,
    ));
    r
}

fn is_hidden(name: &str) -> (r: bool)
    ensures
        r == (name@.len() > 0 && name@[0] == '.'),
{
    let v = chars_of(name);
    v.len() > 0 && v[0] == '.'
}

/// The configurations with the given names in a directory.
pub open spec fn are_configs(
    dtos: Seq<ConfigEntryDto>,
    dir: Seq<char>,
    names: Seq<Seq<char>>,
    windows: bool,
) -> bool {
    &&& dtos.len() == names.len()
    &&& forall|i: int|
        0 <= i < dtos.len() ==> (#[trigger] dtos[i]).name@ == names[i] && dtos[i].path@
            == join_path(dir, names[i], windows)
}

/// Lists the workflow configurations among the entries of `dir`, sorted by name.
pub fn list_configs(dir: &str, entries: &Vec<DirEntry>, windows: bool) -> (r: Vec<ConfigEntryDto>)
    ensures
        are_configs(r@, dir@, in_order(config_names(entries@)), windows),
{
    let names = collect_yaml_files(entries);
    assert(views(names@).len() == names@.len());
    let mut r: Vec<ConfigEntryDto> = Vec::new();
    let mut i: usize = 0;
    while i < names.len()
        invariant
            i <= names@.len(),
            r@.len() == i,
            forall|k: int|
                0 <= k < i ==> (#[trigger] r@[k]).name@ == views(names@)[k] && r@[k].path@
                    == join_path(dir@, views(names@)[k], windows),
        decreases names@.len() - i,
    {
        assert(views(names@)[i as int] == names@[i as int]@);
        r.push(
            ConfigEntryDto {
                path: joined_path(dir, names[i].as_str(), windows),
                name: names[i].clone(),
            },
        );
        i += 1;
    }
    r
}

// ---------------------------------------------------------------------------
// Sessions
// ---------------------------------------------------------------------------

/// The text of a run log that was read. A session that was never run has an empty one.
///
/// # Errors
///
/// Returns a message if the log could not be read.
pub fn session_log(path: &str, read: FileRead) -> (r: Result<String, String>)
    ensures
        match read {
            FileRead::Text(text) => r == Ok::<String, String>(text),
            FileRead::NotFound(_) => r matches Ok(text) && text@.len() == 0,
            FileRead::Failed(e) => r matches Err(m) && m@ == "failed to read log "@ + path@ + ": "@
                + e@,
        },
{
    match read {
        FileRead::Text(text) => Ok(text),
        FileRead::NotFound(_) => Ok(String::new()),
        FileRead::Failed(e) => Err(
            "failed to read log ".to_owned().concat(path).concat(": ").concat(e.as_str()),
        ),
    }
}

/// Refuses to delete a session that is running.
///
/// # Errors
///
/// Returns a message if the session is running.
pub fn ensure_deletable(session: &SessionState) -> (r: Result<(), String>)
    ensures
        if session.phase is Running {
            r matches Err(m) && m@ == "Cannot delete a running session. Cancel it first."@
        } else {
            r is Ok
        },
{
    match &session.phase {
        SessionPhase::Running => Err(
            "Cannot delete a running session. Cancel it first.".to_owned(),
        ),
        _ => Ok(()),
    }
}

/// Where a session is run: where the front end asks for, unless it was begun already.
pub fn requested_workspace_mode(session: &SessionState, requested: WorkspaceMode) -> (r:
    WorkspaceMode)
    ensures
        r == (if session.current_step is None {
            requested
        } else {
            session.workspace_mode
        }),
{
    if session.current_step.is_none() {
        requested
    } else {
        session.workspace_mode
    }
}

/// The line of the run log for a step.
pub fn step_line(index: usize, total: usize, step: &str) -> (r: String)
    requires
        index < usize::MAX,
    ensures
        r@ == "["@ + decimal((index + 1) as nat) + "/"@ + decimal(total as nat) + "] "@ + step@,
{
    "[".to_owned().concat(decimal_of((index + 1) as u64).as_str()).concat("/").concat(
        decimal_of(total as u64).as_str(),
    ).concat("] ").concat(step)
}

/// The user stopped an execution with this result: it was interrupted, or it ended without an
/// error after the user had cancelled it.
pub open spec fn was_stopped(result: Result<ExecutionResult, CruiseError>, cancelled: bool) -> bool {
    match result {
        Ok(_) => cancelled,
        Err(e) => e is Interrupted,
    }
}

/// Ends the run of a session: gives it its last phase, and the event for the front end. A session
/// that the user stopped is suspended. It no longer waits for an answer.
pub fn finish_session(
    session: &mut SessionState,
    result: &Result<ExecutionResult, CruiseError>,
    cancelled: bool,
) -> (r: WorkflowEvent)
    ensures
        !final(session).awaiting_input,
        was_stopped(*result, cancelled) ==> {
            &&& r == WorkflowEvent::WorkflowCancelled
            &&& *final(session) == (SessionState {
                phase: SessionPhase::Suspended,
                awaiting_input: false,
                ..*old(session)
            })
        },
        !was_stopped(*result, cancelled) ==> match *result {
            Ok(exec) => {
                &&& r == (WorkflowEvent::WorkflowCompleted {
                    run: exec.run,
                    skipped: exec.skipped,
                    failed: exec.failed,
                })
                &&& final(session).completed_at matches Some(t) && is_iso8601(t@)
                &&& *final(session) == (SessionState {
                    phase: SessionPhase::Completed,
                    completed_at: final(session).completed_at,
                    awaiting_input: false,
                    ..*old(session)
                })
            },
            Err(e) => {
                &&& r matches WorkflowEvent::WorkflowFailed { error } && error@ == e.message_spec()
                &&& final(session).phase matches SessionPhase::Failed(m) && m@ == e.message_spec()
                &&& final(session).completed_at matches Some(t) && is_iso8601(t@)
                &&& *final(session) == (SessionState {
                    phase: final(session).phase,
                    completed_at: final(session).completed_at,
                    awaiting_input: false,
                    ..*old(session)
                })
            },
        },
{
    session.awaiting_input = false;
    match result {
        Ok(_) if cancelled => {
            session.phase = SessionPhase::Suspended;
            WorkflowEvent::WorkflowCancelled
        },
        Ok(exec) => {
            session.phase = SessionPhase::Completed;
            session.completed_at = Some(current_iso8601());
            WorkflowEvent::WorkflowCompleted {
                run: exec.run,
                skipped: exec.skipped,
                failed: exec.failed,
            }
        },
        Err(CruiseError::Interrupted) => {
            session.phase = SessionPhase::Suspended;
            WorkflowEvent::WorkflowCancelled
        },
        Err(e) => {
            let message = e.message();
            session.phase = SessionPhase::Failed(message.clone());
            session.completed_at = Some(current_iso8601());
            WorkflowEvent::WorkflowFailed { error: message }
        },
    }
}

/// What follows from the end of one session of many: the event for the front end, and whether
/// no further session is begun. Only the user's interruption stops the others.
pub fn finish_one_of_all(session_id: String, input: String, phase: &SessionPhase) -> (r: (
    WorkflowEvent,
    bool,
))
    ensures
        r.1 == (*phase is Suspended),
        r.0 matches WorkflowEvent::RunAllSessionFinished {
            session_id: id,
            input: shown,
            phase: label,
            error,
        } && id == session_id && shown == input && label@ == phase.label_spec() && error == (
        match *phase {
            SessionPhase::Failed(m) => Some(m),
            _ => None,
        }),
{
    let (error, stop): (Option<String>, bool) = match phase {
        SessionPhase::Suspended => (None, true),
        SessionPhase::Failed(m) => (Some(m.clone()), false),
        _ => (None, false),
    };
    (
        WorkflowEvent::RunAllSessionFinished {
            session_id,
            input,
            phase: phase.label().to_owned(),
            error,
        },
        stop,
    )
}

/// Takes note in the session of an event that is sent to the front end: once a choice is required,
/// the session waits for an answer. Tells whether the session changed and has to be saved.
pub fn note_event(session: &mut SessionState, event: &WorkflowEvent) -> (r: bool)
    ensures
        r == (event is OptionRequired),
        *final(session) == (SessionState {
            awaiting_input: old(session).awaiting_input || r,
            ..*old(session)
        }),
{
    match event {
        WorkflowEvent::OptionRequired { .. } => {
            session.awaiting_input = true;
            true
        },
        _ => false,
    }
}

/// Takes note in the session that the front end answered.
pub fn note_answer(session: &mut SessionState)
    ensures
        *final(session) == (SessionState { awaiting_input: false, ..*old(session) }),
{
    session.awaiting_input = false;
}

/// The plan of a session, which was read from `path` with the given result.
///
/// # Errors
///
/// Returns a message if the plan could not be read.
pub fn session_plan(path: &str, read: PlanRead) -> (r: Result<String, String>)
    ensures
        match read {
            Ok(text) => r == Ok::<String, String>(text),
            Err(e) => r matches Err(m) && m@ == "failed to read plan "@ + path@ + ": "@ + e@,
        },
{
    match read {
        Ok(text) => Ok(text),
        Err(e) => Err(
            "failed to read plan ".to_owned().concat(path).concat(": ").concat(e.as_str()),
        ),
    }
}

/// The plan and whether it is to be written to the plan file, or why there is none.
pub open spec fn generated(
    plan_path: Seq<char>,
    result: Result<PromptResult, CruiseError>,
    file: PlanFile,
) -> Result<(Seq<char>, bool), Seq<char>> {
    match result {
        Err(e) => Err(e.message_spec()),
        Ok(out) => match file {
            PlanFile::Failed(e) => Err("failed to read plan at "@ + plan_path + ": "@ + e@),
            PlanFile::Content(text) if !is_blank(text@) => Ok((text@, false)),
            _ => if !is_blank(out.output@) {
                Ok((out.output@, true))
            } else if !is_blank(out.stderr@) {
                Ok((out.stderr@, true))
            } else {
                Err(
                    "plan generation produced no output: "@ + plan_path
                        + ", stdout, and stderr were all empty"@,
                )
            },
        },
    }
}

/// What follows from the end of a plan's generation: the plan, where it comes from, and the
/// event for the front end.
///
/// # Errors
///
/// Returns a message if the generation failed or no source holds a plan.
pub fn after_generation(
    plan_path: &str,
    result: Result<PromptResult, CruiseError>,
    file: PlanFile,
) -> (r: (Result<PlanContent, String>, PlanEvent))
    ensures
        match generated(plan_path@, result, file) {
            Ok((content, write)) => {
                &&& r.0 matches Ok(plan) && plan.content@ == content && plan.write == write
                &&& r.1 matches PlanEvent::PlanGenerated { content: shown } && shown@ == content
            },
            Err(text) => {
                &&& r.0 matches Err(m) && m@ == text
                &&& r.1 matches PlanEvent::PlanFailed { error } && error@ == text
            },
        },
{
    let plan: Result<PlanContent, CruiseError> = match result {
        Ok(out) => resolve_plan_content(plan_path, file, out.output.as_str(), out.stderr.as_str()),
        Err(e) => Err(e),
    };
    match plan {
        Ok(plan) => {
            let event = PlanEvent::PlanGenerated { content: plan.content.clone() };
            (Ok(plan), event)
        },
        Err(e) => {
            let text = e.message();
            (Err(text.clone()), PlanEvent::PlanFailed { error: text })
        },
    }
}

} // verus!
