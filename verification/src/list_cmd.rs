//! The list of sessions: their labels and what can be done with them.

use vstd::prelude::*;

use crate::display::{truncate, truncated};
use crate::error::CruiseError;
use crate::metadata::{refresh_session_title_from_session, title_of_plan, PlanRead};
use crate::run_cmd::pull_request::after_last_slash;
use crate::run_cmd::session_run::MenuAnswer;
use crate::session::{SessionManager, SessionPhase, SessionState, WorkspaceMode};
use crate::span::{put, span_views, Span, SpanView, Tone};
use crate::step::option::{first_index, position_of};
use crate::text::{
    chars_of, is_blank, opt_view, same_text, string_of, strip_trailing, views, without_trailing,
};

verus! {

// ---------------------------------------------------------------------------
// Machine-readable form
// ---------------------------------------------------------------------------

/// Stable machine-readable form of a session. `phase` is always a plain word; `phase_error`
/// carries the failure message of a failed session.
#[derive(Debug)]
pub struct ListSessionJson {
    pub id: String,
    pub base_dir: String,
    pub phase: &'static str,
    pub phase_error: Option<String>,
    pub config_source: String,
    pub input: String,
    pub title: Option<String>,
    pub current_step: Option<String>,
    pub created_at: String,
    pub completed_at: Option<String>,
    pub worktree_path: Option<String>,
    pub worktree_branch: Option<String>,
    pub workspace_mode: WorkspaceMode,
    pub target_branch: Option<String>,
    pub pr_url: Option<String>,
    pub config_path: Option<String>,
    pub updated_at: Option<String>,
    pub awaiting_input: bool,
}

/// The word for a phase in the machine-readable form.
pub open spec fn phase_word(phase: SessionPhase) -> Seq<char> {
    match phase {
        SessionPhase::AwaitingApproval => "AwaitingApproval"@,
        SessionPhase::Planned => "Planned"@,
        SessionPhase::Running => "Running"@,
        SessionPhase::Completed => "Completed"@,
        SessionPhase::Failed(_) => "Failed"@,
        SessionPhase::Suspended => "Suspended"@,
    }
}

/// The message of a failed session.
pub open spec fn phase_fault(phase: SessionPhase) -> Option<String> {
    match phase {
        SessionPhase::Failed(message) => Some(message),
        _ => None,
    }
}

/// The machine-readable form of a session.
pub fn session_to_json(session: SessionState) -> (r: ListSessionJson)
    ensures
        r.id == session.id,
        r.base_dir == session.base_dir,
        r.phase@ == phase_word(session.phase),
        r.phase_error == phase_fault(session.phase),
        r.config_source == session.config_source,
        r.input == session.input,
        r.title == session.title,
        r.current_step == session.current_step,
        r.created_at == session.created_at,
        r.completed_at == session.completed_at,
        r.worktree_path == session.worktree_path,
        r.worktree_branch == session.worktree_branch,
        r.workspace_mode == session.workspace_mode,
        r.target_branch == session.target_branch,
        r.pr_url == session.pr_url,
        r.config_path == session.config_path,
        r.updated_at == session.updated_at,
        r.awaiting_input == session.awaiting_input,
{
    let (phase, phase_error): (&'static str, Option<String>) = match session.phase {
        SessionPhase::AwaitingApproval => ("AwaitingApproval", None),
        SessionPhase::Planned => ("Planned", None),
        SessionPhase::Running => ("Running", None),
        SessionPhase::Completed => ("Completed", None),
        SessionPhase::Failed(message) => ("Failed", Some(message)),
        SessionPhase::Suspended => ("Suspended", None),
    };
    ListSessionJson {
        id: session.id,
        base_dir: session.base_dir,
        phase,
        phase_error,
        config_source: session.config_source,
        input: session.input,
        title: session.title,
        current_step: session.current_step,
        created_at: session.created_at,
        completed_at: session.completed_at,
        worktree_path: session.worktree_path,
        worktree_branch: session.worktree_branch,
        workspace_mode: session.workspace_mode,
        target_branch: session.target_branch,
        pr_url: session.pr_url,
        config_path: session.config_path,
        updated_at: session.updated_at,
        awaiting_input: session.awaiting_input,
    }
}

// ---------------------------------------------------------------------------
// Actions
// ---------------------------------------------------------------------------

/// The texts of a menu.
pub open spec fn str_views(v: Seq<&'static str>) -> Seq<Seq<char>> {
    v.map_values(|s: &'static str| s@)
}

/// What can be done with a session.
pub open spec fn actions(session: SessionState) -> Seq<Seq<char>> {
    (match session.phase {
        SessionPhase::AwaitingApproval => seq!["Approve"@],
        SessionPhase::Planned => seq!["Run"@, "Replan"@],
        SessionPhase::Running | SessionPhase::Suspended => seq!["Resume"@, "Reset to Planned"@],
        SessionPhase::Failed(_) => seq!["Run"@, "Reset to Planned"@],
        SessionPhase::Completed => if session.pr_url is Some {
            seq!["Open PR"@, "Reset to Planned"@]
        } else {
            seq!["Reset to Planned"@]
        },
    }) + seq!["Delete"@, "Back"@]
}

/// Returns the action menu items available for the given session.
/// "Run" or "Resume" appears for runnable phases; "Replan" only for Planned.
/// "Open PR" appears for Completed sessions that have a PR URL.
/// "Reset to Planned" appears for Running, Failed, Completed, and Suspended.
/// "Delete" and "Back" are always present (in that order) at the end.
pub fn session_actions(session: &SessionState) -> (r: Vec<&'static str>)
    ensures
        str_views(r@) == actions(*session),
{
    let mut items: Vec<&'static str> = Vec::new();
    match &session.phase {
        SessionPhase::AwaitingApproval => {
            items.push("Approve");
        },
        SessionPhase::Planned => {
            items.push("Run");
            items.push("Replan");
        },
        SessionPhase::Running | SessionPhase::Suspended => {
            items.push("Resume");
            items.push("Reset to Planned");
        },
        SessionPhase::Failed(_) => {
            items.push("Run");
            items.push("Reset to Planned");
        },
        SessionPhase::Completed => {
            if session.pr_url.is_some() {
                items.push("Open PR");
            }
            items.push("Reset to Planned");
        },
    }
    items.push("Delete");
    items.push("Back");
    assert(str_views(items@) =~= actions(*session));
    items
}

/// What the user wants to do with a session.
#[derive(Debug, Clone, Copy, PartialEq, Eq, Structural)]
pub enum ListAction {
    Approve,
    /// Run or resume it.
    Run,
    Replan,
    OpenPr,
    Reset,
    Delete,
    /// Go back to the list.
    Back,
}

/// The action with the given name. Any other name leads back to the list.
pub open spec fn action_named(name: Seq<char>) -> ListAction {
    if name == "Approve"@ {
        ListAction::Approve
    } else if name == "Run"@ || name == "Resume"@ {
        ListAction::Run
    } else if name == "Replan"@ {
        ListAction::Replan
    } else if name == "Open PR"@ {
        ListAction::OpenPr
    } else if name == "Reset to Planned"@ {
        ListAction::Reset
    } else if name == "Delete"@ {
        ListAction::Delete
    } else {
        ListAction::Back
    }
}

/// What the user wants to do with a session. Leaving the menu leads back to the list.
///
/// # Errors
///
/// Returns `Other` if the menu could not be shown.
pub fn chosen_action(answer: &MenuAnswer) -> (r: Result<ListAction, CruiseError>)
    ensures
        match *answer {
            MenuAnswer::Chosen(name) => r == Ok::<ListAction, CruiseError>(action_named(name@)),
            MenuAnswer::Cancelled => r == Ok::<ListAction, CruiseError>(ListAction::Back),
            MenuAnswer::Failed(e) => r matches Err(CruiseError::Other(m)) && m@
                == "selection error: "@ + e@,
        },
{
    match answer {
        MenuAnswer::Chosen(name) => {
            let name = name.as_str();
            if same_text(name, "Approve") {
                Ok(ListAction::Approve)
            } else if same_text(name, "Run") || same_text(name, "Resume") {
                Ok(ListAction::Run)
            } else if same_text(name, "Replan") {
                Ok(ListAction::Replan)
            } else if same_text(name, "Open PR") {
                Ok(ListAction::OpenPr)
            } else if same_text(name, "Reset to Planned") {
                Ok(ListAction::Reset)
            } else if same_text(name, "Delete") {
                Ok(ListAction::Delete)
            } else {
                Ok(ListAction::Back)
            }
        },
        MenuAnswer::Cancelled => Ok(ListAction::Back),
        MenuAnswer::Failed(e) => Err(
            CruiseError::Other("selection error: ".to_owned().concat(e.as_str())),
        ),
    }
}

/// What is said of a session that was approved.
pub open spec fn approved_spans(id: Seq<char>) -> Seq<SpanView> {
    seq![
        ("✓"@, Tone::Green),
        (" Session "@ + id + " approved. Run with: "@, Tone::Plain),
        ("cruise run "@ + id, Tone::Cyan),
    ]
}

/// What is said of a session that was approved.
pub fn approved_notice(session_id: &str) -> (r: Vec<Span>)
    ensures
        span_views(r@) == approved_spans(session_id@),
{
    let mut out: Vec<Span> = Vec::new();
    put(&mut out, "✓".to_owned(), Tone::Green);
    put(
        &mut out,
        " Session ".to_owned().concat(session_id).concat(" approved. Run with: "),
        Tone::Plain,
    );
    put(&mut out, "cruise run ".to_owned().concat(session_id), Tone::Cyan);
    assert(span_views(out@) =~= approved_spans(session_id@));
    out
}

/// Approves a session, whose plan file was read with the given result: gives it the title of its
/// plan, or a warning if there is none, and opens it for a run.
pub fn approve_session(manager: &SessionManager, session: &mut SessionState, read: PlanRead) -> (r:
    Option<String>)
    requires
        old(session).phase is AwaitingApproval,
    ensures
        ({
            let path = manager.file_path(old(session).id@, "plan.md"@);
            match read {
                Ok(plan) if !is_blank(plan@) => {
                    &&& r is None
                    &&& opt_view(final(session).title) == Some(title_of_plan(plan@))
                },
                Ok(plan) => {
                    &&& opt_view(r) == Some(
                        "warning: failed to refresh session title: generated plan "@ + path
                            + " is empty"@,
                    )
                    &&& final(session).title == old(session).title
                },
                Err(e) => {
                    &&& opt_view(r) == Some(
                        "warning: failed to refresh session title: failed to read generated plan "@
                            + path + ": "@ + e@,
                    )
                    &&& final(session).title == old(session).title
                },
            }
        }),
        *final(session) == (SessionState {
            phase: SessionPhase::Planned,
            title: final(session).title,
            ..*old(session)
        }),
{
    let warning: Option<String> = match refresh_session_title_from_session(
        manager,
        session,
        read,
    ) {
        Ok(()) => None,
        Err(e) => Some(
            "warning: failed to refresh session title: ".to_owned().concat(e.message().as_str()),
        ),
    };
    proof {
        lemma_warning_texts();
        let path = manager.file_path(old(session).id@, "plan.md"@);
        assert(warning is Some ==> warning->0@ == (match read {
            Ok(_) => "warning: failed to refresh session title: generated plan "@ + path
                + " is empty"@,
            Err(e) => {
                "warning: failed to refresh session title: failed to read generated plan "@ + path
                    + ": "@ + e@
            },
        })) by {
            if warning is Some {
                match read {
                    Ok(_) => {
                        assert("warning: failed to refresh session title: "@ + ("generated plan "@
                            + path + " is empty"@)
                            =~= "warning: failed to refresh session title: "@ + "generated plan "@
                            + path + " is empty"@);
                    },
                    Err(e) => {
                        assert("warning: failed to refresh session title: "@ + (
                        "failed to read generated plan "@ + path + ": "@ + e@)
                            =~= "warning: failed to refresh session title: "@
                            + "failed to read generated plan "@ + path + ": "@ + e@);
                    },
                }
            }
        }
    }
    session.approve();
    warning
}

proof fn lemma_warning_texts()
    ensures
        "warning: failed to refresh session title: "@ + "generated plan "@
            == "warning: failed to refresh session title: generated plan "@,
        "warning: failed to refresh session title: "@ + "failed to read generated plan "@
            == "warning: failed to refresh session title: failed to read generated plan "@,
{
    reveal_strlit("warning: failed to refresh session title: ");
    reveal_strlit("generated plan ");
    reveal_strlit("failed to read generated plan ");
    reveal_strlit("warning: failed to refresh session title: generated plan ");
    reveal_strlit("warning: failed to refresh session title: failed to read generated plan ");
    assert("warning: failed to refresh session title: "@ + "generated plan "@
        =~= "warning: failed to refresh session title: generated plan "@);
    assert("warning: failed to refresh session title: "@ + "failed to read generated plan "@
        =~= "warning: failed to refresh session title: failed to read generated plan "@);
}

/// What is said of a session after an action on it.
pub fn done_notice(session_id: &str, what: &str) -> (r: Vec<Span>)
    ensures
        span_views(r@) == seq![
            ("✓"@, Tone::Green),
            (" Session "@ + session_id@ + what@, Tone::Plain),
        ],
{
    let mut out: Vec<Span> = Vec::new();
    put(&mut out, "✓".to_owned(), Tone::Green);
    put(&mut out, " Session ".to_owned().concat(session_id).concat(what), Tone::Plain);
    assert(span_views(out@) =~= seq![
        ("✓"@, Tone::Green),
        (" Session "@ + session_id@ + what@, Tone::Plain),
    ]);
    out
}

/// The URL of the pull request to open.
///
/// # Errors
///
/// Returns `Other` if the session has no pull request.
pub fn pr_to_open(session: &SessionState) -> (r: Result<String, CruiseError>)
    ensures
        match session.pr_url {
            Some(url) => r == Ok::<String, CruiseError>(url),
            None => r matches Err(CruiseError::Other(m)) && m@ == "Open PR action requires pr_url"@,
        },
{
    match &session.pr_url {
        Some(url) => Ok(url.clone()),
        None => Err(CruiseError::Other("Open PR action requires pr_url".to_owned())),
    }
}

/// The session that the user picked from the list: the first one with that label. Leaving the
/// list picks none.
///
/// # Errors
///
/// Returns `Other` if the list could not be shown or no session has the label.
pub fn pick_session(sessions: &Vec<SessionState>, labels: &Vec<String>, answer: &MenuAnswer) -> (r:
    Result<Option<SessionState>, CruiseError>)
    requires
        labels@.len() == sessions@.len(),
    ensures
        match *answer {
            MenuAnswer::Chosen(label) => if first_index(views(labels@), label@) < labels@.len() {
                r == Ok::<Option<SessionState>, CruiseError>(
                    Some(sessions@[first_index(views(labels@), label@)]),
                )
            } else {
                r matches Err(CruiseError::Other(m)) && m@ == "selected label not found: "@ + label@
            },
            MenuAnswer::Cancelled => r == Ok::<Option<SessionState>, CruiseError>(None),
            MenuAnswer::Failed(e) => r matches Err(CruiseError::Other(m)) && m@
                == "selection error: "@ + e@,
        },
{
    match answer {
        MenuAnswer::Chosen(label) => match position_of(labels, label.as_str()) {
            Some(i) => Ok(Some(sessions[i].copy())),
            None => Err(
                CruiseError::Other("selected label not found: ".to_owned().concat(label.as_str())),
            ),
        },
        MenuAnswer::Cancelled => Ok(None),
        MenuAnswer::Failed(e) => Err(
            CruiseError::Other("selection error: ".to_owned().concat(e.as_str())),
        ),
    }
}

// ---------------------------------------------------------------------------
// Labels
// ---------------------------------------------------------------------------

/// The number of bytes of a character in UTF-8.
pub open spec fn utf8_width(c: char) -> int {
    if (c as u32) < 0x80 {
        1
    } else if (c as u32) < 0x800 {
        2
    } else if (c as u32) < 0x10000 {
        3
    } else {
        4
    }
}

/// The index of the character at which the `n`th byte begins, if one does.
pub open spec fn char_at_byte(s: Seq<char>, n: int) -> Option<int>
    decreases s.len(),
{
    if n == 0 {
        Some(0int)
    } else if s.len() == 0 || n < utf8_width(s[0]) {
        None
    } else {
        match char_at_byte(s.skip(1), n - utf8_width(s[0])) {
            Some(k) => Some(k + 1),
            None => None,
        }
    }
}

/// The text in the bytes from `from` up to `to`, as `str::get` gives it.
pub open spec fn byte_range(s: Seq<char>, from: int, to: int) -> Option<Seq<char>> {
    match (char_at_byte(s, from), char_at_byte(s, to)) {
        (Some(a), Some(b)) => Some(s.subrange(a, b)),
        _ => None,
    }
}

/// The date and time that a session's ID gives: "MM/DD HH:MM".
pub open spec fn session_date(id: Seq<char>) -> Seq<char> {
    match (
        byte_range(id, 4, 6),
        byte_range(id, 6, 8),
        byte_range(id, 8, 10),
        byte_range(id, 10, 12),
    ) {
        (Some(month), Some(day), Some(hour), Some(min)) => month + "/"@ + day + " "@ + hour + ":"@
            + min,
        _ => id,
    }
}

proof fn lemma_char_at_byte_grows(s: Seq<char>, m: int, n: int)
    requires
        0 <= m <= n,
    ensures
        char_at_byte(s, n) matches Some(b) ==> 0 <= b <= s.len(),
        (char_at_byte(s, m), char_at_byte(s, n)) matches (Some(a), Some(b)) ==> a <= b,
    decreases s.len(),
{
    if s.len() > 0 && n >= utf8_width(s[0]) && n != 0 {
        lemma_char_at_byte_grows(s.skip(1), 0, n - utf8_width(s[0]));
        if m >= utf8_width(s[0]) {
            lemma_char_at_byte_grows(s.skip(1), m - utf8_width(s[0]), n - utf8_width(s[0]));
        }
    }
}

fn index_at_byte(v: &Vec<char>, n: usize) -> (r: Option<usize>)
    ensures
        match r {
            Some(i) => char_at_byte(v@, n as int) == Some(i as int),
            None => char_at_byte(v@, n as int) is None,
        },
{
    let mut left: usize = n;
    let mut i: usize = 0;
    assert(v@.skip(0) =~= v@);
    while left > 0
        invariant
            i <= v@.len(),
            match char_at_byte(v@.skip(i as int), left as int) {
                Some(k) => char_at_byte(v@, n as int) == Some(k + i),
                None => char_at_byte(v@, n as int) is None,
            },
        decreases left,
    {
        if i >= v.len() {
            return None;
        }
        let code: u32 = v[i] as u32;
        let width: usize = if code < 0x80 {
            1
        } else if code < 0x800 {
            2
        } else if code < 0x10000 {
            3
        } else {
            4
        };
        assert(v@.skip(i as int)[0] == v@[i as int]);
        assert(v@.skip(i as int).skip(1) =~= v@.skip(i + 1));
        if left < width {
            return None;
        }
        left -= width;
        i += 1;
    }
    Some(i)
}

fn text_at_bytes(s: &str, from: usize, to: usize) -> (r: Option<String>)
    requires
        from <= to,
    ensures
        opt_view(r) == byte_range(s@, from as int, to as int),
{
    let v = chars_of(s);
    proof {
        lemma_char_at_byte_grows(s@, from as int, to as int);
    }
    match (index_at_byte(&v, from), index_at_byte(&v, to)) {
        (Some(a), Some(b)) => Some(string_of(v.as_slice(), a, b)),
        _ => None,
    }
}

/// The date and time that a session's ID gives: "`YYYYMMDDHHmmss`" becomes "MM/DD HH:MM". An ID
/// of another form stays as it is.
pub fn format_session_date(id: &str) -> (r: String)
    ensures
        r@ == session_date(id@),
{
    match (
        text_at_bytes(id, 4, 6),
        text_at_bytes(id, 6, 8),
        text_at_bytes(id, 8, 10),
        text_at_bytes(id, 10, 12),
    ) {
        (Some(month), Some(day), Some(hour), Some(min)) => month.concat("/").concat(
            day.as_str(),
        ).concat(" ").concat(hour.as_str()).concat(":").concat(min.as_str()),
        _ => id.to_owned(),
    }
}

/// What is added to the label of a session.
pub open spec fn label_suffix(s: SessionState) -> Seq<char> {
    match s.phase {
        SessionPhase::Running | SessionPhase::Suspended => match s.current_step {
            Some(step) => " ["@ + step@ + "]"@,
            None => seq![],
        },
        SessionPhase::Completed => match s.pr_url {
            Some(url) => " PR#"@ + after_last_slash(without_trailing(url@, '/')),
            None => seq![],
        },
        _ => seq![],
    }
}

fn tail_after_slash(s: &str) -> (r: String)
    ensures
        r@ == after_last_slash(s@),
{
    let v = chars_of(s);
    let n: usize = v.len();
    let mut a: usize = n;
    assert(v@.skip(n as int) =~= seq![]);
    assert(v@.take(n as int) =~= v@);
    assert(after_last_slash(v@) + seq![] =~= after_last_slash(v@));
    while a > 0 && v[a - 1] != '/'
        invariant
            a <= n == v@.len(),
            v@ == s@,
            after_last_slash(v@) == after_last_slash(v@.take(a as int)) + v@.skip(a as int),
        decreases a,
    {
        assert(v@.take(a as int).drop_last() =~= v@.take(a - 1));
        assert(after_last_slash(v@.take(a - 1)).push(v@[a - 1]) + v@.skip(a as int)
            =~= after_last_slash(v@.take(a - 1)) + v@.skip(a - 1));
        a -= 1;
    }
    assert(after_last_slash(v@.take(a as int)) + v@.skip(a as int) =~= v@.skip(a as int));
    string_of(v.as_slice(), a, n)
}

/// Returns " \[`step_name`\]" for Running/Suspended, or " PR#N" for Completed with PR URL.
pub fn format_suffix(s: &SessionState) -> (r: String)
    ensures
        r@ == label_suffix(*s),
{
    let none = String::new();
    assert(none@ =~= seq![]);
    match &s.phase {
        SessionPhase::Running | SessionPhase::Suspended => match &s.current_step {
            Some(step) => " [".to_owned().concat(step.as_str()).concat("]"),
            None => none,
        },
        SessionPhase::Completed => match &s.pr_url {
            Some(url) => {
                let tail = tail_after_slash(strip_trailing(url.as_str(), '/').as_str());
                " PR#".to_owned().concat(tail.as_str())
            },
            None => none,
        },
        _ => none,
    }
}

/// The sign of a phase.
pub open spec fn phase_icon(phase: SessionPhase) -> Seq<char> {
    match phase {
        SessionPhase::AwaitingApproval => "○"@,
        SessionPhase::Planned => "●"@,
        SessionPhase::Running => "▶"@,
        SessionPhase::Completed => "✓"@,
        SessionPhase::Failed(_) => "✗"@,
        SessionPhase::Suspended => "⏸"@,
    }
}

/// The tone in which a phase is shown.
pub open spec fn phase_tone(phase: SessionPhase) -> Tone {
    match phase {
        SessionPhase::AwaitingApproval => Tone::Magenta,
        SessionPhase::Planned => Tone::Cyan,
        SessionPhase::Running => Tone::Yellow,
        SessionPhase::Completed => Tone::Green,
        SessionPhase::Failed(_) => Tone::Red,
        SessionPhase::Suspended => Tone::Yellow,
    }
}

/// The label of a session in the list.
pub open spec fn session_label(s: SessionState) -> Seq<SpanView> {
    seq![
        (phase_icon(s.phase), phase_tone(s.phase)),
        (" "@ + session_date(s.id@) + " "@, Tone::Plain),
        (s.phase.label_spec(), phase_tone(s.phase)),
        (" "@ + truncated(s.shown_title(), 60) + label_suffix(s), Tone::Plain),
    ]
}

/// The label of a session in the list: sign, date, phase, title and what is added to it.
pub fn format_session_label(s: &SessionState) -> (r: Vec<Span>)
    ensures
        span_views(r@) == session_label(*s),
{
    let (icon, tone): (&str, Tone) = match &s.phase {
        SessionPhase::AwaitingApproval => ("○", Tone::Magenta),
        SessionPhase::Planned => ("●", Tone::Cyan),
        SessionPhase::Running => ("▶", Tone::Yellow),
        SessionPhase::Completed => ("✓", Tone::Green),
        SessionPhase::Failed(_) => ("✗", Tone::Red),
        SessionPhase::Suspended => ("⏸", Tone::Yellow),
    };
    let mut out: Vec<Span> = Vec::new();
    put(&mut out, icon.to_owned(), tone);
    put(
        &mut out,
        " ".to_owned().concat(format_session_date(s.id.as_str()).as_str()).concat(" "),
        Tone::Plain,
    );
    put(&mut out, s.phase.label().to_owned(), tone);
    put(
        &mut out,
        " ".to_owned().concat(truncate(s.title_or_input().as_str(), 60).as_str()).concat(
            format_suffix(s).as_str(),
        ),
        Tone::Plain,
    );
    assert(span_views(out@) =~= session_label(*s));
    out
}

// ---------------------------------------------------------------------------
// Laws
// ---------------------------------------------------------------------------

/// A run is offered exactly for the sessions that can be run, and approval exactly for those that
/// wait for it. A session can always be deleted and left.
pub proof fn law_offered_actions_fit_the_phase(s: SessionState)
    ensures
        (exists|i: int|
            0 <= i < actions(s).len() && action_named(#[trigger] actions(s)[i]) == ListAction::Run)
            <==> s.phase.runnable(),
        (exists|i: int|
            0 <= i < actions(s).len() && action_named(#[trigger] actions(s)[i])
                == ListAction::Approve) <==> s.phase is AwaitingApproval,
        actions(s).len() >= 2,
        actions(s)[actions(s).len() - 2] == "Delete"@,
        actions(s).last() == "Back"@,
{
    lemma_action_names();
    let a = actions(s);
    assert(a[a.len() - 2] == "Delete"@);
    assert(a.last() == "Back"@);
    if s.phase.runnable() {
        assert(action_named(a[0]) == ListAction::Run);
    }
    if s.phase is AwaitingApproval {
        assert(action_named(a[0]) == ListAction::Approve);
    }
    if !s.phase.runnable() {
        assert forall|i: int| 0 <= i < a.len() implies action_named(#[trigger] a[i])
            != ListAction::Run by {
            assert(a[i] == a[0] || a[i] == a[1] || a[i] == a[a.len() - 2] || a[i] == a.last());
        }
    }
    if !(s.phase is AwaitingApproval) {
        assert forall|i: int| 0 <= i < a.len() implies action_named(#[trigger] a[i])
            != ListAction::Approve by {
            assert(a[i] == a[0] || a[i] == a[1] || a[i] == a[a.len() - 2] || a[i] == a.last());
        }
    }
}

proof fn lemma_action_names()
    ensures
        action_named("Approve"@) == ListAction::Approve,
        action_named("Run"@) == ListAction::Run,
        action_named("Resume"@) == ListAction::Run,
        action_named("Replan"@) == ListAction::Replan,
        action_named("Open PR"@) == ListAction::OpenPr,
        action_named("Reset to Planned"@) == ListAction::Reset,
        action_named("Delete"@) == ListAction::Delete,
        action_named("Back"@) == ListAction::Back,
{
    reveal_strlit("Approve");
    reveal_strlit("Run");
    reveal_strlit("Resume");
    reveal_strlit("Replan");
    reveal_strlit("Open PR");
    reveal_strlit("Reset to Planned");
    reveal_strlit("Delete");
    reveal_strlit("Back");
    assert("Approve"@[0] == 'A' && "Open PR"@[0] == 'O' && "Delete"@[0] == 'D' && "Back"@[0]
        == 'B');
    assert("Reset to Planned"@.len() == 16);
    assert("Resume"@[2] == 's' && "Replan"@[2] == 'p' && "Delete"@[2] == 'l');
}

} // verus!
