//! Sessions: what is kept of a workflow run, and where.

use std::time::SystemTime;
use vstd::prelude::*;

use crate::clock::{
    current_iso8601, datetime, is_free_id, iso8601_text, new_timestamp_id, seconds_at,
    timestamp_text,
};
use crate::error::CruiseError;
use crate::file_tracker::{same_digest, sha256, sha256_digest};
use crate::path::{join_path, joined_path};
use crate::text::{
    blank, clone_opt, decode_lossy, is_among, is_blank, is_order_of, lemma_sorted_order, order_of,
    same_text, sorted_order, trim, trimmed, utf8_lossy, views,
};

verus! {

// ---------------------------------------------------------------------------
// Phases
// ---------------------------------------------------------------------------

/// Phase of a session's lifecycle.
#[derive(Debug, Clone, PartialEq)]
pub enum SessionPhase {
    /// Plan has been generated but not yet approved by the user.
    AwaitingApproval,
    Planned,
    Running,
    Completed,
    Failed(String),
    /// Process was interrupted mid-execution; can be resumed.
    Suspended,
}

impl SessionPhase {
    /// The words for a phase.
    pub open spec fn label_spec(self) -> Seq<char> {
        match self {
            SessionPhase::AwaitingApproval => "Awaiting Approval"@,
            SessionPhase::Planned => "Planned"@,
            SessionPhase::Running => "Running"@,
            SessionPhase::Completed => "Completed"@,
            SessionPhase::Failed(_) => "Failed"@,
            SessionPhase::Suspended => "Suspended"@,
        }
    }

    /// A session in this phase may be run.
    pub open spec fn runnable(self) -> bool {
        self is Planned || self is Running || self is Failed || self is Suspended
    }

    /// The words for the phase.
    pub fn label(&self) -> (r: &'static str)
        ensures
            r@ == self.label_spec(),
    {
        match self {
            SessionPhase::AwaitingApproval => "Awaiting Approval",
            SessionPhase::Planned => "Planned",
            SessionPhase::Running => "Running",
            SessionPhase::Completed => "Completed",
            SessionPhase::Failed(_) => "Failed",
            SessionPhase::Suspended => "Suspended",
        }
    }

    /// Whether this phase allows (re-)execution.
    pub fn is_runnable(&self) -> (r: bool)
        ensures
            r == self.runnable(),
    {
        match self {
            SessionPhase::AwaitingApproval => false,
            SessionPhase::Planned => true,
            SessionPhase::Running => true,
            SessionPhase::Completed => false,
            SessionPhase::Failed(_) => true,
            SessionPhase::Suspended => true,
        }
    }

    /// A copy of the phase.
    pub fn copy(&self) -> (r: SessionPhase)
        ensures
            r == *self,
    {
        match self {
            SessionPhase::AwaitingApproval => SessionPhase::AwaitingApproval,
            SessionPhase::Planned => SessionPhase::Planned,
            SessionPhase::Running => SessionPhase::Running,
            SessionPhase::Completed => SessionPhase::Completed,
            SessionPhase::Failed(message) => SessionPhase::Failed(message.clone()),
            SessionPhase::Suspended => SessionPhase::Suspended,
        }
    }
}

/// Where a session should execute its workflow.
#[derive(Debug, Clone, Copy, PartialEq, Eq, Structural)]
pub enum WorkspaceMode {
    Worktree,
    CurrentBranch,
}

impl Default for WorkspaceMode {
    fn default() -> (r: Self)
        ensures
            r == WorkspaceMode::Worktree,
    {
        WorkspaceMode::Worktree
    }
}

// ---------------------------------------------------------------------------
// State
// ---------------------------------------------------------------------------

/// Persisted state for a single session.
#[derive(Debug, Clone, PartialEq)]
pub struct SessionState {
    /// Session ID (format: `YYYYMMDDHHmmss`).
    pub id: String,
    /// Path to the original repository (base directory).
    pub base_dir: String,
    /// Current phase of the session.
    pub phase: SessionPhase,
    /// Name of the config file used (display string).
    pub config_source: String,
    /// User input that initiated the session.
    pub input: String,
    /// Generated session title shown in session lists when available.
    pub title: Option<String>,
    /// The step currently executing (set during run phase).
    pub current_step: Option<String>,
    /// ISO 8601 creation time.
    pub created_at: String,
    /// ISO 8601 completion time (set when Completed or Failed).
    pub completed_at: Option<String>,
    /// Path to the git worktree (set during run phase).
    pub worktree_path: Option<String>,
    /// Worktree branch name (set during run phase).
    pub worktree_branch: Option<String>,
    /// Where this session should run.
    pub workspace_mode: WorkspaceMode,
    /// Branch captured for current-branch mode.
    pub target_branch: Option<String>,
    /// PR URL created after workflow completion.
    pub pr_url: Option<String>,
    /// Absolute path to the original config file (None for builtin or old sessions).
    pub config_path: Option<String>,
    /// ISO 8601 last-updated time (set on every save).
    pub updated_at: Option<String>,
    /// True when the session is waiting for user input (option step).
    pub awaiting_input: bool,
}

/// A git worktree that a session runs in.
#[derive(Debug, PartialEq)]
pub struct WorktreeContext {
    /// The directory of the worktree.
    pub path: String,
    /// The branch of the worktree.
    pub branch: String,
    /// The repository that the worktree belongs to.
    pub original_dir: String,
}

impl WorktreeContext {
    /// A copy of the worktree's description.
    pub fn copy(&self) -> (r: WorktreeContext)
        ensures
            r == *self,
    {
        WorktreeContext {
            path: self.path.clone(),
            branch: self.branch.clone(),
            original_dir: self.original_dir.clone(),
        }
    }
}

/// A reading of the clock in ISO 8601.
pub open spec fn is_iso8601(s: Seq<char>) -> bool {
    exists|t: SystemTime| s == iso8601_text(datetime(#[trigger] seconds_at(t) as int))
}

impl SessionState {
    /// A session that waits for approval.
    pub fn new(id: String, base_dir: String, config_source: String, input: String) -> (r: Self)
        ensures
            r.id == id,
            r.base_dir == base_dir,
            r.config_source == config_source,
            r.input == input,
            r.phase == SessionPhase::AwaitingApproval,
            is_iso8601(r.created_at@),
            r.workspace_mode == WorkspaceMode::Worktree,
            r.title is None && r.current_step is None && r.completed_at is None,
            r.worktree_path is None && r.worktree_branch is None && r.target_branch is None,
            r.pr_url is None && r.config_path is None && r.updated_at is None,
            !r.awaiting_input,
    {
        SessionState {
            id,
            base_dir,
            phase: SessionPhase::AwaitingApproval,
            config_source,
            input,
            title: None,
            current_step: None,
            created_at: current_iso8601(),
            completed_at: None,
            worktree_path: None,
            worktree_branch: None,
            workspace_mode: WorkspaceMode::Worktree,
            target_branch: None,
            pr_url: None,
            config_path: None,
            updated_at: None,
            awaiting_input: false,
        }
    }

    /// A copy of the state.
    pub fn copy(&self) -> (r: SessionState)
        ensures
            r == *self,
    {
        SessionState {
            id: self.id.clone(),
            base_dir: self.base_dir.clone(),
            phase: self.phase.copy(),
            config_source: self.config_source.clone(),
            input: self.input.clone(),
            title: clone_opt(&self.title),
            current_step: clone_opt(&self.current_step),
            created_at: self.created_at.clone(),
            completed_at: clone_opt(&self.completed_at),
            worktree_path: clone_opt(&self.worktree_path),
            worktree_branch: clone_opt(&self.worktree_branch),
            workspace_mode: self.workspace_mode,
            target_branch: clone_opt(&self.target_branch),
            pr_url: clone_opt(&self.pr_url),
            config_path: clone_opt(&self.config_path),
            updated_at: clone_opt(&self.updated_at),
            awaiting_input: self.awaiting_input,
        }
    }

    /// Path to the plan file for this session.
    pub fn plan_path(&self, sessions_dir: &str, windows: bool) -> (r: String)
        ensures
            r@ == join_path(join_path(sessions_dir@, self.id@, windows), "plan.md"@, windows),
    {
        let dir = joined_path(sessions_dir, self.id.as_str(), windows);
        joined_path(dir.as_str(), "plan.md", windows)
    }

    /// The title without the white space around it, or the input if there is no title.
    pub open spec fn shown_title(self) -> Seq<char> {
        match self.title {
            Some(t) => if is_blank(t@) {
                self.input@
            } else {
                trim(t@)
            },
            None => self.input@,
        }
    }

    /// The title without the white space around it, or the input if there is no title.
    pub fn title_or_input(&self) -> (r: String)
        ensures
            r@ == self.shown_title(),
    {
        match &self.title {
            Some(t) => if blank(t.as_str()) {
                self.input.clone()
            } else {
                trimmed(t.as_str())
            },
            None => self.input.clone(),
        }
    }

    /// Approve the session, transitioning from `AwaitingApproval` to `Planned`.
    pub fn approve(&mut self)
        requires
            old(self).phase is AwaitingApproval,
        ensures
            *final(self) == (SessionState { phase: SessionPhase::Planned, ..*old(self) }),
    {
        self.phase = SessionPhase::Planned;
    }

    /// Resets this session back to `Planned` state so it can be re-executed from scratch.
    ///
    /// Clears: `phase`, `current_step`, `completed_at`, `pr_url`.
    /// Preserves: `worktree_path`, `worktree_branch` (reused on next run).
    pub fn reset_to_planned(&mut self)
        ensures
            *final(self) == old(self).reset(),
    {
        self.phase = SessionPhase::Planned;
        self.current_step = None;
        self.completed_at = None;
        self.pr_url = None;
    }

    /// The session as it is before its first run.
    pub open spec fn reset(self) -> SessionState {
        SessionState {
            phase: SessionPhase::Planned,
            current_step: None,
            completed_at: None,
            pr_url: None,
            ..self
        }
    }

    /// Returns the worktree of the session if it has one and its directory exists, which the
    /// caller has to find out.
    pub fn worktree_context(&self, path_exists: bool) -> (r: Option<WorktreeContext>)
        ensures
            r == (match (self.worktree_path, self.worktree_branch) {
                (Some(path), Some(branch)) => if path_exists {
                    Some(WorktreeContext { path, branch, original_dir: self.base_dir })
                } else {
                    None
                },
                _ => None,
            }),
    {
        match (&self.worktree_path, &self.worktree_branch) {
            (Some(path), Some(branch)) => if path_exists {
                Some(
                    WorktreeContext {
                        path: path.clone(),
                        branch: branch.clone(),
                        original_dir: self.base_dir.clone(),
                    },
                )
            } else {
                None
            },
            _ => None,
        }
    }
}

// ---------------------------------------------------------------------------
// State files
// ---------------------------------------------------------------------------

/// The digest of a state file's bytes.
#[derive(Debug, Clone, Copy)]
pub struct SessionStateFingerprint([u8; 32]);

impl SessionStateFingerprint {
    /// The digest.
    pub closed spec fn digest(self) -> Seq<u8> {
        self.0@
    }

    /// The fingerprint of a file with the given bytes.
    pub fn from_bytes(bytes: &[u8]) -> (r: Self)
        ensures
            r.digest() == sha256(bytes@),
    {
        SessionStateFingerprint(sha256_digest(bytes))
    }

    /// Whether two fingerprints are the same.
    pub fn same(&self, other: &SessionStateFingerprint) -> (r: bool)
        ensures
            r == (self.digest() == other.digest()),
    {
        same_digest(&self.0, &other.0)
    }
}

/// What the state file of a session holds.
#[derive(Debug)]
pub enum SessionFileContents {
    Missing,
    Parsed { state: Box<SessionState>, fingerprint: SessionStateFingerprint },
    Invalid { fingerprint: SessionStateFingerprint, error: String },
}

impl SessionFileContents {
    /// The fingerprint of the file, if there is one.
    pub fn fingerprint(&self) -> (r: Option<SessionStateFingerprint>)
        ensures
            r == (match *self {
                SessionFileContents::Missing => None,
                SessionFileContents::Parsed { state: _, fingerprint } => Some(fingerprint),
                SessionFileContents::Invalid { fingerprint, error: _ } => Some(fingerprint),
            }),
    {
        match self {
            SessionFileContents::Missing => None,
            SessionFileContents::Parsed { state: _, fingerprint } => Some(*fingerprint),
            SessionFileContents::Invalid { fingerprint, error: _ } => Some(*fingerprint),
        }
    }
}

/// What became of reading the state file of a session.
#[derive(Debug)]
pub enum StateRead {
    /// There is no such file; the text is the system's message.
    NotFound(String),
    /// The file could not be read, for this reason.
    Failed(String),
    /// The file holds these bytes, which stand for the state or for none, for this reason.
    Read { bytes: Vec<u8>, parsed: Result<SessionState, String> },
}

/// Something in the directory of all sessions.
#[derive(Debug)]
pub struct SessionEntry {
    pub name: String,
    pub is_dir: bool,
    /// What became of reading a state file in it.
    pub read: StateRead,
}

/// The sessions that there are, and the warnings about those that could not be loaded.
#[derive(Debug)]
pub struct Listing {
    pub sessions: Vec<SessionState>,
    pub warnings: Vec<String>,
}

/// The session of an entry: that in the state file of a directory.
pub open spec fn state_in(entry: SessionEntry) -> Option<SessionState> {
    match entry.read {
        StateRead::Read { bytes, parsed: Ok(state) } if entry.is_dir => Some(state),
        _ => None,
    }
}

/// The sessions of the entries, in the order of the entries.
pub open spec fn loaded_states(entries: Seq<SessionEntry>) -> Seq<SessionState>
    decreases entries.len(),
{
    if entries.len() == 0 {
        seq![]
    } else {
        match state_in(entries.last()) {
            Some(state) => loaded_states(entries.drop_last()).push(state),
            None => loaded_states(entries.drop_last()),
        }
    }
}

/// Why the session of a directory could not be loaded.
pub open spec fn load_fault(entry: SessionEntry) -> Option<Seq<char>> {
    if !entry.is_dir {
        None
    } else {
        match entry.read {
            StateRead::NotFound(e) => Some("failed to load session "@ + entry.name@ + ": "@ + e@),
            StateRead::Failed(e) => Some("failed to load session "@ + entry.name@ + ": "@ + e@),
            StateRead::Read { bytes, parsed: Err(e) } => Some(
                "failed to parse session "@ + entry.name@ + ": "@ + e@,
            ),
            StateRead::Read { bytes, parsed: Ok(_) } => None,
        }
    }
}

/// The warnings about the entries whose sessions could not be loaded.
pub open spec fn load_warnings(entries: Seq<SessionEntry>) -> Seq<Seq<char>>
    decreases entries.len(),
{
    if entries.len() == 0 {
        seq![]
    } else {
        match load_fault(entries.last()) {
            Some(text) => load_warnings(entries.drop_last()).push(
                "warning: session error: "@ + text,
            ),
            None => load_warnings(entries.drop_last()),
        }
    }
}

/// `id` is not among those in use before, and is after.
pub open spec fn is_new_id(before: Seq<Seq<char>>, id: Seq<char>, after: Seq<Seq<char>>) -> bool {
    !before.contains(id) && after == before.push(id)
}

/// Manages sessions stored under `<base>/sessions/`.
#[derive(Debug)]
pub struct SessionManager {
    base: String,
    /// Whether paths are read as on Windows.
    windows: bool,
}

impl SessionManager {
    /// The directory that all is stored under.
    pub closed spec fn base_spec(self) -> Seq<char> {
        self.base@
    }

    /// Whether paths are read as on Windows.
    pub closed spec fn windows_spec(self) -> bool {
        self.windows
    }

    /// The directory of the sessions.
    pub open spec fn sessions_path(self) -> Seq<char> {
        join_path(self.base_spec(), "sessions"@, self.windows_spec())
    }

    /// The directory of one session.
    pub open spec fn session_path(self, id: Seq<char>) -> Seq<char> {
        join_path(self.sessions_path(), id, self.windows_spec())
    }

    /// A file in the directory of one session.
    pub open spec fn file_path(self, id: Seq<char>, name: Seq<char>) -> Seq<char> {
        join_path(self.session_path(id), name, self.windows_spec())
    }

    /// A manager of what is stored under `base`, on Windows or on a Unix system.
    pub fn new(base: String, windows: bool) -> (r: Self)
        ensures
            r.base_spec() == base@,
            r.windows_spec() == windows,
    {
        SessionManager { base, windows }
    }

    /// Whether paths are read as on Windows.
    pub fn windows(&self) -> (r: bool)
        ensures
            r == self.windows_spec(),
    {
        self.windows
    }

    /// Get the sessions directory.
    pub fn sessions_dir(&self) -> (r: String)
        ensures
            r@ == self.sessions_path(),
    {
        joined_path(self.base.as_str(), "sessions", self.windows)
    }

    /// Get the worktrees directory.
    pub fn worktrees_dir(&self) -> (r: String)
        ensures
            r@ == join_path(self.base_spec(), "worktrees"@, self.windows_spec()),
    {
        joined_path(self.base.as_str(), "worktrees", self.windows)
    }

    /// Get the directory of a session.
    pub fn session_dir(&self, session_id: &str) -> (r: String)
        ensures
            r@ == self.session_path(session_id@),
    {
        joined_path(self.sessions_dir().as_str(), session_id, self.windows)
    }

    /// Get the run log path for a session.
    pub fn run_log_path(&self, session_id: &str) -> (r: String)
        ensures
            r@ == self.file_path(session_id@, "run.log"@),
    {
        joined_path(self.session_dir(session_id).as_str(), "run.log", self.windows)
    }

    /// Get the state file path for a session.
    pub fn state_path(&self, id: &str) -> (r: String)
        ensures
            r@ == self.file_path(id@, "state.json"@),
    {
        joined_path(self.session_dir(id).as_str(), "state.json", self.windows)
    }

    /// Get the config file path for a session: its own, or else the copy in its directory.
    pub fn config_file_path(&self, state: &SessionState) -> (r: String)
        ensures
            r@ == (match state.config_path {
                Some(path) => path@,
                None => self.file_path(state.id@, "config.yaml"@),
            }),
    {
        match &state.config_path {
            Some(path) => path.clone(),
            None => joined_path(
                self.session_dir(state.id.as_str()).as_str(),
                "config.yaml",
                self.windows,
            ),
        }
    }

    /// The error for a config file that could not be read.
    pub fn config_unreadable(path: &str, reason: &str) -> (r: CruiseError)
        ensures
            r matches CruiseError::Other(m) && m@ == "failed to read session config "@ + path@
                + ": "@ + reason@,
    {
        CruiseError::Other(
            "failed to read session config ".to_owned().concat(path).concat(": ").concat(reason),
        )
    }

    /// Generate a new unique session ID from current UTC time: none of those in use. It is in use
    /// from then on.
    pub fn new_session_id(in_use: &mut Vec<String>) -> (r: String)
        ensures
            is_new_id(views(old(in_use)@), r@, views(final(in_use)@)),
            exists|t: SystemTime| is_free_id(r@, #[trigger] seconds_at(t), views(old(in_use)@)),
            exists|secs: u64| r@ == #[trigger] timestamp_text(datetime(secs as int)),
    {
        let id = new_timestamp_id(in_use);
        in_use.push(id.clone());
        assert(views(in_use@) =~= views(old(in_use)@).push(id@));
        id
    }

    /// The error for a session, from what failed, its ID and the reason.
    fn session_error(what: &str, id: &str, reason: &str) -> (r: CruiseError)
        ensures
            r matches CruiseError::SessionError(m) && m@ == what@ + id@ + ": "@ + reason@,
    {
        CruiseError::SessionError(what.to_owned().concat(id).concat(": ").concat(reason))
    }

    /// Load a session by ID, from what its state file was found to hold.
    ///
    /// # Errors
    ///
    /// Returns `SessionError` if the file could not be read or parsed.
    pub fn load_with_fingerprint(&self, id: &str, read: StateRead) -> (r: Result<
        (SessionState, SessionStateFingerprint),
        CruiseError,
    >)
        ensures
            match read {
                StateRead::NotFound(e) => r matches Err(CruiseError::SessionError(m)) && m@
                    == "failed to load session "@ + id@ + ": "@ + e@,
                StateRead::Failed(e) => r matches Err(CruiseError::SessionError(m)) && m@
                    == "failed to load session "@ + id@ + ": "@ + e@,
                StateRead::Read { bytes, parsed: Err(e) } => r matches Err(
                    CruiseError::SessionError(m),
                ) && m@ == "failed to parse session "@ + id@ + ": "@ + e@,
                StateRead::Read { bytes, parsed: Ok(state) } => r matches Ok(loaded) && loaded.0
                    == state && loaded.1.digest() == sha256(bytes@),
            },
    {
        match read {
            StateRead::NotFound(e) => Err(
                Self::session_error("failed to load session ", id, e.as_str()),
            ),
            StateRead::Failed(e) => Err(
                Self::session_error("failed to load session ", id, e.as_str()),
            ),
            StateRead::Read { bytes, parsed } => {
                let fingerprint = SessionStateFingerprint::from_bytes(bytes.as_slice());
                match parsed {
                    Ok(state) => Ok((state, fingerprint)),
                    Err(e) => Err(
                        Self::session_error("failed to parse session ", id, e.as_str()),
                    ),
                }
            },
        }
    }

    /// Load a session by ID, from what its state file was found to hold.
    ///
    /// # Errors
    ///
    /// Returns `SessionError` if the file could not be read or parsed.
    pub fn load(&self, id: &str, read: StateRead) -> (r: Result<SessionState, CruiseError>)
        ensures
            match read {
                StateRead::NotFound(e) => r matches Err(CruiseError::SessionError(m)) && m@
                    == "failed to load session "@ + id@ + ": "@ + e@,
                StateRead::Failed(e) => r matches Err(CruiseError::SessionError(m)) && m@
                    == "failed to load session "@ + id@ + ": "@ + e@,
                StateRead::Read { bytes, parsed: Err(e) } => r matches Err(
                    CruiseError::SessionError(m),
                ) && m@ == "failed to parse session "@ + id@ + ": "@ + e@,
                StateRead::Read { bytes, parsed: Ok(state) } => r == Ok::<
                    SessionState,
                    CruiseError,
                >(state),
            },
    {
        match self.load_with_fingerprint(id, read) {
            Ok((state, _)) => Ok(state),
            Err(e) => Err(e),
        }
    }

    /// Tells what the state file of a session holds; a missing or invalid file is no error.
    ///
    /// # Errors
    ///
    /// Returns `SessionError` if the file exists but could not be read.
    pub fn inspect_state_file(&self, id: &str, read: StateRead) -> (r: Result<
        SessionFileContents,
        CruiseError,
    >)
        ensures
            match read {
                StateRead::NotFound(_) => r == Ok::<SessionFileContents, CruiseError>(
                    SessionFileContents::Missing,
                ),
                StateRead::Failed(e) => r matches Err(CruiseError::SessionError(m)) && m@
                    == "failed to inspect session "@ + id@ + ": "@ + e@,
                StateRead::Read { bytes, parsed: Ok(parsed) } => r matches Ok(
                    SessionFileContents::Parsed { state, fingerprint },
                ) && *state == parsed && fingerprint.digest() == sha256(bytes@),
                StateRead::Read { bytes, parsed: Err(e) } => r matches Ok(
                    SessionFileContents::Invalid { fingerprint, error },
                ) && error == e && fingerprint.digest() == sha256(bytes@),
            },
    {
        match read {
            StateRead::NotFound(_) => Ok(SessionFileContents::Missing),
            StateRead::Failed(e) => Err(
                Self::session_error("failed to inspect session ", id, e.as_str()),
            ),
            StateRead::Read { bytes, parsed } => {
                let fingerprint = SessionStateFingerprint::from_bytes(bytes.as_slice());
                match parsed {
                    Ok(state) => Ok(
                        SessionFileContents::Parsed { state: Box::new(state), fingerprint },
                    ),
                    Err(error) => Ok(SessionFileContents::Invalid { fingerprint, error }),
                }
            },
        }
    }

    /// The state as it is to be written: updated now.
    pub fn save(&self, state: &SessionState) -> (r: SessionState)
        ensures
            r.updated_at matches Some(t) && is_iso8601(t@),
            r == (SessionState { updated_at: r.updated_at, ..*state }),
    {
        let mut r = state.copy();
        r.updated_at = Some(current_iso8601());
        r
    }

    /// The sessions among what was found in the directory of all sessions, sorted by ID ascending
    /// (oldest first), and a warning for each directory whose session could not be loaded. What
    /// is no directory is left out.
    pub fn list_found(&self, entries: &Vec<SessionEntry>) -> (r: Listing)
        ensures
            r.sessions@ == sorted_by_id(loaded_states(entries@)),
            views(r.warnings@) == load_warnings(entries@),
    {
        let mut loaded: Vec<SessionState> = Vec::new();
        let mut warnings: Vec<String> = Vec::new();
        let mut i: usize = 0;
        assert(views(warnings@) =~= seq![]);
        while i < entries.len()
            invariant
                i <= entries@.len(),
                loaded@ == loaded_states(entries@.take(i as int)),
                views(warnings@) == load_warnings(entries@.take(i as int)),
            decreases entries@.len() - i,
        {
            assert(entries@.take(i + 1).drop_last() =~= entries@.take(i as int));
            let ghost warned = views(warnings@);
            let entry = &entries[i];
            if entry.is_dir {
                match &entry.read {
                    StateRead::Read { bytes: _, parsed: Ok(state) } => {
                        loaded.push(state.copy());
                    },
                    StateRead::Read { bytes: _, parsed: Err(e) } => {
                        let warning = Self::load_warning(
                            "failed to parse session ",
                            entry.name.as_str(),
                            e.as_str(),
                        );
                        warnings.push(warning);
                        assert(views(warnings@) =~= warned.push(warning@));
                    },
                    StateRead::NotFound(e) => {
                        let warning = Self::load_warning(
                            "failed to load session ",
                            entry.name.as_str(),
                            e.as_str(),
                        );
                        warnings.push(warning);
                        assert(views(warnings@) =~= warned.push(warning@));
                    },
                    StateRead::Failed(e) => {
                        let warning = Self::load_warning(
                            "failed to load session ",
                            entry.name.as_str(),
                            e.as_str(),
                        );
                        warnings.push(warning);
                        assert(views(warnings@) =~= warned.push(warning@));
                    },
                }
            }
            i += 1;
        }
        assert(entries@.take(i as int) =~= entries@);
        Listing { sessions: self.list(&loaded), warnings }
    }

    /// The warning about a session, from what failed, its ID and the reason.
    fn load_warning(what: &str, id: &str, reason: &str) -> (r: String)
        ensures
            r@ == "warning: session error: "@ + (what@ + id@ + ": "@ + reason@),
    {
        "warning: session error: ".to_owned().concat(
            what.to_owned().concat(id).concat(": ").concat(reason).as_str(),
        )
    }

    /// The loaded sessions sorted by ID ascending (oldest first).
    pub fn list(&self, loaded: &Vec<SessionState>) -> (r: Vec<SessionState>)
        ensures
            r@ == sorted_by_id(loaded@),
    {
        let mut keys: Vec<String> = Vec::new();
        let mut i: usize = 0;
        while i < loaded.len()
            invariant
                i <= loaded@.len(),
                views(keys@) == ids(loaded@).take(i as int),
            decreases loaded@.len() - i,
        {
            let id = loaded[i].id.clone();
            let ghost done = views(keys@);
            keys.push(id);
            assert(views(keys@) == done.push(id@));
            assert(ids(loaded@).take(i + 1) == ids(loaded@).take(i as int).push(
                loaded@[i as int].id@,
            ));
            i += 1;
        }
        assert(ids(loaded@).take(i as int) == ids(loaded@));
        assert(keys@.len() == views(keys@).len());
        let order = order_of(&keys);
        let mut r: Vec<SessionState> = Vec::new();
        let mut k: usize = 0;
        while k < order.len()
            invariant
                k <= order@.len(),
                order@ == id_order(loaded@),
                is_order_of(ids(loaded@), order@),
                r@ == sorted_by_id(loaded@).take(k as int),
            decreases order@.len() - k,
        {
            let at: usize = order[k];
            r.push(loaded[at].copy());
            assert(r@ =~= sorted_by_id(loaded@).take(k + 1));
            k += 1;
        }
        assert(sorted_by_id(loaded@).take(k as int) =~= sorted_by_id(loaded@));
        r
    }

    /// Return sessions in a runnable phase (pending execution), in their order.
    pub fn pending(&self, sessions: &Vec<SessionState>) -> (r: Vec<SessionState>)
        ensures
            r@ == sessions@.filter(|s: SessionState| s.phase.runnable()),
    {
        let mut r: Vec<SessionState> = Vec::new();
        let mut i: usize = 0;
        let ghost keep = |s: SessionState| s.phase.runnable();
        assert(sessions@.take(0).filter(keep) =~= seq![]) by {
            reveal(Seq::filter);
        }
        while i < sessions.len()
            invariant
                i <= sessions@.len(),
                keep == (|s: SessionState| s.phase.runnable()),
                r@ == sessions@.take(i as int).filter(keep),
            decreases sessions@.len() - i,
        {
            proof {
                reveal(Seq::filter);
                assert(sessions@.take(i + 1).drop_last() =~= sessions@.take(i as int));
            }
            if sessions[i].phase.is_runnable() {
                r.push(sessions[i].copy());
            }
            i += 1;
        }
        assert(sessions@.take(i as int) =~= sessions@);
        r
    }

    /// Return sessions in the Planned phase only, in their order.
    pub fn planned(&self, sessions: &Vec<SessionState>) -> (r: Vec<SessionState>)
        ensures
            r@ == sessions@.filter(|s: SessionState| s.phase is Planned),
    {
        let mut r: Vec<SessionState> = Vec::new();
        let mut i: usize = 0;
        let ghost keep = |s: SessionState| s.phase is Planned;
        assert(sessions@.take(0).filter(keep) =~= seq![]) by {
            reveal(Seq::filter);
        }
        while i < sessions.len()
            invariant
                i <= sessions@.len(),
                keep == (|s: SessionState| s.phase is Planned),
                r@ == sessions@.take(i as int).filter(keep),
            decreases sessions@.len() - i,
        {
            proof {
                reveal(Seq::filter);
                assert(sessions@.take(i + 1).drop_last() =~= sessions@.take(i as int));
            }
            if let SessionPhase::Planned = &sessions[i].phase {
                r.push(sessions[i].copy());
            }
            i += 1;
        }
        assert(sessions@.take(i as int) =~= sessions@);
        r
    }

    /// Return sessions eligible for `run --all`: Planned or Suspended, in their order.
    pub fn run_all_candidates(&self, sessions: &Vec<SessionState>) -> (r: Vec<SessionState>)
        ensures
            r@ == sessions@.filter(|s: SessionState| is_candidate(s)),
    {
        let mut r: Vec<SessionState> = Vec::new();
        let mut i: usize = 0;
        let ghost keep = |s: SessionState| is_candidate(s);
        assert(sessions@.take(0).filter(keep) =~= seq![]) by {
            reveal(Seq::filter);
        }
        while i < sessions.len()
            invariant
                i <= sessions@.len(),
                keep == (|s: SessionState| is_candidate(s)),
                r@ == sessions@.take(i as int).filter(keep),
            decreases sessions@.len() - i,
        {
            proof {
                reveal(Seq::filter);
                assert(sessions@.take(i + 1).drop_last() =~= sessions@.take(i as int));
            }
            if candidate(&sessions[i]) {
                r.push(sessions[i].copy());
            }
            i += 1;
        }
        assert(sessions@.take(i as int) =~= sessions@);
        r
    }

    /// Return the sessions eligible for `run --all` whose IDs were not seen yet, in their order.
    pub fn run_all_remaining(&self, sessions: &Vec<SessionState>, seen: &Vec<String>) -> (r: Vec<
        SessionState,
    >)
        ensures
            r@ == sessions@.filter(
                |s: SessionState| is_candidate(s) && !views(seen@).contains(s.id@),
            ),
    {
        let mut r: Vec<SessionState> = Vec::new();
        let mut i: usize = 0;
        let ghost keep = |s: SessionState| is_candidate(s) && !views(seen@).contains(s.id@);
        assert(sessions@.take(0).filter(keep) =~= seq![]) by {
            reveal(Seq::filter);
        }
        while i < sessions.len()
            invariant
                i <= sessions@.len(),
                keep == (|s: SessionState| is_candidate(s) && !views(seen@).contains(s.id@)),
                r@ == sessions@.take(i as int).filter(keep),
            decreases sessions@.len() - i,
        {
            proof {
                reveal(Seq::filter);
                assert(sessions@.take(i + 1).drop_last() =~= sessions@.take(i as int));
            }
            if candidate(&sessions[i]) && !is_among(seen, sessions[i].id.as_str()) {
                r.push(sessions[i].copy());
            }
            i += 1;
        }
        assert(sessions@.take(i as int) =~= sessions@);
        r
    }
}

/// The IDs of the sessions.
pub open spec fn ids(sessions: Seq<SessionState>) -> Seq<Seq<char>> {
    sessions.map_values(|s: SessionState| s.id@)
}

/// The positions of the sessions in the order of their IDs.
pub open spec fn id_order(sessions: Seq<SessionState>) -> Seq<usize> {
    sorted_order(ids(sessions), sessions.len() as int)
}

/// The sessions in the order of their IDs.
pub open spec fn sorted_by_id(sessions: Seq<SessionState>) -> Seq<SessionState> {
    Seq::new(id_order(sessions).len(), |k: int| sessions[id_order(sessions)[k] as int])
}

/// A session that `run --all` runs.
pub open spec fn is_candidate(s: SessionState) -> bool {
    s.phase is Planned || s.phase is Suspended
}

fn candidate(s: &SessionState) -> (r: bool)
    ensures
        r == is_candidate(*s),
{
    match &s.phase {
        SessionPhase::Planned => true,
        SessionPhase::Suspended => true,
        _ => false,
    }
}

// ---------------------------------------------------------------------------
// Clean-up
// ---------------------------------------------------------------------------

/// How many sessions a clean-up deleted and how many it left.
#[derive(Debug, Clone, Copy, PartialEq, Eq, Structural)]
pub struct CleanupReport {
    pub deleted: usize,
    pub skipped: usize,
}

impl Default for CleanupReport {
    fn default() -> (r: Self)
        ensures
            r == (CleanupReport { deleted: 0, skipped: 0 }),
    {
        CleanupReport { deleted: 0, skipped: 0 }
    }
}

/// What came of asking `gh` for the state of a pull request.
#[derive(Debug)]
pub enum GhReply {
    /// It ran, with success or not, and wrote these bytes.
    Output { success: bool, stdout: Vec<u8>, stderr: Vec<u8> },
    /// It could not be run, for this reason.
    NotRun(String),
}

/// What a clean-up does with a session.
#[derive(Debug)]
pub enum CleanupVerdict {
    /// Delete it and its worktree.
    Delete,
    /// Leave it, with a warning if something went wrong.
    Keep(Option<String>),
}

/// What `str::to_uppercase` makes of a text.
pub uninterp spec fn uppercase(s: Seq<char>) -> Seq<char>;

/// `str::to_uppercase` maps a text to its upper case by the rules of Unicode; the result
/// depends on the text alone.
#[verifier::external_body]
fn to_uppercase(s: &str) -> (r: String)
    ensures
        r@ == uppercase(s@),
{
    s.to_uppercase()
}

/// The pull request whose state decides on the session: that of a completed session, if it has
/// one.
pub open spec fn deciding_pr(session: SessionState) -> Option<String> {
    if session.phase is Completed {
        session.pr_url
    } else {
        None
    }
}

/// The pull request whose state decides on the session. A session without one is left alone.
pub fn pr_to_check(session: &SessionState) -> (r: Option<String>)
    ensures
        r == deciding_pr(*session),
{
    match &session.phase {
        SessionPhase::Completed => clone_opt(&session.pr_url),
        _ => None,
    }
}

/// The state of a pull request that is not open any more.
pub open spec fn is_closed_state(state: Seq<char>) -> bool {
    state == "CLOSED"@ || state == "MERGED"@
}

/// Whether the state, in upper case, is that of a pull request that is not open any more.
pub fn pr_is_closed(state: &str) -> (r: bool)
    ensures
        r == is_closed_state(state@),
{
    same_text(state, "CLOSED") || same_text(state, "MERGED")
}

/// Decides on a session by the reply of `gh`: it goes if its pull request is closed or merged.
pub fn judge_pr(session_id: &str, reply: &GhReply) -> (r: CleanupVerdict)
    ensures
        match *reply {
            GhReply::NotRun(e) => r matches CleanupVerdict::Keep(Some(w)) && w@
                == "warning: failed to run gh for "@ + session_id@ + ": "@ + e@,
            GhReply::Output { success, stdout, stderr } => if !success {
                r matches CleanupVerdict::Keep(Some(w)) && w@
                    == "warning: gh pr view failed for "@ + session_id@ + ": "@ + trim(
                    utf8_lossy(stderr@),
                )
            } else if is_closed_state(uppercase(trim(utf8_lossy(stdout@)))) {
                r is Delete
            } else {
                r == CleanupVerdict::Keep(None)
            },
        },
{
    match reply {
        GhReply::NotRun(e) => {
            let mut w = "warning: failed to run gh for ".to_owned();
            w.append(session_id);
            w.append(": ");
            w.append(e.as_str());
            CleanupVerdict::Keep(Some(w))
        },
        GhReply::Output { success, stdout, stderr } => {
            if !*success {
                let mut w = "warning: gh pr view failed for ".to_owned();
                w.append(session_id);
                w.append(": ");
                w.append(trimmed(decode_lossy(stderr.as_slice()).as_str()).as_str());
                return CleanupVerdict::Keep(Some(w));
            }
            let text = trimmed(decode_lossy(stdout.as_slice()).as_str());
            let state = to_uppercase(text.as_str());
            if pr_is_closed(state.as_str()) {
                CleanupVerdict::Delete
            } else {
                CleanupVerdict::Keep(None)
            }
        },
    }
}

impl CleanupReport {
    /// Counts a session.
    pub fn count(&mut self, verdict: &CleanupVerdict)
        requires
            old(self).deleted < usize::MAX,
            old(self).skipped < usize::MAX,
        ensures
            *final(self) == (match *verdict {
                CleanupVerdict::Delete => CleanupReport {
                    deleted: (old(self).deleted + 1) as usize,
                    skipped: old(self).skipped,
                },
                CleanupVerdict::Keep(_) => CleanupReport {
                    deleted: old(self).deleted,
                    skipped: (old(self).skipped + 1) as usize,
                },
            }),
    {
        match verdict {
            CleanupVerdict::Delete => {
                self.deleted += 1;
            },
            CleanupVerdict::Keep(_) => {
                self.skipped += 1;
            },
        }
    }
}

// ---------------------------------------------------------------------------
// Home directory and log
// ---------------------------------------------------------------------------

/// The cruise home directory under the user's home directory: `~/.cruise/`
pub fn cruise_home(home: Option<String>, windows: bool) -> (r: Option<String>)
    ensures
        match home {
            Some(h) => r matches Some(d) && d@ == join_path(h@, ".cruise"@, windows),
            None => r is None,
        },
{
    match home {
        Some(h) => Some(joined_path(h.as_str(), ".cruise", windows)),
        None => None,
    }
}

/// Get the cruise home directory or return an error.
///
/// # Errors
///
/// Returns `Other` if the home directory is not known.
pub fn get_cruise_home(home: Option<String>, windows: bool) -> (r: Result<String, CruiseError>)
    ensures
        match home {
            Some(h) => r matches Ok(d) && d@ == join_path(h@, ".cruise"@, windows),
            None => r matches Err(CruiseError::Other(m)) && m@ == "home directory not found"@,
        },
{
    match cruise_home(home, windows) {
        Some(d) => Ok(d),
        None => Err(CruiseError::Other("home directory not found".to_owned())),
    }
}

/// Appends timestamped log lines to `<sessions_dir>/<session_id>/run.log`.
#[derive(Debug)]
pub struct SessionLogger {
    path: String,
}

/// A line of the log with its time.
pub open spec fn log_line(time: Seq<char>, line: Seq<char>) -> Seq<char> {
    "["@ + time + "] "@ + line + "\n"@
}

impl SessionLogger {
    /// The file that is logged to.
    pub closed spec fn path_spec(self) -> Seq<char> {
        self.path@
    }

    /// A logger to the file `path`.
    pub fn new(path: String) -> (r: Self)
        ensures
            r.path_spec() == path@,
    {
        SessionLogger { path }
    }

    /// The file that is logged to.
    pub fn path(&self) -> (r: &str)
        ensures
            r@ == self.path_spec(),
    {
        self.path.as_str()
    }

    /// The line to append to the file now.
    pub fn entry(&self, line: &str) -> (r: String)
        ensures
            exists|time: Seq<char>| is_iso8601(time) && r@ == #[trigger] log_line(time, line@),
    {
        let time = current_iso8601();
        let mut r = "[".to_owned();
        r.append(time.as_str());
        r.append("] ");
        r.append(line);
        r.append("\n");
        assert(r@ == log_line(time@, line@));
        r
    }
}

// ---------------------------------------------------------------------------
// Laws
// ---------------------------------------------------------------------------

/// No ID is generated twice: an ID is different from every one that was generated before, however
/// many came between.
pub proof fn law_new_ids_are_unique(
    lists: Seq<Seq<Seq<char>>>,
    new_ids: Seq<Seq<char>>,
    i: int,
    j: int,
)
    requires
        lists.len() == new_ids.len() + 1,
        forall|k: int|
            0 <= k < new_ids.len() ==> is_new_id(lists[k], #[trigger] new_ids[k], lists[k + 1]),
        0 <= i < j < new_ids.len(),
    ensures
        new_ids[i] != new_ids[j],
{
    lemma_ids_stay_in_use(lists, new_ids, i, j);
    assert(is_new_id(lists[j], new_ids[j], lists[j + 1]));
}

proof fn lemma_ids_stay_in_use(
    lists: Seq<Seq<Seq<char>>>,
    new_ids: Seq<Seq<char>>,
    i: int,
    j: int,
)
    requires
        lists.len() == new_ids.len() + 1,
        forall|k: int|
            0 <= k < new_ids.len() ==> is_new_id(lists[k], #[trigger] new_ids[k], lists[k + 1]),
        0 <= i < j <= new_ids.len(),
    ensures
        lists[j].contains(new_ids[i]),
    decreases j - i,
{
    assert(is_new_id(lists[j - 1], new_ids[j - 1], lists[j]));
    if i == j - 1 {
        assert(lists[j].last() == new_ids[i]);
    } else {
        lemma_ids_stay_in_use(lists, new_ids, i, j - 1);
        let list = lists[j - 1];
        let at = choose|at: int| 0 <= at < list.len() && list[at] == new_ids[i];
        assert(lists[j][at] == new_ids[i]);
    }
}

/// The list of sessions holds every loaded session, and no ID stands before an earlier one.
pub proof fn law_list_is_sorted(loaded: Seq<SessionState>, i: int, j: int)
    requires
        loaded.len() <= usize::MAX,
    ensures
        sorted_by_id(loaded).len() == loaded.len(),
        0 <= i < loaded.len() ==> sorted_by_id(loaded).contains(loaded[i]),
        0 <= i < loaded.len() ==> loaded.contains(sorted_by_id(loaded)[i]),
        0 <= i < j < loaded.len() ==> {
            let r = sorted_by_id(loaded);
            crate::text::text_lt(r[i].id@, r[j].id@) || r[i].id@ == r[j].id@
        },
{
    let order = id_order(loaded);
    let r = sorted_by_id(loaded);
    lemma_sorted_order(ids(loaded), loaded.len() as int);
    if 0 <= i < loaded.len() {
        crate::text::lemma_order_lists_all(ids(loaded), order, i);
        let k = choose|k: int| 0 <= k < order.len() && order[k] == i;
        assert(r[k] == loaded[i]);
        assert(r[i] == loaded[order[i] as int]);
    }
    if 0 <= i < j < loaded.len() {
        assert(crate::text::key_before(ids(loaded), order[i] as int, order[j] as int));
        assert(ids(loaded)[order[i] as int] == r[i].id@);
        assert(ids(loaded)[order[j] as int] == r[j].id@);
    }
}

proof fn lemma_filter_of_filter(
    s: Seq<SessionState>,
    wide: spec_fn(SessionState) -> bool,
    narrow: spec_fn(SessionState) -> bool,
)
    requires
        forall|x: SessionState| #[trigger] narrow(x) ==> wide(x),
    ensures
        s.filter(wide).filter(narrow) == s.filter(narrow),
    decreases s.len(),
{
    reveal(Seq::filter);
    if s.len() > 0 {
        lemma_filter_of_filter(s.drop_last(), wide, narrow);
        if wide(s.last()) {
            let f = s.filter(wide);
            assert(f.drop_last() =~= s.drop_last().filter(wide));
        }
    }
}

/// What `run --all` runs is among the pending sessions, what is planned is among what
/// `run --all` runs, and neither changes their order.
pub proof fn law_selections_are_nested(sessions: Seq<SessionState>)
    ensures
        ({
            let pending = sessions.filter(|s: SessionState| s.phase.runnable());
            let all = sessions.filter(|s: SessionState| is_candidate(s));
            let planned = sessions.filter(|s: SessionState| s.phase is Planned);
            &&& pending.filter(|s: SessionState| is_candidate(s)) == all
            &&& all.filter(|s: SessionState| s.phase is Planned) == planned
        }),
{
    lemma_filter_of_filter(
        sessions,
        |s: SessionState| s.phase.runnable(),
        |s: SessionState| is_candidate(s),
    );
    lemma_filter_of_filter(
        sessions,
        |s: SessionState| is_candidate(s),
        |s: SessionState| s.phase is Planned,
    );
}

/// A session that waits for approval cannot be run; once approved it can, and nothing else of
/// it has changed.
pub proof fn law_approval_opens_the_session(s: SessionState)
    requires
        s.phase is AwaitingApproval,
    ensures
        !s.phase.runnable(),
        ({
            let t = SessionState { phase: SessionPhase::Planned, ..s };
            t.phase.runnable() && is_candidate(t)
        }),
{
}

/// A session that was reset can be run from the start, is reset by being reset again, and keeps
/// its worktree, its workspace and its title.
pub proof fn law_reset(s: SessionState)
    ensures
        s.reset().reset() == s.reset(),
        is_candidate(s.reset()),
        s.reset().phase.runnable(),
        s.reset().current_step is None,
        s.reset().pr_url is None,
        s.reset().completed_at is None,
        s.reset().worktree_path == s.worktree_path,
        s.reset().worktree_branch == s.worktree_branch,
        s.reset().workspace_mode == s.workspace_mode,
        s.reset().target_branch == s.target_branch,
        s.reset().title == s.title,
        s.reset().id == s.id,
{
}

/// Only a completed session with a pull request is ever asked about by a clean-up; one that can
/// still be run or waits for approval is left alone.
pub proof fn law_open_sessions_are_left_alone(s: SessionState)
    ensures
        deciding_pr(s) is Some ==> s.phase is Completed && s.pr_url is Some,
        s.phase.runnable() || s.phase is AwaitingApproval ==> deciding_pr(s) is None,
{
}

} // verus!
