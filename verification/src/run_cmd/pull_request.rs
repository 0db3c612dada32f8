//! The way from a worktree to a draft pull request: the commands to call, one after the other,
//! and what follows from their replies.

use vstd::prelude::*;

use crate::error::CruiseError;
use crate::session::WorktreeContext;
use crate::text::{
    chars_of, decode_lossy, opt_view, parse_or_fault, parsed, string_of, trim, trimmed, utf8_lossy,
    views,
};

verus! {

// ---------------------------------------------------------------------------
// Calls and replies
// ---------------------------------------------------------------------------

/// A command to call.
#[derive(Debug)]
pub struct ToolCall {
    pub program: String,
    pub args: Vec<String>,
    pub dir: String,
}

/// A command to call, as mathematical values.
pub type ToolCallView = (Seq<char>, Seq<Seq<char>>, Seq<char>);

impl View for ToolCall {
    type V = ToolCallView;

    open spec fn view(&self) -> ToolCallView {
        (self.program@, views(self.args@), self.dir@)
    }
}

/// What a command replied.
#[derive(Debug)]
pub enum ToolReply {
    /// The command could not be started, for this reason.
    Unavailable(String),
    /// The command has ended.
    Exited { success: bool, stdout: Vec<u8>, stderr: Vec<u8> },
}

/// The text in bytes that a command wrote, without white space around it.
pub open spec fn said(bytes: Seq<u8>) -> Seq<char> {
    trim(utf8_lossy(bytes))
}

/// The text in bytes that a command wrote, without white space around it.
pub fn said_text(bytes: &[u8]) -> (r: String)
    ensures
        r@ == said(bytes@),
{
    trimmed(decode_lossy(bytes).as_str())
}

/// What a command wrote, without white space around it, if it is anything.
pub fn gh_output_line(bytes: &[u8]) -> (r: Option<String>)
    ensures
        opt_view(r) == (if said(bytes@).len() == 0 {
            None
        } else {
            Some(said(bytes@))
        }),
{
    let s = said_text(bytes);
    if s.as_str().is_empty() {
        None
    } else {
        Some(s)
    }
}

/// The last segment of the path in a URL, which ends where its query or fragment begins.
pub open spec fn last_segment(url: Seq<char>) -> Option<Seq<char>> {
    let s = after_last_slash(before_query(url));
    if s.len() == 0 {
        None
    } else {
        Some(s)
    }
}

/// What follows the last slash.
pub open spec fn after_last_slash(s: Seq<char>) -> Seq<char>
    decreases s.len(),
{
    if s.len() == 0 || s.last() == '/' {
        seq![]
    } else {
        after_last_slash(s.drop_last()).push(s.last())
    }
}

/// What stands before the first question mark or number sign.
pub open spec fn before_query(s: Seq<char>) -> Seq<char>
    decreases s.len(),
{
    if s.len() == 0 || s[0] == '?' || s[0] == '#' {
        seq![]
    } else {
        seq![s[0]] + before_query(s.skip(1))
    }
}

proof fn lemma_after_last_slash(s: Seq<char>, n: int)
    requires
        0 <= n <= s.len(),
        n == 0 || s[n - 1] == '/',
        forall|k: int| n <= k < s.len() ==> s[k] != '/',
    ensures
        after_last_slash(s) == s.skip(n),
    decreases s.len(),
{
    if n == s.len() {
        assert(s.skip(n) =~= seq![]);
    } else {
        lemma_after_last_slash(s.drop_last(), n);
        assert(s.drop_last().skip(n).push(s.last()) =~= s.skip(n));
    }
}

proof fn lemma_before_query(s: Seq<char>, n: int)
    requires
        0 <= n <= s.len(),
        forall|k: int| 0 <= k < n ==> s[k] != '?' && s[k] != '#',
        n == s.len() || s[n] == '?' || s[n] == '#',
    ensures
        before_query(s) == s.take(n),
    decreases s.len(),
{
    if n == 0 {
        assert(s.take(n) =~= seq![]);
    } else {
        assert forall|k: int| 0 <= k < n - 1 implies s.skip(1)[k] != '?' && s.skip(1)[k] != '#' by {
            assert(s.skip(1)[k] == s[k + 1]);
        }
        lemma_before_query(s.skip(1), n - 1);
        assert(seq![s[0]] + s.skip(1).take(n - 1) =~= s.take(n));
    }
}

/// Extracts the last path segment from a URL, stripping any query string or fragment first. There
/// is none if the URL has no such segment or it is empty.
pub fn extract_last_path_segment(url: &str) -> (r: Option<String>)
    ensures
        opt_view(r) == last_segment(url@),
{
    let v = chars_of(url);
    let n: usize = v.len();
    let mut b: usize = 0;
    while b < n && v[b] != '?' && v[b] != '#'
        invariant
            b <= n == v@.len(),
            forall|k: int| 0 <= k < b ==> v@[k] != '?' && v@[k] != '#',
        decreases n - b,
    {
        b += 1;
    }
    let mut a: usize = b;
    while a > 0 && v[a - 1] != '/'
        invariant
            a <= b <= n == v@.len(),
            forall|k: int| a <= k < b ==> v@[k] != '/',
        decreases a,
    {
        a -= 1;
    }
    proof {
        lemma_before_query(v@, b as int);
        lemma_after_last_slash(v@.take(b as int), a as int);
        assert(v@.take(b as int).skip(a as int) =~= v@.subrange(a as int, b as int));
    }
    if a == b {
        None
    } else {
        Some(string_of(v.as_slice(), a, b))
    }
}

// ---------------------------------------------------------------------------
// The attempt
// ---------------------------------------------------------------------------

/// Whether changes were committed.
#[derive(Debug, Clone, Copy, PartialEq, Eq, Structural)]
pub enum CommitOutcome {
    Created,
    NoChanges,
}

/// What became of the attempt to create a pull request.
#[derive(Debug, PartialEq)]
pub enum PrAttemptOutcome {
    Created { url: String, commit_outcome: CommitOutcome },
    SkippedNoCommits,
    CreateFailed { error: String, commit_outcome: CommitOutcome },
}

/// What the pull request is made of.
#[derive(Debug)]
pub struct PrJob {
    pub ctx: WorktreeContext,
    pub commit_message: String,
    pub title: String,
    pub body: String,
}

/// Where the attempt stands: the command whose reply is awaited.
#[derive(Debug)]
pub enum PrStage {
    /// All changes are staged.
    Add,
    /// Staged changes are looked for.
    Diff,
    /// The staged changes are committed.
    Commit,
    /// The commit of the repository is asked for.
    BaseHead(CommitOutcome),
    /// The commit is asked for at which the branch left the repository's.
    MergeBase(CommitOutcome, String),
    /// The commits of the branch since then are counted.
    Count(CommitOutcome, String),
    /// The branch is pushed.
    Push(CommitOutcome),
    /// The pull request is created.
    Create(CommitOutcome),
    /// A pull request that exists already is looked for. The text is the reason why none was
    /// created.
    ViewUrl(CommitOutcome, String),
}

/// What follows from a reply.
#[derive(Debug)]
pub enum PrAdvance {
    /// The next command is called.
    Next(PrStage),
    /// The attempt has ended.
    Done(PrAttemptOutcome),
    /// The attempt has failed.
    Failed(CruiseError),
}

/// The message of the commit: the title of the pull request, or else the given one.
pub open spec fn commit_message_of(message: Seq<char>, title: Seq<char>) -> Seq<char> {
    if trim(title).len() == 0 {
        message
    } else {
        trim(title)
    }
}

impl PrJob {
    /// What a pull request with the given title and body is made of. Without a title the
    /// message stands for the commit.
    pub fn new(ctx: WorktreeContext, message: &str, title: &str, body: &str) -> (r: Self)
        ensures
            r.ctx == ctx,
            r.commit_message@ == commit_message_of(message@, title@),
            r.title@ == trim(title@),
            r.body@ == body@,
    {
        let trimmed_title = trimmed(title);
        let commit_message: String = if trimmed_title.as_str().is_empty() {
            message.to_owned()
        } else {
            trimmed_title.clone()
        };
        PrJob { ctx, commit_message, title: trimmed_title, body: body.to_owned() }
    }

    /// The command that is called at a stage.
    pub open spec fn call_spec(self, stage: PrStage) -> ToolCallView {
        let path = self.ctx.path@;
        let branch = self.ctx.branch@;
        match stage {
            PrStage::Add => ("git"@, seq!["add"@, "-A"@], path),
            PrStage::Diff => ("git"@, seq!["diff"@, "--cached"@, "--quiet"@], path),
            PrStage::Commit => ("git"@, seq!["commit"@, "-m"@, self.commit_message@], path),
            PrStage::BaseHead(_) => (
                "git"@,
                seq!["rev-parse"@, "HEAD"@],
                self.ctx.original_dir@,
            ),
            PrStage::MergeBase(_, base) => (
                "git"@,
                seq!["merge-base"@, "HEAD"@, base@],
                path,
            ),
            PrStage::Count(_, base) => (
                "git"@,
                seq!["rev-list"@, "--count"@, base@ + "..HEAD"@],
                path,
            ),
            PrStage::Push(_) => ("git"@, seq!["push"@, "-u"@, "origin"@, branch], path),
            PrStage::Create(_) => (
                "gh"@,
                seq!["pr"@, "create"@, "--head"@, branch, "--draft"@] + (if self.title@.len() == 0 {
                    seq!["--fill"@]
                } else {
                    seq!["--title"@, self.title@, "--body"@, self.body@]
                }),
                path,
            ),
            PrStage::ViewUrl(_, _) => (
                "gh"@,
                seq!["pr"@, "view"@, branch, "--json"@, "url"@, "--jq"@, ".url"@],
                path,
            ),
        }
    }

    /// The command to call at a stage.
    pub fn call(&self, stage: &PrStage) -> (r: ToolCall)
        ensures
            r@ == self.call_spec(*stage),
    {
        let mut args: Vec<String> = Vec::new();
        let mut program: &str = "git";
        let mut dir: &str = self.ctx.path.as_str();
        match stage {
            PrStage::Add => {
                args.push("add".to_owned());
                args.push("-A".to_owned());
            },
            PrStage::Diff => {
                args.push("diff".to_owned());
                args.push("--cached".to_owned());
                args.push("--quiet".to_owned());
            },
            PrStage::Commit => {
                args.push("commit".to_owned());
                args.push("-m".to_owned());
                args.push(self.commit_message.clone());
            },
            PrStage::BaseHead(_) => {
                dir = self.ctx.original_dir.as_str();
                args.push("rev-parse".to_owned());
                args.push("HEAD".to_owned());
            },
            PrStage::MergeBase(_, base) => {
                args.push("merge-base".to_owned());
                args.push("HEAD".to_owned());
                args.push(base.clone());
            },
            PrStage::Count(_, base) => {
                args.push("rev-list".to_owned());
                args.push("--count".to_owned());
                args.push(base.clone().concat("..HEAD"));
            },
            PrStage::Push(_) => {
                args.push("push".to_owned());
                args.push("-u".to_owned());
                args.push("origin".to_owned());
                args.push(self.ctx.branch.clone());
            },
            PrStage::Create(_) => {
                program = "gh";
                args.push("pr".to_owned());
                args.push("create".to_owned());
                args.push("--head".to_owned());
                args.push(self.ctx.branch.clone());
                args.push("--draft".to_owned());
                if self.title.as_str().is_empty() {
                    args.push("--fill".to_owned());
                } else {
                    args.push("--title".to_owned());
                    args.push(self.title.clone());
                    args.push("--body".to_owned());
                    args.push(self.body.clone());
                }
            },
            PrStage::ViewUrl(_, _) => {
                program = "gh";
                args.push("pr".to_owned());
                args.push("view".to_owned());
                args.push(self.ctx.branch.clone());
                args.push("--json".to_owned());
                args.push("url".to_owned());
                args.push("--jq".to_owned());
                args.push(".url".to_owned());
            },
        }
        let r = ToolCall { program: program.to_owned(), args, dir: dir.to_owned() };
        assert(r@.1 =~= self.call_spec(*stage).1);
        r
    }
}

// ---------------------------------------------------------------------------
// Judging replies
// ---------------------------------------------------------------------------

/// Why a call of git that has to write something gives nothing to go on with.
pub open spec fn git_fault(args: Seq<char>, context: Seq<char>, reply: ToolReply) -> Option<
    Seq<char>,
> {
    match reply {
        ToolReply::Unavailable(e) => Some("failed to run git "@ + args + ": "@ + e@),
        ToolReply::Exited { success, stdout, stderr } => if !success {
            Some(context + ": "@ + said(stderr@))
        } else if said(stdout@).len() == 0 {
            Some(context + ": command produced no stdout"@)
        } else {
            None
        },
    }
}

/// Judges the reply of a call of git that has to write something: gives what it wrote without
/// white space around it. `args` are the call's arguments and `context` says what it was for.
///
/// # Errors
///
/// Returns `Other` if git could not be called, failed or wrote nothing.
pub fn git_stdout(args: &str, context: &str, reply: &ToolReply) -> (r: Result<String, CruiseError>)
    ensures
        match git_fault(args@, context@, *reply) {
            Some(text) => r matches Err(CruiseError::Other(m)) && m@ == text,
            None => r matches Ok(out) && *reply matches ToolReply::Exited { success, stdout, stderr }
                && out@ == said(stdout@),
        },
{
    match reply {
        ToolReply::Unavailable(e) => Err(
            CruiseError::Other(
                "failed to run git ".to_owned().concat(args).concat(": ").concat(e.as_str()),
            ),
        ),
        ToolReply::Exited { success, stdout, stderr } => {
            if !*success {
                let text = said_text(stderr.as_slice());
                return Err(
                    CruiseError::Other(context.to_owned().concat(": ").concat(text.as_str())),
                );
            }
            let out = said_text(stdout.as_slice());
            if out.as_str().is_empty() {
                Err(
                    CruiseError::Other(
                        context.to_owned().concat(": command produced no stdout"),
                    ),
                )
            } else {
                Ok(out)
            }
        },
    }
}

/// Why a call whose success alone counts has failed.
pub open spec fn call_fault(name: Seq<char>, context: Seq<char>, reply: ToolReply) -> Option<
    Seq<char>,
> {
    match reply {
        ToolReply::Unavailable(e) => Some("failed to run "@ + name + ": "@ + e@),
        ToolReply::Exited { success, stdout: _, stderr } => if success {
            None
        } else {
            Some(context + " failed: "@ + said(stderr@))
        },
    }
}

/// Judges the reply of a call whose success alone counts.
///
/// # Errors
///
/// Returns `Other` if the command could not be called or failed.
pub fn call_succeeded(name: &str, context: &str, reply: &ToolReply) -> (r: Result<(), CruiseError>)
    ensures
        match call_fault(name@, context@, *reply) {
            Some(text) => r matches Err(CruiseError::Other(m)) && m@ == text,
            None => r is Ok,
        },
{
    match reply {
        ToolReply::Unavailable(e) => Err(
            CruiseError::Other(
                "failed to run ".to_owned().concat(name).concat(": ").concat(e.as_str()),
            ),
        ),
        ToolReply::Exited { success, stdout: _, stderr } => if *success {
            Ok(())
        } else {
            let text = said_text(stderr.as_slice());
            Err(CruiseError::Other(context.to_owned().concat(" failed: ").concat(text.as_str())))
        },
    }
}

/// Why a text gives no number of commits.
pub open spec fn count_fault(text: Seq<char>) -> Option<Seq<char>> {
    match parsed(text, usize::MAX as int) {
        Ok(_) => None,
        Err(fault) => Some(
            "failed to parse branch commit count from `"@ + text + "`: "@ + fault.text_spec(),
        ),
    }
}

/// The number of commits that a text gives.
///
/// # Errors
///
/// Returns `Other` if the text is no number.
pub fn parse_commit_count(text: &str) -> (r: Result<usize, CruiseError>)
    ensures
        match parsed(text@, usize::MAX as int) {
            Ok(n) => r matches Ok(count) && count == n,
            Err(fault) => r matches Err(CruiseError::Other(m)) && Some(m@) == count_fault(text@),
        },
{
    match parse_or_fault(text, usize::MAX as u64) {
        Ok(n) => Ok(n as usize),
        Err(fault) => Err(
            CruiseError::Other(
                "failed to parse branch commit count from `".to_owned().concat(text).concat(
                    "`: ",
                ).concat(fault.text()),
            ),
        ),
    }
}

/// The URL in the reply of a call of `gh` that succeeded.
pub open spec fn url_in(reply: ToolReply) -> Option<Seq<char>> {
    match reply {
        ToolReply::Exited { success, stdout, stderr: _ } => if success && said(stdout@).len() > 0 {
            Some(said(stdout@))
        } else {
            None
        },
        ToolReply::Unavailable(_) => None,
    }
}

/// What a command wrote to its error stream, without white space around it.
pub open spec fn complaint(reply: ToolReply) -> Seq<char> {
    match reply {
        ToolReply::Exited { success: _, stdout: _, stderr } => said(stderr@),
        ToolReply::Unavailable(_) => seq![],
    }
}

/// `r` is what follows from `reply` at `stage`.
pub open spec fn advances(stage: PrStage, reply: ToolReply, r: PrAdvance) -> bool {
    match stage {
        PrStage::Add => match call_fault("git add"@, "git add -A"@, reply) {
            Some(text) => fails_with(r, text),
            None => r == PrAdvance::Next(PrStage::Diff),
        },
        PrStage::Diff => match reply {
            ToolReply::Unavailable(e) => fails_with(r, "failed to run git diff: "@ + e@),
            ToolReply::Exited { success, stdout: _, stderr: _ } => r == PrAdvance::Next(
                if success {
                    PrStage::BaseHead(CommitOutcome::NoChanges)
                } else {
                    PrStage::Commit
                },
            ),
        },
        PrStage::Commit => match call_fault("git commit"@, "git commit"@, reply) {
            Some(text) => fails_with(r, text),
            None => r == PrAdvance::Next(PrStage::BaseHead(CommitOutcome::Created)),
        },
        PrStage::BaseHead(commit) => match git_fault(
            "rev-parse HEAD"@,
            "git rev-parse HEAD failed"@,
            reply,
        ) {
            Some(text) => fails_with(r, text),
            None => r matches PrAdvance::Next(PrStage::MergeBase(c, base)) && c == commit && Some(
                base@,
            ) == url_in(reply),
        },
        PrStage::MergeBase(commit, base) => match git_fault(
            "merge-base HEAD "@ + base@,
            "git merge-base failed"@,
            reply,
        ) {
            Some(text) => fails_with(r, text),
            None => r matches PrAdvance::Next(PrStage::Count(c, fork)) && c == commit && Some(fork@)
                == url_in(reply),
        },
        PrStage::Count(commit, fork) => match git_fault(
            "rev-list --count "@ + fork@ + "..HEAD"@,
            "git rev-list --count failed"@,
            reply,
        ) {
            Some(text) => fails_with(r, text),
            None => match parsed(url_in(reply)->0, usize::MAX as int) {
                Ok(n) => if n == 0 {
                    r == PrAdvance::Done(PrAttemptOutcome::SkippedNoCommits)
                } else {
                    r == PrAdvance::Next(PrStage::Push(commit))
                },
                Err(_) => fails_with(r, count_fault(url_in(reply)->0)->0),
            },
        },
        PrStage::Push(commit) => match call_fault("git push"@, "git push"@, reply) {
            Some(text) => fails_with(r, text),
            None => r == PrAdvance::Next(PrStage::Create(commit)),
        },
        PrStage::Create(commit) => match reply {
            ToolReply::Unavailable(e) => not_created(
                r,
                commit,
                "failed to run gh pr create: "@ + e@,
            ),
            _ => match url_in(reply) {
                Some(url) => created(r, commit, url),
                None => r matches PrAdvance::Next(PrStage::ViewUrl(c, text)) && c == commit && text@
                    == complaint(reply),
            },
        },
        PrStage::ViewUrl(commit, refusal) => match reply {
            ToolReply::Unavailable(e) => not_created(
                r,
                commit,
                "failed to run gh pr view: "@ + e@,
            ),
            _ => match url_in(reply) {
                Some(url) => created(r, commit, url),
                None => not_created(
                    r,
                    commit,
                    "gh pr create failed: "@ + refusal@ + "; gh pr view also failed: "@ + complaint(
                        reply,
                    ),
                ),
            },
        },
    }
}

/// The attempt fails with the given text.
pub open spec fn fails_with(r: PrAdvance, text: Seq<char>) -> bool {
    r matches PrAdvance::Failed(CruiseError::Other(m)) && m@ == text
}

/// A pull request stands at the given URL.
pub open spec fn created(r: PrAdvance, commit: CommitOutcome, at: Seq<char>) -> bool {
    r matches PrAdvance::Done(PrAttemptOutcome::Created { url, commit_outcome }) && url@ == at
        && commit_outcome == commit
}

/// No pull request was created, for the given reason.
pub open spec fn not_created(r: PrAdvance, commit: CommitOutcome, text: Seq<char>) -> bool {
    r matches PrAdvance::Done(PrAttemptOutcome::CreateFailed { error, commit_outcome }) && error@
        == text && commit_outcome == commit
}

/// The first stage of an attempt.
pub fn first_stage() -> (r: PrStage)
    ensures
        r == PrStage::Add,
{
    PrStage::Add
}

/// What follows from the reply to the command of a stage: changes are staged and committed, the
/// commits of the branch are counted, the branch is pushed and the pull request is created or,
/// if that fails, looked for.
pub fn advance(stage: PrStage, reply: &ToolReply) -> (r: PrAdvance)
    ensures
        advances(stage, *reply, r),
{
    match stage {
        PrStage::Add => match call_succeeded("git add", "git add -A", reply) {
            Err(e) => PrAdvance::Failed(e),
            Ok(()) => PrAdvance::Next(PrStage::Diff),
        },
        PrStage::Diff => match reply {
            ToolReply::Unavailable(e) => PrAdvance::Failed(
                CruiseError::Other("failed to run git diff: ".to_owned().concat(e.as_str())),
            ),
            ToolReply::Exited { success, stdout: _, stderr: _ } => if *success {
                PrAdvance::Next(PrStage::BaseHead(CommitOutcome::NoChanges))
            } else {
                PrAdvance::Next(PrStage::Commit)
            },
        },
        PrStage::Commit => match call_succeeded("git commit", "git commit", reply) {
            Err(e) => PrAdvance::Failed(e),
            Ok(()) => PrAdvance::Next(PrStage::BaseHead(CommitOutcome::Created)),
        },
        PrStage::BaseHead(commit) => match git_stdout(
            "rev-parse HEAD",
            "git rev-parse HEAD failed",
            reply,
        ) {
            Err(e) => PrAdvance::Failed(e),
            Ok(base) => PrAdvance::Next(PrStage::MergeBase(commit, base)),
        },
        PrStage::MergeBase(commit, base) => match git_stdout(
            "merge-base HEAD ".to_owned().concat(base.as_str()).as_str(),
            "git merge-base failed",
            reply,
        ) {
            Err(e) => PrAdvance::Failed(e),
            Ok(fork) => PrAdvance::Next(PrStage::Count(commit, fork)),
        },
        PrStage::Count(commit, fork) => match git_stdout(
            "rev-list --count ".to_owned().concat(fork.as_str()).concat("..HEAD").as_str(),
            "git rev-list --count failed",
            reply,
        ) {
            Err(e) => PrAdvance::Failed(e),
            Ok(text) => match parse_commit_count(text.as_str()) {
                Err(e) => PrAdvance::Failed(e),
                Ok(count) => if count == 0 {
                    PrAdvance::Done(PrAttemptOutcome::SkippedNoCommits)
                } else {
                    PrAdvance::Next(PrStage::Push(commit))
                },
            },
        },
        PrStage::Push(commit) => match call_succeeded("git push", "git push", reply) {
            Err(e) => PrAdvance::Failed(e),
            Ok(()) => PrAdvance::Next(PrStage::Create(commit)),
        },
        PrStage::Create(commit) => match reply {
            ToolReply::Unavailable(e) => PrAdvance::Done(
                PrAttemptOutcome::CreateFailed {
                    error: "failed to run gh pr create: ".to_owned().concat(e.as_str()),
                    commit_outcome: commit,
                },
            ),
            ToolReply::Exited { success, stdout, stderr } => {
                if *success {
                    match gh_output_line(stdout.as_slice()) {
                        Some(url) => return PrAdvance::Done(
                            PrAttemptOutcome::Created { url, commit_outcome: commit },
                        ),
                        None => {},
                    }
                }
                PrAdvance::Next(PrStage::ViewUrl(commit, said_text(stderr.as_slice())))
            },
        },
        PrStage::ViewUrl(commit, refusal) => match reply {
            ToolReply::Unavailable(e) => PrAdvance::Done(
                PrAttemptOutcome::CreateFailed {
                    error: "failed to run gh pr view: ".to_owned().concat(e.as_str()),
                    commit_outcome: commit,
                },
            ),
            ToolReply::Exited { success, stdout, stderr } => {
                if *success {
                    match gh_output_line(stdout.as_slice()) {
                        Some(url) => return PrAdvance::Done(
                            PrAttemptOutcome::Created { url, commit_outcome: commit },
                        ),
                        None => {},
                    }
                }
                let complaint = said_text(stderr.as_slice());
                PrAdvance::Done(
                    PrAttemptOutcome::CreateFailed {
                        error: "gh pr create failed: ".to_owned().concat(refusal.as_str()).concat(
                            "; gh pr view also failed: ",
                        ).concat(complaint.as_str()),
                        commit_outcome: commit,
                    },
                )
            },
        },
    }
}

/// `gh` can be called, by its reply to `gh --version`.
pub open spec fn gh_answers(reply: ToolReply) -> bool {
    reply matches ToolReply::Exited { success, stdout, stderr } && success
}

/// What is said where `gh` cannot be called.
pub open spec fn gh_missing() -> Seq<char> {
    "gh CLI is not installed. Install it from https://cli.github.com/"@
}

/// Judges the reply of `gh --version`.
///
/// # Errors
///
/// Returns `Other` if `gh` could not be called or failed.
pub fn ensure_gh_available(reply: &ToolReply) -> (r: Result<(), CruiseError>)
    ensures
        if gh_answers(*reply) {
            r is Ok
        } else {
            r matches Err(CruiseError::Other(m)) && m@ == gh_missing()
        },
{
    match reply {
        ToolReply::Exited { success, stdout: _, stderr: _ } => if *success {
            return Ok(());
        },
        ToolReply::Unavailable(_) => {},
    }
    Err(
        CruiseError::Other(
            "gh CLI is not installed. Install it from https://cli.github.com/".to_owned(),
        ),
    )
}

// ---------------------------------------------------------------------------
// Laws
// ---------------------------------------------------------------------------

/// How many commands are called at most from a stage on.
pub open spec fn calls_left(stage: PrStage) -> int {
    match stage {
        PrStage::Add => 9,
        PrStage::Diff => 8,
        PrStage::Commit => 7,
        PrStage::BaseHead(_) => 6,
        PrStage::MergeBase(_, _) => 5,
        PrStage::Count(_, _) => 4,
        PrStage::Push(_) => 3,
        PrStage::Create(_) => 2,
        PrStage::ViewUrl(_, _) => 1,
    }
}

/// An attempt ends: each reply leaves fewer commands to be called.
pub proof fn law_attempts_end(stage: PrStage, reply: ToolReply, r: PrAdvance)
    requires
        advances(stage, reply, r),
    ensures
        calls_left(stage) > 0,
        r matches PrAdvance::Next(next) ==> calls_left(next) < calls_left(stage),
{
}

/// A branch is pushed only after its commits were counted and there is at least one, and a pull
/// request is created only after the branch was pushed.
pub proof fn law_nothing_is_pushed_without_commits(
    stage: PrStage,
    reply: ToolReply,
    r: PrAdvance,
    commit: CommitOutcome,
)
    requires
        advances(stage, reply, r),
    ensures
        r == PrAdvance::Next(PrStage::Push(commit)) ==> stage is Count && (parsed(
            url_in(reply)->0,
            usize::MAX as int,
        ) matches Ok(n) && n > 0),
        r == PrAdvance::Next(PrStage::Create(commit)) ==> stage == PrStage::Push(commit),
        (r matches PrAdvance::Done(PrAttemptOutcome::Created { url, commit_outcome })) ==> stage
            is Create || stage is ViewUrl,
{
}

} // verus!
