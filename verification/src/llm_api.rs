//! The dialogue with a chat interface: settings, tools, rounds and retries.

use vstd::prelude::*;

use crate::config::LlmApiConfigYaml;
use crate::error::CruiseError;
use crate::metadata::MAX_SESSION_TITLE_CHARS;
use crate::path::{
    absolute, folded, is_under, lies_under, normalize_parts, parts, parts_of, path_like,
    path_with_parts, to_absolute,
};
use crate::run_cmd::pr_text::{api_pr_output, parse_api_pr_output};
use crate::step::command::{backoff, calculate_backoff};
use crate::text::{
    begins, clone_opt, decimal, decimal_of, decode_lossy, front, front_of, opt_view, same_text,
    starts_with, strip_trailing, trim, trimmed, utf8_lossy, views, without_trailing, words,
    words_of,
};

verus! {

/// The interface that is called if nothing else is said.
pub const DEFAULT_ENDPOINT: &'static str = "https://api.openai.com/v1";

/// The model that is asked if nothing else is said.
pub const DEFAULT_MODEL: &'static str = "gpt-4o";

/// How many times the model may call tools.
pub const MAX_TOOL_ROUNDS: usize = 5;

/// How many times a request is sent at most.
pub const MAX_API_RETRIES: usize = 3;

// ---------------------------------------------------------------------------
// Settings
// ---------------------------------------------------------------------------

/// Resolved LLM API configuration ready for use.
#[derive(Debug, Clone)]
pub struct LlmApiConfig {
    pub api_key: String,
    pub endpoint: String,
    pub model: String,
}

/// A value from the environment, if it is not empty.
pub open spec fn from_env(value: Option<Seq<char>>) -> Option<Seq<char>> {
    match value {
        Some(text) => if text.len() > 0 {
            Some(text)
        } else {
            None
        },
        None => None,
    }
}

/// The first of three values that is there.
pub open spec fn first_given(
    a: Option<Seq<char>>,
    b: Option<Seq<char>>,
    default: Seq<char>,
) -> Seq<char> {
    match a {
        Some(text) => text,
        None => match b {
            Some(text) => text,
            None => default,
        },
    }
}

/// A setting in the configuration file.
pub open spec fn in_file(
    config: Option<LlmApiConfigYaml>,
    pick: spec_fn(LlmApiConfigYaml) -> Option<String>,
) -> Option<Seq<char>> {
    match config {
        Some(c) => opt_view(pick(c)),
        None => None,
    }
}

/// The settings: those of the environment that are not empty, or else those of the configuration
/// file, or else the usual ones. There are none without a key.
pub open spec fn api_settings(
    env_key: Option<Seq<char>>,
    env_endpoint: Option<Seq<char>>,
    env_model: Option<Seq<char>>,
    config: Option<LlmApiConfigYaml>,
) -> Option<(Seq<char>, Seq<char>, Seq<char>)> {
    let key = match from_env(env_key) {
        Some(key) => Some(key),
        None => from_env(in_file(config, |c: LlmApiConfigYaml| c.api_key)),
    };
    match key {
        None => None,
        Some(key) => Some(
            (
                key,
                first_given(
                    from_env(env_endpoint),
                    in_file(config, |c: LlmApiConfigYaml| c.endpoint),
                    DEFAULT_ENDPOINT@,
                ),
                first_given(
                    from_env(env_model),
                    in_file(config, |c: LlmApiConfigYaml| c.model),
                    DEFAULT_MODEL@,
                ),
            ),
        ),
    }
}

fn non_empty(value: Option<String>) -> (r: Option<String>)
    ensures
        opt_view(r) == from_env(opt_view(value)),
{
    match value {
        Some(text) => if text.as_str().is_empty() {
            None
        } else {
            Some(text)
        },
        None => None,
    }
}

fn or_default(a: Option<String>, b: Option<String>, default: &str) -> (r: String)
    ensures
        r@ == first_given(opt_view(a), opt_view(b), default@),
{
    match a {
        Some(text) => text,
        None => match b {
            Some(text) => text,
            None => default.to_owned(),
        },
    }
}

/// Resolve LLM API config from environment variables and/or config file values.
///
/// Priority: env vars > config file > defaults.
/// Returns `None` if no API key is available (API mode disabled).
pub fn resolve_llm_api_config(
    env_key: Option<String>,
    env_endpoint: Option<String>,
    env_model: Option<String>,
    config_llm: &Option<LlmApiConfigYaml>,
) -> (r: Option<LlmApiConfig>)
    ensures
        match api_settings(
            opt_view(env_key),
            opt_view(env_endpoint),
            opt_view(env_model),
            *config_llm,
        ) {
            Some((key, endpoint, model)) => r matches Some(c) && c.api_key@ == key && c.endpoint@
                == endpoint && c.model@ == model,
            None => r is None,
        },
{
    let (file_key, file_endpoint, file_model): (
        Option<String>,
        Option<String>,
        Option<String>,
    ) = match config_llm {
        Some(c) => (clone_opt(&c.api_key), clone_opt(&c.endpoint), clone_opt(&c.model)),
        None => (None, None, None),
    };
    let api_key: String = match non_empty(env_key) {
        Some(key) => key,
        None => match non_empty(file_key) {
            Some(key) => key,
            None => return None,
        },
    };
    Some(
        LlmApiConfig {
            api_key,
            endpoint: or_default(non_empty(env_endpoint), file_endpoint, DEFAULT_ENDPOINT),
            model: or_default(non_empty(env_model), file_model, DEFAULT_MODEL),
        },
    )
}

// ---------------------------------------------------------------------------
// What tools may do
// ---------------------------------------------------------------------------

/// The path of a file that a tool asks for.
pub open spec fn candidate_path(
    working_dir: Seq<char>,
    file_path: Seq<char>,
    windows: bool,
) -> Seq<char> {
    absolute(file_path, Some(working_dir), windows)
}

/// The path of a file that a tool asks for, before it is resolved.
pub fn read_candidate(working_dir: &str, file_path: &str, windows: bool) -> (r: String)
    ensures
        r@ == candidate_path(working_dir@, file_path@, windows),
{
    to_absolute(file_path, Some(working_dir), windows)
}

/// The file lies under the directory. `resolved` is the path of the file as the system gives it;
/// for a file that does not exist the parts of its path decide.
pub open spec fn stays_inside(
    dir: Seq<char>,
    candidate: Seq<char>,
    resolved: Option<Seq<char>>,
    windows: bool,
) -> bool {
    match resolved {
        Some(path) => lies_under(path, parts(path, windows), dir, windows),
        None => lies_under(candidate, folded(parts(candidate, windows)), dir, windows),
    }
}

/// The resolved path of a file: as the system gives it, and for a file that does not exist without
/// what its parts `..` take back.
pub open spec fn resolved_path(
    candidate: Seq<char>,
    resolved: Option<Seq<char>>,
    windows: bool,
) -> Seq<char> {
    match resolved {
        Some(path) => path,
        None => path_like(candidate, folded(parts(candidate, windows)), windows),
    }
}

/// Validate that `file_path` is within `working_dir` (path traversal protection).
///
/// `canonical_dir` is the working directory as the system resolves it, or the reason why it does
/// not; `canonical_candidate` is the file as the system resolves it, if it exists. Returns the
/// resolved path.
///
/// # Errors
///
/// Returns `Other` if the working directory was not resolved or the file is not within it.
pub fn validate_read_file_path(
    working_dir: &str,
    file_path: &str,
    canonical_dir: &Result<String, String>,
    canonical_candidate: &Option<String>,
    windows: bool,
) -> (r: Result<String, CruiseError>)
    ensures
        match *canonical_dir {
            Err(e) => r matches Err(CruiseError::Other(m)) && m@
                == "cannot canonicalize working directory "@ + working_dir@ + ": "@ + e@,
            Ok(dir) => if stays_inside(
                dir@,
                candidate_path(working_dir@, file_path@, windows),
                opt_view(*canonical_candidate),
                windows,
            ) {
                r matches Ok(path) && path@ == resolved_path(
                    candidate_path(working_dir@, file_path@, windows),
                    opt_view(*canonical_candidate),
                    windows,
                )
            } else {
                r matches Err(CruiseError::Other(m)) && m@ == "path traversal rejected: '"@
                    + file_path@ + "' escapes the working directory"@
            },
        },
{
    let candidate = read_candidate(working_dir, file_path, windows);
    let dir: &String = match canonical_dir {
        Ok(dir) => dir,
        Err(e) => return Err(
            CruiseError::Other(
                "cannot canonicalize working directory ".to_owned().concat(working_dir).concat(
                    ": ",
                ).concat(e.as_str()),
            ),
        ),
    };
    let (inside, resolved): (bool, String) = match canonical_candidate {
        Some(path) => {
            let file_parts = parts_of(path.as_str(), windows);
            (is_under(path.as_str(), &file_parts, dir.as_str(), windows), path.clone())
        },
        None => {
            let file_parts = normalize_parts(&parts_of(candidate.as_str(), windows));
            (
                is_under(candidate.as_str(), &file_parts, dir.as_str(), windows),
                path_with_parts(candidate.as_str(), &file_parts, windows),
            )
        },
    };
    if inside {
        Ok(resolved)
    } else {
        Err(
            CruiseError::Other(
                "path traversal rejected: '".to_owned().concat(file_path).concat(
                    "' escapes the working directory",
                ),
            ),
        )
    }
}

/// A subcommand of git that only reads.
pub open spec fn is_allowed_subcommand(subcommand: Seq<char>) -> bool {
    subcommand == "diff"@ || subcommand == "log"@ || subcommand == "show"@ || subcommand
        == "rev-parse"@ || subcommand == "merge-base"@
}

/// Validate that `subcommand` is in the read-only git subcommand allow-list.
///
/// Allowed: `diff`, `log`, `show`, `rev-parse`, `merge-base`.
///
/// # Errors
///
/// Returns `Other` if the subcommand is another.
pub fn validate_git_subcommand(subcommand: &str) -> (r: Result<(), CruiseError>)
    ensures
        if is_allowed_subcommand(subcommand@) {
            r is Ok
        } else {
            r matches Err(CruiseError::Other(m)) && m@ == "git subcommand '"@ + subcommand@
                + "' is not allowed; permitted: diff, log, show, rev-parse, merge-base"@
        },
{
    if same_text(subcommand, "diff") || same_text(subcommand, "log") || same_text(
        subcommand,
        "show",
    ) || same_text(subcommand, "rev-parse") || same_text(subcommand, "merge-base") {
        Ok(())
    } else {
        Err(
            CruiseError::Other(
                "git subcommand '".to_owned().concat(subcommand).concat(
                    "' is not allowed; permitted: diff, log, show, rev-parse, merge-base",
                ),
            ),
        )
    }
}

/// An argument of git that writes its output to a file.
pub open spec fn redirects(token: Seq<char>) -> bool {
    token == "--output"@ || starts_with(token, "--output="@) || token == "-o"@ || starts_with(
        token,
        "-o="@,
    )
}

/// The first argument that writes the output to a file.
pub open spec fn first_redirect(tokens: Seq<Seq<char>>) -> Option<Seq<char>>
    decreases tokens.len(),
{
    if tokens.len() == 0 {
        None
    } else if redirects(tokens[0]) {
        Some(tokens[0])
    } else {
        first_redirect(tokens.drop_first())
    }
}

/// Reject extra git arguments that could redirect output to a file (such as `--output`, `-o`).
///
/// # Errors
///
/// Returns `Other` with the first such argument.
pub fn validate_git_args(args_str: &str) -> (r: Result<(), CruiseError>)
    ensures
        match first_redirect(words(args_str@)) {
            Some(token) => r matches Err(CruiseError::Other(m)) && m@ == "git argument '"@ + token
                + "' is not allowed; output-redirecting flags are forbidden"@,
            None => r is Ok,
        },
{
    let tokens = words_of(args_str);
    let ghost all = words(args_str@);
    let mut i: usize = 0;
    assert(tokens@.len() == views(tokens@).len());
    assert(all.skip(0) =~= all);
    while i < tokens.len()
        invariant
            i <= tokens@.len(),
            tokens@.len() == all.len(),
            views(tokens@) == all,
            all == words(args_str@),
            first_redirect(all) == first_redirect(all.skip(i as int)),
        decreases tokens@.len() - i,
    {
        assert(all[i as int] == tokens@[i as int]@);
        assert(all.skip(i as int)[0] == all[i as int]);
        assert(all.skip(i as int).drop_first() =~= all.skip(i + 1));
        let token = tokens[i].as_str();
        if same_text(token, "--output") || begins(token, "--output=") || same_text(token, "-o")
            || begins(token, "-o=") {
            return Err(
                CruiseError::Other(
                    "git argument '".to_owned().concat(token).concat(
                        "' is not allowed; output-redirecting flags are forbidden",
                    ),
                ),
            );
        }
        i += 1;
    }
    Ok(())
}

/// The arguments of a call of git, or why it is not made.
pub open spec fn git_call(subcommand: Seq<char>, args: Seq<char>) -> Result<
    Seq<Seq<char>>,
    Seq<char>,
> {
    if !is_allowed_subcommand(subcommand) {
        Err(
            "git subcommand '"@ + subcommand
                + "' is not allowed; permitted: diff, log, show, rev-parse, merge-base"@,
        )
    } else {
        match first_redirect(words(args)) {
            Some(token) => Err(
                "git argument '"@ + token
                    + "' is not allowed; output-redirecting flags are forbidden"@,
            ),
            None => Ok(seq![subcommand] + words(args)),
        }
    }
}

/// Works out the arguments of a call of git for a tool.
///
/// # Errors
///
/// Returns `Other` if the subcommand or an argument is not allowed.
pub fn run_git_command(subcommand: &str, args_str: &str) -> (r: Result<Vec<String>, CruiseError>)
    ensures
        match git_call(subcommand@, args_str@) {
            Ok(args) => r matches Ok(v) && views(v@) == args,
            Err(text) => r matches Err(CruiseError::Other(m)) && m@ == text,
        },
{
    match validate_git_subcommand(subcommand) {
        Ok(()) => {},
        Err(e) => return Err(e),
    }
    match validate_git_args(args_str) {
        Ok(()) => {},
        Err(e) => return Err(e),
    }
    let mut args: Vec<String> = Vec::new();
    args.push(subcommand.to_owned());
    let mut rest = words_of(args_str);
    let ghost tail = rest@;
    args.append(&mut rest);
    assert(views(args@) =~= seq![subcommand@] + views(tail));
    Ok(args)
}

/// What a call of git gives a tool: what it wrote, or else what it complained of.
pub fn git_output(stdout: &[u8], stderr: &[u8]) -> (r: String)
    ensures
        r@ == (if utf8_lossy(stdout@).len() == 0 {
            utf8_lossy(stderr@)
        } else {
            utf8_lossy(stdout@)
        }),
{
    let out = decode_lossy(stdout);
    if out.as_str().is_empty() {
        decode_lossy(stderr)
    } else {
        out
    }
}

// ---------------------------------------------------------------------------
// Arguments of tools
// ---------------------------------------------------------------------------

/// A JSON value.
#[verifier::external_type_specification]
#[verifier::external_body]
pub struct ExJsonValue(serde_json::Value);

/// The members of a JSON object that are strings. A value of another kind has none.
pub uninterp spec fn json_texts(value: serde_json::Value) -> Map<Seq<char>, Seq<char>>;

/// What reading a text as JSON gives: the members that are strings, or the message of the fault.
pub uninterp spec fn json_of(text: Seq<char>) -> Result<Map<Seq<char>, Seq<char>>, Seq<char>>;

/// `serde_json::from_str` reads a text as a JSON value. What it gives, or the message of its
/// error, depends on the text alone.
#[verifier::external_body]
fn parse_json(text: &str) -> (r: Result<serde_json::Value, String>)
    ensures
        match r {
            Ok(value) => json_of(text@) == Ok::<Map<Seq<char>, Seq<char>>, Seq<char>>(
                json_texts(value),
            ),
            Err(message) => json_of(text@) == Err::<Map<Seq<char>, Seq<char>>, Seq<char>>(
                message@,
            ),
        },
{
    serde_json::from_str::<serde_json::Value>(text).map_err(|e| e.to_string())
}

/// `Value::index` with a key gives that member of an object, or null; `Value::as_str` gives the
/// text of a string and nothing for any other value.
#[verifier::external_body]
fn json_text(value: &serde_json::Value, key: &str) -> (r: Option<String>)
    ensures
        match r {
            Some(text) => json_texts(*value).contains_key(key@) && json_texts(*value)[key@]
                == text@,
            None => !json_texts(*value).contains_key(key@),
        },
{
    value[key].as_str().map(str::to_owned)
}

/// What a tool does.
#[derive(Debug)]
pub enum ToolAction {
    /// It reads this file.
    ReadFile(String),
    /// It calls git with these arguments.
    Git(Vec<String>),
}

/// What a tool does with the members `path` and `args` of its arguments, or why it does nothing.
pub open spec fn tool_effect(
    name: Seq<char>,
    path: Option<Seq<char>>,
    args: Option<Seq<char>>,
    r: Result<ToolAction, CruiseError>,
) -> bool {
    let given = match args {
        Some(text) => text,
        None => seq![],
    };
    if name == "read_file"@ {
        match path {
            Some(text) => r matches Ok(ToolAction::ReadFile(p)) && p@ == text,
            None => r matches Err(CruiseError::Other(m)) && m@
                == "read_file: missing required 'path' argument"@,
        }
    } else if name == "git_diff"@ || name == "git_log"@ {
        match git_call(
            if name == "git_diff"@ {
                "diff"@
            } else {
                "log"@
            },
            given,
        ) {
            Ok(call) => r matches Ok(ToolAction::Git(v)) && views(v@) == call,
            Err(text) => r matches Err(CruiseError::Other(m)) && m@ == text,
        }
    } else {
        r matches Err(CruiseError::Other(m)) && m@ == "unknown tool '"@ + name + "'"@
    }
}

/// What a tool does with the members `path` and `args` of its arguments.
///
/// # Errors
///
/// Returns `Other` if a file is to be read and no path is given, if git may not be called so, or
/// if there is no such tool.
pub fn tool_action(name: &str, path: Option<String>, args: Option<String>) -> (r: Result<
    ToolAction,
    CruiseError,
>)
    ensures
        tool_effect(name@, opt_view(path), opt_view(args), r),
{
    let given: String = match args {
        Some(text) => text,
        None => String::new(),
    };
    proof {
        if args is None {
            assert(given@ =~= seq![]);
        }
    }
    if same_text(name, "read_file") {
        match path {
            Some(p) => Ok(ToolAction::ReadFile(p)),
            None => Err(
                CruiseError::Other("read_file: missing required 'path' argument".to_owned()),
            ),
        }
    } else if same_text(name, "git_diff") {
        match run_git_command("diff", given.as_str()) {
            Ok(call) => Ok(ToolAction::Git(call)),
            Err(e) => Err(e),
        }
    } else if same_text(name, "git_log") {
        match run_git_command("log", given.as_str()) {
            Ok(call) => Ok(ToolAction::Git(call)),
            Err(e) => Err(e),
        }
    } else {
        Err(CruiseError::Other("unknown tool '".to_owned().concat(name).concat("'")))
    }
}

/// The value at a key, if there is one.
pub open spec fn member(m: Map<Seq<char>, Seq<char>>, key: Seq<char>) -> Option<Seq<char>> {
    if m.contains_key(key) {
        Some(m[key])
    } else {
        None
    }
}

/// What the call of a tool does: its arguments are read as JSON.
///
/// # Errors
///
/// Returns `Other` if the arguments are no JSON, and where `tool_action` does.
pub fn execute_tool_call(call: &ApiToolCall) -> (r: Result<ToolAction, CruiseError>)
    ensures
        match json_of(call.function.arguments@) {
            Err(message) => r matches Err(CruiseError::Other(m)) && m@
                == "invalid tool arguments for '"@ + call.function.name@ + "': "@ + message,
            Ok(members) => tool_effect(
                call.function.name@,
                member(members, "path"@),
                member(members, "args"@),
                r,
            ),
        },
{
    match parse_json(call.function.arguments.as_str()) {
        Err(message) => Err(
            CruiseError::Other(
                "invalid tool arguments for '".to_owned().concat(
                    call.function.name.as_str(),
                ).concat("': ").concat(message.as_str()),
            ),
        ),
        Ok(value) => tool_action(
            call.function.name.as_str(),
            json_text(&value, "path"),
            json_text(&value, "args"),
        ),
    }
}

/// The error for a file that a tool could not read.
pub fn unreadable_file(path: &str, reason: &str) -> (r: CruiseError)
    ensures
        r matches CruiseError::Other(m) && m@ == "failed to read file '"@ + path@ + "': "@
            + reason@,
{
    CruiseError::Other(
        "failed to read file '".to_owned().concat(path).concat("': ").concat(reason),
    )
}

/// The error for a call of git that could not be made.
pub fn git_not_started(subcommand: &str, reason: &str) -> (r: CruiseError)
    ensures
        r matches CruiseError::Other(m) && m@ == "failed to spawn git "@ + subcommand@ + ": "@
            + reason@,
{
    CruiseError::Other(
        "failed to spawn git ".to_owned().concat(subcommand).concat(": ").concat(reason),
    )
}

/// What the model is told of a call: its result, or the error.
pub fn tool_reply(call: &ApiToolCall, result: Result<String, CruiseError>) -> (r: String)
    ensures
        r@ == (match result {
            Ok(text) => text@,
            Err(e) => "Error executing tool "@ + call.function.name@ + ": "@ + e.message_spec(),
        }),
{
    match result {
        Ok(text) => text,
        Err(e) => "Error executing tool ".to_owned().concat(call.function.name.as_str()).concat(
            ": ",
        ).concat(e.message().as_str()),
    }
}

/// A tool that the model may call, with its one parameter.
#[derive(Debug)]
pub struct ToolDef {
    pub name: &'static str,
    pub description: &'static str,
    pub parameter: &'static str,
    pub parameter_description: &'static str,
    pub required: bool,
}

/// The tools that the model may call.
pub fn pr_tools() -> (r: Vec<ToolDef>)
    ensures
        r@.len() == 3,
        r@[0].name@ == "read_file"@ && r@[0].parameter@ == "path"@ && r@[0].required,
        r@[0].description@
            == "Read the contents of a file at a relative path within the working directory"@,
        r@[0].parameter_description@ == "Relative path to the file"@,
        r@[1].name@ == "git_diff"@ && r@[1].parameter@ == "args"@ && !r@[1].required,
        r@[1].description@ == "Run git diff to inspect changes in the repository"@,
        r@[1].parameter_description@
            == "Additional arguments for git diff (e.g. 'HEAD~1..HEAD')"@,
        r@[2].name@ == "git_log"@ && r@[2].parameter@ == "args"@ && !r@[2].required,
        r@[2].description@ == "Run git log to inspect the commit history"@,
        r@[2].parameter_description@ == "Additional arguments for git log (e.g. '--oneline -5')"@,
{
    let mut r: Vec<ToolDef> = Vec::new();
    r.push(
        ToolDef {
            name: "read_file",
            description: "Read the contents of a file at a relative path within the working directory",
            parameter: "path",
            parameter_description: "Relative path to the file",
            required: true,
        },
    );
    r.push(
        ToolDef {
            name: "git_diff",
            description: "Run git diff to inspect changes in the repository",
            parameter: "args",
            parameter_description: "Additional arguments for git diff (e.g. 'HEAD~1..HEAD')",
            required: false,
        },
    );
    r.push(
        ToolDef {
            name: "git_log",
            description: "Run git log to inspect the commit history",
            parameter: "args",
            parameter_description: "Additional arguments for git log (e.g. '--oneline -5')",
            required: false,
        },
    );
    r
}

// ---------------------------------------------------------------------------
// Messages
// ---------------------------------------------------------------------------

/// The function that a call names and its arguments, which are written as JSON.
#[derive(Debug, PartialEq)]
pub struct ApiFunctionCall {
    pub name: String,
    pub arguments: String,
}

/// A call of a tool.
#[derive(Debug, PartialEq)]
pub struct ApiToolCall {
    pub id: String,
    pub kind: String,
    pub function: ApiFunctionCall,
}

impl ApiToolCall {
    /// A copy of the call.
    pub fn copy(&self) -> (r: ApiToolCall)
        ensures
            r == *self,
    {
        ApiToolCall {
            id: self.id.clone(),
            kind: self.kind.clone(),
            function: ApiFunctionCall {
                name: self.function.name.clone(),
                arguments: self.function.arguments.clone(),
            },
        }
    }
}

/// A message of the dialogue.
#[derive(Debug, PartialEq)]
pub struct ApiMessage {
    pub role: String,
    pub content: Option<String>,
    pub tool_calls: Option<Vec<ApiToolCall>>,
    pub tool_call_id: Option<String>,
}

/// A message of the dialogue, as mathematical values.
#[verifier::ext_equal]
pub struct MessageView {
    pub role: Seq<char>,
    pub content: Option<Seq<char>>,
    pub tool_calls: Option<Seq<ApiToolCall>>,
    pub tool_call_id: Option<Seq<char>>,
}

/// The calls in a message, as mathematical values.
pub open spec fn calls_view(calls: Option<Vec<ApiToolCall>>) -> Option<Seq<ApiToolCall>> {
    match calls {
        Some(v) => Some(v@),
        None => None,
    }
}

impl View for ApiMessage {
    type V = MessageView;

    open spec fn view(&self) -> MessageView {
        MessageView {
            role: self.role@,
            content: opt_view(self.content),
            tool_calls: calls_view(self.tool_calls),
            tool_call_id: opt_view(self.tool_call_id),
        }
    }
}

/// The messages as mathematical values.
pub open spec fn message_views(v: Seq<ApiMessage>) -> Seq<MessageView> {
    v.map_values(|m: ApiMessage| m@)
}

/// A message with nothing but a text.
pub open spec fn said_by(role: Seq<char>, content: Seq<char>) -> MessageView {
    MessageView { role, content: Some(content), tool_calls: None, tool_call_id: None }
}

fn plain_message(role: &str, content: String) -> (r: ApiMessage)
    ensures
        r@ == said_by(role@, content@),
{
    ApiMessage {
        role: role.to_owned(),
        content: Some(content),
        tool_calls: None,
        tool_call_id: None,
    }
}

/// What the model is told to do for a pull request.
pub open spec fn pr_instructions(language: Seq<char>) -> Seq<char> {
    "You are a helpful assistant that generates Pull Request metadata. Use the available tools to inspect git diffs. After gathering enough information, output ONLY the following block — no preamble, explanation, or commentary:\n\n---\ntitle: \"Write a concise PR title here\"\n---\nWrite the PR description here.\n\nWrite the title and description in "@
        + language + "."@
}

/// What the model is asked for a pull request.
pub open spec fn pr_question(plan: Seq<char>) -> Seq<char> {
    "Generate PR metadata for the changes in this repository. Use git_diff to inspect the changes (e.g. args: HEAD~1..HEAD).\n\nPlan:\n"@
        + plan
}

/// The first messages of the dialogue on a pull request.
pub open spec fn pr_opening(plan: Seq<char>, language: Seq<char>) -> Seq<MessageView> {
    seq![
        said_by("system"@, pr_instructions(language)),
        said_by("user"@, pr_question(plan)),
    ]
}

/// What the model is told to do for a title.
pub open spec fn title_instructions() -> Seq<char> {
    "You are a helpful assistant that generates concise session titles. Given a task description and a plan, output ONLY a short title (maximum 80 characters). No preamble, explanation, quotes, or commentary — just the title text."@
}

/// The messages that ask for the title of a session.
pub open spec fn title_question(input: Seq<char>, plan: Seq<char>) -> Seq<MessageView> {
    seq![
        said_by("system"@, title_instructions()),
        said_by("user"@, "Task: "@ + input + "\n\nPlan:\n"@ + plan),
    ]
}

/// The messages that ask for the title of a session.
pub fn title_messages(input: &str, plan_content: &str) -> (r: Vec<ApiMessage>)
    ensures
        message_views(r@) == title_question(input@, plan_content@),
{
    let mut r: Vec<ApiMessage> = Vec::new();
    r.push(
        plain_message(
            "system",
            "You are a helpful assistant that generates concise session titles. Given a task description and a plan, output ONLY a short title (maximum 80 characters). No preamble, explanation, quotes, or commentary — just the title text.".to_owned(),
        ),
    );
    r.push(
        plain_message(
            "user",
            "Task: ".to_owned().concat(input).concat("\n\nPlan:\n").concat(plan_content),
        ),
    );
    assert(message_views(r@) =~= title_question(input@, plan_content@));
    r
}

// ---------------------------------------------------------------------------
// The dialogue on a pull request
// ---------------------------------------------------------------------------

/// What the model answered.
#[derive(Debug)]
pub struct ApiResponseMessage {
    pub content: Option<String>,
    pub tool_calls: Option<Vec<ApiToolCall>>,
}

/// The text of an answer.
///
/// # Errors
///
/// Returns `Other` if there is no answer or it holds no text.
pub fn answer_text(answer: Option<ApiResponseMessage>) -> (r: Result<String, CruiseError>)
    ensures
        match answer {
            None => r matches Err(CruiseError::Other(m)) && m@ == "empty response from LLM API"@,
            Some(message) => match message.content {
                Some(text) => r == Ok::<String, CruiseError>(text),
                None => r matches Err(CruiseError::Other(m)) && m@
                    == "LLM API returned no content"@,
            },
        },
{
    match answer {
        None => Err(CruiseError::Other("empty response from LLM API".to_owned())),
        Some(message) => match message.content {
            Some(text) => Ok(text),
            None => Err(CruiseError::Other("LLM API returned no content".to_owned())),
        },
    }
}

/// The title in an answer: its text without white space around it, cut to what a title may have.
///
/// # Errors
///
/// Returns `Other` if there is no answer or it holds no text.
pub fn session_title(answer: Option<ApiResponseMessage>) -> (r: Result<String, CruiseError>)
    ensures
        match answer {
            None => r matches Err(CruiseError::Other(m)) && m@ == "empty response from LLM API"@,
            Some(message) => match message.content {
                Some(text) => r matches Ok(title) && title@ == front(
                    trim(text@),
                    MAX_SESSION_TITLE_CHARS as int,
                ),
                None => r matches Err(CruiseError::Other(m)) && m@
                    == "LLM API returned no content"@,
            },
        },
{
    match answer_text(answer) {
        Ok(text) => Ok(front_of(trimmed(text.as_str()).as_str(), MAX_SESSION_TITLE_CHARS)),
        Err(e) => Err(e),
    }
}

/// The dialogue on a pull request: what was said, and how many times tools were called.
#[derive(Debug)]
pub struct PrDialogue {
    messages: Vec<ApiMessage>,
    rounds: usize,
}

/// What follows from an answer.
#[derive(Debug)]
pub enum DialogueNext {
    /// These tools are called, and the model is told what they give.
    CallTools(Vec<ApiToolCall>),
    /// The dialogue has ended with a title and a body.
    Done(String, String),
    /// The dialogue has failed.
    Failed(CruiseError),
}

/// What is told of calls.
pub open spec fn replies(calls: Seq<ApiToolCall>, results: Seq<String>) -> Seq<MessageView> {
    Seq::new(
        calls.len(),
        |i: int|
            MessageView {
                role: "tool"@,
                content: Some(results[i]@),
                tool_calls: None,
                tool_call_id: Some(calls[i].id@),
            },
    )
}

impl PrDialogue {
    /// What was said.
    pub closed spec fn said(self) -> Seq<MessageView> {
        message_views(self.messages@)
    }

    /// How many times tools were called.
    pub closed spec fn rounds_spec(self) -> int {
        self.rounds as int
    }

    /// Tools are called at most a fixed number of times.
    pub open spec fn wf(self) -> bool {
        0 <= self.rounds_spec() <= MAX_TOOL_ROUNDS
    }

    /// The model may call tools.
    pub open spec fn tools_offered(self) -> bool {
        self.rounds_spec() < MAX_TOOL_ROUNDS
    }

    /// Opens the dialogue.
    pub fn start(plan_content: &str, pr_language: &str) -> (r: Self)
        ensures
            r.wf(),
            r.said() == pr_opening(plan_content@, pr_language@),
            r.rounds_spec() == 0,
    {
        let mut messages: Vec<ApiMessage> = Vec::new();
        messages.push(
            plain_message(
                "system",
                "You are a helpful assistant that generates Pull Request metadata. Use the available tools to inspect git diffs. After gathering enough information, output ONLY the following block — no preamble, explanation, or commentary:\n\n---\ntitle: \"Write a concise PR title here\"\n---\nWrite the PR description here.\n\nWrite the title and description in ".to_owned().concat(
                    pr_language,
                ).concat("."),
            ),
        );
        messages.push(
            plain_message(
                "user",
                "Generate PR metadata for the changes in this repository. Use git_diff to inspect the changes (e.g. args: HEAD~1..HEAD).\n\nPlan:\n".to_owned().concat(
                    plan_content,
                ),
            ),
        );
        assert(message_views(messages@) =~= pr_opening(plan_content@, pr_language@));
        PrDialogue { messages, rounds: 0 }
    }

    /// The messages to send.
    pub fn messages(&self) -> (r: &Vec<ApiMessage>)
        ensures
            message_views(r@) == self.said(),
    {
        &self.messages
    }

    /// Whether the tools are offered with the messages.
    pub fn offers_tools(&self) -> (r: bool)
        ensures
            r == self.tools_offered(),
    {
        self.rounds < MAX_TOOL_ROUNDS
    }

    /// Takes an answer. As long as tools are offered, the model may call some; an answer that
    /// calls none ends the dialogue with the title and the body in its text.
    pub fn receive(&mut self, answer: Option<ApiResponseMessage>) -> (r: DialogueNext)
        requires
            old(self).wf(),
        ensures
            final(self).wf(),
            match answer {
                None => {
                    &&& r matches DialogueNext::Failed(CruiseError::Other(m)) && m@
                        == "empty response from LLM API"@
                    &&& *final(self) == *old(self)
                },
                Some(message) => {
                    &&& final(self).said() == (if old(self).tools_offered() {
                        old(self).said().push(
                            MessageView {
                                role: "assistant"@,
                                content: opt_view(message.content),
                                tool_calls: calls_view(message.tool_calls),
                                tool_call_id: None,
                            },
                        )
                    } else {
                        old(self).said()
                    })
                    &&& if old(self).tools_offered() && message.tool_calls is Some {
                        &&& r matches DialogueNext::CallTools(calls) && calls@
                            == message.tool_calls->0@
                        &&& final(self).rounds_spec() == old(self).rounds_spec() + 1
                    } else {
                        &&& final(self).rounds_spec() == old(self).rounds_spec()
                        &&& match message.content {
                            Some(text) => r matches DialogueNext::Done(title, body) && (
                                title@,
                                body@,
                            ) == api_pr_output(text@),
                            None => r matches DialogueNext::Failed(CruiseError::Other(m)) && m@
                                == "LLM API returned no content"@,
                        }
                    }
                },
            },
    {
        let message = match answer {
            None => return DialogueNext::Failed(
                CruiseError::Other("empty response from LLM API".to_owned()),
            ),
            Some(message) => message,
        };
        if self.rounds < MAX_TOOL_ROUNDS {
            let said = ApiMessage {
                role: "assistant".to_owned(),
                content: clone_opt(&message.content),
                tool_calls: copy_calls(&message.tool_calls),
                tool_call_id: None,
            };
            self.messages.push(said);
            assert(message_views(self.messages@) =~= old(self).said().push(said@));
            match message.tool_calls {
                Some(calls) => {
                    self.rounds = self.rounds + 1;
                    return DialogueNext::CallTools(calls);
                },
                None => {},
            }
        }
        match message.content {
            Some(text) => {
                let (title, body) = parse_api_pr_output(text.as_str());
                DialogueNext::Done(title, body)
            },
            None => DialogueNext::Failed(
                CruiseError::Other("LLM API returned no content".to_owned()),
            ),
        }
    }

    /// Tells the model what the tools gave.
    pub fn tell(&mut self, calls: &Vec<ApiToolCall>, results: Vec<String>)
        requires
            calls@.len() == results@.len(),
        ensures
            final(self).said() == old(self).said() + replies(calls@, results@),
            final(self).rounds_spec() == old(self).rounds_spec(),
            old(self).wf() ==> final(self).wf(),
    {
        let mut i: usize = 0;
        assert(self.said() + replies(calls@, results@).take(0) =~= self.said());
        while i < calls.len()
            invariant
                i <= calls@.len() == results@.len(),
                self.rounds == old(self).rounds,
                self.said() == old(self).said() + replies(calls@, results@).take(i as int),
            decreases calls@.len() - i,
        {
            let ghost before = self.said();
            let m = ApiMessage {
                role: "tool".to_owned(),
                content: Some(results[i].clone()),
                tool_calls: None,
                tool_call_id: Some(calls[i].id.clone()),
            };
            assert(m@ =~= replies(calls@, results@)[i as int]);
            self.messages.push(m);
            assert(self.said() =~= before.push(m@));
            assert(before.push(m@) =~= old(self).said() + replies(calls@, results@).take(i + 1));
            i += 1;
        }
        assert(replies(calls@, results@).take(i as int) =~= replies(calls@, results@));
    }
}

fn copy_calls(calls: &Option<Vec<ApiToolCall>>) -> (r: Option<Vec<ApiToolCall>>)
    ensures
        calls_view(r) == calls_view(*calls),
{
    match calls {
        None => None,
        Some(v) => {
            let mut r: Vec<ApiToolCall> = Vec::new();
            let mut i: usize = 0;
            while i < v.len()
                invariant
                    i <= v@.len(),
                    r@ == v@.take(i as int),
                decreases v@.len() - i,
            {
                r.push(v[i].copy());
                assert(r@ =~= v@.take(i + 1));
                i += 1;
            }
            assert(r@ =~= v@);
            Some(r)
        },
    }
}

// ---------------------------------------------------------------------------
// Requests
// ---------------------------------------------------------------------------

/// The address that requests go to.
pub fn chat_url(endpoint: &str) -> (r: String)
    ensures
        r@ == without_trailing(endpoint@, '/') + "/chat/completions"@,
{
    strip_trailing(endpoint, '/').concat("/chat/completions")
}

/// What follows from the status of a reply.
#[derive(Debug)]
pub enum ReplyStep {
    /// The request is sent again after some seconds, and this is said.
    Retry(u64, String),
    /// The reply holds the answer.
    Read,
    /// The request has failed; the body of the reply says more.
    Refused,
}

/// A status that says that there were too many requests.
pub const TOO_MANY_REQUESTS: u16 = 429;

/// What follows from the status of the reply to the given attempt, counted from one. After too
/// many requests it is tried again, up to a fixed number of attempts.
pub fn judge_status(status: u16, attempt: usize) -> (r: ReplyStep)
    ensures
        if status == TOO_MANY_REQUESTS && attempt < MAX_API_RETRIES {
            r matches ReplyStep::Retry(secs, notice) && secs == backoff(attempt as nat) && notice@
                == "warning: LLM API rate limited, retrying in "@ + decimal(
                backoff(attempt as nat) as nat,
            ) + "s..."@
        } else if 200 <= status < 300 {
            r == ReplyStep::Read
        } else {
            r == ReplyStep::Refused
        },
{
    if status == TOO_MANY_REQUESTS && attempt < MAX_API_RETRIES {
        let secs: u64 = calculate_backoff(attempt);
        ReplyStep::Retry(
            secs,
            "warning: LLM API rate limited, retrying in ".to_owned().concat(
                decimal_of(secs).as_str(),
            ).concat("s..."),
        )
    } else if 200 <= status && status < 300 {
        ReplyStep::Read
    } else {
        ReplyStep::Refused
    }
}

/// The error for a reply that says that the request has failed.
pub fn api_error(status: &str, body: &str) -> (r: CruiseError)
    ensures
        r matches CruiseError::Other(m) && m@ == "LLM API error "@ + status@ + ": "@ + body@,
{
    CruiseError::Other("LLM API error ".to_owned().concat(status).concat(": ").concat(body))
}

// ---------------------------------------------------------------------------
// Laws
// ---------------------------------------------------------------------------

/// A file that does not exist yet is accepted only where its path leads into the directory: after
/// the directory's parts nothing leads back up.
pub proof fn law_accepted_paths_lead_into_the_directory(
    dir: Seq<char>,
    candidate: Seq<char>,
    windows: bool,
    j: int,
)
    requires
        stays_inside(dir, candidate, None, windows),
        parts(dir, windows).len() > 0,
        parts(dir, windows)[0] != ".."@,
        parts(dir, windows).len() <= j < folded(parts(candidate, windows)).len(),
    ensures
        folded(parts(candidate, windows)).take(parts(dir, windows).len() as int) == parts(dir, windows),
        folded(parts(candidate, windows))[j] != ".."@,
{
    let ps = folded(parts(candidate, windows));
    assert(ps.take(parts(dir, windows).len() as int)[0] == ps[0]);
    if ps[j] == ".."@ {
        crate::path::law_folded_paths_lead_down(parts(candidate, windows), 0, j);
    }
}

} // verus!
