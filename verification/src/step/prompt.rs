//! Prompt steps: how the LLM command is called and what its exit means.

use vstd::prelude::*;

use crate::error::CruiseError;
use crate::step::command::{
    backoff, is_rate_limited, lowercase, plan_retry, retry_notice, speaks_of_rate_limit, Retry,
};
use crate::text::{
    clone_strings, decode_lossy, opt_str_view, signed_decimal, signed_decimal_of, utf8_lossy, views,
};

verus! {

/// Result of executing a prompt step.
#[derive(Debug)]
pub struct PromptResult {
    pub output: String,
    pub stderr: String,
}

/// The command followed by the model option, if there is a model.
pub open spec fn with_model(command: Seq<Seq<char>>, model: Option<Seq<char>>) -> Seq<Seq<char>> {
    match model {
        Some(m) => command.push("--model"@).push(m),
        None => command,
    }
}

/// Build the full argument list for the LLM command.
pub fn build_command_args(command: &Vec<String>, model: Option<&str>) -> (r: Vec<String>)
    ensures
        views(r@) == with_model(views(command@), opt_str_view(model)),
{
    let mut args = clone_strings(command);
    if let Some(m) = model {
        args.push("--model".to_owned());
        args.push(m.to_owned());
    }
    assert(views(args@) =~= with_model(views(command@), opt_str_view(model)));
    args
}

/// A program and the arguments to call it with.
#[derive(Debug)]
pub struct Invocation {
    pub program: String,
    pub args: Vec<String>,
}

/// The program and the arguments that the LLM command and the model make.
///
/// # Errors
///
/// Returns `InvalidStepConfig` if the command is empty.
pub fn prompt_invocation(command: &Vec<String>, model: Option<&str>) -> (r: Result<
    Invocation,
    CruiseError,
>)
    ensures
        match r {
            Ok(call) => {
                &&& command@.len() > 0
                &&& call.program@ == command@[0]@
                &&& views(call.args@) == with_model(
                    views(command@).drop_first(),
                    opt_str_view(model),
                )
            },
            Err(CruiseError::InvalidStepConfig(message)) => command@.len() == 0 && message@
                == "command list is empty"@,
            Err(_) => false,
        },
{
    if command.len() == 0 {
        return Err(CruiseError::InvalidStepConfig("command list is empty".to_owned()));
    }
    let mut args: Vec<String> = Vec::new();
    let mut i: usize = 1;
    while i < command.len()
        invariant
            1 <= i <= command@.len(),
            args@ == command@.subrange(1, i as int),
        decreases command@.len() - i,
    {
        args.push(command[i].clone());
        i += 1;
    }
    if let Some(m) = model {
        args.push("--model".to_owned());
        args.push(m.to_owned());
    }
    assert(views(args@) =~= with_model(views(command@).drop_first(), opt_str_view(model)));
    Ok(Invocation { program: command[0].clone(), args })
}

/// The exit code of a process in its debug form.
pub open spec fn exit_code_text(code: Option<i32>) -> Seq<char> {
    match code {
        Some(c) => "Some("@ + signed_decimal(c as int) + ")"@,
        None => "None"@,
    }
}

/// The message for a process that failed: what it wrote to standard error, or else its code.
pub open spec fn failure_text(code: Option<i32>, stderr: Seq<char>) -> Seq<char> {
    if stderr.len() == 0 {
        "command failed (exit code: "@ + exit_code_text(code) + ")"@
    } else {
        stderr
    }
}

fn failure_message(code: Option<i32>, stderr: String) -> (r: String)
    ensures
        r@ == failure_text(code, stderr@),
{
    if stderr.as_str().is_empty() {
        let mut m = "command failed (exit code: ".to_owned();
        match code {
            Some(c) => {
                let mut t = "Some(".to_owned();
                t.append(signed_decimal_of(c).as_str());
                t.append(")");
                m.append(t.as_str());
            },
            None => {
                m.append("None");
            },
        }
        m.append(")");
        m
    } else {
        stderr
    }
}

/// What the end of an LLM process means, given its texts and whether its standard error speaks
/// of a rate limit.
///
/// # Errors
///
/// Returns `CommandError` if the process failed or hit a rate limit.
pub fn judge_exit(
    success: bool,
    code: Option<i32>,
    stdout: String,
    stderr: String,
    limited: bool,
) -> (r: Result<PromptResult, CruiseError>)
    ensures
        match r {
            Ok(result) => success && !limited && result.output == stdout && result.stderr == stderr,
            Err(CruiseError::CommandError(message)) => if !success {
                message@ == failure_text(code, stderr@)
            } else {
                limited && message@ == stderr@
            },
            Err(_) => false,
        },
{
    if !success {
        return Err(CruiseError::CommandError(failure_message(code, stderr)));
    }
    if limited {
        return Err(CruiseError::CommandError(stderr));
    }
    Ok(PromptResult { output: stdout, stderr })
}

/// `r` is what it means that an LLM process exited and wrote the given bytes.
pub open spec fn is_judged(
    success: bool,
    code: Option<i32>,
    stdout: Seq<u8>,
    stderr: Seq<u8>,
    r: Result<PromptResult, CruiseError>,
) -> bool {
    match r {
        Ok(result) => {
            &&& success
            &&& !speaks_of_rate_limit(lowercase(utf8_lossy(stderr)))
            &&& result.output@ == utf8_lossy(stdout)
            &&& result.stderr@ == utf8_lossy(stderr)
        },
        Err(CruiseError::CommandError(message)) => if !success {
            message@ == failure_text(code, utf8_lossy(stderr))
        } else {
            speaks_of_rate_limit(lowercase(utf8_lossy(stderr))) && message@ == utf8_lossy(stderr)
        },
        Err(_) => false,
    }
}

/// What the exit of an LLM process means, given the bytes that it wrote.
///
/// # Errors
///
/// Returns `CommandError` if the process failed or hit a rate limit.
pub fn judge_output(success: bool, code: Option<i32>, stdout: &[u8], stderr: &[u8]) -> (r: Result<
    PromptResult,
    CruiseError,
>)
    ensures
        is_judged(success, code, stdout@, stderr@, r),
{
    let err = decode_lossy(stderr);
    let limited = is_rate_limited(err.as_str());
    judge_exit(success, code, decode_lossy(stdout), err, limited)
}

/// How a call of the LLM command ended.
#[derive(Debug)]
pub enum PromptEnd {
    /// The process exited, with success or not, with this code, and wrote these bytes.
    Exited { success: bool, code: Option<i32>, stdout: Vec<u8>, stderr: Vec<u8> },
    /// The user cancelled first; the process was killed.
    Cancelled,
}

/// What the end of a call of the LLM command means.
///
/// # Errors
///
/// Returns `Interrupted` if the user cancelled before the process exited, and `CommandError` if
/// the process failed or hit a rate limit.
pub fn judge_end(end: PromptEnd) -> (r: Result<PromptResult, CruiseError>)
    ensures
        match end {
            PromptEnd::Exited { success, code, stdout, stderr } => is_judged(
                success,
                code,
                stdout@,
                stderr@,
                r,
            ),
            PromptEnd::Cancelled => r == Err::<PromptResult, CruiseError>(CruiseError::Interrupted),
        },
{
    match end {
        PromptEnd::Exited { success, code, stdout, stderr } => judge_output(
            success,
            code,
            stdout.as_slice(),
            stderr.as_slice(),
        ),
        PromptEnd::Cancelled => Err(CruiseError::Interrupted),
    }
}

/// What follows one call of the LLM command.
#[derive(Debug)]
pub enum PromptNext {
    /// The call gave this result.
    Finish(PromptResult),
    /// Wait, then call once more.
    RetryAfter(Retry),
    /// The call failed for good.
    Fail(CruiseError),
}

/// Decides what follows a call, given whether its error speaks of a rate limit.
pub fn follow_prompt(
    result: Result<PromptResult, CruiseError>,
    limited: bool,
    attempts: usize,
    max_retries: usize,
) -> (r: PromptNext)
    ensures
        match r {
            PromptNext::Finish(out) => result == Ok::<PromptResult, CruiseError>(out),
            PromptNext::RetryAfter(retry) => {
                &&& result is Err
                &&& limited
                &&& attempts < max_retries
                &&& retry.attempts == attempts + 1
                &&& retry.delay_secs == backoff((attempts + 1) as nat)
                &&& retry.notice@ == retry_notice((attempts + 1) as nat, max_retries as nat)
            },
            PromptNext::Fail(e) => {
                &&& result == Err::<PromptResult, CruiseError>(e)
                &&& !limited || attempts >= max_retries
            },
        },
{
    match result {
        Ok(out) => PromptNext::Finish(out),
        Err(e) => match plan_retry(limited, attempts, max_retries) {
            Some(retry) => PromptNext::RetryAfter(retry),
            None => PromptNext::Fail(e),
        },
    }
}

/// Decides what follows a call of the LLM command: its result stands, or it is retried if its
/// error speaks of a rate limit and a retry is left, or it fails. A call that the user cancelled
/// is not made again.
pub fn next_prompt(
    result: Result<PromptResult, CruiseError>,
    attempts: usize,
    max_retries: usize,
) -> (r: PromptNext)
    ensures
        match r {
            PromptNext::Finish(out) => result == Ok::<PromptResult, CruiseError>(out),
            PromptNext::RetryAfter(retry) => {
                &&& result matches Err(e) && !(e is Interrupted) && speaks_of_rate_limit(
                    lowercase(e.message_spec()),
                )
                &&& attempts < max_retries
                &&& retry.attempts == attempts + 1
                &&& retry.delay_secs == backoff((attempts + 1) as nat)
                &&& retry.notice@ == retry_notice((attempts + 1) as nat, max_retries as nat)
            },
            PromptNext::Fail(e) => {
                &&& result == Err::<PromptResult, CruiseError>(e)
                &&& e is Interrupted || !speaks_of_rate_limit(lowercase(e.message_spec()))
                    || attempts >= max_retries
            },
        },
{
    let limited = match &result {
        Ok(_) => false,
        Err(CruiseError::Interrupted) => false,
        Err(e) => is_rate_limited(e.message().as_str()),
    };
    follow_prompt(result, limited, attempts, max_retries)
}

} // verus!
