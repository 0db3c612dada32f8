//! The model behind an API: its settings, the tools it may call, and the dialogue with it.

use vstd::prelude::*;

use crate::config::LlmApiConfigYaml;
use crate::error::CruiseError;
use crate::llm_api::{
    answer_text, chat_url, execute_tool_call, first_redirect, git_output, judge_status, json_of,
    redirects, resolve_llm_api_config, run_git_command, session_title, tool_reply,
    validate_git_args, validate_git_subcommand, ApiResponseMessage, ApiToolCall, DialogueNext,
    LlmApiConfig, PrDialogue, ReplyStep, ToolAction,
};
use crate::text::{starts_with, trim, utf8_lossy, views, without_trailing, words};

verus! {

// ---------------------------------------------------------------------------
// Settings
// ---------------------------------------------------------------------------

/// A value of the environment decides if it is not empty; only without one the file decides.
pub open spec fn decides(env: Option<String>) -> bool {
    env matches Some(text) && text@.len() > 0
}

/// A key comes from the environment if there is one that is not empty, and else from the file.
/// There are settings exactly if there is a key.
pub proof fn law_keys_come_from_the_environment_first(
    env_key: Option<String>,
    env_endpoint: Option<String>,
    env_model: Option<String>,
    file: &Option<LlmApiConfigYaml>,
    r: Option<LlmApiConfig>,
)
    requires
        call_ensures(resolve_llm_api_config, (env_key, env_endpoint, env_model, file), r),
    ensures
        decides(env_key) ==> (r matches Some(c) && c.api_key@ == env_key->0@),
        !decides(env_key) ==> (*file matches Some(f) ==> (f.api_key matches Some(key) ==> {
            &&& key@.len() > 0 ==> (r matches Some(c) && c.api_key@ == key@)
            &&& key@.len() == 0 ==> r is None
        })),
        !decides(env_key) && *file is None ==> r is None,
        !decides(env_key) ==> (*file matches Some(f) ==> (f.api_key is None ==> r is None)),
{
}

/// The endpoint comes from the environment if there is one that is not empty, or else from the
/// file, or else is the one that everyone uses.
pub proof fn law_endpoints_come_from_the_environment_first(
    env_key: Option<String>,
    env_endpoint: Option<String>,
    env_model: Option<String>,
    file: &Option<LlmApiConfigYaml>,
    c: LlmApiConfig,
)
    requires
        call_ensures(resolve_llm_api_config, (env_key, env_endpoint, env_model, file), Some(c)),
    ensures
        decides(env_endpoint) ==> c.endpoint@ == env_endpoint->0@,
        !decides(env_endpoint) ==> (*file matches Some(f) ==> (f.endpoint matches Some(url)
            ==> c.endpoint@ == url@)),
        !decides(env_endpoint) ==> (*file is None || file->0.endpoint is None ==> c.endpoint@
            == "https://api.openai.com/v1"@),
{
}

/// The model comes from the environment if there is one that is not empty, or else from the file,
/// or else is the one that everyone uses.
pub proof fn law_models_come_from_the_environment_first(
    env_key: Option<String>,
    env_endpoint: Option<String>,
    env_model: Option<String>,
    file: &Option<LlmApiConfigYaml>,
    c: LlmApiConfig,
)
    requires
        call_ensures(resolve_llm_api_config, (env_key, env_endpoint, env_model, file), Some(c)),
    ensures
        decides(env_model) ==> c.model@ == env_model->0@,
        !decides(env_model) ==> (*file matches Some(f) ==> (f.model matches Some(name)
            ==> c.model@ == name@)),
        !decides(env_model) ==> (*file is None || file->0.model is None ==> c.model@
            == "gpt-4o"@),
{
}

/// Each of the three settings depends on its own values alone: with another value of one, the
/// other two stay.
pub proof fn law_settings_do_not_depend_on_each_other(
    env_key: Option<String>,
    env_endpoint: Option<String>,
    env_model: Option<String>,
    other: Option<String>,
    file: &Option<LlmApiConfigYaml>,
    c: LlmApiConfig,
    with_key: Option<LlmApiConfig>,
    with_endpoint: Option<LlmApiConfig>,
    with_model: Option<LlmApiConfig>,
)
    requires
        call_ensures(resolve_llm_api_config, (env_key, env_endpoint, env_model, file), Some(c)),
        call_ensures(resolve_llm_api_config, (other, env_endpoint, env_model, file), with_key),
        call_ensures(resolve_llm_api_config, (env_key, other, env_model, file), with_endpoint),
        call_ensures(resolve_llm_api_config, (env_key, env_endpoint, other, file), with_model),
    ensures
        with_key matches Some(d) ==> d.endpoint@ == c.endpoint@ && d.model@ == c.model@,
        with_endpoint matches Some(d) && d.api_key@ == c.api_key@ && d.model@ == c.model@,
        with_model matches Some(d) && d.api_key@ == c.api_key@ && d.endpoint@ == c.endpoint@,
{
}

proof fn lemma_without_slashes(s: Seq<char>)
    ensures
        without_trailing(s, '/').len() <= s.len(),
        without_trailing(s, '/') == s.take(without_trailing(s, '/').len() as int),
        without_trailing(s, '/').len() > 0 ==> without_trailing(s, '/').last() != '/',
        forall|i: int| without_trailing(s, '/').len() <= i < s.len() ==> s[i] == '/',
    decreases s.len(),
{
    if s.len() > 0 && s.last() == '/' {
        lemma_without_slashes(s.drop_last());
        let n = without_trailing(s, '/').len() as int;
        assert(s.take(n) =~= s.drop_last().take(n));
        assert forall|i: int| n <= i < s.len() implies s[i] == '/' by {
            if i < s.len() - 1 {
                assert(s[i] == s.drop_last()[i]);
            }
        }
    } else {
        assert(s.take(s.len() as int) =~= s);
    }
}

/// Requests go to the chat of the endpoint, with one slash between the two however many the
/// endpoint ends in.
pub proof fn law_requests_go_to_the_chat(base: Seq<char>, endpoint: &str, r: String)
    requires
        call_ensures(chat_url, (endpoint,), r),
        base.len() > 0 && base.last() != '/',
        endpoint@ == base || endpoint@ == base + seq!['/'] || endpoint@ == base + seq!['/', '/'],
    ensures
        r@ == base + "/chat/completions"@,
{
    let s = endpoint@;
    lemma_without_slashes(s);
    let n = without_trailing(s, '/').len() as int;
    let b = base.len() as int;
    assert(s[b - 1] == base[b - 1]);
    assert(n >= b);
    if n > b {
        assert(without_trailing(s, '/').last() == s[n - 1]);
    }
    assert(s.take(b) =~= base);
}

// ---------------------------------------------------------------------------
// Tools
// ---------------------------------------------------------------------------

/// Of git the model may only look: at differences, the log, commits, and what names and common
/// ancestors stand for.
pub proof fn law_the_model_only_looks(subcommand: &str, r: Result<(), CruiseError>)
    requires
        call_ensures(validate_git_subcommand, (subcommand,), r),
    ensures
        r is Ok <==> subcommand@ == "diff"@ || subcommand@ == "log"@ || subcommand@ == "show"@
            || subcommand@ == "rev-parse"@ || subcommand@ == "merge-base"@,
{
}

proof fn lemma_first_redirect(tokens: Seq<Seq<char>>)
    ensures
        first_redirect(tokens) is None <==> (forall|i: int|
            0 <= i < tokens.len() ==> !redirects(#[trigger] tokens[i])),
        first_redirect(tokens) matches Some(t) ==> tokens.contains(t) && redirects(t),
    decreases tokens.len(),
{
    if tokens.len() > 0 {
        let rest = tokens.drop_first();
        lemma_first_redirect(rest);
        if first_redirect(tokens) is None {
            assert forall|i: int| 0 <= i < tokens.len() implies !redirects(
                #[trigger] tokens[i],
            ) by {
                if i > 0 {
                    assert(tokens[i] == rest[i - 1]);
                }
            }
        } else {
            let t = first_redirect(tokens)->0;
            if redirects(tokens[0]) {
                assert(tokens[0] == t);
            } else {
                assert(rest.contains(t));
                let k = choose|k: int| 0 <= k < rest.len() && rest[k] == t;
                assert(tokens[k + 1] == t);
            }
        }
    }
}

/// Arguments of git are accepted exactly if none of them says where the output is written.
pub proof fn law_the_model_writes_no_files(args: &str, r: Result<(), CruiseError>)
    requires
        call_ensures(validate_git_args, (args,), r),
    ensures
        r is Ok <==> (forall|i: int|
            0 <= i < words(args@).len() ==> {
                let token = #[trigger] words(args@)[i];
                &&& token != "--output"@ && token != "-o"@
                &&& !starts_with(token, "--output="@) && !starts_with(token, "-o="@)
            }),
{
    let tokens = words(args@);
    lemma_first_redirect(tokens);
    if r is Ok {
        assert forall|i: int| 0 <= i < tokens.len() implies {
            let token = #[trigger] tokens[i];
            &&& token != "--output"@ && token != "-o"@
            &&& !starts_with(token, "--output="@) && !starts_with(token, "-o="@)
        } by {
            assert(!redirects(tokens[i]));
        }
    } else {
        let t = first_redirect(tokens)->0;
        let k = choose|k: int| 0 <= k < tokens.len() && tokens[k] == t;
        assert(redirects(tokens[k]));
    }
}

/// Git is called exactly if both the command and its arguments are accepted, and then with the
/// command first and the words of the arguments after it, in their order.
pub proof fn law_git_is_called_as_asked(
    subcommand: &str,
    args: &str,
    named: Result<(), CruiseError>,
    given: Result<(), CruiseError>,
    r: Result<Vec<String>, CruiseError>,
    i: int,
)
    requires
        call_ensures(validate_git_subcommand, (subcommand,), named),
        call_ensures(validate_git_args, (args,), given),
        call_ensures(run_git_command, (subcommand, args), r),
    ensures
        r is Ok <==> named is Ok && given is Ok,
        r matches Ok(call) ==> {
            &&& call@.len() == words(args@).len() + 1
            &&& call@[0]@ == subcommand@
            &&& 0 <= i < words(args@).len() ==> call@[i + 1]@ == words(args@)[i]
        },
{
    if r is Ok {
        let call = r->Ok_0;
        assert(views(call@).len() == call@.len());
        assert(views(call@)[0] == call@[0]@);
        if 0 <= i < words(args@).len() {
            assert(views(call@)[i + 1] == call@[i + 1]@);
        }
    }
}

/// What git wrote is what it wrote to the standard output, or else to the standard error.
pub proof fn law_git_is_read_from_its_output(stdout: &[u8], stderr: &[u8], r: String)
    requires
        call_ensures(git_output, (stdout, stderr), r),
    ensures
        utf8_lossy(stdout@).len() > 0 ==> r@ == utf8_lossy(stdout@),
        utf8_lossy(stdout@).len() == 0 ==> r@ == utf8_lossy(stderr@),
{
}

proof fn lemma_tools_differ()
    ensures
        "read_file"@ != "git_diff"@ && "read_file"@ != "git_log"@ && "git_diff"@ != "git_log"@,
        "diff"@ != "log"@,
{
    reveal_strlit("read_file");
    reveal_strlit("git_diff");
    reveal_strlit("git_log");
    reveal_strlit("diff");
    reveal_strlit("log");
    assert("read_file"@.len() == 9 && "git_diff"@.len() == 8 && "git_log"@.len() == 7);
    assert("diff"@.len() != "log"@.len());
}

/// A tool does what its name says with the arguments of its call, and nothing else: it reads the
/// file at the path that was given, or calls git with `diff` or `log` and the words that were
/// given. What is no tool, or has arguments that cannot be read, does nothing.
pub proof fn law_tools_do_what_they_are_called_for(
    call: &ApiToolCall,
    r: Result<ToolAction, CruiseError>,
)
    requires
        call_ensures(execute_tool_call, (call,), r),
    ensures
        json_of(call.function.arguments@) is Err ==> r is Err,
        r matches Ok(ToolAction::ReadFile(p)) ==> call.function.name@ == "read_file"@ && (json_of(
            call.function.arguments@,
        ) matches Ok(m) && m.contains_key("path"@) && p@ == m["path"@]),
        r matches Ok(ToolAction::Git(v)) ==> (json_of(call.function.arguments@) matches Ok(m) && {
            &&& v@.len() > 0
            &&& call.function.name@ == "git_diff"@ && v@[0]@ == "diff"@ || call.function.name@
                == "git_log"@ && v@[0]@ == "log"@
            &&& m.contains_key("args"@) ==> v@.len() == words(m["args"@]).len() + 1
            &&& !m.contains_key("args"@) ==> v@.len() == 1
        }),
        call.function.name@ == "read_file"@ ==> (json_of(call.function.arguments@) matches Ok(m)
            ==> (m.contains_key("path"@) <==> r is Ok)),
        call.function.name@ != "read_file"@ && call.function.name@ != "git_diff"@
            && call.function.name@ != "git_log"@ ==> r is Err,
{
    lemma_tools_differ();
    if r is Ok && r->Ok_0 is Git {
        let v = r->Ok_0->Git_0;
        assert(views(v@).len() == v@.len());
        assert(views(v@)[0] == v@[0]@);
        assert(words(Seq::<char>::empty()).len() == 0);
    }
}

/// The model is told what a tool gave, or which tool failed and why.
pub proof fn law_the_model_is_told_what_tools_give(
    call: &ApiToolCall,
    result: Result<String, CruiseError>,
    r: String,
)
    requires
        call_ensures(tool_reply, (call, result), r),
    ensures
        result matches Ok(text) ==> r@ == text@,
        result matches Err(e) ==> r@ == "Error executing tool "@ + call.function.name@ + ": "@
            + e.message_spec(),
{
}

// ---------------------------------------------------------------------------
// Dialogues
// ---------------------------------------------------------------------------

/// A dialogue begins with who the model is and what it is asked; tools are offered from the
/// beginning, and no longer once five answers have called any.
pub proof fn law_tools_are_offered_for_five_rounds(
    plan: &str,
    language: &str,
    begun: PrDialogue,
    d: &PrDialogue,
    offered: bool,
    at_first: bool,
)
    requires
        call_ensures(PrDialogue::start, (plan, language), begun),
        call_ensures(PrDialogue::offers_tools, (&begun,), at_first),
        call_ensures(PrDialogue::offers_tools, (d,), offered),
    ensures
        at_first,
        begun.rounds_spec() == 0,
        offered <==> d.rounds_spec() < 5,
        begun.said().len() == 2,
        begun.said()[0].role == "system"@ && begun.said()[1].role == "user"@,
{
}

/// An answer is remembered while tools are offered. Its calls are made, each counted as one round;
/// an answer without any ends the dialogue with its text, and so does every answer after the last
/// round.
pub proof fn law_answers_go_on_or_end_the_dialogue(
    d: &mut PrDialogue,
    message: ApiResponseMessage,
    r: DialogueNext,
)
    requires
        call_ensures(PrDialogue::receive, (d, Some(message)), r),
    ensures
        message.tool_calls matches Some(calls) ==> (old(d).rounds_spec() < 5 ==> (
        r matches DialogueNext::CallTools(made) && made@ == calls@ && final(d).rounds_spec()
            == old(d).rounds_spec() + 1)),
        message.tool_calls is None || old(d).rounds_spec() >= 5 ==> {
            &&& message.content is Some ==> r is Done
            &&& message.content is None ==> r is Failed
            &&& final(d).rounds_spec() == old(d).rounds_spec()
        },
        old(d).rounds_spec() < 5 ==> {
            let n = old(d).said().len() as int;
            &&& final(d).said().len() == n + 1
            &&& forall|i: int| 0 <= i < n ==> final(d).said()[i] == old(d).said()[i]
            &&& final(d).said()[n].role == "assistant"@
            &&& message.content matches Some(text) ==> final(d).said()[n].content == Some(text@)
            &&& message.content is None ==> final(d).said()[n].content is None
        },
{
}

/// What the tools gave is told in the order of their calls, each with the call that it answers.
pub proof fn law_replies_answer_their_calls(
    d: &mut PrDialogue,
    calls: &Vec<ApiToolCall>,
    results: Vec<String>,
    r: (),
    i: int,
)
    requires
        calls@.len() == results@.len(),
        call_ensures(PrDialogue::tell, (d, calls, results), r),
        0 <= i < calls@.len(),
    ensures
        ({
            let n = old(d).said().len() as int;
            let told = final(d).said()[n + i];
            &&& final(d).said().len() == n + calls@.len()
            &&& forall|k: int| 0 <= k < n ==> final(d).said()[k] == old(d).said()[k]
            &&& told.role == "tool"@ && told.content == Some(results@[i]@) && told.tool_call_id
                == Some(calls@[i].id@)
        }),
{
}

/// A reply that says that there were too many requests is asked for again after the first two
/// attempts; a reply of success is read, and any other one is a failure.
pub proof fn law_replies_are_judged_by_their_status(status: u16, attempt: usize, r: ReplyStep)
    requires
        call_ensures(judge_status, (status, attempt), r),
    ensures
        r is Retry <==> status == 429 && attempt < 3,
        r is Read <==> 200 <= status < 300,
{
}

/// The text of an answer is handed on; without an answer or a text there is an error.
pub proof fn law_answers_need_a_text(
    answer: Option<ApiResponseMessage>,
    r: Result<String, CruiseError>,
    title: Result<String, CruiseError>,
)
    requires
        call_ensures(answer_text, (answer,), r),
        call_ensures(session_title, (answer,), title),
    ensures
        r is Ok <==> (answer matches Some(m) && m.content is Some),
        title is Ok <==> r is Ok,
        answer matches Some(m) ==> (m.content matches Some(text) ==> {
            &&& r matches Ok(t) && t@ == text@
            &&& title matches Ok(t) && (trim(text@).len() <= 80 ==> t@ == trim(text@)) && (trim(
                text@,
            ).len() > 80 ==> t@ == trim(text@).take(80))
        }),
{
}

} // verus!
