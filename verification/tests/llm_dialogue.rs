//! Tools, rounds and retries of the dialogue with a chat interface.

use cruise::error::CruiseError;
use cruise::llm_api::{
    api_error, chat_url, execute_tool_call, git_output, judge_status, pr_tools, read_candidate,
    run_git_command, session_title, title_messages, tool_action, tool_reply,
    validate_read_file_path, ApiFunctionCall, ApiResponseMessage, ApiToolCall, DialogueNext,
    PrDialogue, ReplyStep, ToolAction, MAX_TOOL_ROUNDS,
};
use cruise::run_cmd::pr_text::parse_api_pr_output;

fn call(name: &str, arguments: &str) -> ApiToolCall {
    ApiToolCall {
        id: "call-1".to_string(),
        kind: "function".to_string(),
        function: ApiFunctionCall {
            name: name.to_string(),
            arguments: arguments.to_string(),
        },
    }
}

fn wd() -> Result<String, String> {
    Ok("/work/dir".to_string())
}

#[test]
fn test_validate_read_file_path_allows_file_within_working_dir() {
    let result = validate_read_file_path(
        "/work/dir",
        "plan.md",
        &wd(),
        &Some("/work/dir/plan.md".to_string()),
        false,
    );
    assert_eq!(
        result.unwrap_or_else(|e| panic!("{e:?}")),
        "/work/dir/plan.md"
    );
}

#[test]
fn test_validate_read_file_path_resolved_path_is_within_working_dir() {
    let found = Some("/work/dir/plan.md".to_string());
    let resolved = validate_read_file_path("/work/dir", "plan.md", &wd(), &found, false)
        .unwrap_or_else(|e| panic!("{e:?}"));
    assert!(resolved.starts_with("/work/dir"));
}

#[test]
fn the_path_that_was_looked_at_is_the_path_that_is_read() {
    let read = |file: &str, resolved: Option<&str>| {
        validate_read_file_path("/work/dir", file, &wd(), &resolved.map(str::to_string), false)
            .unwrap_or_else(|e| panic!("{e:?}"))
    };
    // A link within the directory is followed.
    assert_eq!(read("link", Some("/work/dir/docs/a.md")), "/work/dir/docs/a.md");
    // A file that does not exist has its dots folded.
    assert_eq!(read("new/file.txt", None), "/work/dir/new/file.txt");
    assert_eq!(read("./a/../b.txt", None), "/work/dir/b.txt");
    assert_eq!(read("a//b/", None), "/work/dir/a/b");
}

fn rejected(file: &str, resolved: Option<&str>) -> String {
    let resolved = resolved.map(str::to_string);
    match validate_read_file_path("/work/dir", file, &wd(), &resolved, false) {
        Err(CruiseError::Other(m)) => m,
        other => panic!("{other:?}"),
    }
}

#[test]
fn test_validate_read_file_path_rejects_path_traversal_with_dotdot() {
    assert_eq!(
        rejected("../../etc/passwd", None),
        "path traversal rejected: '../../etc/passwd' escapes the working directory"
    );
    rejected("a/../../b", None);
    rejected("link", Some("/etc/passwd"));
}

#[test]
fn test_validate_read_file_path_rejects_absolute_path_outside_working_dir() {
    rejected("/etc/passwd", Some("/etc/passwd"));
    rejected("/work/directory/file", None);
}

#[test]
fn test_validate_read_file_path_rejects_path_pointing_to_parent_dir() {
    rejected("/work", Some("/work"));
    rejected("..", Some("/work"));
    rejected("..", None);
}

#[test]
fn paths_that_come_back_are_accepted() {
    assert!(validate_read_file_path("/work/dir", "../dir/./a//b", &wd(), &None, false).is_ok());
    assert_eq!(read_candidate("/work/dir", "/abs", false), "/abs");
    match validate_read_file_path("/work/dir", "a", &Err("gone".to_string()), &None, false) {
        Err(e) => assert_eq!(
            e.message(),
            "cannot canonicalize working directory /work/dir: gone"
        ),
        Ok(p) => panic!("{p}"),
    }
}

#[test]
fn git_is_called_with_allowed_arguments() {
    assert_eq!(
        run_git_command("diff", " HEAD~1..HEAD  --stat").unwrap_or_else(|e| panic!("{e:?}")),
        vec!["diff", "HEAD~1..HEAD", "--stat"]
    );
    match run_git_command("push", "") {
        Err(e) => assert_eq!(
            e.message(),
            "git subcommand 'push' is not allowed; permitted: diff, log, show, rev-parse, merge-base"
        ),
        Ok(a) => panic!("{a:?}"),
    }
    match run_git_command("log", "-5 --output=f") {
        Err(e) => assert_eq!(
            e.message(),
            "git argument '--output=f' is not allowed; output-redirecting flags are forbidden"
        ),
        Ok(a) => panic!("{a:?}"),
    }
    assert_eq!(git_output(b"out", b"err"), "out");
    assert_eq!(git_output(b"", b"err"), "err");
}

#[test]
fn arguments_of_tools_are_json() {
    match execute_tool_call(&call("read_file", "{\"path\": \"a\\u0062.txt\"}")) {
        Ok(ToolAction::ReadFile(path)) => assert_eq!(path, "ab.txt"),
        other => panic!("{other:?}"),
    }
    match execute_tool_call(&call("git_diff", "{\"args\": \"HEAD\", \"path\": 1}")) {
        Ok(ToolAction::Git(args)) => assert_eq!(args, vec!["diff", "HEAD"]),
        other => panic!("{other:?}"),
    }
    match execute_tool_call(&call("git_log", "{}")) {
        Ok(ToolAction::Git(args)) => assert_eq!(args, vec!["log"]),
        other => panic!("{other:?}"),
    }
    match execute_tool_call(&call("git_log", "[\"args\"]")) {
        Ok(ToolAction::Git(args)) => assert_eq!(args, vec!["log"]),
        other => panic!("{other:?}"),
    }
}

#[test]
fn bad_calls_of_tools_are_told() {
    let failed = |name: &str, arguments: &str| match execute_tool_call(&call(name, arguments)) {
        Err(e) => e.message(),
        Ok(a) => panic!("{a:?}"),
    };
    assert!(failed("git_log", "{").starts_with("invalid tool arguments for 'git_log': EOF"));
    assert_eq!(
        failed("read_file", "{\"path\": 7}"),
        "read_file: missing required 'path' argument"
    );
    assert_eq!(failed("rm", "{}"), "unknown tool 'rm'");
    assert_eq!(
        tool_reply(
            &call("rm", "{}"),
            Err(CruiseError::Other("unknown tool 'rm'".to_string()))
        ),
        "Error executing tool rm: unknown tool 'rm'"
    );
    assert_eq!(tool_reply(&call("rm", "{}"), Ok("text".to_string())), "text");
}

#[test]
fn the_decision_on_a_tool_needs_no_json() {
    match tool_action("git_diff", None, Some("HEAD --stat".to_string())) {
        Ok(ToolAction::Git(args)) => assert_eq!(args, vec!["diff", "HEAD", "--stat"]),
        other => panic!("{other:?}"),
    }
    assert!(tool_action("git_diff", None, Some("-o f".to_string())).is_err());
    assert!(tool_action("read_file", None, Some("x".to_string())).is_err());
}

#[test]
fn the_tools_are_the_known_ones() {
    let names: Vec<&str> = pr_tools().iter().map(|t| t.name).collect();
    assert_eq!(names, vec!["read_file", "git_diff", "git_log"]);
    assert!(pr_tools()[0].required);
}

fn says(content: Option<&str>, calls: Option<Vec<ApiToolCall>>) -> Option<ApiResponseMessage> {
    Some(ApiResponseMessage {
        content: content.map(str::to_string),
        tool_calls: calls,
    })
}

#[test]
fn a_dialogue_calls_tools_and_ends() {
    let mut d = PrDialogue::start("# Plan", "Japanese");
    assert_eq!(d.messages().len(), 2);
    assert_eq!(d.messages()[0].role, "system");
    assert!(d.messages()[0]
        .content
        .as_deref()
        .unwrap_or_default()
        .ends_with("Write the title and description in Japanese."));
    assert!(d.messages()[1]
        .content
        .as_deref()
        .unwrap_or_default()
        .ends_with("\n\nPlan:\n# Plan"));
    assert!(d.offers_tools());
    let calls = match d.receive(says(None, Some(vec![call("git_diff", "{}")]))) {
        DialogueNext::CallTools(calls) => calls,
        other => panic!("{other:?}"),
    };
    d.tell(&calls, vec!["diff".to_string()]);
    assert_eq!(d.messages().len(), 4);
    assert_eq!(d.messages()[3].role, "tool");
    assert_eq!(d.messages()[3].content.as_deref(), Some("diff"));
    assert_eq!(d.messages()[3].tool_call_id.as_deref(), Some("call-1"));
    match d.receive(says(Some("---\ntitle: \"T\"\n---\n\nB\n"), None)) {
        DialogueNext::Done(title, body) => {
            assert_eq!((title.as_str(), body.as_str()), ("T", "B"))
        }
        other => panic!("{other:?}"),
    }
}

#[test]
fn tools_are_called_a_limited_number_of_times() {
    let mut d = PrDialogue::start("", "English");
    for _ in 0..MAX_TOOL_ROUNDS {
        assert!(d.offers_tools());
        match d.receive(says(None, Some(vec![]))) {
            DialogueNext::CallTools(calls) => d.tell(&calls, vec![]),
            other => panic!("{other:?}"),
        }
    }
    assert!(!d.offers_tools());
    match d.receive(says(Some("plain"), Some(vec![call("git_diff", "{}")]))) {
        DialogueNext::Done(title, body) => {
            assert_eq!((title.as_str(), body.as_str()), ("", "plain"))
        }
        other => panic!("{other:?}"),
    }
}

#[test]
fn answers_without_text_fail() {
    let mut d = PrDialogue::start("", "English");
    match d.receive(None) {
        DialogueNext::Failed(e) => assert_eq!(e.message(), "empty response from LLM API"),
        other => panic!("{other:?}"),
    }
    match d.receive(says(None, None)) {
        DialogueNext::Failed(e) => assert_eq!(e.message(), "LLM API returned no content"),
        other => panic!("{other:?}"),
    }
}

#[test]
fn titles_are_cut() {
    let long = format!("  {}  ", "t".repeat(100));
    assert_eq!(
        session_title(says(Some(&long), None)).unwrap_or_else(|e| panic!("{e:?}")),
        "t".repeat(80)
    );
    assert!(session_title(None).is_err());
    assert!(session_title(says(None, None)).is_err());
    let m = title_messages("task", "plan");
    assert_eq!(m[1].content.as_deref(), Some("Task: task\n\nPlan:\nplan"));
}

#[test]
fn requests_are_sent_again_after_a_rate_limit() {
    for (attempt, secs) in [(1, 2), (2, 4)] {
        match judge_status(429, attempt) {
            ReplyStep::Retry(wait, notice) => {
                assert_eq!(wait, secs);
                assert_eq!(
                    notice,
                    format!("warning: LLM API rate limited, retrying in {secs}s...")
                );
            }
            other => panic!("{other:?}"),
        }
    }
    assert!(matches!(judge_status(429, 3), ReplyStep::Refused));
    assert!(matches!(judge_status(200, 1), ReplyStep::Read));
    assert!(matches!(judge_status(500, 1), ReplyStep::Refused));
    assert_eq!(
        chat_url("https://api.openai.com/v1//"),
        "https://api.openai.com/v1/chat/completions"
    );
    assert_eq!(
        api_error("500 Internal Server Error", "boom").message(),
        "LLM API error 500 Internal Server Error: boom"
    );
}

#[test]
fn answers_of_the_interface_are_taken_apart() {
    let (title, body) = parse_api_pr_output("Sure.\n---\ntitle: T\n---\n B \n");
    assert_eq!((title.as_str(), body.as_str()), ("T", "B"));
    let (title, body) = parse_api_pr_output("  just text ");
    assert_eq!((title.as_str(), body.as_str()), ("", "just text"));
}
