//! Titles and plans.

use cruise::metadata::{
    derive_session_title, first_markdown_heading, read_plan_markdown,
    refresh_session_title_from_plan, resolve_plan_content, strip_ordered_list_prefix,
    truncate_title, try_parse_frontmatter, PlanFile, MAX_SESSION_TITLE_CHARS,
};
use cruise::session::SessionState;

fn test_session() -> SessionState {
    SessionState::new(
        "20260321130000".to_string(),
        String::from("/repo"),
        "cruise.yaml".to_string(),
        "raw task input".to_string(),
    )
}

#[test]
fn test_refresh_session_title_from_plan_sets_title_from_heading() {
    let mut session = test_session();
    refresh_session_title_from_plan(&mut session, "# Add session titles\n\n- Update CLI\n");
    assert_eq!(session.title.as_deref(), Some("Add session titles"));
}

#[test]
fn test_refresh_session_title_from_plan_overwrites_existing_title() {
    let mut session = test_session();
    session.title = Some("Old title".to_string());
    refresh_session_title_from_plan(&mut session, "# New plan heading\n");
    assert_eq!(session.title.as_deref(), Some("New plan heading"));
}

#[test]
fn test_derive_session_title_prefers_heading() {
    let title = derive_session_title(
        r"
# Add session titles

- Update CLI list
- Update GUI sidebar
",
    );

    assert_eq!(title, "Add session titles");
}

#[test]
fn test_derive_session_title_strips_all_heading_hashes() {
    let title = derive_session_title("## H2 section title\n\n- step one\n");
    assert_eq!(title, "H2 section title");

    let title = derive_session_title("### H3 section title\n");
    assert_eq!(title, "H3 section title");
}

#[test]
fn test_derive_session_title_falls_back_to_first_non_empty_line() {
    let title = derive_session_title(
        r"
1. Generate session titles after approval
2. Display them in the sidebar
",
    );

    assert_eq!(title, "Generate session titles after approval");
}

#[test]
fn titles_without_a_heading() {
    assert_eq!(derive_session_title(" \n- 3. do it\n"), "do it");
    assert_eq!(derive_session_title(""), "Session");
    assert_eq!(
        derive_session_title(&format!("# {}", "x".repeat(200))),
        "x".repeat(MAX_SESSION_TITLE_CHARS)
    );
    assert_eq!(
        strip_ordered_list_prefix("12. twelve").as_deref(),
        Some("twelve")
    );
    assert_eq!(strip_ordered_list_prefix("12.twelve"), None);
    assert_eq!(first_markdown_heading("text\n##\n"), None);
    assert_eq!(truncate_title("abc def", 4), "abc");
}

#[test]
fn plan_files_are_read() {
    assert_eq!(
        read_plan_markdown("/p", Ok("# Plan".to_string())).unwrap_or_else(|e| panic!("{e:?}")),
        "# Plan"
    );
    match read_plan_markdown("/p", Ok(" \n".to_string())) {
        Err(e) => assert_eq!(e.message(), "generated plan /p is empty"),
        Ok(p) => panic!("{p}"),
    }
    match read_plan_markdown("/p", Err("gone".to_string())) {
        Err(e) => assert_eq!(e.message(), "failed to read generated plan /p: gone"),
        Ok(p) => panic!("{p}"),
    }
}

fn content(file: PlanFile, stdout: &str, stderr: &str) -> (String, bool) {
    let c = resolve_plan_content("/p", file, stdout, stderr).unwrap_or_else(|e| panic!("{e:?}"));
    (c.content, c.write)
}

#[test]
fn plans_come_from_the_first_place_that_has_one() {
    let file = || PlanFile::Content("file".to_string());
    assert_eq!(content(file(), "out", "err"), ("file".to_string(), false));
    let empty = || PlanFile::Content(" ".to_string());
    assert_eq!(content(empty(), "out", "err"), ("out".to_string(), true));
    assert_eq!(
        content(PlanFile::NotFound, "", "err"),
        ("err".to_string(), true)
    );
    match resolve_plan_content("/p", PlanFile::Failed("denied".to_string()), "out", "err") {
        Err(e) => assert_eq!(e.message(), "failed to read plan at /p: denied"),
        Ok(c) => panic!("{c:?}"),
    }
    assert!(resolve_plan_content("/p", PlanFile::NotFound, " ", "\n").is_err());
}

#[test]
fn front_matter_is_read_back() {
    assert_eq!(
        try_parse_frontmatter("---\ntitle: \"A title\"\n---\nBody\n"),
        Some(("A title".to_string(), "Body\n".to_string()))
    );
    assert_eq!(try_parse_frontmatter("no front matter"), None);
    assert_eq!(try_parse_frontmatter("---\ntitle: open"), None);
    assert_eq!(try_parse_frontmatter("---\ntitle: \"\"\n---\nBody\n"), None);
    assert_eq!(try_parse_frontmatter("---\ntitle:\n---\nBody\n"), None);
}

#[test]
fn test_resolve_plan_content_prefers_file_over_stdout() {
    let file = PlanFile::Content("# File Plan".to_string());
    assert_eq!(content(file, "stdout plan", "stderr plan").0, "# File Plan");
}

#[test]
fn test_resolve_plan_content_falls_back_to_stdout() {
    assert_eq!(
        content(PlanFile::NotFound, "stdout plan", "stderr plan"),
        ("stdout plan".to_string(), true)
    );
}

#[test]
fn test_resolve_plan_content_falls_back_to_stderr() {
    assert_eq!(
        content(PlanFile::NotFound, "", "stderr plan"),
        ("stderr plan".to_string(), true)
    );
}

#[test]
fn test_resolve_plan_content_all_empty_returns_err() {
    match resolve_plan_content("/p/plan.md", PlanFile::NotFound, "", "") {
        Err(e) => assert_eq!(
            e.message(),
            "plan generation produced no output: /p/plan.md, stdout, and stderr were all empty"
        ),
        Ok(c) => panic!("{c:?}"),
    }
}

#[test]
fn test_read_plan_markdown_returns_err_when_file_missing() {
    assert!(read_plan_markdown("/p/plan.md", Err("gone".to_string())).is_err());
}

#[test]
fn test_read_plan_markdown_returns_err_when_file_is_empty() {
    assert!(read_plan_markdown("/p/plan.md", Ok(String::new())).is_err());
}

#[test]
fn test_read_plan_markdown_returns_err_when_file_is_whitespace_only() {
    assert!(read_plan_markdown("/p/plan.md", Ok("   \n\t\n  ".to_string())).is_err());
}

#[test]
fn test_read_plan_markdown_returns_content_when_file_has_real_content() {
    let text = "# Implementation Plan\n\nStep 1: do something\n";
    assert_eq!(
        read_plan_markdown("/p/plan.md", Ok(text.to_string()))
            .unwrap_or_else(|e| panic!("{e:?}")),
        text
    );
}
