//! Pull requests, plans and lists, from question to answer.

use cruise::config::{StepConfig, WorkflowConfig};
use cruise::error::CruiseError;
use cruise::list_talk::{advance_list, ListEvent, ListNext, ListStage, ListStep, Opened};
use cruise::multiline_input::InputResult;
use cruise::names::NameMap;
use cruise::plan_cmd::plan_variables;
use cruise::plan_talk::{
    advance_talk, new_session, TalkEvent, TalkNext, TalkStage, TalkStep, TalkTemplates,
};
use cruise::resolver::ConfigSource;
use cruise::run_cmd::publish::{
    advance_publish, first_publish_stage, PublishEvent, PublishNext, PublishStage, PublishStep,
};
use cruise::run_cmd::pull_request::{PrStage, ToolReply};
use cruise::run_cmd::session_run::MenuAnswer;
use cruise::session::{SessionManager, SessionPhase, SessionState, WorktreeContext};
use cruise::span::plain_text;
use cruise::step::prompt::PromptResult;
use cruise::variable::VariableStore;
use cruise::workflow::{compile, CompiledWorkflow};
use indexmap::IndexMap;

fn prompt_step(prompt: &str) -> StepConfig {
    StepConfig {
        prompt: Some(prompt.to_string()),
        ..Default::default()
    }
}

fn compiled(after_pr: bool) -> CompiledWorkflow {
    let mut steps = IndexMap::new();
    steps.insert("one".to_string(), prompt_step("go"));
    let mut after = IndexMap::new();
    if after_pr {
        after.insert("notify".to_string(), prompt_step("{pr.url}"));
    }
    compile(WorkflowConfig {
        command: vec!["agent".to_string(), "-p".to_string()],
        model: Some("large".to_string()),
        plan_model: None,
        plan: None,
        env: NameMap::new(),
        groups: NameMap::new(),
        steps,
        after_pr: after,
        pr_language: " ".to_string(),
        llm_api: None,
    })
    .unwrap_or_else(|e| panic!("{e:?}"))
}

fn session(phase: SessionPhase) -> SessionState {
    let mut s = SessionState::new(
        "7".to_string(),
        "/repo".to_string(),
        "cruise.yaml".to_string(),
        "add x".to_string(),
    );
    s.phase = phase;
    s
}

fn ctx() -> WorktreeContext {
    WorktreeContext {
        path: "/wt".to_string(),
        branch: "cruise/7".to_string(),
        original_dir: "/repo".to_string(),
    }
}

fn manager() -> SessionManager {
    SessionManager::new("/base".to_string(), false)
}

// Pull requests

const TEMPLATE: &str = "Describe {input} in {pr.language}";

struct Pr {
    compiled: CompiledWorkflow,
    vars: VariableStore,
    session: SessionState,
    said: Vec<String>,
}

impl Pr {
    fn new(after_pr: bool) -> Pr {
        let s = session(SessionPhase::Running);
        Pr {
            compiled: compiled(after_pr),
            vars: plan_variables(&manager(), &s, None),
            session: s,
            said: Vec::new(),
        }
    }

    fn take(&mut self, step: PublishStep) -> PublishNext {
        self.said.extend(step.said.iter().map(plain_text));
        step.next
    }

    fn first(&mut self, has_api: bool, template: &str) -> PublishNext {
        let step = first_publish_stage(
            &ctx(),
            &self.compiled,
            template,
            has_api,
            &mut self.vars,
            &self.session,
        );
        self.take(step)
    }

    fn feed(&mut self, next: PublishNext, event: PublishEvent) -> PublishNext {
        let stage = match next {
            PublishNext::Go(stage) => stage,
            PublishNext::End(r) => panic!("{r:?}"),
        };
        let step = advance_publish(
            &ctx(),
            &self.compiled,
            TEMPLATE,
            stage,
            event,
            &mut self.vars,
            &mut self.session,
        );
        self.take(step)
    }

    fn reply(&mut self, next: PublishNext, success: bool, stdout: &str) -> PublishNext {
        self.feed(
            next,
            PublishEvent::Replied(ToolReply::Exited {
                success,
                stdout: stdout.as_bytes().to_vec(),
                stderr: b"no".to_vec(),
            }),
        )
    }

    /// From the staging of changes to the push.
    fn push(&mut self, next: PublishNext, count: &str) -> PublishNext {
        let next = self.reply(next, true, "");
        let next = self.reply(next, false, "");
        let next = self.reply(next, true, "");
        let next = self.reply(next, true, "abc");
        let next = self.reply(next, true, "def");
        let next = self.reply(next, true, count);
        match next {
            PublishNext::Go(_) => self.reply(next, true, ""),
            end => end,
        }
    }
}

#[test]
fn a_pull_request_is_made() {
    let mut pr = Pr::new(true);
    let next = pr.first(false, TEMPLATE);
    match &next {
        PublishNext::Go(PublishStage::AskCommand(request)) => {
            assert_eq!(request.prompt, "Describe add x in English");
            assert_eq!(request.model_arg.as_deref(), Some("large"));
        }
        other => panic!("{other:?}"),
    }
    let next = pr.feed(
        next,
        PublishEvent::Prompted(Ok(PromptResult {
            output: "---\ntitle: \"Add x\"\n---\n\nIt adds x.\n".to_string(),
            stderr: String::new(),
        })),
    );
    match &next {
        PublishNext::Go(PublishStage::Attempt(job, PrStage::Add)) => {
            assert_eq!(job.title, "Add x");
            assert_eq!(job.commit_message, "Add x");
            assert_eq!(job.body.trim(), "It adds x.");
        }
        other => panic!("{other:?}"),
    }
    let next = pr.push(next, "2");
    let next = pr.reply(next, true, "https://github.com/o/r/pull/12\n");
    match &next {
        PublishNext::Go(PublishStage::AfterSteps(first)) => assert_eq!(first, "notify"),
        other => panic!("{other:?}"),
    }
    assert_eq!(
        pr.said,
        vec![
            "✓ Changes committed".to_string(),
            "✓ PR created: https://github.com/o/r/pull/12".to_string()
        ]
    );
    assert_eq!(
        pr.session.pr_url.as_deref(),
        Some("https://github.com/o/r/pull/12")
    );
    assert_eq!(
        pr.vars
            .resolve("{pr.number}")
            .unwrap_or_else(|e| panic!("{e:?}")),
        "12"
    );
    let next = pr.feed(
        next,
        PublishEvent::Executed(Err(CruiseError::StepNotFound("x".to_string()))),
    );
    assert!(matches!(next, PublishNext::End(Ok(()))));
    assert_eq!(
        pr.said.last().map(String::as_str),
        Some("warning: after-pr steps failed: step not found: x")
    );
}

#[test]
fn the_chat_interface_is_asked_first() {
    let mut pr = Pr::new(false);
    let next = pr.first(true, TEMPLATE);
    match &next {
        PublishNext::Go(PublishStage::AskApi(path)) => {
            assert_eq!(path, "/base/sessions/7/plan.md")
        }
        other => panic!("{other:?}"),
    }
    let next = pr.feed(
        next,
        PublishEvent::Described(Err(CruiseError::Other("down".to_string()))),
    );
    assert!(matches!(
        next,
        PublishNext::Go(PublishStage::AskCommand(_))
    ));
    assert_eq!(
        pr.said,
        vec!["warning: LLM API call failed, falling back to CLI: down"]
    );
    let next = pr.feed(
        next,
        PublishEvent::Prompted(Err(CruiseError::CommandError("boom".to_string()))),
    );
    assert_eq!(
        pr.said[1],
        "warning: PR description generation failed: command error: boom"
    );
    match &next {
        PublishNext::Go(PublishStage::Attempt(job, _)) => {
            assert_eq!(job.title, "");
            assert_eq!(job.commit_message, "add x");
        }
        other => panic!("{other:?}"),
    }
    let mut pr = Pr::new(false);
    let next = pr.first(true, TEMPLATE);
    let next = pr.feed(
        next,
        PublishEvent::Described(Ok(("T".to_string(), "B".to_string()))),
    );
    assert!(matches!(
        next,
        PublishNext::Go(PublishStage::Attempt(job, _)) if job.title == "T" && job.body == "B"
    ));
}

#[test]
fn nothing_to_publish_is_an_error() {
    let mut pr = Pr::new(false);
    let next = pr.first(false, "{nope}");
    assert_eq!(
        pr.said,
        vec!["warning: PR prompt resolution failed: undefined variable: {nope}"]
    );
    match pr.push(next, "0") {
        PublishNext::End(Err(e)) => assert_eq!(
            e.message(),
            "cannot create PR for cruise/7: branch has no commits beyond its base; \
             make changes and rerun `cruise run`"
        ),
        other => panic!("{other:?}"),
    }
    assert_eq!(pr.session.pr_url, None);
}

#[test]
fn a_pull_request_may_fail() {
    let mut pr = Pr::new(true);
    let next = pr.first(false, "{nope}");
    let next = pr.push(next, "1");
    let next = pr.reply(next, false, "");
    let next = pr.reply(next, false, "");
    assert!(matches!(next, PublishNext::End(Ok(()))));
    assert_eq!(
        pr.said.last().map(String::as_str),
        Some(
            "warning: PR creation failed: gh pr create failed: no; gh pr view also failed: no"
        )
    );
}

// Plans

struct Talk {
    compiled: CompiledWorkflow,
    vars: VariableStore,
    session: SessionState,
    said: Vec<String>,
}

impl Talk {
    fn new() -> Talk {
        let source = ConfigSource::Local("/repo/cruise.yaml".to_string());
        let s = new_session("7".to_string(), "/repo".to_string(), &source, " add x \n");
        Talk {
            compiled: compiled(false),
            vars: plan_variables(&manager(), &s, None),
            session: s,
            said: Vec::new(),
        }
    }

    fn feed(&mut self, stage: TalkStage, event: TalkEvent) -> TalkNext {
        let templates = TalkTemplates {
            fix: "Fix: {prev.input}".to_string(),
            ask: "Answer: {prev.input}".to_string(),
        };
        let step: TalkStep = advance_talk(
            "/plan.md",
            &self.compiled,
            &templates,
            stage,
            event,
            &mut self.vars,
            &mut self.session,
        );
        self.said.extend(step.said.iter().map(plain_text));
        step.next
    }

    fn go(&mut self, stage: TalkStage, event: TalkEvent) -> TalkStage {
        match self.feed(stage, event) {
            TalkNext::Go(next) => next,
            other => panic!("{other:?}"),
        }
    }
}

fn chosen(label: &str) -> TalkEvent {
    TalkEvent::Answered(Some(MenuAnswer::Chosen(label.to_string())))
}

fn typed(text: &str) -> TalkEvent {
    TalkEvent::Typed(Ok(InputResult::Submitted(text.to_string())))
}

fn read(text: &str) -> TalkEvent {
    TalkEvent::Read(Ok(text.to_string()))
}

fn prompted() -> TalkEvent {
    TalkEvent::Prompted(Ok(PromptResult {
        output: "done".to_string(),
        stderr: String::new(),
    }))
}

#[test]
fn a_new_session_knows_its_configuration() {
    let t = Talk::new();
    assert_eq!(t.session.input, "add x");
    assert_eq!(t.session.config_source, "config: /repo/cruise.yaml");
    assert_eq!(t.session.config_path.as_deref(), Some("/repo/cruise.yaml"));
    let s = new_session(
        "7".to_string(),
        "/repo".to_string(),
        &ConfigSource::Builtin,
        "x",
    );
    assert_eq!(s.config_path, None);
    assert_eq!(s.phase, SessionPhase::AwaitingApproval);
}

#[test]
fn a_plan_is_fixed_and_approved() {
    let mut t = Talk::new();
    let stage = t.go(TalkStage::ReadFirst, read("# Plan"));
    let stage = t.go(stage, chosen("Fix"));
    let stage = t.go(stage, typed("shorter"));
    match &stage {
        TalkStage::Fix(request) => {
            assert_eq!(request.prompt, "Fix: shorter");
            assert_eq!(request.model_arg.as_deref(), Some("large"));
        }
        other => panic!("{other:?}"),
    }
    let stage = t.go(stage, prompted());
    let stage = t.go(stage, read("# Short"));
    assert!(matches!(&stage, TalkStage::Menu(plan) if plan == "# Short"));
    let stage = t.go(stage, chosen("Ask"));
    let stage = t.go(stage, typed("why"));
    let stage = t.go(stage, prompted());
    assert!(matches!(&stage, TalkStage::Menu(plan) if plan == "# Short"));
    let stage = t.go(stage, chosen("Ask"));
    let stage = t.go(stage, TalkEvent::Typed(Ok(InputResult::Cancelled)));
    let stage = t.go(stage, TalkEvent::Answered(None));
    assert_eq!(t.session.phase, SessionPhase::Planned);
    assert!(matches!(
        t.feed(stage, TalkEvent::Saved(Ok(()))),
        TalkNext::End(Ok(()))
    ));
    assert_eq!(
        t.said,
        vec![
            "\n> [fix-plan] applying fixes...",
            "\n> [ask-plan] answering question...",
            "\n[ok] Session 7 created.\n  Run with: cruise run 7",
        ]
    );
}

#[test]
fn a_plan_is_run_at_once() {
    let mut t = Talk::new();
    let stage = t.go(TalkStage::ReadFirst, read("# Plan"));
    let stage = t.go(stage, chosen("Execute now"));
    assert_eq!(t.session.phase, SessionPhase::Planned);
    assert!(matches!(
        t.feed(stage, TalkEvent::Saved(Ok(()))),
        TalkNext::Run
    ));
    assert_eq!(t.said, vec!["\n-> Executing session 7..."]);
}

#[test]
fn a_session_without_a_plan_is_discarded() {
    let mut t = Talk::new();
    let stage = t.go(TalkStage::ReadFirst, read(" \n"));
    assert_eq!(
        t.said,
        vec!["\n[fail] Generated plan is missing or empty. Session 7 discarded."]
    );
    match t.feed(
        stage,
        TalkEvent::Deleted(Err(CruiseError::SessionError("busy".to_string()))),
    ) {
        TalkNext::End(Err(e)) => assert_eq!(e.message(), "generated plan /plan.md is empty"),
        other => panic!("{other:?}"),
    }
    assert_eq!(
        t.said[1],
        "warning: failed to clean up session: session error: busy"
    );
    let mut t = Talk::new();
    let stage = t.go(TalkStage::ReadFirst, read("# Plan"));
    let stage = t.go(stage, TalkEvent::Answered(Some(MenuAnswer::Cancelled)));
    assert!(matches!(
        t.feed(stage, TalkEvent::Deleted(Ok(()))),
        TalkNext::End(Ok(()))
    ));
    assert_eq!(t.said, vec!["\nCancelled. Session 7 discarded."]);
    assert_eq!(t.session.phase, SessionPhase::AwaitingApproval);
}

// Lists

fn list(stage: ListStage, event: ListEvent) -> (ListNext, Option<String>) {
    let ListStep { next, said } = advance_list(&manager(), stage, event);
    (next, said.as_ref().map(plain_text))
}

fn menu(phase: SessionPhase, name: &str) -> ListNext {
    let mut s = session(phase);
    s.pr_url = Some("https://github.com/o/r/pull/1".to_string());
    list(
        ListStage::Menu(s),
        ListEvent::Answered(MenuAnswer::Chosen(name.to_string())),
    )
    .0
}

#[test]
fn the_list_is_sorted_or_empty() {
    let mut a = session(SessionPhase::Planned);
    a.id = "2".to_string();
    let mut b = session(SessionPhase::Planned);
    b.id = "1".to_string();
    match list(ListStage::Load, ListEvent::Loaded(Ok(vec![a, b]))).0 {
        ListNext::Go(ListStage::Pick(all)) => {
            let ids: Vec<&str> = all.iter().map(|s| s.id.as_str()).collect();
            assert_eq!(ids, vec!["1", "2"]);
        }
        other => panic!("{other:?}"),
    }
    let (next, said) = list(ListStage::Load, ListEvent::Loaded(Ok(vec![])));
    assert!(matches!(next, ListNext::End(Ok(()))));
    assert_eq!(said.as_deref(), Some("No sessions found."));
    assert!(matches!(
        list(ListStage::Pick(vec![]), ListEvent::Picked(Ok(None))).0,
        ListNext::End(Ok(()))
    ));
}

#[test]
fn actions_of_the_list_are_done() {
    assert!(matches!(
        menu(SessionPhase::Planned, "Run"),
        ListNext::Run(id) if id == "7"
    ));
    assert!(matches!(
        menu(SessionPhase::Completed, "Open PR"),
        ListNext::Go(ListStage::OpenPr(_, url)) if url.ends_with("/1")
    ));
    assert!(matches!(
        menu(SessionPhase::Planned, "Back"),
        ListNext::Go(ListStage::Load)
    ));
    let next = menu(SessionPhase::Completed, "Reset to Planned");
    let ListNext::Go(stage) = next else {
        panic!("{next:?}")
    };
    let (next, said) = list(stage, ListEvent::Saved(Ok(())));
    assert_eq!(said.as_deref(), Some("✓ Session 7 reset to Planned."));
    assert!(matches!(
        next,
        ListNext::Go(ListStage::Menu(s)) if s.phase == SessionPhase::Planned && s.pr_url.is_none()
    ));
    let next = menu(SessionPhase::AwaitingApproval, "Approve");
    let ListNext::Go(stage) = next else {
        panic!("{next:?}")
    };
    let (next, said) = list(stage, ListEvent::Read(Ok("# Title".to_string())));
    assert_eq!(said, None);
    let ListNext::Go(stage) = next else {
        panic!("{next:?}")
    };
    let (next, said) = list(stage, ListEvent::Saved(Ok(())));
    assert_eq!(
        said.as_deref(),
        Some("✓ Session 7 approved. Run with: cruise run 7")
    );
    assert!(matches!(
        next,
        ListNext::Go(ListStage::Menu(s)) if s.title.as_deref() == Some("Title")
    ));
}

#[test]
fn sessions_of_the_list_are_changed_opened_and_deleted() {
    let s = || session(SessionPhase::Planned);
    let (next, _) = list(
        ListStage::AskChanges(s()),
        ListEvent::Typed(Ok(InputResult::Submitted("shorter".to_string()))),
    );
    assert!(matches!(
        &next,
        ListNext::Go(ListStage::Replan(_, text)) if text == "shorter"
    ));
    let (next, _) = list(
        ListStage::Replan(s(), String::new()),
        ListEvent::Replanned(Ok(())),
    );
    assert!(matches!(next, ListNext::Go(ListStage::Reload(id)) if id == "7"));
    for (opened, text) in [
        (Opened::Done, "✓ Opening PR in browser…"),
        (
            Opened::NotStarted("gone".to_string()),
            "✗ failed to run gh: gone",
        ),
        (
            Opened::Failed("exit status: 1".to_string()),
            "✗ gh pr view --web exited with exit status: 1",
        ),
    ] {
        let (_, said) = list(
            ListStage::OpenPr(s(), String::new()),
            ListEvent::Opened(opened),
        );
        assert_eq!(said.as_deref(), Some(text));
    }
    let (next, said) = list(ListStage::Delete(s()), ListEvent::Deleted(Ok(())));
    assert!(matches!(next, ListNext::Go(ListStage::Load)));
    assert_eq!(said.as_deref(), Some("✓ Session 7 deleted."));
}
