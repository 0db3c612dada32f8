//! Running sessions: pull requests, states on disk and summaries.

pub mod pr_text;
pub mod publish;
pub mod pull_request;
pub mod run_all;
pub mod session_run;
pub mod single_run;
