//! Workflow orchestration for coding agents: the decisions, the data and the texts.

pub mod cancellation;
pub mod clean_cmd;
pub mod cleanup;
pub mod cli;
pub mod clock;
pub mod condition;
pub mod config;
pub mod display;
pub mod dry_run;
pub mod duration;
pub mod edges;
pub mod engine;
pub mod error;
pub mod file_tracker;
pub mod gui;
pub mod laws;
pub mod list_cmd;
pub mod list_talk;
pub mod llm_api;
pub mod metadata;
pub mod model;
pub mod multiline_input;
pub mod names;
pub mod notices;
pub mod option_handler;
pub mod path;
pub mod plan_cmd;
pub mod plan_start;
pub mod plan_talk;
pub mod platform;
pub mod resolver;
pub mod run_cmd;
pub mod session;
pub mod span;
pub mod step;
pub mod step_run;
pub mod text;
pub mod variable;
pub mod workflow;
pub mod workspace;
