//! Try-merge orchestration for pull requests: deduplication of concurrent
//! attempts, the branch-synthesis protocol as a state machine, and the job
//! lifecycle that it records.

mod commands;
mod model;
mod orchestrator;
mod platform;
mod registry;
mod text;
mod webhook;

pub use commands::{
    branch_name, command_prefix, CommandProcessor, BOT_MENTION_PATTERN, TRY_MERGE_PREFIX,
    TRY_PREFIX,
};
pub use model::{Config, JobStatus, PullRequest, Repository, TryMergeJob};
pub use orchestrator::{
    begin, begin_with, merge_message, Action, Phase, TryMergeRun, STATUS_DELAY_SECS,
};
pub use platform::{branch_ref, combined_state};
pub use registry::{job_key, JobRegistry};
pub use text::decimal_string;
pub use webhook::WebhookHandler;
