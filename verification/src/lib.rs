//! Commit-message hook logic: find the task identifier that a branch name
//! carries and put it into the commit message, unless it is already there.

pub mod branch;
pub mod error;
pub mod hook;
pub mod message;
pub mod template;
pub mod text;

pub use branch::{get_task_id, TaskIDError};
pub use error::HookError;
pub use hook::{
    already_present, get_current_branch, parse_args_and_run, provide_task_id_into_commit, Cli,
    Outcome,
};
pub use message::get_subject_and_body;
pub use template::format_commit_message;
