//! The conditions under which the hook gives up.

use vstd::prelude::*;

verus! {

/// A condition that ends the hook with a failure.
#[derive(Clone, Copy, Debug, PartialEq, Eq, Structural)]
pub enum HookError {
    /// The name of the current branch could not be asked for.
    BranchUnavailable,
    /// The name of the current branch came back as bytes that are not
    /// UTF-8.
    BranchNotUtf8,
    /// The task pattern is not a regular expression that can be compiled.
    InvalidPattern,
    /// The message template cannot be filled in.
    BadTemplate,
}

impl HookError {
    /// The text shown to the user for this error.
    pub open spec fn diagnostic(self) -> Seq<char> {
        match self {
            HookError::BranchUnavailable =>
                "Make sure git is installed and git repo exists. Also make sure that stage for this hook is `commit-msg`."@,
            HookError::BranchNotUtf8 => "Got non utf-8 chars from git."@,
            HookError::InvalidPattern => "Make sure task regex is correct."@,
            HookError::BadTemplate =>
                "Message template is incorrect. It must contain `subject`, `body` and `task_id` placeholders."@,
        }
    }

    /// The text to show to the user for this error.
    pub fn message(&self) -> (text: &'static str)
        ensures
            text@ == self.diagnostic(),
    {
        match self {
            HookError::BranchUnavailable =>
                "Make sure git is installed and git repo exists. Also make sure that stage for this hook is `commit-msg`.",
            HookError::BranchNotUtf8 => "Got non utf-8 chars from git.",
            HookError::InvalidPattern => "Make sure task regex is correct.",
            HookError::BadTemplate =>
                "Message template is incorrect. It must contain `subject`, `body` and `task_id` placeholders.",
        }
    }
}

} // verus!
