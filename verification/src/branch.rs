//! Finding the task identifier in a branch name with a regular expression.

use crate::text::occurs_in;
use regex::Regex;
use vstd::prelude::*;

verus! {

/// A compiled regular expression of the `regex` crate. Nothing inside it
/// is visible to proofs.
#[verifier::external_type_specification]
#[verifier::external_body]
pub struct ExRegex(regex::Regex);

/// The error of `Regex::new`. Which of its variants came back is not
/// looked at.
#[verifier::external_type_specification]
#[verifier::external_body]
pub struct ExRegexError(regex::Error);

/// Why no task identifier came out of a branch name.
#[derive(Clone, Copy, Debug, PartialEq, Eq, Structural)]
pub enum TaskIDError {
    /// The pattern does not match the branch name at all.
    NotInBranch,
    /// The pattern matches, but the match has no capture named
    /// `task_template`.
    WrongCapturingGroup,
}

/// The name of the capture group that holds the task identifier.
pub open spec fn task_group() -> Seq<char> {
    "task_template"@
}

/// What searching `haystack` with `regex` finds for the capture group
/// `name`: `None` where the expression matches nowhere; `Some(None)` where
/// it matches but the leftmost match has no text for a group of that name;
/// `Some(Some(text))` with the text that the group matched. A compiled
/// expression carries its options with it, so the value is taken as it is:
/// the pattern's text alone would not determine the match.
pub uninterp spec fn named_capture(
    regex: Regex,
    haystack: Seq<char>,
    name: Seq<char>,
) -> Option<Option<Seq<char>>>;

/// The text that `regex` was compiled from: what `Regex::as_str` returns.
pub uninterp spec fn pattern_text(regex: Regex) -> Seq<char>;

/// What `Regex::new` makes of the text `re`: the compiled expression, or
/// `None` where it reports an error. The crate decides by the syntax and
/// by a fixed limit on the size of what it compiles, which it counts from
/// the pattern; nothing else enters.
pub uninterp spec fn compiled_pattern(re: Seq<char>) -> Option<Regex>;

/// `Regex::new` compiles `re` or reports why it cannot; either way the
/// outcome is the one that `compiled_pattern` stands for. An expression
/// that comes back keeps the text it was made from.
pub assume_specification[ Regex::new ](re: &str) -> (r: Result<Regex, regex::Error>)
    ensures
        r matches Ok(regex) ==> pattern_text(regex) == re@ && compiled_pattern(re@) == Some(regex),
        r is Err ==> compiled_pattern(re@) is None,
;

/// Runs `Regex::captures` on `haystack` and looks the group `name` up in
/// the result with `Captures::name`, copying the matched text out with
/// `Match::as_str`. The search is a function of the expression and the
/// haystack; the contract names its result. Of the result itself it says
/// one thing: the text of a group is a piece of the haystack.
#[verifier::external_body]
fn capture_named(regex: &Regex, haystack: &str, name: &str) -> (r: Option<Option<String>>)
    ensures
        r.deep_view() == named_capture(*regex, haystack@, name@),
        r matches Some(Some(text)) ==> occurs_in(haystack@, text@),
{
    match regex.captures(haystack) {
        None => None,
        Some(captures) => match captures.name(name) {
            None => Some(None),
            Some(found) => Some(Some(found.as_str().to_string())),
        },
    }
}

/// The task identifier that a capture result stands for, or the reason
/// why there is none.
pub open spec fn task_id_of(capture: Option<Option<Seq<char>>>) -> Result<Seq<char>, TaskIDError> {
    match capture {
        None => Err(TaskIDError::NotInBranch),
        Some(None) => Err(TaskIDError::WrongCapturingGroup),
        Some(Some(id)) => Ok(id),
    }
}

/// The characters of the identifier, or the error as it is.
pub open spec fn task_id_view(r: Result<String, TaskIDError>) -> Result<Seq<char>, TaskIDError> {
    match r {
        Ok(id) => Ok(id@),
        Err(e) => Err(e),
    }
}

/// Turns what a search found for the task group into the identifier,
/// taken over as it is, or into the error that says what was missing.
pub fn classify_capture(capture: Option<Option<String>>) -> (r: Result<String, TaskIDError>)
    ensures
        task_id_view(r) == task_id_of(capture.deep_view()),
{
    match capture {
        None => Err(TaskIDError::NotInBranch),
        Some(None) => Err(TaskIDError::WrongCapturingGroup),
        Some(Some(id)) => Ok(id),
    }
}

/// The task identifier in `branch_name`: the text that the group
/// `task_template` of `regex` captured in the leftmost match.
pub fn get_task_id(branch_name: &str, regex: &Regex) -> (r: Result<String, TaskIDError>)
    ensures
        task_id_view(r) == task_id_of(named_capture(*regex, branch_name@, task_group())),
        r matches Ok(id) ==> occurs_in(branch_name@, id@),
{
    classify_capture(capture_named(regex, branch_name, "task_template"))
}

} // verus!
