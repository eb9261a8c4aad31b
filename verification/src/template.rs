//! Filling the message template and tidying what comes out.

use crate::error::HookError;
use crate::text::{replace, replace_all};
use std::collections::HashMap;
use strfmt::FmtError;
use vstd::prelude::*;

verus! {

/// The error of the `strfmt` crate. Which of its variants came back is not
/// looked at.
#[verifier::external_type_specification]
#[verifier::external_body]
pub struct ExFmtError(strfmt::FmtError);

/// What `strfmt::strfmt` makes of `template` when each name in `vars`
/// stands for the text beside it: the filled-in text, or `None` where it
/// reports an error (braces that do not pair up, a placeholder without a
/// name or with a name that is not in `vars`, a format specification that
/// it does not take for text).
pub uninterp spec fn strfmt_text(
    template: Seq<char>,
    vars: Seq<(Seq<char>, Seq<char>)>,
) -> Option<Seq<char>>;

/// Calls `strfmt::strfmt` with `template` and a map made of `vars`, each
/// pair a name and its text. The crate looks names up in the map and never
/// walks it, so its answer depends on the template and the pairs alone; the
/// contract names that answer and states nothing else of it. A placeholder
/// may ask for a width, and the crate then pads the text to it: the call
/// needs the memory that the widths in the template ask for.
#[verifier::external_body]
fn fill_template(template: &str, vars: &Vec<(String, String)>) -> (r: Result<String, FmtError>)
    ensures
        filled_view(r) == strfmt_text(template@, vars.deep_view()),
{
    let map: HashMap<String, &str> =
        vars.iter().map(|pair| (pair.0.clone(), pair.1.as_str())).collect();
    strfmt::strfmt(template, &map)
}

/// The text that filling in gave, if it gave one.
pub open spec fn filled_view(filled: Result<String, FmtError>) -> Option<Seq<char>> {
    match filled {
        Ok(text) => Some(text@),
        Err(_) => None,
    }
}

/// The characters of a message, or the error as it is.
pub open spec fn message_view(r: Result<String, HookError>) -> Result<Seq<char>, HookError> {
    match r {
        Ok(text) => Ok(text@),
        Err(e) => Err(e),
    }
}

/// The three placeholders of a template, each with the text it stands for.
pub open spec fn placeholders(subject: Seq<char>, body: Seq<char>, task_id: Seq<char>) -> Seq<
    (Seq<char>, Seq<char>),
> {
    seq![("subject"@, subject), ("body"@, body), ("task_id"@, task_id)]
}

/// `template` with each backslash followed by `n` turned into a line
/// break.
pub open spec fn expand_newlines(template: Seq<char>) -> Seq<char> {
    replace_all(template, "\\n"@, "\n"@)
}

/// `text` with each run of four line breaks cut down to two, runs taken
/// from the left, once: five line breaks become three, eight become four.
pub open spec fn collapse_blank_lines(text: Seq<char>) -> Seq<char> {
    replace_all(text, "\n\n\n\n"@, "\n\n"@)
}

/// The message that a filled-in template becomes, or `BadTemplate` where
/// the template could not be filled in.
pub open spec fn rendered_message(filled: Option<Seq<char>>) -> Result<Seq<char>, HookError> {
    match filled {
        Some(text) => Ok(collapse_blank_lines(text)),
        None => Err(HookError::BadTemplate),
    }
}

/// A template as it is written on a command line, made ready for use: the
/// two characters `\n` become a line break.
pub fn unescape_template(template: &str) -> (r: String)
    ensures
        r@ == expand_newlines(template@),
{
    replace(template, "\\n", "\n")
}

/// Takes out the two extra line breaks that an empty body leaves between
/// the blank lines around it.
pub fn collapse(text: &str) -> (r: String)
    ensures
        r@ == collapse_blank_lines(text@),
{
    replace(text, "\n\n\n\n", "\n\n")
}

/// What becomes of the outcome of filling in: a text is tidied with
/// `collapse`, any error is `BadTemplate`.
pub fn finish_message(filled: Result<String, FmtError>) -> (r: Result<String, HookError>)
    ensures
        message_view(r) == rendered_message(filled_view(filled)),
{
    match filled {
        Ok(text) => Ok(collapse(text.as_str())),
        Err(_) => Err(HookError::BadTemplate),
    }
}

/// The commit message made from `message_template` by putting
/// `commit_subject`, `commit_body` and `task_id` in place of `{subject}`,
/// `{body}` and `{task_id}`, then tidied with `collapse`.
pub fn format_commit_message(
    message_template: &str,
    commit_subject: &str,
    commit_body: &str,
    task_id: &str,
) -> (r: Result<String, HookError>)
    ensures
        message_view(r) == rendered_message(
            strfmt_text(message_template@, placeholders(commit_subject@, commit_body@, task_id@)),
        ),
{
    let mut vars: Vec<(String, String)> = Vec::new();
    vars.push((String::from_str("subject"), String::from_str(commit_subject)));
    vars.push((String::from_str("body"), String::from_str(commit_body)));
    vars.push((String::from_str("task_id"), String::from_str(task_id)));
    assert(vars.deep_view() =~= placeholders(commit_subject@, commit_body@, task_id@));
    finish_message(fill_template(message_template, &vars))
}

} // verus!
