//! The hook as a whole: from what the command line, git and the message
//! file gave, to what is to be done with the message.

use crate::branch::{
    compiled_pattern, get_task_id, named_capture, task_group, task_id_of, TaskIDError,
};
use crate::error::HookError;
use crate::message::{blank_line, get_subject_and_body, split_message, without_comments};
use crate::template::{
    expand_newlines, format_commit_message, placeholders, rendered_message, strfmt_text,
    unescape_template,
};
use crate::text::{contains, first_match, matches_at, occurs_in, trim, trimmed};
use regex::Regex;
use vstd::prelude::*;
use vstd::utf8::{decode_utf8, valid_utf8};

verus! {

/// The arguments of the hook, in the order in which the command line
/// gives them.
#[derive(Debug, PartialEq, Eq)]
pub struct Cli {
    /// The regular expression that finds the task identifier in a branch
    /// name, in its capture group `task_template`.
    pub task_regex: String,
    /// The template of the new message, with `\n` written out as two
    /// characters.
    pub commit_message_template: String,
    /// The path of the file that holds the commit message.
    pub commit_message_file: String,
}

/// What the hook decided.
#[derive(Debug, PartialEq, Eq)]
pub enum Outcome {
    /// The branch name carries no task identifier: the message stays.
    NotInBranch,
    /// The pattern matched but has no usable group `task_template`: the
    /// user is warned and the message stays.
    MissingNamedGroup,
    /// The message already holds the identifier: it stays.
    AlreadyPresent,
    /// The message file is to be overwritten with this text.
    Rewrite(String),
}

/// An `Outcome` with its text as a sequence of characters.
pub enum OutcomeView {
    NotInBranch,
    MissingNamedGroup,
    AlreadyPresent,
    Rewrite(Seq<char>),
}

impl View for Outcome {
    type V = OutcomeView;

    open spec fn view(&self) -> OutcomeView {
        match self {
            Outcome::NotInBranch => OutcomeView::NotInBranch,
            Outcome::MissingNamedGroup => OutcomeView::MissingNamedGroup,
            Outcome::AlreadyPresent => OutcomeView::AlreadyPresent,
            Outcome::Rewrite(text) => OutcomeView::Rewrite(text@),
        }
    }
}

impl Outcome {
    /// The warning that goes with this outcome, if one does.
    pub fn warning(&self) -> (text: Option<&'static str>)
        ensures
            text is Some <==> self@ is MissingNamedGroup,
            text matches Some(t) ==> t@
                == "Make sure you included capturing group with name `task_template`."@,
    {
        match self {
            Outcome::MissingNamedGroup => Some(
                "Make sure you included capturing group with name `task_template`.",
            ),
            _ => None,
        }
    }
}

/// The view of what the hook returns.
pub open spec fn result_view(r: Result<Outcome, HookError>) -> Result<OutcomeView, HookError> {
    match r {
        Ok(outcome) => Ok(outcome@),
        Err(e) => Err(e),
    }
}

/// The identifier stands in the subject or in the body, as a plain
/// substring.
pub open spec fn already_present_in(subject: Seq<char>, body: Seq<char>, task_id: Seq<char>) -> bool {
    occurs_in(subject, task_id) || occurs_in(body, task_id)
}

/// Whether `task_id` already stands in `subject` or in `body`.
pub fn already_present(subject: &str, body: &str, task_id: &str) -> (present: bool)
    ensures
        present == already_present_in(subject@, body@, task_id@),
{
    contains(subject, task_id) || contains(body, task_id)
}

/// What the hook does with `message`, the contents of the message file,
/// given what the search in the branch name found for the task group and
/// given the template with its line breaks in place. The message is
/// trimmed and split. Without an identifier, or with one that the subject
/// or the body already holds, the message stays; otherwise the template is
/// filled in.
pub open spec fn hook_outcome(
    capture: Option<Option<Seq<char>>>,
    template: Seq<char>,
    message: Seq<char>,
) -> Result<OutcomeView, HookError> {
    let (subject, body) = split_message(trimmed(message));
    match task_id_of(capture) {
        Err(TaskIDError::NotInBranch) => Ok(OutcomeView::NotInBranch),
        Err(TaskIDError::WrongCapturingGroup) => Ok(OutcomeView::MissingNamedGroup),
        Ok(task_id) => if already_present_in(subject, body, task_id) {
            Ok(OutcomeView::AlreadyPresent)
        } else {
            match rendered_message(strfmt_text(template, placeholders(subject, body, task_id))) {
                Ok(text) => Ok(OutcomeView::Rewrite(text)),
                Err(e) => Err(e),
            }
        },
    }
}

/// The hook with its pattern compiled and its template made ready.
pub fn provide_task_id_with_pattern(
    task_regex: &Regex,
    template: &str,
    commit_message: &str,
    branch_name: &str,
) -> (r: Result<Outcome, HookError>)
    ensures
        result_view(r) == hook_outcome(
            named_capture(*task_regex, branch_name@, task_group()),
            template@,
            commit_message@,
        ),
{
    let commit_message = trim(commit_message);
    let (commit_subject, commit_body) = get_subject_and_body(commit_message);
    let task_id = match get_task_id(branch_name, task_regex) {
        Ok(val) => val,
        Err(TaskIDError::WrongCapturingGroup) => {
            return Ok(Outcome::MissingNamedGroup);
        },
        // A branch without an identifier is nothing unusual: it may be
        // `develop` or `main`.
        Err(TaskIDError::NotInBranch) => {
            return Ok(Outcome::NotInBranch);
        },
    };
    if already_present(commit_subject.as_str(), commit_body.as_str(), task_id.as_str()) {
        return Ok(Outcome::AlreadyPresent);
    }
    match format_commit_message(
        template,
        commit_subject.as_str(),
        commit_body.as_str(),
        task_id.as_str(),
    ) {
        Ok(updated_commit_message) => Ok(Outcome::Rewrite(updated_commit_message)),
        Err(e) => Err(e),
    }
}

/// What the hook does for a pattern given as text: `InvalidPattern` where
/// the text does not compile, else what `hook_outcome` says for the
/// compiled expression and the template with its line breaks put in.
pub open spec fn hook_result(
    task_regex_raw: Seq<char>,
    commit_message_template: Seq<char>,
    commit_message: Seq<char>,
    branch_name: Seq<char>,
) -> Result<OutcomeView, HookError> {
    match compiled_pattern(task_regex_raw) {
        None => Err(HookError::InvalidPattern),
        Some(regex) => hook_outcome(
            named_capture(regex, branch_name, task_group()),
            expand_newlines(commit_message_template),
            commit_message,
        ),
    }
}

/// The hook, from the pattern and the template as the command line gives
/// them, the contents of the message file and the name of the branch.
pub fn provide_task_id_into_commit(
    task_regex_raw: &str,
    commit_message_template: &str,
    commit_message: &str,
    branch_name: &str,
) -> (r: Result<Outcome, HookError>)
    ensures
        result_view(r) == hook_result(
            task_regex_raw@,
            commit_message_template@,
            commit_message@,
            branch_name@,
        ),
{
    let template = unescape_template(commit_message_template);
    let task_regex = match Regex::new(task_regex_raw) {
        Ok(val) => val,
        Err(_) => {
            return Err(HookError::InvalidPattern);
        },
    };
    provide_task_id_with_pattern(&task_regex, template.as_str(), commit_message, branch_name)
}

/// An identifier without a line break that stands in a message before its
/// comment block stands in the subject or in the body: the blank line that
/// parts the two cannot cut through it.
pub proof fn lemma_identifier_survives_split(raw: Seq<char>, task_id: Seq<char>)
    requires
        occurs_in(without_comments(raw), task_id),
        !task_id.contains('\n'),
    ensures
        already_present_in(split_message(raw).0, split_message(raw).1, task_id),
{
    reveal_strlit("\n\n");
    let text = without_comments(raw);
    let (subject, body) = split_message(raw);
    let p = choose|p: int| matches_at(text, task_id, p);
    let len = task_id.len() as int;
    crate::text::lemma_first_match_meaning(text, blank_line());
    match first_match(text, blank_line()) {
        None => {
            assert(matches_at(subject, task_id, p));
        },
        Some(k) => {
            assert(text.subrange(k, k + 2)[0] == '\n');
            assert(text.subrange(k, k + 2)[1] == '\n');
            if len == 0 {
                assert(subject.subrange(0, 0) =~= task_id);
                assert(matches_at(subject, task_id, 0));
            } else if p + len <= k {
                assert(subject.subrange(p, p + len) =~= text.subrange(p, p + len));
                assert(matches_at(subject, task_id, p));
            } else if p >= k + 2 {
                assert(body.subrange(p - k - 2, p - k - 2 + len) =~= text.subrange(p, p + len));
                assert(matches_at(body, task_id, p - k - 2));
            } else {
                let q = if p <= k {
                    k
                } else {
                    k + 1
                };
                assert(text.subrange(p, p + len)[q - p] == text[q]);
                assert(task_id[q - p] == '\n');
                assert(task_id.contains('\n'));
            }
        },
    }
}

/// Running the hook a second time, on the message that the first run
/// wrote and with the same pattern and branch, leaves that message as it
/// is, provided that the identifier stands in the subject or the body of
/// what was written.
pub proof fn lemma_second_run_changes_nothing(
    regex: Regex,
    branch_name: Seq<char>,
    template: Seq<char>,
    message: Seq<char>,
    rewritten: Seq<char>,
)
    requires
        hook_outcome(named_capture(regex, branch_name, task_group()), template, message) == Ok::<
            OutcomeView,
            HookError,
        >(OutcomeView::Rewrite(rewritten)),
        already_present_in(
            split_message(trimmed(rewritten)).0,
            split_message(trimmed(rewritten)).1,
            task_id_of(named_capture(regex, branch_name, task_group()))->Ok_0,
        ),
    ensures
        hook_outcome(named_capture(regex, branch_name, task_group()), template, rewritten) == Ok::<
            OutcomeView,
            HookError,
        >(OutcomeView::AlreadyPresent),
{
}

/// The second run leaves the message as it is wherever the identifier has
/// no line break in it and can be read in what the first run wrote: in
/// the trimmed text, before any comment block.
pub proof fn lemma_second_run_finds_identifier(
    regex: Regex,
    branch_name: Seq<char>,
    template: Seq<char>,
    message: Seq<char>,
    rewritten: Seq<char>,
)
    requires
        hook_outcome(named_capture(regex, branch_name, task_group()), template, message) == Ok::<
            OutcomeView,
            HookError,
        >(OutcomeView::Rewrite(rewritten)),
        !task_id_of(named_capture(regex, branch_name, task_group()))->Ok_0.contains('\n'),
        occurs_in(
            without_comments(trimmed(rewritten)),
            task_id_of(named_capture(regex, branch_name, task_group()))->Ok_0,
        ),
    ensures
        hook_outcome(named_capture(regex, branch_name, task_group()), template, rewritten) == Ok::<
            OutcomeView,
            HookError,
        >(OutcomeView::AlreadyPresent),
{
    let task_id = task_id_of(named_capture(regex, branch_name, task_group()))->Ok_0;
    lemma_identifier_survives_split(trimmed(rewritten), task_id);
}

/// The same for the hook as it is called, with its pattern as text: a
/// second run on what the first run wrote, with the same pattern, template
/// and branch, leaves the message as it is, provided that the identifier
/// stands in the subject or the body of what was written.
pub proof fn lemma_second_hook_run_changes_nothing(
    task_regex_raw: Seq<char>,
    commit_message_template: Seq<char>,
    commit_message: Seq<char>,
    branch_name: Seq<char>,
    rewritten: Seq<char>,
)
    requires
        hook_result(task_regex_raw, commit_message_template, commit_message, branch_name) == Ok::<
            OutcomeView,
            HookError,
        >(OutcomeView::Rewrite(rewritten)),
        already_present_in(
            split_message(trimmed(rewritten)).0,
            split_message(trimmed(rewritten)).1,
            task_id_of(
                named_capture(compiled_pattern(task_regex_raw)->Some_0, branch_name, task_group()),
            )->Ok_0,
        ),
    ensures
        hook_result(task_regex_raw, commit_message_template, rewritten, branch_name) == Ok::<
            OutcomeView,
            HookError,
        >(OutcomeView::AlreadyPresent),
{
}

/// Decodes `bytes` as UTF-8 with `String::from_utf8`: the text that the
/// bytes encode, or `None` where they are not UTF-8.
#[verifier::external_body]
fn text_of_utf8(bytes: Vec<u8>) -> (r: Option<String>)
    ensures
        r is Some <==> valid_utf8(bytes@),
        r matches Some(text) ==> text@ == decode_utf8(bytes@),
{
    match String::from_utf8(bytes) {
        Ok(text) => Some(text),
        Err(_) => None,
    }
}

/// The branch name that git's answer stands for: the output decoded and
/// trimmed. `None` stands for a git that could not be run.
pub open spec fn branch_name_of(git_output: Option<Seq<u8>>) -> Result<Seq<char>, HookError> {
    match git_output {
        None => Err(HookError::BranchUnavailable),
        Some(bytes) => if valid_utf8(bytes) {
            Ok(trimmed(decode_utf8(bytes)))
        } else {
            Err(HookError::BranchNotUtf8)
        },
    }
}

/// The view of a git answer.
pub open spec fn output_view(git_output: Option<Vec<u8>>) -> Option<Seq<u8>> {
    match git_output {
        Some(bytes) => Some(bytes@),
        None => None,
    }
}

/// The name of the current branch, from what `git branch --show-current`
/// wrote to its standard output; `None` where git could not be run.
pub fn get_current_branch(git_output: Option<Vec<u8>>) -> (r: Result<String, HookError>)
    ensures
        crate::template::message_view(r) == branch_name_of(output_view(git_output)),
{
    let output = match git_output {
        Some(val) => val,
        None => {
            return Err(HookError::BranchUnavailable);
        },
    };
    let output_text = match text_of_utf8(output) {
        Some(val) => val,
        None => {
            return Err(HookError::BranchNotUtf8);
        },
    };
    Ok(String::from_str(trim(output_text.as_str())))
}

/// The whole hook: the branch name is taken from git's answer, then the
/// hook runs with the pattern and the template of `args` on
/// `commit_message`, the contents of the message file.
pub fn parse_args_and_run(args: &Cli, git_output: Option<Vec<u8>>, commit_message: &str) -> (r:
    Result<Outcome, HookError>)
    ensures
        result_view(r) == match branch_name_of(output_view(git_output)) {
            Err(e) => Err::<OutcomeView, HookError>(e),
            Ok(branch_name) => hook_result(
                args.task_regex@,
                args.commit_message_template@,
                commit_message@,
                branch_name,
            ),
        },
{
    let branch_name = match get_current_branch(git_output) {
        Ok(val) => val,
        Err(e) => {
            return Err(e);
        },
    };
    provide_task_id_into_commit(
        args.task_regex.as_str(),
        args.commit_message_template.as_str(),
        commit_message,
        branch_name.as_str(),
    )
}

} // verus!
