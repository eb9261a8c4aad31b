//! Splitting a raw commit message into subject and body.

use crate::text::{find, first_match, is_first_match, lemma_first_match_at, matches_at, occurs_in, to_chars};
use vstd::prelude::*;

verus! {

/// A line break followed by `#`: where the comment lines that an editor
/// appends to a draft begin.
pub open spec fn comment_marker() -> Seq<char> {
    "\n#"@
}

/// Two line breaks in a row: the blank line between subject and body.
pub open spec fn blank_line() -> Seq<char> {
    "\n\n"@
}

/// `s` up to the first occurrence of `pat`, or all of `s` where there is
/// none.
pub open spec fn before_first(s: Seq<char>, pat: Seq<char>) -> Seq<char> {
    match first_match(s, pat) {
        Some(i) => s.subrange(0, i),
        None => s,
    }
}

/// The message without its comment block: everything before the first
/// comment marker.
pub open spec fn without_comments(raw: Seq<char>) -> Seq<char> {
    before_first(raw, comment_marker())
}

/// Subject and body of a raw message. The comment block is dropped first.
/// The first blank line of what is left separates the subject from the
/// body; without one, the whole text is the subject and the body is empty.
pub open spec fn split_message(raw: Seq<char>) -> (Seq<char>, Seq<char>) {
    let text = without_comments(raw);
    match first_match(text, blank_line()) {
        Some(k) => (text.subrange(0, k), text.subrange(k + 2, text.len() as int)),
        None => (text, Seq::<char>::empty()),
    }
}

/// Subject and body of `commit_message`.
pub fn get_subject_and_body(commit_message: &str) -> (r: (String, String))
    ensures
        (r.0@, r.1@) == split_message(commit_message@),
{
    let chars = to_chars(commit_message);
    let marker = to_chars("\n#");
    let end: usize = match find(&chars, &marker) {
        Some(i) => i,
        None => chars.len(),
    };
    proof {
        crate::text::lemma_first_match_meaning(commit_message@, comment_marker());
        assert(commit_message@.subrange(0, commit_message@.len() as int) =~= commit_message@);
    }
    let text = commit_message.substring_char(0, end);
    assert(text@ == without_comments(commit_message@));
    let text_chars = to_chars(text);
    let separator = to_chars("\n\n");
    proof {
        reveal_strlit("\n\n");
        crate::text::lemma_first_match_meaning(text@, blank_line());
    }
    match find(&text_chars, &separator) {
        Some(k) => {
            let subject = text.substring_char(0, k);
            let body = text.substring_char(k + 2, text_chars.len());
            (String::from_str(subject), String::from_str(body))
        },
        None => (String::from_str(text), String::new()),
    }
}

/// Whatever follows the first comment marker has no part in the result:
/// a message cut off before that marker splits the same way.
pub proof fn lemma_comment_block_is_dropped(head: Seq<char>, tail: Seq<char>)
    requires
        !occurs_in(head, comment_marker()),
    ensures
        without_comments(head + comment_marker() + tail) == head,
        split_message(head + comment_marker() + tail) == split_message(head),
{
    reveal_strlit("\n#");
    let marker = comment_marker();
    let raw = head + marker + tail;
    let h = head.len() as int;
    assert(raw.subrange(h, h + 2) =~= marker);
    assert forall|j: int| 0 <= j < h implies !matches_at(raw, marker, j) by {
        if j + 2 <= h {
            assert(raw.subrange(j, j + 2) =~= head.subrange(j, j + 2));
            assert(!matches_at(head, marker, j));
        } else {
            assert(raw.subrange(j, j + 2)[1] == raw[h]);
        }
    }
    assert(is_first_match(raw, marker, h));
    lemma_first_match_at(raw, marker, h);
    assert(raw.subrange(0, h) =~= head);
    crate::text::lemma_first_match_meaning(head, marker);
}

/// Neither subject nor body holds a comment marker.
pub proof fn lemma_split_holds_no_comment(raw: Seq<char>)
    ensures
        !occurs_in(split_message(raw).0, comment_marker()),
        !occurs_in(split_message(raw).1, comment_marker()),
{
    reveal_strlit("\n#");
    reveal_strlit("\n\n");
    let marker = comment_marker();
    let text = without_comments(raw);
    crate::text::lemma_first_match_meaning(raw, marker);
    assert forall|j: int| !matches_at(text, marker, j) by {
        if matches_at(text, marker, j) {
            match first_match(raw, marker) {
                Some(i) => {
                    assert(text.subrange(j, j + 2) =~= raw.subrange(j, j + 2));
                    assert(matches_at(raw, marker, j));
                },
                None => {
                    assert(matches_at(raw, marker, j));
                },
            }
        }
    }
    let (subject, body) = split_message(raw);
    crate::text::lemma_first_match_meaning(text, blank_line());
    assert forall|j: int| !matches_at(subject, marker, j) by {
        if matches_at(subject, marker, j) {
            assert(subject.subrange(j, j + 2) =~= text.subrange(j, j + 2));
            assert(matches_at(text, marker, j));
        }
    }
    assert forall|j: int| !matches_at(body, marker, j) by {
        if matches_at(body, marker, j) {
            match first_match(text, blank_line()) {
                Some(k) => {
                    assert(body.subrange(j, j + 2) =~= text.subrange(k + 2 + j, k + 2 + j + 2));
                    assert(matches_at(text, marker, k + 2 + j));
                },
                None => {},
            }
        }
    }
}

} // verus!
