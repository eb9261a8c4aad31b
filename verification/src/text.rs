//! Character-level string operations: conversion, search, replacement and
//! trimming, each stated over `Seq<char>`.

use vstd::prelude::*;

verus! {

/// `pat` stands in `s` at position `i`.
pub open spec fn matches_at(s: Seq<char>, pat: Seq<char>, i: int) -> bool {
    &&& 0 <= i
    &&& i + pat.len() <= s.len()
    &&& s.subrange(i, i + pat.len()) =~= pat
}

/// `pat` stands somewhere in `s`: plain substring containment.
pub open spec fn occurs_in(s: Seq<char>, pat: Seq<char>) -> bool {
    exists|i: int| matches_at(s, pat, i)
}

/// `pat` stands in `s` at `i` and nowhere before `i`.
pub open spec fn is_first_match(s: Seq<char>, pat: Seq<char>, i: int) -> bool {
    &&& matches_at(s, pat, i)
    &&& forall|j: int| 0 <= j < i ==> !matches_at(s, pat, j)
}

/// The leftmost position at which `pat` stands in `s`, if there is one.
pub open spec fn first_match(s: Seq<char>, pat: Seq<char>) -> Option<int> {
    if exists|i: int| is_first_match(s, pat, i) {
        Some(choose|i: int| is_first_match(s, pat, i))
    } else {
        None
    }
}

/// A position that is a first match is the first match.
pub proof fn lemma_first_match_at(s: Seq<char>, pat: Seq<char>, i: int)
    requires
        is_first_match(s, pat, i),
    ensures
        first_match(s, pat) == Some(i),
{
    let k = choose|k: int| is_first_match(s, pat, k);
    assert(is_first_match(s, pat, k));
    if k < i {
        assert(!matches_at(s, pat, k));
    }
    if i < k {
        assert(!matches_at(s, pat, i));
    }
}

/// Wherever `pat` stands in `s`, it has a leftmost occurrence at or before
/// that position.
pub proof fn lemma_leftmost_exists(s: Seq<char>, pat: Seq<char>, i: int)
    requires
        matches_at(s, pat, i),
    ensures
        first_match(s, pat) is Some,
        first_match(s, pat)->Some_0 <= i,
        is_first_match(s, pat, first_match(s, pat)->Some_0),
    decreases i,
{
    if forall|j: int| 0 <= j < i ==> !matches_at(s, pat, j) {
        lemma_first_match_at(s, pat, i);
    } else {
        let j = choose|j: int| 0 <= j < i && matches_at(s, pat, j);
        lemma_leftmost_exists(s, pat, j);
    }
}

/// `first_match` is `None` exactly when `pat` does not occur in `s`, and
/// otherwise names the leftmost occurrence.
pub proof fn lemma_first_match_meaning(s: Seq<char>, pat: Seq<char>)
    ensures
        first_match(s, pat) is None <==> !occurs_in(s, pat),
        first_match(s, pat) matches Some(i) ==> is_first_match(s, pat, i),
{
    if occurs_in(s, pat) {
        let i = choose|i: int| matches_at(s, pat, i);
        lemma_leftmost_exists(s, pat, i);
    }
    if first_match(s, pat) is Some {
        let k = choose|k: int| is_first_match(s, pat, k);
        assert(matches_at(s, pat, k));
    }
}

/// The characters of `s`, in order.
pub fn to_chars(s: &str) -> (chars: Vec<char>)
    ensures
        chars@ == s@,
{
    let mut chars: Vec<char> = Vec::new();
    for c in it: s.chars()
        invariant
            chars@ == it.seq().take(it.index()),
            it.seq() == s@,
    {
        chars.push(c);
    }
    chars
}

/// Whether `pat` stands in `s` at position `i`.
pub fn starts_at(s: &Vec<char>, pat: &Vec<char>, i: usize) -> (b: bool)
    ensures
        b == matches_at(s@, pat@, i as int),
{
    if pat.len() > s.len() || i > s.len() - pat.len() {
        return false;
    }
    let mut k: usize = 0;
    while k < pat.len()
        invariant
            k <= pat.len(),
            i + pat.len() <= s.len(),
            forall|j: int| 0 <= j < k ==> s@[i + j] == pat@[j],
        decreases pat.len() - k,
    {
        if s[i + k] != pat[k] {
            assert(s@.subrange(i as int, i + pat@.len())[k as int] == s@[i + k]);
            return false;
        }
        k += 1;
    }
    assert(s@.subrange(i as int, i + pat@.len()) =~= pat@);
    true
}

/// The leftmost position at or after `start` at which `pat` stands in `s`.
pub fn find_from(s: &Vec<char>, pat: &Vec<char>, start: usize) -> (r: Option<usize>)
    ensures
        match r {
            Some(i) => {
                &&& start <= i
                &&& matches_at(s@, pat@, i as int)
                &&& forall|j: int| start <= j < i ==> !matches_at(s@, pat@, j)
            },
            None => forall|j: int| start <= j ==> !matches_at(s@, pat@, j),
        },
{
    if pat.len() > s.len() {
        return None;
    }
    let last: usize = s.len() - pat.len();
    let mut i: usize = start;
    while i <= last
        invariant
            start <= i,
            last == s.len() - pat.len(),
            forall|j: int| start <= j < i ==> !matches_at(s@, pat@, j),
        decreases last + 1 - i,
    {
        if starts_at(s, pat, i) {
            return Some(i);
        }
        i += 1;
    }
    None
}

/// The leftmost position at which `pat` stands in `s`.
pub fn find(s: &Vec<char>, pat: &Vec<char>) -> (r: Option<usize>)
    ensures
        first_match(s@, pat@) == match r {
            Some(i) => Some(i as int),
            None => None::<int>,
        },
{
    let r = find_from(s, pat, 0);
    proof {
        match r {
            Some(i) => {
                lemma_first_match_at(s@, pat@, i as int);
            },
            None => {
                assert forall|j: int| !is_first_match(s@, pat@, j) by {
                    if 0 <= j {
                        assert(!matches_at(s@, pat@, j));
                    }
                }
            },
        }
    }
    r
}

/// Whether `pat` occurs in `s` as a substring.
pub fn contains(s: &str, pat: &str) -> (b: bool)
    ensures
        b == occurs_in(s@, pat@),
{
    let chars = to_chars(s);
    let pat_chars = to_chars(pat);
    let r = find_from(&chars, &pat_chars, 0);
    proof {
        if r is None {
            assert forall|j: int| !matches_at(s@, pat@, j) by {
                if 0 <= j {
                    assert(!matches_at(chars@, pat_chars@, j));
                }
            }
        }
    }
    r.is_some()
}

/// `s` with every occurrence of `from` replaced by `to`; occurrences are
/// taken from the left and do not overlap, and what was put in is not
/// searched again. With an empty `from`, `s` itself.
pub open spec fn replace_all(s: Seq<char>, from: Seq<char>, to: Seq<char>) -> Seq<char>
    decreases s.len(),
{
    if from.len() == 0 || s.len() < from.len() {
        s
    } else if matches_at(s, from, 0) {
        to + replace_all(s.subrange(from.len() as int, s.len() as int), from, to)
    } else {
        s.subrange(0, 1) + replace_all(s.subrange(1, s.len() as int), from, to)
    }
}

/// A copy of `s` in which every occurrence of `from` has become `to`.
pub fn replace(s: &str, from: &str, to: &str) -> (r: String)
    ensures
        r@ == replace_all(s@, from@, to@),
{
    let chars = to_chars(s);
    let pat = to_chars(from);
    let n: usize = chars.len();
    let m: usize = pat.len();
    if m == 0 {
        return String::from_str(s);
    }
    let mut out = String::new();
    // chars[copied..i] is text already passed over and not yet written out
    let mut copied: usize = 0;
    let mut i: usize = 0;
    assert(s@.subrange(0, n as int) =~= s@);
    assert(out@ + s@.subrange(0, 0) =~= Seq::<char>::empty());
    assert(Seq::<char>::empty() + replace_all(s@, from@, to@) =~= replace_all(s@, from@, to@));
    while n - i >= m
        invariant
            chars@ == s@,
            pat@ == from@,
            n == chars.len(),
            m == pat.len(),
            m > 0,
            copied <= i <= n,
            out@ + s@.subrange(copied as int, i as int) + replace_all(
                s@.subrange(i as int, n as int),
                from@,
                to@,
            ) == replace_all(s@, from@, to@),
        decreases n - i,
    {
        let ghost rest = s@.subrange(i as int, n as int);
        let hit = starts_at(&chars, &pat, i);
        assert(rest.subrange(0, m as int) =~= s@.subrange(i as int, i + m));
        assert(hit == matches_at(rest, from@, 0));
        if hit {
            assert(rest.subrange(m as int, rest.len() as int) =~= s@.subrange(i + m, n as int));
            out.append(s.substring_char(copied, i));
            out.append(to);
            i += m;
            copied = i;
            assert(s@.subrange(copied as int, i as int) =~= Seq::<char>::empty());
        } else {
            assert(rest.subrange(1, rest.len() as int) =~= s@.subrange(i + 1, n as int));
            assert(s@.subrange(copied as int, i as int) + rest.subrange(0, 1) =~= s@.subrange(
                copied as int,
                i + 1,
            ));
            i += 1;
        }
    }
    assert(s@.subrange(copied as int, i as int) + s@.subrange(i as int, n as int) =~= s@.subrange(
        copied as int,
        n as int,
    ));
    out.append(s.substring_char(copied, n));
    out
}

/// Whether `c` is white space: one of the 25 characters that have the
/// Unicode property `White_Space`.
pub open spec fn is_white_space(c: char) -> bool {
    let u = c as u32;
    ||| 0x09 <= u <= 0x0D
    ||| u == 0x20
    ||| u == 0x85
    ||| u == 0xA0
    ||| u == 0x1680
    ||| 0x2000 <= u <= 0x200A
    ||| u == 0x2028
    ||| u == 0x2029
    ||| u == 0x202F
    ||| u == 0x205F
    ||| u == 0x3000
}

/// Whether `c` is white space.
pub fn is_whitespace(c: char) -> (b: bool)
    ensures
        b == is_white_space(c),
{
    let u: u32 = c as u32;
    (0x09 <= u && u <= 0x0D) || u == 0x20 || u == 0x85 || u == 0xA0 || u == 0x1680 || (0x2000 <= u
        && u <= 0x200A) || u == 0x2028 || u == 0x2029 || u == 0x202F || u == 0x205F || u == 0x3000
}

/// `s` without its leading white space.
pub open spec fn trim_start_of(s: Seq<char>) -> Seq<char>
    decreases s.len(),
{
    if s.len() > 0 && is_white_space(s[0]) {
        trim_start_of(s.subrange(1, s.len() as int))
    } else {
        s
    }
}

/// `s` without its trailing white space.
pub open spec fn trim_end_of(s: Seq<char>) -> Seq<char>
    decreases s.len(),
{
    if s.len() > 0 && is_white_space(s[s.len() - 1]) {
        trim_end_of(s.subrange(0, s.len() - 1))
    } else {
        s
    }
}

/// `s` without the white space at either end.
pub open spec fn trimmed(s: Seq<char>) -> Seq<char> {
    trim_end_of(trim_start_of(s))
}

/// If the first `a` characters of `s` are white space and the one after
/// them is not, trimming the start of `s` drops exactly those `a`.
pub proof fn lemma_trim_start(s: Seq<char>, a: int)
    requires
        0 <= a <= s.len(),
        forall|j: int| 0 <= j < a ==> is_white_space(s[j]),
        a == s.len() || !is_white_space(s[a]),
    ensures
        trim_start_of(s) == s.subrange(a, s.len() as int),
    decreases a,
{
    if a == 0 {
        assert(s.subrange(0, s.len() as int) =~= s);
    } else {
        let rest = s.subrange(1, s.len() as int);
        lemma_trim_start(rest, a - 1);
        assert(rest.subrange(a - 1, rest.len() as int) =~= s.subrange(a, s.len() as int));
    }
}

/// If everything in `s` from position `b` on is white space and the
/// character before `b` is not, trimming the end of `s` keeps exactly the
/// first `b` characters.
pub proof fn lemma_trim_end(s: Seq<char>, b: int)
    requires
        0 <= b <= s.len(),
        forall|j: int| b <= j < s.len() ==> is_white_space(s[j]),
        b == 0 || !is_white_space(s[b - 1]),
    ensures
        trim_end_of(s) == s.subrange(0, b),
    decreases s.len() - b,
{
    if b == s.len() {
        assert(s.subrange(0, s.len() as int) =~= s);
    } else {
        let rest = s.subrange(0, s.len() - 1);
        lemma_trim_end(rest, b);
        assert(rest.subrange(0, b) =~= s.subrange(0, b));
    }
}

/// The part of `s` between its leading and its trailing white space.
pub fn trim<'a>(s: &'a str) -> (r: &'a str)
    ensures
        r@ == trimmed(s@),
{
    let chars = to_chars(s);
    let n: usize = chars.len();
    let mut a: usize = 0;
    while a < n && is_whitespace(chars[a])
        invariant
            a <= n,
            n == chars.len(),
            forall|j: int| 0 <= j < a ==> is_white_space(chars@[j]),
        decreases n - a,
    {
        a += 1;
    }
    let mut b: usize = n;
    while b > a && is_whitespace(chars[b - 1])
        invariant
            a <= b <= n,
            n == chars.len(),
            forall|j: int| b <= j < n ==> is_white_space(chars@[j]),
        decreases b,
    {
        b -= 1;
    }
    proof {
        let t = s@.subrange(a as int, n as int);
        lemma_trim_start(s@, a as int);
        lemma_trim_end(t, b - a);
        assert(t.subrange(0, b - a) =~= s@.subrange(a as int, b as int));
    }
    s.substring_char(a, b)
}

} // verus!
