use pyrust_task_id::text::{
    contains, find, find_from, is_whitespace, replace, starts_at, to_chars, trim,
};

fn chars(s: &str) -> Vec<char> {
    s.chars().collect()
}

#[test]
fn to_chars_gives_each_character() {
    assert_eq!(to_chars(""), Vec::<char>::new());
    assert_eq!(to_chars("a\n✓"), vec!['a', '\n', '✓']);
    assert_eq!(to_chars("äöü").len(), 3);
}

#[test]
fn starts_at_each_position() {
    let s = chars("abcabc");
    let pat = chars("bc");
    let found: Vec<bool> = (0..8).map(|i| starts_at(&s, &pat, i)).collect();
    assert_eq!(found, vec![false, true, false, false, true, false, false, false]);
    assert!(starts_at(&s, &chars(""), 6));
    assert!(!starts_at(&s, &chars(""), 7));
    assert!(!starts_at(&chars("ab"), &chars("abc"), 0));
    assert!(!starts_at(&s, &pat, usize::MAX));
}

#[test]
fn find_leftmost_occurrence() {
    assert_eq!(find(&chars("abcabc"), &chars("bc")), Some(1));
    assert_eq!(find(&chars("abcabc"), &chars("abc")), Some(0));
    assert_eq!(find(&chars("abcabc"), &chars("cab")), Some(2));
    assert_eq!(find(&chars("abcabc"), &chars("x")), None);
    assert_eq!(find(&chars("ab"), &chars("abc")), None);
    assert_eq!(find(&chars("abc"), &chars("")), Some(0));
    assert_eq!(find(&chars(""), &chars("")), Some(0));
    assert_eq!(find(&chars(""), &chars("a")), None);
    assert_eq!(find(&chars("aaa"), &chars("aa")), Some(0));
}

#[test]
fn find_counts_characters() {
    // The byte offset of the line break is 6, its character offset 3.
    assert_eq!(find(&chars("äöü\n#"), &chars("\n#")), Some(3));
}

#[test]
fn find_from_a_later_start() {
    let s = chars("abcabc");
    assert_eq!(find_from(&s, &chars("bc"), 0), Some(1));
    assert_eq!(find_from(&s, &chars("bc"), 1), Some(1));
    assert_eq!(find_from(&s, &chars("bc"), 2), Some(4));
    assert_eq!(find_from(&s, &chars("bc"), 5), None);
    assert_eq!(find_from(&s, &chars("bc"), 100), None);
    assert_eq!(find_from(&s, &chars(""), 6), Some(6));
    assert_eq!(find_from(&s, &chars(""), 7), None);
}

#[test]
fn contains_agrees_with_std() {
    let texts = ["", "a", "abc", "ABC-123 fix", "x\n\ny", "äöü✓", "aaa"];
    let patterns = ["", "a", "bc", "ABC-123", "ABC-1234", "\n", "ö", "✓", "aaaa", "aa"];
    for text in texts {
        for pattern in patterns {
            assert_eq!(contains(text, pattern), text.contains(pattern), "{:?} {:?}", text, pattern);
        }
    }
}

#[test]
fn replace_examples() {
    assert_eq!(replace("a-b-c", "-", "+"), "a+b+c");
    assert_eq!(replace("aaaa", "aa", "a"), "aa");
    assert_eq!(replace("aaa", "aa", "b"), "ba");
    assert_eq!(replace("abc", "abc", ""), "");
    assert_eq!(replace("abc", "abcd", "x"), "abc");
    assert_eq!(replace("", "a", "b"), "");
    assert_eq!(replace("xay", "a", "aa"), "xaay");
    assert_eq!(replace("ä→ö→", "→", "->"), "ä->ö->");
}

#[test]
fn replace_with_empty_pattern_keeps_the_text() {
    assert_eq!(replace("abc", "", "x"), "abc");
    assert_eq!(replace("", "", "x"), "");
}

#[test]
fn replace_agrees_with_std() {
    let texts = ["", "\\n", "a\\nb\\n", "\\\\n", "\n\n\n\n\n\n\n\n\n", "a\n\n\n\nb\n\n\n\n\n", "nn\\"];
    let rules = [("\\n", "\n"), ("\n\n\n\n", "\n\n"), ("\n", "\n\n"), ("n", "")];
    for text in texts {
        for (from, to) in rules {
            assert_eq!(replace(text, from, to), text.replace(from, to), "{:?} {:?}", text, from);
        }
    }
}

#[test]
fn trim_examples() {
    assert_eq!(trim("  a b \n"), "a b");
    assert_eq!(trim("a"), "a");
    assert_eq!(trim(""), "");
    assert_eq!(trim(" \t\r\n"), "");
    assert_eq!(trim("\u{a0}x\u{3000}"), "x");
    assert_eq!(trim("\u{200b}x"), "\u{200b}x");
    assert_eq!(trim("Commit subject\n\nCommit body\n"), "Commit subject\n\nCommit body");
}

#[test]
fn trim_agrees_with_std() {
    for text in ["", " ", "a", " a", "a ", "\n#\n", "\u{85}ä\u{2028}\u{2029}", "\u{1680}\u{180e}\u{2000}"] {
        assert_eq!(trim(text), text.trim(), "{:?}", text);
    }
}

#[test]
fn whitespace_is_what_std_takes_for_it() {
    let mut count = 0;
    for code in 0..=0x10ffff_u32 {
        if let Some(c) = char::from_u32(code) {
            assert_eq!(is_whitespace(c), c.is_whitespace(), "U+{:04X}", code);
            if is_whitespace(c) {
                count += 1;
            }
        }
    }
    assert_eq!(count, 25);
}
