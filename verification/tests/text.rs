use nutt_web::text::{
    chars_of, find, find_in, has_prefix, is_whitespace, matches_at, push_all, push_str, rfind_in,
    same_chars, split_at_char, split_lines, split_tokens, string_of, trimmed, trimmed_start,
    CharClass,
};

fn strings(parts: Vec<&[char]>) -> Vec<String> {
    parts.into_iter().map(|p| p.iter().collect::<String>()).collect()
}

#[test]
fn whitespace_is_what_std_calls_whitespace() {
    let mut code: u32 = 0;
    while code <= 0x10ffff {
        if let Some(c) = char::from_u32(code) {
            assert_eq!(is_whitespace(c), c.is_whitespace(), "U+{:04X}", code);
        }
        code += 1;
    }
}

#[test]
fn chars_and_strings_convert_both_ways() {
    let chars = chars_of("a\u{e9}\u{1f600}z");
    assert_eq!(chars, vec!['a', '\u{e9}', '\u{1f600}', 'z']);
    assert_eq!(string_of(&chars), "a\u{e9}\u{1f600}z");
    assert_eq!(string_of(&[]), "");
    assert_eq!(chars_of(""), Vec::<char>::new());
}

#[test]
fn find_in_gives_the_first_index_or_the_length() {
    let s = chars_of("ab cd e");
    assert_eq!(find_in(&s, CharClass::Space, 0), 2);
    assert_eq!(find_in(&s, CharClass::Space, 3), 5);
    assert_eq!(find_in(&s, CharClass::Space, 6), 7);
    assert_eq!(find_in(&s, CharClass::Visible, 2), 3);
    assert_eq!(find_in(&s, CharClass::Exactly('e'), 0), 6);
    assert_eq!(find_in(&s, CharClass::Exactly('x'), 0), 7);
    assert_eq!(find_in(&s, CharClass::Exactly('a'), 7), 7);
    assert_eq!(find_in(&s, CharClass::Exactly('a'), 8), 7);
    assert_eq!(find_in(&s, CharClass::Exactly('a'), usize::MAX), 7);
}

#[test]
fn rfind_in_gives_the_end_behind_the_last_match() {
    let s = chars_of("ab cd  ");
    assert_eq!(rfind_in(&s, CharClass::Visible, 7), 5);
    assert_eq!(rfind_in(&s, CharClass::Visible, 3), 2);
    assert_eq!(rfind_in(&s, CharClass::Exactly('x'), 7), 0);
    assert_eq!(rfind_in(&s, CharClass::Visible, 0), 0);
    assert_eq!(rfind_in(&s, CharClass::Visible, 8), 5);
    assert_eq!(rfind_in(&s, CharClass::Space, usize::MAX), 7);
}

#[test]
fn trimming_agrees_with_std() {
    for s in ["", " ", "  a  ", "a", "\t a b \r\n", "\u{a0}x\u{3000}", "   ", "x  y"] {
        assert_eq!(string_of(trimmed(&chars_of(s))), s.trim(), "{:?}", s);
        assert_eq!(string_of(trimmed_start(&chars_of(s))), s.trim_start(), "{:?}", s);
    }
}

#[test]
fn lines_agree_with_std() {
    for s in [
        "",
        "a",
        "a\n",
        "a\r\n",
        "a\r",
        "a\r\n\r\nb",
        "\n",
        "\r\n",
        "\n\n",
        "a\nb\r\nc\r",
        "a\r\r\n",
        "one\ntwo\n\nthree",
    ] {
        let expected: Vec<String> = s.lines().map(|l| l.to_string()).collect();
        assert_eq!(strings(split_lines(&chars_of(s))), expected, "{:?}", s);
    }
}

#[test]
fn tokens_agree_with_std() {
    for s in ["", "   ", "GET / HTTP/1.1", "  a\t\tb  ", "a", "a\u{2003}b\nc", " x"] {
        let expected: Vec<String> = s.split_whitespace().map(|l| l.to_string()).collect();
        assert_eq!(strings(split_tokens(&chars_of(s))), expected, "{:?}", s);
    }
}

#[test]
fn split_agrees_with_std() {
    for s in ["", ";", "a", "a;b", "a;;b", ";a;", "a=1; b=2", "a;b;"] {
        let expected: Vec<String> = s.split(';').map(|l| l.to_string()).collect();
        assert_eq!(strings(split_at_char(&chars_of(s), ';')), expected, "{:?}", s);
    }
}

#[test]
fn find_agrees_with_std_on_ascii() {
    let cases = [
        ("hello world", "o", 0),
        ("hello world", "o", 5),
        ("hello world", "world", 0),
        ("hello world", "worlds", 0),
        ("hello", "", 0),
        ("hello", "", 5),
        ("", "a", 0),
        ("aaa", "aa", 1),
        ("aaa", "aa", 2),
        ("abc", "abc", 0),
        ("abc", "abcd", 0),
        ("abc", "c", 3),
        ("abc", "c", 9),
    ];
    for (s, pat, from) in cases {
        let expected = if from <= s.len() { s[from..].find(pat).map(|i| i + from) } else { None };
        assert_eq!(find(&chars_of(s), &chars_of(pat), from), expected, "{:?} {:?} {}", s, pat, from);
    }
}

#[test]
fn matching_at_an_index() {
    let s = chars_of("Cookie: a=1");
    assert!(has_prefix(&s, &chars_of("Cookie: ")));
    assert!(!has_prefix(&s, &chars_of("cookie: ")));
    assert!(has_prefix(&s, &chars_of("")));
    assert!(!has_prefix(&chars_of("Cook"), &chars_of("Cookie: ")));
    assert!(matches_at(&s, &chars_of("a=1"), 8));
    assert!(!matches_at(&s, &chars_of("a=1"), 9));
    assert!(matches_at(&s, &chars_of(""), 11));
    assert!(!matches_at(&s, &chars_of(""), 12));
    assert!(!matches_at(&s, &chars_of("a"), usize::MAX));
}

#[test]
fn comparing_slices() {
    assert!(same_chars(&chars_of("abc"), &chars_of("abc")));
    assert!(!same_chars(&chars_of("abc"), &chars_of("abd")));
    assert!(!same_chars(&chars_of("abc"), &chars_of("ab")));
    assert!(!same_chars(&chars_of("ab"), &chars_of("abc")));
    assert!(same_chars(&[], &[]));
}

#[test]
fn appending_to_a_buffer() {
    let mut out = chars_of("ab");
    push_all(&mut out, &chars_of("cd"));
    push_str(&mut out, "\u{e9}f");
    push_all(&mut out, &[]);
    assert_eq!(string_of(&out), "abcd\u{e9}f");
}

#[test]
fn char_classes() {
    assert!(CharClass::Exactly('=').has('='));
    assert!(!CharClass::Exactly('=').has(';'));
    assert!(CharClass::Space.has('\n'));
    assert!(!CharClass::Space.has('n'));
    assert!(CharClass::Visible.has('n'));
    assert!(!CharClass::Visible.has(' '));
}
