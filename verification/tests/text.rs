use vibe::docker::container::to_upper;
use vibe::text::{
    char_is_whitespace, chars_of, contains_chars, has_at, join_strings, labelled_number,
    last_word_of, lines_of, str_eq, string_of, string_of_range, trim_str,
};

fn chars(s: &str) -> Vec<char> {
    s.chars().collect()
}

fn text(v: &Vec<char>) -> String {
    v.iter().collect()
}

const SAMPLES: [&str; 24] = [
    "",
    " ",
    "a",
    "abc",
    "  abc  ",
    "\tabc\n",
    "a b c",
    "a\nb\nc",
    "a\nb\nc\n",
    "a\r\nb\r\n",
    "a\rb",
    "a\r",
    "\r\n",
    "\n",
    "\n\n",
    "\n\na\n\n",
    "one two\tthree  ",
    " \u{a0}x\u{2003}y\u{3000} ",
    "\u{85}\u{1680}z\u{2028}\u{2029}\u{202f}\u{205f}",
    "\u{200b}zero width\u{200b}",
    "\u{e4}\u{f6}\u{fc} \u{df}\u{1f600}",
    "HEAD branch: main",
    "x\r\r\ny",
    "tail\r\n\r",
];

#[test]
fn characters_round_trip() {
    for s in SAMPLES {
        assert_eq!(chars_of(s), chars(s));
        assert_eq!(string_of(&chars(s)), s);
        assert!(str_eq(s, &s.to_string()));
    }
    assert!(!str_eq("a", "b"));
    assert!(!str_eq("a", "ab"));
    assert_eq!(string_of_range(&chars("hello"), 1, 3), "el");
    assert_eq!(string_of_range(&chars("hello"), 2, 2), "");
}

#[test]
fn whitespace_is_what_the_standard_library_calls_whitespace() {
    for code in 0u32..0x3100 {
        if let Some(c) = char::from_u32(code) {
            assert_eq!(char_is_whitespace(c), c.is_whitespace(), "U+{:04X}", code);
        }
    }
    assert!(!char_is_whitespace('\u{feff}'));
    assert!(!char_is_whitespace('\u{1f600}'));
}

#[test]
fn trimming_agrees_with_the_standard_library() {
    for s in SAMPLES {
        assert_eq!(trim_str(s), s.trim(), "{:?}", s);
    }
}

#[test]
fn lines_agree_with_the_standard_library() {
    for s in SAMPLES {
        let ours: Vec<String> = lines_of(&chars(s)).iter().map(text).collect();
        let theirs: Vec<String> = s.lines().map(|l| l.to_string()).collect();
        assert_eq!(ours, theirs, "{:?}", s);
    }
}

#[test]
fn last_word_agrees_with_the_standard_library() {
    for s in SAMPLES {
        let ours = text(&last_word_of(&chars(s)));
        let theirs = s.split_whitespace().last().unwrap_or("").to_string();
        assert_eq!(ours, theirs, "{:?}", s);
    }
}

#[test]
fn search_agrees_with_the_standard_library() {
    let needles = ["", "a", "b", "abc", "c\n", " ", "\r\n", "main", "\u{f6}\u{fc}", "zz"];
    for s in SAMPLES {
        for n in needles {
            assert_eq!(contains_chars(&chars(s), &chars(n)), s.contains(n), "{:?} {:?}", s, n);
            assert_eq!(has_at(&chars(s), 0, &chars(n)), s.starts_with(n), "{:?} {:?}", s, n);
        }
    }
    assert!(has_at(&chars("abcd"), 2, &chars("cd")));
    assert!(!has_at(&chars("abcd"), 3, &chars("cd")));
    assert!(has_at(&chars("abcd"), 4, &chars("")));
    assert!(!has_at(&chars("abcd"), 5, &chars("")));
}

#[test]
fn numbers_are_written_in_decimal() {
    for n in [0u128, 1, 9, 10, 11, 99, 100, 101, 12345, u64::MAX as u128, u128::MAX] {
        assert_eq!(labelled_number("", n), n.to_string());
        assert_eq!(labelled_number("n=", n), format!("n={}", n));
    }
}

#[test]
fn joining_puts_the_separator_between_parts() {
    let parts = |v: &[&str]| v.iter().map(|s| s.to_string()).collect::<Vec<String>>();
    assert_eq!(join_strings(&parts(&[]), ", "), "");
    assert_eq!(join_strings(&parts(&["a"]), ", "), "a");
    assert_eq!(join_strings(&parts(&["a", "b"]), ", "), "a, b");
    assert_eq!(join_strings(&parts(&["a", "", "c"]), "-"), "a--c");
    assert_eq!(join_strings(&parts(&["", ""]), ""), "");
}

#[test]
fn upper_case_touches_ascii_letters_only() {
    for s in SAMPLES {
        assert_eq!(to_upper(s), s.to_ascii_uppercase());
    }
    assert_eq!(to_upper("az{`"), "AZ{`");
}
