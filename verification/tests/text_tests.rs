use fabric_atelier::text::{
    char_is_whitespace, chars_of, join_strings, span_contains, split_lines, str_eq, strip_prefix,
    trim_span,
};

fn cs(s: &str) -> Vec<char> {
    s.chars().collect()
}

#[test]
fn chars_of_gives_the_characters() {
    assert_eq!(chars_of("héllo"), vec!['h', 'é', 'l', 'l', 'o']);
    assert_eq!(chars_of(""), Vec::<char>::new());
}

fn contains(hay: &str, needle: &str) -> bool {
    let text = cs(hay);
    span_contains(&text, 0, text.len(), &cs(needle))
}

#[test]
fn span_contains_agrees_with_the_standard_library() {
    let cases = [
        ("summarize", "summar"),
        ("summarize", "ize"),
        ("summarize", ""),
        ("", ""),
        ("", "a"),
        ("abc", "abcd"),
        ("aaab", "aab"),
        ("abcabd", "abd"),
        ("héllo wörld", "o w"),
        ("héllo", "e"),
    ];
    for (hay, needle) in cases {
        assert_eq!(contains(hay, needle), hay.contains(needle), "{hay:?} {needle:?}");
    }
}

#[test]
fn span_contains_looks_only_inside_the_span() {
    let text = cs("xxabcxx");
    assert!(span_contains(&text, 2, 5, &cs("abc")));
    assert!(!span_contains(&text, 3, 5, &cs("abc")));
    assert!(!span_contains(&text, 2, 4, &cs("abc")));
    assert!(span_contains(&text, 4, 4, &cs("")));
}

#[test]
fn whitespace_agrees_with_the_standard_library() {
    let mut c = 0u32;
    while c <= 0x10FFFF {
        if let Some(ch) = char::from_u32(c) {
            assert_eq!(char_is_whitespace(ch), ch.is_whitespace(), "U+{c:04X}");
        }
        c += 1;
    }
    assert!(!char_is_whitespace('\u{FEFF}'));
    assert!(!char_is_whitespace('\u{200B}'));
}

#[test]
fn trim_span_agrees_with_the_standard_library() {
    for s in ["", "   ", " a ", "a", "\t\n a b \r\n", "\u{3000}x\u{a0}", "ab  "] {
        let text = cs(s);
        let (from, to) = trim_span(&text, 0, text.len());
        let got: String = text[from..to].iter().collect();
        assert_eq!(got, s.trim(), "{s:?}");
    }
}

#[test]
fn split_lines_agrees_with_the_standard_library() {
    for s in [
        "",
        "a",
        "a\n",
        "a\nb",
        "a\n\nb\n",
        "\n",
        "\n\n",
        "a\r\nb\r\n",
        "a\r",
        "a\rb\n",
        "\r\n",
        "a\r\r\n",
    ] {
        let text = cs(s);
        let got: Vec<String> =
            split_lines(&text).into_iter().map(|(a, b)| text[a..b].iter().collect()).collect();
        let want: Vec<String> = s.lines().map(|l| l.to_string()).collect();
        assert_eq!(got, want, "{s:?}");
    }
}

#[test]
fn strip_prefix_gives_the_rest() {
    assert_eq!(strip_prefix("fabric_summarize", "fabric_"), Some("summarize"));
    assert_eq!(strip_prefix("fabric_", "fabric_"), Some(""));
    assert_eq!(strip_prefix("not_prefixed", "fabric_"), None);
    assert_eq!(strip_prefix("fab", "fabric_"), None);
    assert_eq!(strip_prefix("é_x", "é_"), Some("x"));
}

#[test]
fn str_eq_compares_texts() {
    assert!(str_eq("tools/list", "tools/list"));
    assert!(!str_eq("tools/list", "tools/call"));
    assert!(str_eq("", ""));
}

#[test]
fn join_strings_puts_the_separator_between() {
    let parts = vec!["a".to_string(), "".to_string(), "c".to_string()];
    assert_eq!(join_strings(&parts, ", "), "a, , c");
    assert_eq!(join_strings(&vec!["only".to_string()], ", "), "only");
    assert_eq!(join_strings(&vec![], ", "), "");
}
