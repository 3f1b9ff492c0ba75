use shellmind::params::ToolParams;
use shellmind::scan::{contains_text, lines, replace_all};
use shellmind::sorting::text_le_exec;
use shellmind::text::{
    chars_of, concat2, concat3, concat4, concat5, has_char, is_space_char, join, push_decimal,
    push_signed_decimal, same_text, text_of, trim,
};

#[test]
fn trim_removes_outer_white_space() {
    assert_eq!(trim("  a b\t\n"), "a b");
    assert_eq!(trim("\u{3000}x\u{a0}"), "x");
    assert_eq!(trim("   "), "");
}

#[test]
fn lines_follow_line_feeds() {
    assert_eq!(lines("a\r\nb\n\nc\r"), vec!["a", "b", "", "c\r"]);
    assert_eq!(lines(""), Vec::<String>::new());
}

#[test]
fn replace_all_is_leftmost_and_handles_empty_pattern() {
    assert_eq!(replace_all("aaa", "aa", "b"), "ba");
    assert_eq!(replace_all("abc", "", "-"), "-a-b-c-");
    assert_eq!(replace_all("abc", "", "-"), "abc".replace("", "-"));
}

#[test]
fn contains_text_finds_substrings() {
    assert!(contains_text("src/main.rs", ".rs"));
    assert!(!contains_text("src/main.rs", ".py"));
    assert!(contains_text("x", ""));
}

#[test]
fn join_puts_separator_between() {
    assert_eq!(join(&vec!["a".to_string(), "b".to_string()], "\n"), "a\nb");
}

#[test]
fn parse_reads_object_members() {
    let p = ToolParams::parse("{\"path\": \".\", \"n\": 3, \"paths\": [\"a\", 1]}");
    assert_eq!(p.get_str("path"), Some("."));
    assert_eq!(p.get_str("n"), None);
    assert_eq!(p.get_list("paths"), Some(&vec![Some("a".to_string()), None]));
    assert!(ToolParams::parse("not json").entries.is_empty());
    assert!(ToolParams::parse("[1, 2]").entries.is_empty());
}

#[test]
fn decimal_rendering() {
    let mut out = String::from("n=");
    push_decimal(&mut out, 0);
    out.push(' ');
    push_decimal(&mut out, 7);
    out.push(' ');
    push_decimal(&mut out, 10);
    out.push(' ');
    push_decimal(&mut out, 1234567890);
    out.push(' ');
    push_decimal(&mut out, u64::MAX);
    out.push(' ');
    push_signed_decimal(&mut out, -42);
    out.push(' ');
    push_signed_decimal(&mut out, 42);
    assert_eq!(out, "n=0 7 10 1234567890 18446744073709551615 -42 42");
}

#[test]
fn string_order_is_by_characters() {
    for (a, b) in [("", ""), ("", "a"), ("a", ""), ("a", "b"), ("b", "a"), ("ab", "a"), ("a", "ab"), ("Z", "a"), ("é", "z"), ("\u{ffff}", "\u{10000}")] {
        assert_eq!(text_le_exec(a, b), a <= b, "{:?} {:?}", a, b);
    }
}

#[test]
fn characters_and_pieces() {
    assert_eq!(chars_of("aé"), vec!['a', 'é']);
    assert_eq!(text_of(&vec!['a', 'b', 'c'], 1, 3), "bc");
    assert_eq!(text_of(&vec!['a', 'b', 'c'], 2, 2), "");
    assert!(has_char("a\nb", '\n'));
    assert!(!has_char("ab", '\n'));
    assert!(same_text("ab", "ab"));
    assert!(!same_text("ab", "abc"));
    assert_eq!(concat2("a", "b"), "ab");
    assert_eq!(concat3("a", "b", "c"), "abc");
    assert_eq!(concat4("a", "b", "c", "d"), "abcd");
    assert_eq!(concat5("a", "b", "c", "d", "e"), "abcde");
    for c in ['\u{0}', ' ', '\t', '\n', '\u{b}', '\u{c}', '\r', '\u{e}', '\u{85}', '\u{a0}', '\u{1680}', '\u{180e}', '\u{2000}', '\u{200a}', '\u{200b}', '\u{2028}', '\u{2029}', '\u{202f}', '\u{205f}', '\u{3000}', 'a', '\u{feff}'] {
        assert_eq!(is_space_char(c), c.is_whitespace(), "{:?}", c);
    }
}

#[test]
fn trim_agrees_with_the_standard_library() {
    for text in ["", " ", "a", " a", "a ", "\u{a0}a b\u{2003}\n", "\u{200b}a\u{200b}", "\t\r\n x \u{3000}"] {
        assert_eq!(trim(text), text.trim(), "{:?}", text);
    }
}

#[test]
fn lines_agree_with_the_standard_library() {
    for text in ["", "\n", "a", "a\n", "a\nb", "a\r\nb\r\n", "a\r", "\r\n", "a\r\r\nb", "\n\n", "a\n\rb"] {
        let expected: Vec<String> = text.lines().map(|l| l.to_string()).collect();
        assert_eq!(lines(text), expected, "{:?}", text);
    }
}

#[test]
fn replace_all_agrees_with_the_standard_library() {
    for (text, from, to) in [("", "", "x"), ("", "a", "x"), ("abc", "", ""), ("aaaa", "aa", "a"), ("abab", "ab", "ba"), ("abc", "abcd", "x"), ("abc", "c", ""), ("ééé", "é", "e")] {
        assert_eq!(replace_all(text, from, to), text.replace(from, to), "{:?} {:?} {:?}", text, from, to);
    }
}
