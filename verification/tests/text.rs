use chartex_radio::text::{
    chars_of, ends_with, first_nonblank, is_whitespace, push_text, replace_char, split_lines,
    starts_with, strip_leading, to_decimal, trim,
};

#[test]
fn chars_are_read_in_order() {
    assert_eq!(chars_of("aé✓"), vec!['a', 'é', '✓']);
    assert_eq!(chars_of(""), Vec::<char>::new());
}

#[test]
fn white_space_is_what_unicode_says() {
    for c in [' ', '\t', '\n', '\r', '\u{0B}', '\u{0C}', '\u{85}', '\u{A0}', '\u{1680}', '\u{2003}', '\u{2028}', '\u{2029}', '\u{202F}', '\u{205F}', '\u{3000}'] {
        assert!(is_whitespace(c));
        assert!(c.is_whitespace());
    }
    for c in ['a', '0', '_', '\u{200B}', '\u{08}', '\u{0E}', '\u{200C}'] {
        assert!(!is_whitespace(c));
        assert!(!c.is_whitespace());
    }
}

#[test]
fn white_space_agrees_with_std_on_every_char() {
    let mut code: u32 = 0;
    while code <= 0x10FFFF {
        if let Some(c) = char::from_u32(code) {
            assert_eq!(is_whitespace(c), c.is_whitespace());
        }
        code += 1;
    }
}

#[test]
fn prefixes_and_suffixes() {
    assert!(starts_with("https://a", "https://"));
    assert!(!starts_with("http://a", "https://"));
    assert!(starts_with("abc", ""));
    assert!(!starts_with("ab", "abc"));
    assert!(ends_with("radio.m3u8", ".m3u8"));
    assert!(!ends_with("radio.m3u8", ".m3u"));
    assert!(ends_with("x", ""));
    assert!(!ends_with("u8", ".m3u8"));
}

#[test]
fn trim_removes_white_space_at_both_ends_only() {
    assert_eq!(trim("  http://x/a b \r\n"), "http://x/a b");
    assert_eq!(trim("\u{3000}é\u{A0}"), "é");
    assert_eq!(trim("   "), "");
    assert_eq!(trim(""), "");
    assert_eq!(trim("a"), "a");
}

#[test]
fn trim_agrees_with_std() {
    for s in ["", " ", "a", " a", "a ", " a b ", "\t\ta\n", "\u{2003}x y\u{2003}\u{2003}", "\r\n"] {
        assert_eq!(trim(s), s.trim());
    }
}

#[test]
fn strip_leading_removes_every_repetition() {
    assert_eq!(strip_leading(":///a/b", ":///"), "a/b");
    assert_eq!(strip_leading(":///:///a", ":///"), "a");
    assert_eq!(strip_leading("a:///", ":///"), "a:///");
    assert_eq!(strip_leading(":///", ":///"), "");
    assert_eq!(strip_leading("abc", ""), "abc");
    assert_eq!(strip_leading(":///:///a", ":///"), ":///:///a".trim_start_matches(":///"));
}

#[test]
fn first_nonblank_skips_blank_lines() {
    assert_eq!(first_nonblank("http://a/b\nhttp://c\n"), Some(String::from("http://a/b")));
    assert_eq!(first_nonblank("\n  \r\n\thttp://a/b\r\nx"), Some(String::from("\thttp://a/b")));
    assert_eq!(first_nonblank("http://a/b"), Some(String::from("http://a/b")));
    assert_eq!(first_nonblank(""), None);
    assert_eq!(first_nonblank("\n \n\r\n"), None);
}

#[test]
fn lines_are_split_as_std_splits_them() {
    for s in ["", "a", "a\n", "a\nb", "a\r\nb\r\n", "\n", "\n\n", "a\r", "a\r\n\r", "\r\n", "a\rb\nc", "é\n✓"] {
        let expected: Vec<String> = s.lines().map(String::from).collect();
        assert_eq!(split_lines(s), expected);
    }
}

#[test]
fn lines_of_a_listing() {
    assert_eq!(split_lines("id1\nname1\nid2\nname2\n"), vec!["id1", "name1", "id2", "name2"]);
}

#[test]
fn replace_char_replaces_each_occurrence() {
    assert_eq!(replace_char("Radio One FM", ' ', "_"), "Radio_One_FM");
    assert_eq!(replace_char("  ", ' ', "_"), "__");
    assert_eq!(replace_char("none", ' ', "_"), "none");
    assert_eq!(replace_char("", ' ', "_"), "");
    assert_eq!(replace_char("a b", ' ', ""), "ab");
    assert_eq!(replace_char("é é", ' ', "--"), "é--é");
}

#[test]
fn decimal_numerals() {
    assert_eq!(to_decimal(0), "0");
    assert_eq!(to_decimal(5), "5");
    assert_eq!(to_decimal(10), "10");
    assert_eq!(to_decimal(1234567890), "1234567890");
    assert_eq!(to_decimal(u64::MAX), "18446744073709551615");
}

#[test]
fn push_text_appends_a_copy() {
    let mut list = vec![String::from("a")];
    push_text(&mut list, "b");
    assert_eq!(list, vec!["a", "b"]);
}
