use sntry::cli::commands::issues::list::comma_list;
use sntry::text::{
    ends_with, owned, pad_left, pad_right, parse_u64, repeat_char, rsplit_once, slice_chars, split_on,
    starts_with, text_eq, u64_to_string,
};

#[test]
fn decimal_numerals_read_back() {
    for n in [0u64, 7, 10, 99, 100, 12345, u64::MAX - 1, u64::MAX] {
        let text = u64_to_string(n);
        assert_eq!(text, n.to_string());
        assert_eq!(parse_u64(&text), Some(n));
    }
}

#[test]
fn parse_u64_agrees_with_std() {
    for s in ["", "+", "+0", "0", "00012", "-0", "1_000", "12a", "٣", "18446744073709551615", "18446744073709551616", "99999999999999999999"] {
        assert_eq!(parse_u64(s), s.parse::<u64>().ok(), "input {s:?}");
    }
}

#[test]
fn split_and_join_back() {
    for (s, sep) in [("a,b,,c", ','), ("", ','), (",", ','), ("no-sep", ','), ("x;y ;z", ';')] {
        let parts = split_on(s, sep);
        let expected: Vec<String> = s.split(sep).map(String::from).collect();
        assert_eq!(parts, expected);
        assert_eq!(parts.join(&sep.to_string()), s);
    }
}

#[test]
fn rsplit_once_at_last_occurrence() {
    assert_eq!(rsplit_once("a-b-c", '-'), Some(("a-b".to_string(), "c".to_string())));
    assert_eq!(rsplit_once("abc", '-'), None);
    assert_eq!(rsplit_once("-", '-'), Some((String::new(), String::new())));
}

#[test]
fn padding_like_format() {
    assert_eq!(pad_right("ab", 5), format!("{:<5}", "ab"));
    assert_eq!(pad_left("ab", 5), format!("{:>5}", "ab"));
    assert_eq!(pad_right("toolong", 3), "toolong");
    assert_eq!(pad_left("é", 3), format!("{:>3}", "é"));
    assert_eq!(repeat_char('=', 4), "====");
}

#[test]
fn prefixes_suffixes_and_slices() {
    assert!(starts_with("https://linear.app/x", "https://linear.app/"));
    assert!(!starts_with("http", "https"));
    assert!(ends_with("crash.dmp", ".dmp"));
    assert!(!ends_with("dmp", ".dmp"));
    assert_eq!(slice_chars("héllo", 1, 4), "éll");
    assert!(text_eq("same", "same"));
    assert!(!text_eq("same", "Same"));
    assert_eq!(owned("x"), "x");
}

/// The White_Space characters that the library's trimming strips.
fn white_space(c: char) -> bool {
    let n = c as u32;
    (0x9..=0xd).contains(&n)
        || n == 0x20
        || n == 0x85
        || n == 0xa0
        || n == 0x1680
        || (0x2000..=0x200a).contains(&n)
        || n == 0x2028
        || n == 0x2029
        || n == 0x202f
        || n == 0x205f
        || n == 0x3000
}

#[test]
fn white_space_list_is_std_whitespace() {
    for c in (0u32..=0x10ffff).filter_map(char::from_u32) {
        assert_eq!(white_space(c), c.is_whitespace(), "U+{:04X}", c as u32);
    }
}

#[test]
fn comma_list_trims_unicode_whitespace() {
    assert_eq!(comma_list("\u{3000}a\u{a0}, \tb\u{2028}"), vec!["a", "b"]);
    assert_eq!(comma_list("\u{200b}x"), vec!["\u{200b}x"]);
}
