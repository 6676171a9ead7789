use line_editor::lines::{join, split};
use line_editor::number::{parse, push_decimal};
use line_editor::text::{chars_contain, chars_of, line_contains, string_of};

fn owned(items: &[&str]) -> Vec<String> {
    items.iter().map(|s| s.to_string()).collect()
}

fn written(n: usize) -> String {
    let mut out = String::new();
    push_decimal(&mut out, n);
    out
}

#[test]
fn chars_of_keeps_every_character_in_order() {
    assert_eq!(chars_of("abc"), vec!['a', 'b', 'c']);
    assert_eq!(chars_of(""), Vec::<char>::new());
    assert_eq!(chars_of("h\u{e9}llo"), vec!['h', '\u{e9}', 'l', 'l', 'o']);
}

#[test]
fn string_of_builds_the_requested_range() {
    let v = vec!['a', 'b', 'c', 'd'];
    assert_eq!(string_of(&v, 1, 3), "bc");
    assert_eq!(string_of(&v, 0, 4), "abcd");
    assert_eq!(string_of(&v, 2, 2), "");
    assert_eq!(string_of(&v, 4, 4), "");
}

#[test]
fn string_of_counts_characters_not_bytes() {
    let v = chars_of("\u{e9}\u{4e2d}z");
    assert_eq!(string_of(&v, 1, 3), "\u{4e2d}z");
}

#[test]
fn substring_search_is_literal_and_case_sensitive() {
    assert!(line_contains("hello world", "lo w"));
    assert!(line_contains("hello", "hello"));
    assert!(line_contains("hello", "h"));
    assert!(line_contains("hello", "o"));
    assert!(!line_contains("hello", "Hello"));
    assert!(!line_contains("hello", "hello!"));
    assert!(!line_contains("a.c", "abc"));
    assert!(line_contains("a.*c", ".*"));
}

#[test]
fn empty_pattern_is_found_everywhere() {
    assert!(line_contains("abc", ""));
    assert!(line_contains("", ""));
    assert!(!line_contains("", "a"));
}

#[test]
fn substring_search_finds_a_late_match_after_false_starts() {
    assert!(line_contains("aaab", "aab"));
    assert!(line_contains("xbxabc", "abc"));
    assert!(!line_contains("ababab", "abb"));
    assert!(chars_contain(&vec!['a', 'a', 'b'], &vec!['a', 'b']));
    assert!(!chars_contain(&vec!['a'], &vec!['a', 'a']));
}

#[test]
fn split_reads_one_line_per_text_line() {
    assert_eq!(split("a\nb\nc\n"), owned(&["a", "b", "c"]));
    assert_eq!(split("a\nb\nc"), owned(&["a", "b", "c"]));
}

#[test]
fn split_of_empty_text_has_no_lines() {
    assert_eq!(split(""), Vec::<String>::new());
}

#[test]
fn split_keeps_empty_lines() {
    assert_eq!(split("\n"), owned(&[""]));
    assert_eq!(split("a\n\nb\n"), owned(&["a", "", "b"]));
    assert_eq!(split("\n\n"), owned(&["", ""]));
}

#[test]
fn split_drops_a_carriage_return_only_before_a_line_feed() {
    assert_eq!(split("a\r\nb\r\n"), owned(&["a", "b"]));
    assert_eq!(split("a\rb\n"), owned(&["a\rb"]));
    assert_eq!(split("a\r"), owned(&["a\r"]));
    assert_eq!(split("\r\n"), owned(&[""]));
    assert_eq!(split("a\r\r\n"), owned(&["a\r"]));
}

#[test]
fn split_agrees_with_the_standard_line_iterator() {
    let samples = ["", "\n", "a", "a\n", "a\r\n", "a\n\n", "x\r\ny\rz\n\r", "\r", "one\ntwo\r\n\r\nthree"];
    for text in samples {
        let expected: Vec<String> = text.lines().map(|l| l.to_string()).collect();
        assert_eq!(split(text), expected);
    }
}

#[test]
fn join_ends_every_line_with_a_line_feed() {
    assert_eq!(join(&owned(&["a", "b", "c"])), "a\nb\nc\n");
    assert_eq!(join(&owned(&[""])), "\n");
    assert_eq!(join(&Vec::new()), "");
}

#[test]
fn joined_lines_split_back_into_the_same_lines() {
    let cases = [
        owned(&["a", "b", "c"]),
        owned(&[""]),
        owned(&["", "", ""]),
        owned(&["one", "", "three"]),
        owned(&["tab\there", "car\rmid"]),
        Vec::new(),
    ];
    for lines in cases {
        assert_eq!(split(&join(&lines)), lines);
    }
}

#[test]
fn parse_reads_decimal_digits() {
    assert_eq!(parse("0"), Some(0));
    assert_eq!(parse("5"), Some(5));
    assert_eq!(parse("42"), Some(42));
    assert_eq!(parse("007"), Some(7));
    assert_eq!(parse("1234567890"), Some(1234567890));
}

#[test]
fn parse_takes_a_leading_plus_sign() {
    assert_eq!(parse("+5"), Some(5));
    assert_eq!(parse("+0"), Some(0));
    assert_eq!(parse("+"), None);
    assert_eq!(parse("++5"), None);
    assert_eq!(parse("5+"), None);
}

#[test]
fn parse_refuses_what_is_no_number() {
    assert_eq!(parse(""), None);
    assert_eq!(parse("abc"), None);
    assert_eq!(parse("-1"), None);
    assert_eq!(parse(" 5"), None);
    assert_eq!(parse("5 "), None);
    assert_eq!(parse("5\n"), None);
    assert_eq!(parse("1.5"), None);
    assert_eq!(parse("12a"), None);
    assert_eq!(parse("\u{664}"), None);
}

#[test]
fn parse_stops_at_the_largest_index() {
    let max = usize::MAX.to_string();
    assert_eq!(parse(&max), Some(usize::MAX));
    let mut beyond = max.clone();
    beyond.push('0');
    assert_eq!(parse(&beyond), None);
    let last = max.chars().last().unwrap();
    let next = char::from_digit(last.to_digit(10).unwrap() + 1, 10).unwrap();
    let mut one_more = max[..max.len() - 1].to_string();
    one_more.push(next);
    assert_eq!(parse(&one_more), None);
}

#[test]
fn parse_agrees_with_the_standard_parser() {
    let samples = ["", "+", "0", "+0", "00", "9", "10", "+10", "-0", "1_000", "99999999999999999999999", "\u{663}"];
    for text in samples {
        assert_eq!(parse(text), text.parse::<usize>().ok());
    }
}

#[test]
fn decimal_writes_without_leading_zeros() {
    assert_eq!(written(0), "0");
    assert_eq!(written(7), "7");
    assert_eq!(written(10), "10");
    assert_eq!(written(109), "109");
    assert_eq!(written(12345), "12345");
    assert_eq!(written(usize::MAX), usize::MAX.to_string());
}

#[test]
fn decimal_appends_to_what_is_there() {
    let mut out = String::from("line ");
    push_decimal(&mut out, 42);
    assert_eq!(out, "line 42");
}

#[test]
fn written_numbers_read_back() {
    for n in [0usize, 1, 9, 10, 11, 99, 100, 65535, usize::MAX - 1, usize::MAX] {
        assert_eq!(parse(&written(n)), Some(n));
    }
}
