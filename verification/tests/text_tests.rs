use plumise_agent::text::{
    chars_of, decimal_string, find_in, join, matches_at, parse_u64, signed_decimal_string,
    str_contains, str_ends_with, str_eq, str_starts_with, string_of, trim,
};

fn chars(s: &str) -> Vec<char> {
    s.chars().collect()
}

#[test]
fn strings_and_characters_convert_both_ways() {
    assert_eq!(chars_of("a\u{e9}\u{4e16}"), vec!['a', '\u{e9}', '\u{4e16}']);
    assert_eq!(string_of(&['x', '\u{df}']), "x\u{df}");
    assert_eq!(chars_of(""), Vec::<char>::new());
    assert_eq!(string_of(&[]), "");
}

#[test]
fn decimal_numerals() {
    assert_eq!(decimal_string(0), "0");
    assert_eq!(decimal_string(9), "9");
    assert_eq!(decimal_string(10), "10");
    assert_eq!(decimal_string(18920), "18920");
    assert_eq!(decimal_string(u64::MAX), "18446744073709551615");
    assert_eq!(signed_decimal_string(0), "0");
    assert_eq!(signed_decimal_string(-1), "-1");
    assert_eq!(signed_decimal_string(99), "99");
    assert_eq!(signed_decimal_string(i64::MIN), "-9223372036854775808");
    assert_eq!(signed_decimal_string(i64::MAX), "9223372036854775807");
}

#[test]
fn substring_search() {
    assert!(str_contains("hello world", "o w"));
    assert!(str_contains("hello", ""));
    assert!(str_contains("", ""));
    assert!(!str_contains("", "a"));
    assert!(!str_contains("hello", "hello!"));
    assert!(str_contains("aaab", "aab"));
    assert_eq!(find_in(&chars("abcabc"), &chars("bc")), Some(1));
    assert_eq!(find_in(&chars("abcabc"), &chars("")), Some(0));
    assert_eq!(find_in(&chars("abc"), &chars("d")), None);
    assert!(matches_at(&chars("abc"), &chars("bc"), 1));
    assert!(!matches_at(&chars("abc"), &chars("bc"), 2));
    assert!(!matches_at(&chars("abc"), &chars(""), 4));
    assert!(matches_at(&chars("abc"), &chars(""), 3));
}

#[test]
fn prefixes_suffixes_and_equality() {
    assert!(str_starts_with("0xabc", "0x"));
    assert!(!str_starts_with("0", "0x"));
    assert!(str_starts_with("abc", ""));
    assert!(str_ends_with("file.dll", ".dll"));
    assert!(!str_ends_with("dll", ".dll"));
    assert!(str_ends_with("abc", ""));
    assert!(str_eq("abc", "abc"));
    assert!(!str_eq("abc", "abd"));
    assert!(!str_eq("abc", "ab"));
    assert!(str_eq("", ""));
}

#[test]
fn joining() {
    let parts: Vec<String> = vec!["a".to_string(), "".to_string(), "c".to_string()];
    assert_eq!(join(&parts, ","), "a,,c");
    assert_eq!(join(&parts[..1].to_vec(), ", "), "a");
    assert_eq!(join(&Vec::new(), ","), "");
}

#[test]
fn trimming() {
    assert_eq!(trim(&chars("  a b \t\r\n")), chars("a b"));
    assert_eq!(trim(&chars("\u{a0}\u{3000}x\u{2003}")), chars("x"));
    assert_eq!(trim(&chars("   ")), chars(""));
    assert_eq!(trim(&chars("")), chars(""));
    assert_eq!(trim(&chars("\u{200b}x")), chars("\u{200b}x"));
    for c in (0u32..0x3100).filter_map(char::from_u32) {
        let text = [c, 'x', c];
        let expected: Vec<char> = if c.is_whitespace() { vec!['x'] } else { text.to_vec() };
        assert_eq!(trim(&text), expected);
    }
}

#[test]
fn numbers_are_parsed_like_the_standard_library() {
    for text in [
        "0", "7", "007", "+5", "18446744073709551615", "18446744073709551616", "", "+", "-1",
        "1 ", " 1", "1_000", "12a", "++1", "99999999999999999999999", "\u{661}",
    ] {
        assert_eq!(parse_u64(&chars(text)), text.parse::<u64>().ok(), "{:?}", text);
    }
}
