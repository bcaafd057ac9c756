use rotator_debug::{
    chars_equal, chars_of, matches_at, parse_i64_chars, trim_end_char_chars,
    trim_start_matches_chars,
};

fn s(text: &str) -> Vec<char> {
    chars_of(text)
}

#[test]
fn chars_of_keeps_unicode() {
    assert_eq!(chars_of("a①b"), vec!['a', '①', 'b']);
    assert!(chars_of("").is_empty());
}

#[test]
fn matches_at_positions() {
    assert!(matches_at(&s("xxabc"), 2, &s("ab")));
    assert!(!matches_at(&s("xxabc"), 3, &s("ab")));
    assert!(matches_at(&s("abc"), 3, &s("")));
    assert!(!matches_at(&s("ab"), 1, &s("bc")));
}

#[test]
fn chars_equal_compares_all() {
    assert!(chars_equal(&s("abc"), &s("abc")));
    assert!(!chars_equal(&s("abc"), &s("ab")));
    assert!(!chars_equal(&s("abc"), &s("abd")));
}

#[test]
fn trimming_matches_std() {
    for (text, pat) in [("ababx", "ab"), ("x", "ab"), ("", "a"), ("aaa", "a"), ("abc", "")] {
        let got: String = trim_start_matches_chars(&s(text), &s(pat)).into_iter().collect();
        assert_eq!(got, text.trim_start_matches(pat));
    }
    for text in ["a))", ")", "", "a)b", "))a))"] {
        let got: String = trim_end_char_chars(&s(text), ')').into_iter().collect();
        assert_eq!(got, text.trim_end_matches(')'));
    }
}

#[test]
fn parsing_matches_std() {
    for text in [
        "0", "-0", "+0", "12", "+12", "-12", "", "+", "-", "1a", " 1", "1 ", "--1", "+-1",
        "9223372036854775807", "9223372036854775808", "-9223372036854775808",
        "-9223372036854775809", "0009", "1_0", "١٢",
    ] {
        assert_eq!(parse_i64_chars(&s(text)), text.parse::<i64>().ok(), "{:?}", text);
    }
}
