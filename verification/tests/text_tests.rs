use pigbot::text::{
    contains_sub, grapheme_count, i64_to_string, join_space, lowercase, parse_i64, split_words,
    str_eq, u64_to_string,
};

#[test]
fn renders_unsigned_decimals() {
    assert_eq!(u64_to_string(0).as_str(), "0");
    assert_eq!(u64_to_string(7).as_str(), "7");
    assert_eq!(u64_to_string(10).as_str(), "10");
    assert_eq!(u64_to_string(12345).as_str(), "12345");
    assert_eq!(u64_to_string(u64::MAX).as_str(), "18446744073709551615");
}

#[test]
fn renders_signed_decimals() {
    assert_eq!(i64_to_string(42).as_str(), "42");
    assert_eq!(i64_to_string(-1).as_str(), "-1");
    assert_eq!(i64_to_string(0).as_str(), "0");
    assert_eq!(i64_to_string(i64::MIN).as_str(), "-9223372036854775808");
    assert_eq!(i64_to_string(i64::MAX).as_str(), "9223372036854775807");
}

#[test]
fn parses_canonical_decimals() {
    assert_eq!(parse_i64("0"), Some(0));
    assert_eq!(parse_i64("123"), Some(123));
    assert_eq!(parse_i64("-1"), Some(-1));
    assert_eq!(parse_i64("9223372036854775807"), Some(i64::MAX));
    assert_eq!(parse_i64("-9223372036854775808"), Some(i64::MIN));
}

#[test]
fn rejects_non_canonical_decimals() {
    assert_eq!(parse_i64(""), None);
    assert_eq!(parse_i64("-"), None);
    assert_eq!(parse_i64("007"), None);
    assert_eq!(parse_i64("+5"), None);
    assert_eq!(parse_i64("abc"), None);
    assert_eq!(parse_i64("12 3"), None);
    assert_eq!(parse_i64("-0"), None);
    assert_eq!(parse_i64("9223372036854775808"), None);
    assert_eq!(parse_i64("-9223372036854775809"), None);
    assert_eq!(parse_i64("99999999999999999999"), None);
}

#[test]
fn parse_inverts_render() {
    let values: [i64; 7] = [0, 1, -1, 77, -4096, i64::MAX, i64::MIN];
    for v in values {
        assert_eq!(parse_i64(i64_to_string(v).as_str()), Some(v));
    }
}

#[test]
fn string_equality_is_exact() {
    assert!(str_eq("abc", "abc"));
    assert!(!str_eq("abc", "abd"));
    assert!(!str_eq("abc", "ab"));
    assert!(str_eq("", ""));
}

#[test]
fn lowercasing_folds_beyond_ascii() {
    assert_eq!(lowercase("HeLLo").as_str(), "hello");
    assert_eq!(lowercase("ХОХОЛ").as_str(), "хохол");
    assert_eq!(lowercase("").as_str(), "");
    assert_eq!(lowercase("already low 7").as_str(), "already low 7");
}

#[test]
fn verbatim_search_respects_case() {
    assert!(contains_sub("hello world", "lo wo"));
    assert!(!contains_sub("hello", "HELLO"));
    assert!(contains_sub("aaa", "aa"));
    assert!(!contains_sub("", "x"));
}

#[test]
fn splits_on_whitespace() {
    let w = split_words("  a  bb\tc ");
    assert_eq!(w.len(), 3);
    assert_eq!(w[0].as_str(), "a");
    assert_eq!(w[1].as_str(), "bb");
    assert_eq!(w[2].as_str(), "c");
    assert_eq!(split_words("").len(), 0);
    assert_eq!(split_words("   ").len(), 0);
    let one = split_words("abc");
    assert_eq!(one.len(), 1);
    assert_eq!(one[0].as_str(), "abc");
}

#[test]
fn joins_with_single_spaces() {
    let words = split_words("a  bb c");
    assert_eq!(join_space(&words).as_str(), "a bb c");
    let empty: Vec<String> = Vec::new();
    assert_eq!(join_space(&empty).as_str(), "");
}

#[test]
fn counts_user_perceived_characters() {
    assert_eq!(grapheme_count("abc"), 3);
    assert_eq!(grapheme_count(""), 0);
    // A letter followed by a combining accent is two code points but one
    // user-perceived character.
    assert_eq!(grapheme_count("e\u{0301}"), 1);
    assert_eq!(grapheme_count("ae\u{0301}b"), 3);
}
