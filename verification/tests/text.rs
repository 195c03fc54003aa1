use cu::text::{
    concat3, i64_to_string, remove_occurrences, parse_i64, parse_u16, remove_char, str_eq, str_lt, trimmed,
    u128_to_string,
};
use cu::third_party::{has_min_length, regex_is_match};

#[test]
fn decimal_text() {
    assert_eq!(u128_to_string(0), "0");
    assert_eq!(u128_to_string(1234567890), "1234567890");
    assert_eq!(i64_to_string(i64::MIN), i64::MIN.to_string());
    assert_eq!(i64_to_string(-7), "-7");
}

#[test]
fn parsing_integers() {
    assert_eq!(parse_i64("+12"), Some(12));
    assert_eq!(parse_i64("-9223372036854775808"), Some(i64::MIN));
    assert_eq!(parse_i64("9223372036854775808"), None);
    assert_eq!(parse_i64(""), None);
    assert_eq!(parse_i64("1_0"), None);
    assert_eq!(parse_u16("65535"), Some(65535));
    assert_eq!(parse_u16("65536"), None);
    assert_eq!(parse_u16("-1"), None);
}

#[test]
fn text_helpers() {
    assert_eq!(trimmed("  a b \n"), "a b");
    assert_eq!(remove_char("1_000_000", '_'), "1000000");
    assert!(str_eq("abc", "abc"));
    assert!(!str_eq("abc", "abd"));
    assert!(str_lt("ab", "abc"));
    assert!(str_lt("abc", "abd"));
    assert!(!str_lt("b", "abc"));
    assert_eq!(concat3("a", "b", "c"), "abc");
}

#[test]
fn outside_checks() {
    assert_eq!(regex_is_match("^[0-9]+$", "123"), Some(true));
    assert_eq!(regex_is_match("^[0-9]+$", "12a"), Some(false));
    assert_eq!(regex_is_match("(", "x"), None);
    assert!(has_min_length("é", 1));
    assert!(!has_min_length("", 1));
}

#[test]
fn removing_occurrences() {
    assert_eq!(remove_occurrences("aaa", "aa"), "a");
    assert_eq!(remove_occurrences("abcabc", "bc"), "aa");
    assert_eq!(remove_occurrences("abc", "x"), "abc");
    assert_eq!(remove_occurrences("é-é", "é"), "-");
}
