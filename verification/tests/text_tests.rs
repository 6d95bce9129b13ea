use qbot::text::{contains_sub, parse_u64_str, str_eq, str_has_prefix, u64_to_string};

#[test]
fn numbers_render_in_decimal() {
    assert_eq!(u64_to_string(0), "0");
    assert_eq!(u64_to_string(7), "7");
    assert_eq!(u64_to_string(10), "10");
    assert_eq!(u64_to_string(1234567890), "1234567890");
    assert_eq!(u64_to_string(u64::MAX), "18446744073709551615");
}

#[test]
fn decimal_parsing_follows_the_value_grammar() {
    assert_eq!(parse_u64_str("0"), Some(0));
    assert_eq!(parse_u64_str("0042"), Some(42));
    assert_eq!(parse_u64_str("+42"), Some(42));
    assert_eq!(parse_u64_str("18446744073709551615"), Some(u64::MAX));
    assert_eq!(parse_u64_str("18446744073709551616"), None);
    assert_eq!(parse_u64_str(""), None);
    assert_eq!(parse_u64_str("+"), None);
    assert_eq!(parse_u64_str("-1"), None);
    assert_eq!(parse_u64_str("1 2"), None);
    assert_eq!(parse_u64_str("12a"), None);
}

#[test]
fn parsing_matches_the_standard_library() {
    for s in ["0", "+7", "99", "", "+", "abc", "4294967296", "18446744073709551616"] {
        assert_eq!(parse_u64_str(s), s.parse::<u64>().ok(), "on {:?}", s);
    }
}

#[test]
fn rendering_round_trips_through_parsing() {
    for n in [0u64, 1, 9, 10, 1000, 123456, u64::MAX] {
        assert_eq!(parse_u64_str(&u64_to_string(n)), Some(n));
    }
}

#[test]
fn string_comparisons() {
    assert!(str_eq("", ""));
    assert!(str_eq("abc", "abc"));
    assert!(!str_eq("abc", "abd"));
    assert!(!str_eq("abc", "ab"));
    assert!(str_has_prefix("#sudo deny", "#sudo"));
    assert!(!str_has_prefix("#sud", "#sudo"));
    assert!(str_has_prefix("anything", ""));
    assert!(contains_sub("abcdef", "cde"));
    assert!(contains_sub("abcdef", ""));
    assert!(!contains_sub("abcdef", "cdf"));
    assert!(!contains_sub("ab", "abc"));
}
