use open_eyes::text::{
    concat2, contains_char, ends_with, escape_sql, i64_to_decimal, is_white_space_char,
    join_strings, starts_with, str_equal, trim_str, u64_to_decimal, TrimSet,
};

#[test]
fn trims_unicode_whitespace() {
    assert_eq!(trim_str("  \t hello \n", TrimSet::Whitespace), "hello");
    assert_eq!(trim_str("\u{3000}x\u{A0}", TrimSet::Whitespace), "x");
    assert_eq!(trim_str("   ", TrimSet::Whitespace), "");
    assert_eq!(trim_str("''a''", TrimSet::Only('\'')), "a");
    assert_eq!(trim_str("a'b", TrimSet::Only('\'')), "a'b");
    for c in [' ', '\t', '\n', '\r', '\u{85}', '\u{2000}', '\u{2028}', '\u{3000}'] {
        assert!(is_white_space_char(c));
        assert_eq!(is_white_space_char(c), c.is_whitespace());
    }
    for c in ['a', '_', '\u{200B}', '0'] {
        assert!(!is_white_space_char(c));
        assert_eq!(is_white_space_char(c), c.is_whitespace());
    }
}

#[test]
fn escapes_quotes_for_sql() {
    assert_eq!(escape_sql("O'Brien"), "O''Brien");
    assert_eq!(escape_sql("''"), "''''");
    assert_eq!(escape_sql("plain"), "plain");
    assert_eq!(escape_sql(""), "");
}

#[test]
fn writes_decimals() {
    assert_eq!(u64_to_decimal(0), "0");
    assert_eq!(u64_to_decimal(1234567890), "1234567890");
    assert_eq!(u64_to_decimal(u64::MAX), u64::MAX.to_string());
    assert_eq!(i64_to_decimal(-42), "-42");
    assert_eq!(i64_to_decimal(i64::MIN), i64::MIN.to_string());
    assert_eq!(i64_to_decimal(7), "7");
}

#[test]
fn compares_and_joins() {
    assert!(starts_with("data_x", "data_"));
    assert!(!starts_with("dat", "data_"));
    assert!(ends_with("abc```", "```"));
    assert!(!ends_with("ab", "abc"));
    assert!(contains_char("a;b", ';'));
    assert!(!contains_char("ab", ';'));
    assert!(str_equal("äb", "äb"));
    assert!(!str_equal("ab", "abc"));
    assert_eq!(concat2("ab", "cd"), "abcd");
    let v = vec!["a".to_string(), "b".to_string(), "c".to_string()];
    assert_eq!(join_strings(&v, ", "), "a, b, c");
    assert_eq!(join_strings(&Vec::new(), ", "), "");
}
