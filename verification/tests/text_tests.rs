use controller::text::{join_strings, lex_le_str, str_equal, to_decimal};

#[test]
fn decimal_notation() {
    assert_eq!(to_decimal(0), "0");
    assert_eq!(to_decimal(7), "7");
    assert_eq!(to_decimal(42), "42");
    assert_eq!(to_decimal(1000), "1000");
    assert_eq!(to_decimal(u64::MAX), u64::MAX.to_string());
}

#[test]
fn joining() {
    let parts: Vec<String> = vec![];
    assert_eq!(join_strings(&parts, ", "), "");
    let parts = vec!["Kit".to_string()];
    assert_eq!(join_strings(&parts, ", "), "Kit");
    let parts = vec!["a".to_string(), "b".to_string(), "c".to_string()];
    assert_eq!(join_strings(&parts, ", "), "a, b, c");
}

#[test]
fn lexicographic_order() {
    assert!(lex_le_str("", ""));
    assert!(lex_le_str("", "a"));
    assert!(!lex_le_str("a", ""));
    assert!(lex_le_str("ab", "abc"));
    assert!(!lex_le_str("abc", "ab"));
    assert!(lex_le_str("B", "a"));
    assert!(lex_le_str("same", "same"));
    assert!(lex_le_str("z", "é"));
}

#[test]
fn equality() {
    assert!(str_equal("C_C4", "C_C4"));
    assert!(!str_equal("C_C4", "C_C"));
    assert!(!str_equal("abc", "abd"));
    assert!(str_equal("", ""));
}
