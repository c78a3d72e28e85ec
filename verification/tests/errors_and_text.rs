use axion_db::error::DbError;
use axion_db::text::{
    chars_of, decimal_string, join, signed_decimal_string, sorted_names, str_eq,
    str_eq_ignoring_case, str_has_prefix, str_le, to_lower_char,
};

#[test]
fn error_messages() {
    assert_eq!(DbError::Config("x".into()).to_string(), "Configuration error: x");
    assert_eq!(DbError::Connection("x".into()).to_string(), "SQLx connection error: x");
    assert_eq!(DbError::Introspection("x".into()).to_string(), "Introspection error: x");
    assert_eq!(DbError::QueryExecution("x".into()).to_string(), "Query execution error: x");
    assert_eq!(
        DbError::UnsupportedDbType("x".into()).to_string(),
        "Unsupported database type for this operation: x"
    );
    assert_eq!(DbError::TypeMapping("x".into()).to_string(), "Type mapping error: x");
    assert_eq!(
        DbError::FeatureNotEnabled("x".into()).to_string(),
        "Feature not enabled for database: x"
    );
    assert_eq!(DbError::Config(String::new()).to_string(), "Configuration error: ");
}

#[test]
fn error_clone_keeps_kind_and_detail() {
    let e = DbError::QueryExecution("timeout".into());
    assert!(matches!(e.clone(), DbError::QueryExecution(d) if d == "timeout"));
    let e = DbError::Introspection("gone".into());
    assert!(matches!(e.clone(), DbError::Introspection(d) if d == "gone"));
}

#[test]
fn characters_of_a_string() {
    assert_eq!(chars_of(""), Vec::<char>::new());
    assert_eq!(chars_of("aé😀"), vec!['a', 'é', '😀']);
}

#[test]
fn lower_case_folding_is_ascii_only() {
    assert_eq!(to_lower_char('A'), 'a');
    assert_eq!(to_lower_char('Z'), 'z');
    assert_eq!(to_lower_char('m'), 'm');
    assert_eq!(to_lower_char('@'), '@');
    assert_eq!(to_lower_char('['), '[');
    assert_eq!(to_lower_char('É'), 'É');
    assert_eq!(to_lower_char('\u{212a}'), '\u{212a}');
}

#[test]
fn string_equality() {
    assert!(str_eq("", ""));
    assert!(str_eq("abc", "abc"));
    assert!(!str_eq("abc", "abd"));
    assert!(!str_eq("abc", "ab"));
    assert!(!str_eq("abc", "ABC"));
    assert!(str_eq_ignoring_case("abc", "ABC"));
    assert!(str_eq_ignoring_case("YeS", "yes"));
    assert!(!str_eq_ignoring_case("yes", "yes "));
    assert!(!str_eq_ignoring_case("é", "É"));
}

#[test]
fn string_prefix() {
    assert!(str_has_prefix("pg_temp_3", "pg_temp_"));
    assert!(str_has_prefix("pg_temp_", "pg_temp_"));
    assert!(str_has_prefix("anything", ""));
    assert!(!str_has_prefix("pg_temp", "pg_temp_"));
    assert!(!str_has_prefix("xpg_temp_1", "pg_temp_"));
}

#[test]
fn decimal_numerals() {
    assert_eq!(decimal_string(0), "0");
    assert_eq!(decimal_string(7), "7");
    assert_eq!(decimal_string(10), "10");
    assert_eq!(decimal_string(5432), "5432");
    assert_eq!(decimal_string(u64::MAX), "18446744073709551615");
    assert_eq!(signed_decimal_string(0), "0");
    assert_eq!(signed_decimal_string(64), "64");
    assert_eq!(signed_decimal_string(-1), "-1");
    assert_eq!(signed_decimal_string(i64::MAX), "9223372036854775807");
    assert_eq!(signed_decimal_string(i64::MIN), "-9223372036854775808");
}

#[test]
fn joining() {
    assert_eq!(join(&vec![], ", "), "");
    assert_eq!(join(&vec!["a".to_string()], ", "), "a");
    assert_eq!(join(&vec!["a".to_string(), "b".to_string(), "c".to_string()], ", "), "a, b, c");
    assert_eq!(join(&vec![String::new(), String::new()], "-"), "-");
}

#[test]
fn dictionary_order() {
    assert!(str_le("", ""));
    assert!(str_le("", "a"));
    assert!(!str_le("a", ""));
    assert!(str_le("app", "apple"));
    assert!(!str_le("apple", "app"));
    assert!(str_le("abc", "abd"));
    assert!(!str_le("abd", "abc"));
    assert!(str_le("Z", "a"));
    assert!(str_le("same", "same"));
    assert!(str_le("z", "é"));
}

#[test]
fn dictionary_order_agrees_with_std() {
    let words = ["", "a", "B", "b", "ab", "abc", "é", "z", "😀", "public", "Public", "_x"];
    for a in words {
        for b in words {
            assert_eq!(str_le(a, b), a <= b, "{:?} {:?}", a, b);
        }
    }
}

#[test]
fn names_are_sorted_ascending() {
    let names = vec!["public", "auth", "billing", "app", "auth2", "Zeta"];
    let sorted = sorted_names(names.iter().map(|s| s.to_string()).collect());
    assert_eq!(sorted, vec!["Zeta", "app", "auth", "auth2", "billing", "public"]);
    assert_eq!(sorted_names(vec![]), Vec::<String>::new());
    let twice = sorted_names(vec!["b".to_string(), "a".to_string(), "b".to_string()]);
    assert_eq!(twice, vec!["a", "b", "b"]);
}
