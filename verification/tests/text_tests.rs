//! Tests for the shared text utilities.

use triton::text::bool_to_string;
use triton::text::eq_ignore_ascii_case;
use triton::text::sorted_dedup;
use triton::text::str_lt;
use triton::text::to_ascii_lowercase_str;
use triton::text::u64_to_string;

#[test]
fn decimal_formatting_matches_expected_text() {
    assert_eq!(u64_to_string(0), "0");
    assert_eq!(u64_to_string(7), "7");
    assert_eq!(u64_to_string(105), "105");
    assert_eq!(u64_to_string(18_446_744_073_709_551_615), "18446744073709551615");
}

#[test]
fn boolean_formatting() {
    assert_eq!(bool_to_string(true), "true");
    assert_eq!(bool_to_string(false), "false");
}

#[test]
fn ascii_lowercasing_folds_only_ascii() {
    assert_eq!(to_ascii_lowercase_str("VMAPI"), "vmapi");
    assert_eq!(to_ascii_lowercase_str("MiXeD-42"), "mixed-42");
    assert!(eq_ignore_ascii_case("Admins", "aDmInS"));
    assert!(!eq_ignore_ascii_case("admins", "operators"));
}

#[test]
fn string_ordering_is_lexicographic() {
    assert!(str_lt("abc", "abd"));
    assert!(str_lt("ab", "abc"));
    assert!(!str_lt("abc", "abc"));
    assert!(!str_lt("b", "abc"));
}

#[test]
fn sorted_dedup_sorts_and_removes_duplicates() {
    let items = vec![
        "pear".to_string(),
        "apple".to_string(),
        "pear".to_string(),
        "banana".to_string(),
    ];
    let out = sorted_dedup(&items);
    assert_eq!(out, vec!["apple".to_string(), "banana".to_string(), "pear".to_string()]);
}
