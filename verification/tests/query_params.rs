//! Tests for the query parameter builder.

use triton::query::QueryParams;

#[test]
fn push_opt_skips_none() {
    let mut params = QueryParams::new();
    params.push_opt("name", Option::<String>::None);
    assert!(params.is_empty());
}

#[test]
fn push_opt_with_applies_mapper() {
    let mut params = QueryParams::new();
    params.push_opt_with("limit", Some(5u32), |v| format!("{v:02}"));
    assert_eq!(params.into_pairs(), vec![("limit", "05".to_string())]);
}
