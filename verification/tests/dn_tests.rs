//! Tests for distinguished-name parsing and manipulation.

use triton::dn::DistinguishedName;
use triton::dn::DistinguishedNameError;
use triton::dn::RelativeDistinguishedName;

#[test]
fn parse_simple_dn() {
    let dn = DistinguishedName::parse("cn=John Doe,ou=People,dc=example,dc=com").unwrap();
    assert_eq!(dn.get("cn"), Some("John Doe".to_string()));
    assert_eq!(dn.get("ou"), Some("People".to_string()));
    assert!(dn.contains("dc", "example"));
    assert_eq!(dn.as_str(), "cn=John Doe,ou=People,dc=example,dc=com");
}

#[test]
fn parse_dn_with_escape() {
    let dn = DistinguishedName::parse("cn=Smith\\, John,ou=People,dc=example,dc=com").unwrap();
    assert_eq!(dn.get("cn"), Some("Smith, John".to_string()));
    assert!(dn.as_str().starts_with("cn=Smith\\, John,ou=People"));
}

#[test]
fn parse_multi_valued_rdn() {
    let dn = DistinguishedName::parse("cn=John+uid=1234,ou=People,dc=example,dc=com").unwrap();
    assert!(dn.contains("cn", "John"));
    assert!(dn.contains("uid", "1234"));
    assert_eq!(dn.as_str(), "cn=John+uid=1234,ou=People,dc=example,dc=com");
}

#[test]
fn invalid_trailing_delimiter() {
    let err = DistinguishedName::parse("cn=John,").unwrap_err();
    assert!(matches!(err, DistinguishedNameError::InvalidComponent(_)));
}

#[test]
fn with_prefix_and_join() {
    let base = DistinguishedName::parse("ou=People,dc=example,dc=com").unwrap();
    let user_rdn = RelativeDistinguishedName::new("cn".to_string(), "Jane Doe".to_string());
    let user_dn = base.clone().with_prefix(user_rdn);
    assert_eq!(user_dn.as_str(), "cn=Jane Doe,ou=People,dc=example,dc=com");

    let full = DistinguishedName::parse("uid=1234").unwrap().join(&base);
    assert_eq!(full.as_str(), "uid=1234,ou=People,dc=example,dc=com");
}

#[test]
fn parse_rejects_empty_and_missing_parts() {
    assert!(matches!(
        DistinguishedName::parse("   ").unwrap_err(),
        DistinguishedNameError::Empty
    ));
    assert!(matches!(
        DistinguishedName::parse("cn").unwrap_err(),
        DistinguishedNameError::InvalidComponent(_)
    ));
    assert!(matches!(
        DistinguishedName::parse("=value").unwrap_err(),
        DistinguishedNameError::MissingAttribute(_)
    ));
    assert!(matches!(
        DistinguishedName::parse("cn=").unwrap_err(),
        DistinguishedNameError::MissingValue(_)
    ));
    assert!(matches!(
        DistinguishedName::parse("cn=John\\").unwrap_err(),
        DistinguishedNameError::UnterminatedEscape
    ));
}

#[test]
fn attribute_lookup_is_case_insensitive() {
    let dn = DistinguishedName::parse("CN=Jane,OU=People,dc=example").unwrap();
    assert_eq!(dn.get("cn"), Some("Jane".to_string()));
    assert!(dn.contains("ou", "people"));
    assert_eq!(dn.get("missing"), None);
}

#[test]
fn components_flatten_in_order() {
    let dn = DistinguishedName::parse("cn=John+uid=7,dc=example").unwrap();
    let all = dn.components();
    assert_eq!(all.len(), 3);
    assert_eq!(all[0].attribute(), "cn");
    assert_eq!(all[0].value(), "John");
    assert_eq!(all[1].attribute(), "uid");
    assert_eq!(all[2].attribute(), "dc");
}

#[test]
fn canonical_form_escapes_values() {
    let base = DistinguishedName::parse("dc=example").unwrap();
    let rdn = RelativeDistinguishedName::new("cn".to_string(), "a,b".to_string());
    let dn = base.with_prefix(rdn);
    assert_eq!(dn.as_str(), "cn=a\\,b,dc=example");
}
