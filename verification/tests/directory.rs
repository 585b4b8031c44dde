//! Tests for directory users, groups, configuration and entry parsing.

use triton::dn::DistinguishedName;
use triton::group::Group;
use triton::services::UfdsCredentials;
use triton::ufds::escape_filter_value;
use triton::ufds::parse_group_entry;
use triton::ufds::parse_timestamp;
use triton::ufds::parse_user_entry;
use triton::ufds::user_search_filter;
use triton::ufds::LdapEntry;
use triton::ufds::UfdsConfig;
use triton::user::AccountStatus;
use triton::uuid::AppUuid;
use triton::uuid::OwnerUuid;

#[test]
fn builder_overrides() {
    let creds = UfdsCredentials::new(
        "cn=admin,dc=example,dc=com".to_string(),
        "secret".to_string(),
        AppUuid::new_v4(),
    );
    let base_dn = DistinguishedName::parse("dc=example,dc=com").unwrap();
    let user_dn = DistinguishedName::parse("ou=People,dc=example,dc=com").unwrap();

    let config = UfdsConfig::new("ldaps://ufds.example.com".to_string(), creds, base_dn.clone())
        .unwrap()
        .with_user_base_dn(user_dn.clone())
        .with_group_base_dn(DistinguishedName::parse("ou=Groups,dc=example,dc=com").unwrap())
        .with_user_filter_template("(uid={login})".to_string())
        .with_connection_timeout_secs(20)
        .with_operation_timeout_secs(30)
        .with_tls_verification(false);

    assert_eq!(config.user_base_dn(), &user_dn);
    assert_eq!(config.group_base_dn().as_str(), "ou=Groups,dc=example,dc=com");
    assert_eq!(config.user_filter_template(), "(uid={login})");
    assert_eq!(config.connection_timeout_secs(), 20);
    assert_eq!(config.operation_timeout_secs(), 30);
    assert!(!config.tls_verify());
    assert_eq!(config.base_dn(), &base_dn);
}

#[test]
fn builder_creates_group() {
    let dn = DistinguishedName::parse("cn=admins,ou=Groups,dc=example,dc=com").unwrap();
    let member = DistinguishedName::parse("uid=jane,ou=People,dc=example,dc=com").unwrap();
    let group = Group::builder(dn.clone(), "admins".to_string())
        .description("Administrators".to_string())
        .add_member(member.clone())
        .build();

    assert_eq!(group.dn, dn);
    assert_eq!(group.name, "admins");
    assert_eq!(group.member_count(), 1);
    assert!(group.has_member(&member));
}

#[test]
fn account_status_helpers() {
    let status = AccountStatus::new()
        .with_admin(true)
        .with_locked(false)
        .with_password_expired(false);
    assert!(status.is_admin());
    assert!(status.is_active());
}

fn sample_entry() -> LdapEntry {
    let uuid = OwnerUuid::new_v4().to_uuid_string();
    LdapEntry {
        dn: "uid=jdoe,dc=example,dc=com".to_string(),
        attributes: vec![
            ("uuid".to_string(), vec![uuid]),
            ("login".to_string(), vec!["jdoe".to_string()]),
            ("cn".to_string(), vec!["John Doe".to_string()]),
            ("memberof".to_string(), vec!["cn=admins,dc=example,dc=com".to_string()]),
        ],
    }
}

#[test]
fn parse_user_entry_reads_the_directory_record() {
    let entry = sample_entry();
    let user = parse_user_entry(&entry).unwrap();
    assert_eq!(user.login, "jdoe");
    assert_eq!(user.cn, Some("John Doe".to_string()));
    assert_eq!(user.groups, vec!["admins"]);
    assert!(user.is_admin());
    assert!(user.is_active());
    assert_eq!(user.dn.as_str(), "uid=jdoe,dc=example,dc=com");
}

#[test]
fn parse_user_entry_requires_uuid_and_login() {
    let mut entry = sample_entry();
    entry.attributes.retain(|(k, _)| k != "uuid");
    assert!(parse_user_entry(&entry).is_err());

    let mut entry = sample_entry();
    entry.attributes.retain(|(k, _)| k != "login");
    // `uid` from the entry name is not an attribute here, so this fails too.
    assert!(parse_user_entry(&entry).is_err());
}

#[test]
fn parse_user_entry_falls_back_to_uid() {
    let mut entry = sample_entry();
    entry.attributes.retain(|(k, _)| k != "login");
    entry.attributes.push(("uid".to_string(), vec!["jdoe2".to_string()]));
    let user = parse_user_entry(&entry).unwrap();
    assert_eq!(user.login, "jdoe2");
}

#[test]
fn parse_user_entry_reads_lock_and_flags() {
    let mut entry = sample_entry();
    entry.attributes.push(("pwdAccountLockedTime".to_string(), vec!["now".to_string()]));
    entry.attributes.push(("approved_for_provisioning".to_string(), vec!["true".to_string()]));
    entry.attributes.push(("registered_developer".to_string(), vec!["1".to_string()]));
    entry.attributes.push(("triton_cns_enabled".to_string(), vec!["false".to_string()]));
    let user = parse_user_entry(&entry).unwrap();
    assert!(user.status.is_locked());
    assert!(!user.is_active());
    assert!(user.flags.approved_for_provisioning);
    assert!(user.flags.registered_developer);
    assert!(!user.flags.triton_cns_enabled);
}

#[test]
fn parse_group_entry_collects_parseable_members() {
    let entry = LdapEntry {
        dn: "cn=ops,dc=example".to_string(),
        attributes: vec![
            ("cn".to_string(), vec!["ops".to_string()]),
            ("description".to_string(), vec!["Operators".to_string()]),
            (
                "member".to_string(),
                vec![
                    "uid=a,dc=example".to_string(),
                    "not a dn".to_string(),
                    "uid=b,dc=example".to_string(),
                ],
            ),
        ],
    };
    let group = parse_group_entry(&entry).unwrap();
    assert_eq!(group.name, "ops");
    assert_eq!(group.description, Some("Operators".to_string()));
    assert_eq!(group.member_count(), 2);
}

#[test]
fn filter_escaping_neutralises_special_characters() {
    assert_eq!(escape_filter_value("a*b(c)"), "a\\2ab\\28c\\29");
    assert_eq!(escape_filter_value("plain"), "plain");
    assert_eq!(escape_filter_value("back\\slash"), "back\\5cslash");
}

#[test]
fn user_filter_substitutes_escaped_login() {
    let filter = user_search_filter("(uid={login})", "jo*e");
    assert_eq!(filter, "(uid=jo\\2ae)");

    let both = user_search_filter("(|(uid={login})(login={login}))", "x");
    assert_eq!(both, "(|(uid=x)(login=x))");
}

#[test]
fn timestamps_parse_from_rfc3339() {
    assert_eq!(parse_timestamp(Some("1970-01-01T00:00:10Z")), Some(10_000));
    assert_eq!(parse_timestamp(Some("not a date")), None);
    assert_eq!(parse_timestamp(None), None);
}
