//! Directory-service (UFDS) configuration, entry model, and the pure
//! parsing rules of the LDAP client.
//!
//! The network side of the client — connecting, binding, searching,
//! modifying — happens outside this crate; everything it decides about the
//! entries it reads and the filters it sends is here.

use vstd::prelude::*;

use crate::config::parse_url_ok;
use crate::config::url_ok;
use crate::dn::dn_parse_spec;
use crate::dn::find_attr;
use crate::dn::flat_rdns;
use crate::dn::groups_views;
use crate::dn::DistinguishedName;
use crate::error::Error;
use crate::kv::find_first;
use crate::kv::first_entry;
use crate::sapi::opt_seq;
use crate::services::UfdsCredentials;
use crate::text::eq_ignore_ascii_case;
use crate::text::lower_chars;
use crate::text::str_views;
use crate::user::AccountStatus;
use crate::user::User;
use crate::user::UserFlags;
use crate::uuid::parse_uuid_spec;
use crate::uuid::OwnerUuid;

verus! {

/// Default connection timeout, in seconds.
pub const DEFAULT_CONNECTION_TIMEOUT_SECS: u64 = 10;

/// Default operation timeout, in seconds.
pub const DEFAULT_OPERATION_TIMEOUT_SECS: u64 = 10;

/// Configuration for connecting to the directory service.
#[derive(Debug)]
pub struct UfdsConfig {
    /// The directory endpoint URL.
    pub url: String,
    /// Admin credentials.
    pub credentials: UfdsCredentials,
    /// The base distinguished name.
    pub base_dn: DistinguishedName,
    /// The user search base distinguished name.
    pub user_base_dn: DistinguishedName,
    /// The group search base distinguished name, when it differs from the
    /// base.
    pub group_base_dn: Option<DistinguishedName>,
    /// The filter template used for user lookups; `{login}` is replaced by
    /// the escaped login.
    pub user_filter_template: String,
    /// Whether TLS certificate verification is enabled.
    pub tls_verify: bool,
    /// Optional custom CA certificate path.
    pub tls_ca_cert: Option<String>,
    /// Connection timeout, in seconds.
    pub connection_timeout_secs: u64,
    /// Operation timeout, in seconds.
    pub operation_timeout_secs: u64,
}

impl UfdsConfig {
    /// Creates a new directory configuration.  Fails with
    /// [`Error::InvalidEndpoint`] when the URL is not well-formed.
    pub fn new(url: String, credentials: UfdsCredentials, base_dn: DistinguishedName) -> (r:
        Result<Self, Error>)
        ensures
            match r {
                Ok(config) => {
                    &&& url_ok(url@)
                    &&& config.url == url
                    &&& config.base_dn.raw@ == base_dn.raw@
                    &&& config.user_base_dn.raw@ == base_dn.raw@
                    &&& config.group_base_dn is None
                    &&& config.user_filter_template@
                        == "(&(objectClass=person)(|(uid={login})(login={login})))"@
                    &&& config.tls_verify
                    &&& config.tls_ca_cert is None
                    &&& config.connection_timeout_secs == DEFAULT_CONNECTION_TIMEOUT_SECS
                    &&& config.operation_timeout_secs == DEFAULT_OPERATION_TIMEOUT_SECS
                },
                Err(e) => !url_ok(url@) && e is InvalidEndpoint,
            },
    {
        if !parse_url_ok(url.as_str()) {
            return Err(Error::InvalidEndpoint("invalid UFDS URL".to_owned()));
        }
        let user_base_dn = base_dn.clone();
        Ok(
            Self {
                url,
                credentials,
                user_base_dn,
                base_dn,
                group_base_dn: None,
                user_filter_template:
                    "(&(objectClass=person)(|(uid={login})(login={login})))".to_owned(),
                tls_verify: true,
                tls_ca_cert: None,
                connection_timeout_secs: DEFAULT_CONNECTION_TIMEOUT_SECS,
                operation_timeout_secs: DEFAULT_OPERATION_TIMEOUT_SECS,
            },
        )
    }

    /// Returns the directory endpoint URL.
    pub fn url(&self) -> (r: &str)
        ensures
            r@ == self.url@,
    {
        self.url.as_str()
    }

    /// Returns the admin credentials.
    pub fn credentials(&self) -> (r: &UfdsCredentials)
        ensures
            r == &self.credentials,
    {
        &self.credentials
    }

    /// Returns the base distinguished name.
    pub fn base_dn(&self) -> (r: &DistinguishedName)
        ensures
            r == &self.base_dn,
    {
        &self.base_dn
    }

    /// Returns the user search base distinguished name.
    pub fn user_base_dn(&self) -> (r: &DistinguishedName)
        ensures
            r == &self.user_base_dn,
    {
        &self.user_base_dn
    }

    /// Returns the group search base distinguished name (the base itself
    /// when no separate group base is set).
    pub fn group_base_dn(&self) -> (r: &DistinguishedName)
        ensures
            match self.group_base_dn {
                Some(ref dn) => r == dn,
                None => r == &self.base_dn,
            },
    {
        match &self.group_base_dn {
            Some(dn) => dn,
            None => &self.base_dn,
        }
    }

    /// Returns the connection timeout, in seconds.
    pub fn connection_timeout_secs(&self) -> (r: u64)
        ensures
            r == self.connection_timeout_secs,
    {
        self.connection_timeout_secs
    }

    /// Returns the operation timeout, in seconds.
    pub fn operation_timeout_secs(&self) -> (r: u64)
        ensures
            r == self.operation_timeout_secs,
    {
        self.operation_timeout_secs
    }

    /// Returns the filter template used for user lookups.
    pub fn user_filter_template(&self) -> (r: &str)
        ensures
            r@ == self.user_filter_template@,
    {
        self.user_filter_template.as_str()
    }

    /// Returns whether TLS certificate verification is enabled.
    pub fn tls_verify(&self) -> (r: bool)
        ensures
            r == self.tls_verify,
    {
        self.tls_verify
    }

    /// Optional custom CA certificate path.
    pub fn tls_ca_cert(&self) -> (r: Option<&String>)
        ensures
            match self.tls_ca_cert {
                Some(ref path) => r == Some(path),
                None => r is None,
            },
    {
        self.tls_ca_cert.as_ref()
    }

    /// Overrides the user search base distinguished name.
    pub fn with_user_base_dn(self, dn: DistinguishedName) -> (r: Self)
        ensures
            r == (Self { user_base_dn: dn, ..self }),
    {
        Self { user_base_dn: dn, ..self }
    }

    /// Overrides the group search base distinguished name.
    pub fn with_group_base_dn(self, dn: DistinguishedName) -> (r: Self)
        ensures
            r == (Self { group_base_dn: Some(dn), ..self }),
    {
        Self { group_base_dn: Some(dn), ..self }
    }

    /// Overrides the user lookup filter template; the template should
    /// contain `{login}` where the user login will be substituted.
    pub fn with_user_filter_template(self, template: String) -> (r: Self)
        ensures
            r == (Self { user_filter_template: template, ..self }),
    {
        Self { user_filter_template: template, ..self }
    }

    /// Enables or disables TLS certificate verification.
    pub fn with_tls_verification(self, verify: bool) -> (r: Self)
        ensures
            r == (Self { tls_verify: verify, ..self }),
    {
        Self { tls_verify: verify, ..self }
    }

    /// Sets the custom CA certificate path for TLS verification.
    pub fn with_tls_ca_cert(self, path: String) -> (r: Self)
        ensures
            r == (Self { tls_ca_cert: Some(path), ..self }),
    {
        Self { tls_ca_cert: Some(path), ..self }
    }

    /// Overrides the connection timeout in seconds.
    pub fn with_connection_timeout_secs(self, seconds: u64) -> (r: Self)
        ensures
            r == (Self { connection_timeout_secs: seconds, ..self }),
    {
        Self { connection_timeout_secs: seconds, ..self }
    }

    /// Overrides the operation timeout in seconds.
    pub fn with_operation_timeout_secs(self, seconds: u64) -> (r: Self)
        ensures
            r == (Self { operation_timeout_secs: seconds, ..self }),
    {
        Self { operation_timeout_secs: seconds, ..self }
    }
}

/// Represents the search scope for LDAP queries.
#[derive(Debug, Clone, Copy, PartialEq, Eq, Structural)]
pub enum SearchScope {
    /// Base object only.
    Base,
    /// One level below the base.
    OneLevel,
    /// Entire subtree.
    Subtree,
}

/// LDAP modification request.
#[derive(Debug, PartialEq)]
pub enum DirectoryModification {
    /// Add attribute values.
    Add {
        /// Attribute to modify.
        attribute: String,
        /// Values to add.
        values: Vec<String>,
    },
    /// Delete attribute values.
    Delete {
        /// Attribute to modify.
        attribute: String,
        /// Values to delete (empty removes the attribute).
        values: Vec<String>,
    },
    /// Replace attribute values.
    Replace {
        /// Attribute to modify.
        attribute: String,
        /// Replacement values.
        values: Vec<String>,
    },
}

/// LDAP entry representation used by the directory client: the entry's
/// distinguished name text, and its attributes with their values in server
/// order.
#[derive(Debug)]
pub struct LdapEntry {
    /// Distinguished name of the entry.
    pub dn: String,
    /// Attribute names and their values.
    pub attributes: Vec<(String, Vec<String>)>,
}

/// The first value stored under an attribute, if any.
pub open spec fn attr_first(attrs: Seq<(String, Vec<String>)>, k: Seq<char>) -> Option<Seq<char>> {
    match first_entry(attrs, k) {
        Some(vals) => if vals@.len() > 0 {
            Some(vals@[0]@)
        } else {
            None
        },
        None => None,
    }
}

/// Whether an attribute reads as boolean truth: its first value is `true`
/// (any ASCII case) or `1`.
pub open spec fn attr_bool(attrs: Seq<(String, Vec<String>)>, k: Seq<char>) -> bool {
    match attr_first(attrs, k) {
        Some(v) => lower_chars(v) == lower_chars("true"@) || v == "1"@,
        None => false,
    }
}

impl LdapEntry {
    /// Returns the first value of the attribute if present.
    pub fn first(&self, attribute: &str) -> (r: Option<&str>)
        ensures
            match r {
                Some(v) => attr_first(self.attributes@, attribute@) == Some(v@),
                None => attr_first(self.attributes@, attribute@) is None,
            },
    {
        let found = find_first(&self.attributes, attribute);
        match found {
            Some(vals) => {
                if vals.len() > 0 {
                    Some(vals[0].as_str())
                } else {
                    None
                }
            },
            None => None,
        }
    }

    /// Returns all values stored under the attribute.
    pub fn values(&self, attribute: &str) -> (r: Option<&Vec<String>>)
        ensures
            match r {
                Some(vals) => first_entry(self.attributes@, attribute@) == Some(*vals),
                None => first_entry(self.attributes@, attribute@) is None,
            },
    {
        find_first(&self.attributes, attribute)
    }

    /// Parses the attribute as boolean (`true` or `1`).
    pub fn bool_value(&self, attribute: &str) -> (r: bool)
        ensures
            r == attr_bool(self.attributes@, attribute@),
    {
        let found = self.first(attribute);
        match found {
            Some(value) => eq_ignore_ascii_case(value, "true") || crate::text::str_eq(value, "1"),
            None => false,
        }
    }
}

/// The LDAP-filter escape of one character: `*`, `(`, `)`, `\` and NUL
/// become their hexadecimal escape; everything else stays.
pub open spec fn filter_esc_char(c: char) -> Seq<char> {
    if c == '*' {
        seq!['\\', '2', 'a']
    } else if c == '(' {
        seq!['\\', '2', '8']
    } else if c == ')' {
        seq!['\\', '2', '9']
    } else if c == '\\' {
        seq!['\\', '5', 'c']
    } else if c == '\u{0}' {
        seq!['\\', '0', '0']
    } else {
        seq![c]
    }
}

/// The LDAP-filter escape of a string.
pub open spec fn filter_escaped(s: Seq<char>) -> Seq<char>
    decreases s.len(),
{
    if s.len() == 0 {
        Seq::empty()
    } else {
        filter_esc_char(s[0]) + filter_escaped(s.drop_first())
    }
}

/// Escape a value for inclusion in an LDAP search filter.
pub fn escape_filter_value(value: &str) -> (r: String)
    ensures
        r@ == filter_escaped(value@),
{
    let n = value.unicode_len();
    let mut out = String::new();
    let mut i: usize = 0;
    proof {
        assert(value@.skip(0) =~= value@);
    }
    while i < n
        invariant
            n == value@.len(),
            i <= n,
            out@ + filter_escaped(value@.skip(i as int)) == filter_escaped(value@),
        decreases n - i,
    {
        let c = value.get_char(i);
        proof {
            assert(value@.skip(i as int)[0] == value@[i as int]);
            assert(value@.skip(i as int).drop_first() =~= value@.skip(i + 1));
        }
        if c == '*' {
            out.push('\\');
            out.push('2');
            out.push('a');
        } else if c == '(' {
            out.push('\\');
            out.push('2');
            out.push('8');
        } else if c == ')' {
            out.push('\\');
            out.push('2');
            out.push('9');
        } else if c == '\\' {
            out.push('\\');
            out.push('5');
            out.push('c');
        } else if c == '\u{0}' {
            out.push('\\');
            out.push('0');
            out.push('0');
        } else {
            out.push(c);
        }
        proof {
            assert(out@ + filter_escaped(value@.skip(i + 1)) =~= filter_escaped(value@));
        }
        i = i + 1;
    }
    proof {
        assert(filter_escaped(value@.skip(n as int)) =~= Seq::<char>::empty());
        assert(out@ + Seq::<char>::empty() =~= out@);
    }
    out
}

/// The text `{login}` that the filter template replaces.
pub open spec fn login_pattern() -> Seq<char> {
    seq!['{', 'l', 'o', 'g', 'i', 'n', '}']
}

/// The template with every occurrence of `{login}` replaced, scanning left
/// to right.
pub open spec fn replace_login(t: Seq<char>, rep: Seq<char>) -> Seq<char>
    decreases t.len(),
{
    if t.len() >= 7 && t.take(7) == login_pattern() {
        rep + replace_login(t.skip(7), rep)
    } else if t.len() == 0 {
        Seq::empty()
    } else {
        seq![t[0]] + replace_login(t.drop_first(), rep)
    }
}

/// Build the user lookup filter: the template with `{login}` replaced by
/// the filter-escaped login.
pub fn user_search_filter(template: &str, login: &str) -> (r: String)
    ensures
        r@ == replace_login(template@, filter_escaped(login@)),
{
    let escaped = escape_filter_value(login);
    let ghost rep = filter_escaped(login@);
    let n = template.unicode_len();
    let mut out = String::new();
    let mut i: usize = 0;
    proof {
        assert(template@.skip(0) =~= template@);
    }
    while i < n
        invariant
            n == template@.len(),
            i <= n,
            rep == filter_escaped(login@),
            escaped@ == rep,
            out@ + replace_login(template@.skip(i as int), rep) == replace_login(template@, rep),
        decreases n - i,
    {
        let matched = if n - i >= 7 {
            let piece = template.substring_char(i, i + 7);
            proof {
                reveal_strlit("{login}");
                assert("{login}"@ =~= login_pattern());
            }
            crate::text::str_eq(piece, "{login}")
        } else {
            false
        };
        proof {
            let tail = template@.skip(i as int);
            if i + 7 <= n {
                assert(tail.take(7) =~= template@.subrange(i as int, i + 7));
            } else {
                assert(tail.len() < 7);
            }
        }
        if matched {
            out.append(escaped.as_str());
            proof {
                assert(template@.skip(i as int).skip(7) =~= template@.skip(i + 7));
                assert(out@ + replace_login(template@.skip(i + 7), rep) =~= replace_login(
                    template@,
                    rep,
                ));
            }
            i = i + 7;
        } else {
            let c = template.get_char(i);
            out.push(c);
            proof {
                assert(template@.skip(i as int)[0] == template@[i as int]);
                assert(template@.skip(i as int).drop_first() =~= template@.skip(i + 1));
                assert(out@ + replace_login(template@.skip(i + 1), rep) =~= replace_login(
                    template@,
                    rep,
                ));
            }
            i = i + 1;
        }
    }
    proof {
        assert(template@.skip(n as int).len() == 0);
        assert(out@ + Seq::<char>::empty() =~= out@);
    }
    out
}

/// Whether a group name is one of the administrator groups, ASCII
/// case-insensitively.
pub fn matches_admin_group(group: &str) -> (r: bool)
    ensures
        r == (lower_chars(group@) == lower_chars("admins"@) || lower_chars(group@)
            == lower_chars("operators"@)),
{
    eq_ignore_ascii_case(group, "admins") || eq_ignore_ascii_case(group, "operators")
}

/// The error for a directory entry that lacks a required attribute.
pub fn missing_attribute(attribute: &str) -> (r: Error)
    ensures
        r matches Error::InvalidRequest(m) && m@ == "UFDS entry missing attribute `"@ + attribute@
            + "`"@,
{
    let mut msg = "UFDS entry missing attribute `".to_owned();
    msg.append(attribute);
    msg.append("`");
    Error::InvalidRequest(msg)
}

/// What `chrono`'s RFC 3339 parser makes of a timestamp text: its instant
/// in milliseconds since the Unix epoch, or nothing for malformed text.
pub uninterp spec fn rfc3339_epoch_ms(s: Seq<char>) -> Option<i64>;

/// Relies on `chrono::DateTime::parse_from_rfc3339` (and
/// `timestamp_millis`): parses an RFC 3339 timestamp to milliseconds since
/// the Unix epoch.  The result is a function of the text alone.
#[verifier::external_body]
fn rfc3339_to_epoch_ms(s: &str) -> (r: Option<i64>)
    ensures
        r == rfc3339_epoch_ms(s@),
{
    match chrono::DateTime::parse_from_rfc3339(s) {
        Ok(stamp) => Some(stamp.with_timezone(&chrono::Utc).timestamp_millis()),
        Err(_) => None,
    }
}

/// The timestamp a text denotes, when one is given and parseable.
pub open spec fn timestamp_spec(value: Option<Seq<char>>) -> Option<i64> {
    match value {
        Some(v) => rfc3339_epoch_ms(v),
        None => None,
    }
}

/// Parse an optional RFC 3339 timestamp to milliseconds since the Unix
/// epoch.
pub fn parse_timestamp(value: Option<&str>) -> (r: Option<i64>)
    ensures
        r == timestamp_spec(
            match value {
                Some(v) => Some(v@),
                None => None,
            },
        ),
{
    match value {
        Some(v) => rfc3339_to_epoch_ms(v),
        None => None,
    }
}

/// The group name a `memberof` value denotes: the `cn` of the parsed
/// distinguished name, when it parses and has one.
pub open spec fn group_name_of(v: Seq<char>) -> Option<Seq<char>> {
    match dn_parse_spec(v) {
        Some(gs) => find_attr(flat_rdns(gs), "cn"@),
        None => None,
    }
}

/// The group names of a list of `memberof` values, in order, skipping
/// values that parse to no name.
pub open spec fn group_names(vals: Seq<String>) -> Seq<Seq<char>>
    decreases vals.len(),
{
    if vals.len() == 0 {
        Seq::empty()
    } else {
        group_names(vals.drop_last()) + opt_seq(group_name_of(vals.last()@))
    }
}

/// Whether any of the group names is an administrator group.
pub open spec fn any_admin_group(gs: Seq<Seq<char>>) -> bool {
    exists|i: int|
        0 <= i < gs.len() && (lower_chars(#[trigger] gs[i]) == lower_chars("admins"@)
            || lower_chars(gs[i]) == lower_chars("operators"@))
}

/// Extract the group names from the `memberof` values.
fn extract_group_names(vals: &Vec<String>) -> (r: Vec<String>)
    ensures
        str_views(r@) == group_names(vals@),
{
    let mut out: Vec<String> = Vec::new();
    let mut i: usize = 0;
    while i < vals.len()
        invariant
            i <= vals@.len(),
            str_views(out@) == group_names(vals@.subrange(0, i as int)),
        decreases vals@.len() - i,
    {
        let ghost before = str_views(out@);
        let parsed = DistinguishedName::parse(vals[i].as_str());
        match parsed {
            Ok(dn) => {
                let name = dn.get("cn");
                match name {
                    Some(cn) => {
                        out.push(cn);
                        proof {
                            assert(str_views(out@) =~= before.push(out@.last()@));
                        }
                    },
                    None => (),
                }
            },
            Err(_) => (),
        }
        proof {
            assert(vals@.subrange(0, i + 1).drop_last() =~= vals@.subrange(0, i as int));
            assert(vals@.subrange(0, i + 1).last() == vals@[i as int]);
            assert(str_views(out@) =~= group_names(vals@.subrange(0, i + 1)));
        }
        i = i + 1;
    }
    proof {
        assert(vals@.subrange(0, vals@.len() as int) =~= vals@);
    }
    out
}

/// Whether any group in the list is an administrator group.
fn any_admin(groups: &Vec<String>) -> (r: bool)
    ensures
        r == any_admin_group(str_views(groups@)),
{
    let mut i: usize = 0;
    while i < groups.len()
        invariant
            i <= groups@.len(),
            forall|j: int|
                0 <= j < i ==> !(lower_chars(#[trigger] str_views(groups@)[j]) == lower_chars(
                    "admins"@,
                ) || lower_chars(str_views(groups@)[j]) == lower_chars("operators"@)),
        decreases groups@.len() - i,
    {
        proof {
            assert(str_views(groups@)[i as int] == groups@[i as int]@);
        }
        if matches_admin_group(groups[i].as_str()) {
            proof {
                assert(lower_chars(str_views(groups@)[i as int]) == lower_chars("admins"@)
                    || lower_chars(str_views(groups@)[i as int]) == lower_chars("operators"@));
            }
            return true;
        }
        i = i + 1;
    }
    false
}

/// Whether a directory user entry is well-formed enough to yield a user:
/// its name parses, it carries a well-formed `uuid`, and it carries a
/// `login` or `uid`.
pub open spec fn user_entry_ok(entry: LdapEntry) -> bool {
    &&& dn_parse_spec(entry.dn@) is Some
    &&& attr_first(entry.attributes@, "uuid"@) matches Some(u) && parse_uuid_spec(u) is Some
    &&& (attr_first(entry.attributes@, "login"@) is Some || attr_first(
        entry.attributes@,
        "uid"@,
    ) is Some)
}

/// The login a user entry denotes: the `login` attribute, or `uid` as a
/// fallback.
pub open spec fn entry_login(attrs: Seq<(String, Vec<String>)>) -> Option<Seq<char>> {
    match attr_first(attrs, "login"@) {
        Some(l) => Some(l),
        None => attr_first(attrs, "uid"@),
    }
}

/// The `memberof` values of an entry, or nothing.
pub open spec fn member_values(attrs: Seq<(String, Vec<String>)>) -> Seq<String> {
    match first_entry(attrs, "memberof"@) {
        Some(vals) => vals@,
        None => Seq::empty(),
    }
}

/// Build a [`User`] from a directory entry.
///
/// Succeeds exactly on well-formed entries ([`user_entry_ok`]); the
/// resulting user carries the parsed name, identifier and login, the
/// optional naming attributes, the account status read from the lock and
/// password attributes and the group memberships, the feature flags, the
/// parsed timestamps, and the group names extracted from `memberof`.
pub fn parse_user_entry(entry: &LdapEntry) -> (r: Result<User, Error>)
    ensures
        r is Ok <==> user_entry_ok(*entry),
        match r {
            Ok(user) => {
                let attrs = entry.attributes@;
                let groups = group_names(member_values(attrs));
                &&& groups_views(user.dn.rdns@) == dn_parse_spec(entry.dn@).unwrap()
                &&& Some(user.uuid.0) == parse_uuid_spec(attr_first(attrs, "uuid"@).unwrap())
                &&& Some(user.login@) == entry_login(attrs)
                &&& (match user.email {
                    Some(v) => attr_first(attrs, "email"@) == Some(v@),
                    None => attr_first(attrs, "email"@) is None,
                })
                &&& (match user.cn {
                    Some(v) => attr_first(attrs, "cn"@) == Some(v@),
                    None => attr_first(attrs, "cn"@) is None,
                })
                &&& (match user.sn {
                    Some(v) => attr_first(attrs, "sn"@) == Some(v@),
                    None => attr_first(attrs, "sn"@) is None,
                })
                &&& (match user.given_name {
                    Some(v) => attr_first(attrs, "givenName"@) == Some(v@),
                    None => attr_first(attrs, "givenName"@) is None,
                })
                &&& (match user.company {
                    Some(v) => attr_first(attrs, "company"@) == Some(v@),
                    None => attr_first(attrs, "company"@) is None,
                })
                &&& (match user.phone {
                    Some(v) => attr_first(attrs, "phone"@) == Some(v@),
                    None => attr_first(attrs, "phone"@) is None,
                })
                &&& user.status.is_locked == (attr_first(attrs, "pwdAccountLockedTime"@) is Some)
                &&& user.status.password_expired == attr_bool(attrs, "password_expired"@)
                &&& user.status.is_admin == any_admin_group(groups)
                &&& user.flags.approved_for_provisioning == attr_bool(
                    attrs,
                    "approved_for_provisioning"@,
                )
                &&& user.flags.registered_developer == attr_bool(attrs, "registered_developer"@)
                &&& user.flags.triton_cns_enabled == attr_bool(attrs, "triton_cns_enabled"@)
                &&& user.created_at == timestamp_spec(attr_first(attrs, "created"@))
                &&& user.updated_at == timestamp_spec(attr_first(attrs, "updated"@))
                &&& str_views(user.groups@) == groups
            },
            Err(e) => e is InvalidRequest || e is InvalidUuid,
        },
{
    let dn = match DistinguishedName::parse(self_dn(entry)) {
        Ok(dn) => dn,
        Err(e) => {
            return Err(e.into_core_error());
        },
    };
    let uuid_str = match entry.first("uuid") {
        Some(u) => u,
        None => {
            return Err(missing_attribute("uuid"));
        },
    };
    let uuid = match OwnerUuid::parse_str(uuid_str) {
        Ok(u) => u,
        Err(e) => {
            return Err(e);
        },
    };
    let login = match entry.first("login") {
        Some(l) => l.to_owned(),
        None => match entry.first("uid") {
            Some(l) => l.to_owned(),
            None => {
                return Err(missing_attribute("login"));
            },
        },
    };
    let groups = match entry.values("memberof") {
        Some(vals) => extract_group_names(vals),
        None => Vec::new(),
    };
    let locked = match entry.first("pwdAccountLockedTime") {
        Some(_) => true,
        None => false,
    };
    let is_admin = any_admin(&groups);
    let status = AccountStatus::new().with_locked(locked).with_password_expired(
        entry.bool_value("password_expired"),
    ).with_admin(is_admin);
    let flags = UserFlags::default().with_provisioning(
        entry.bool_value("approved_for_provisioning"),
    ).with_registered_developer(entry.bool_value("registered_developer")).with_triton_cns(
        entry.bool_value("triton_cns_enabled"),
    );
    let mut builder = User::builder(dn, uuid, login);
    match entry.first("email") {
        Some(v) => {
            builder = builder.email(v.to_owned());
        },
        None => (),
    }
    match entry.first("cn") {
        Some(v) => {
            builder = builder.cn(v.to_owned());
        },
        None => (),
    }
    match entry.first("sn") {
        Some(v) => {
            builder = builder.sn(v.to_owned());
        },
        None => (),
    }
    match entry.first("givenName") {
        Some(v) => {
            builder = builder.given_name(v.to_owned());
        },
        None => (),
    }
    match entry.first("company") {
        Some(v) => {
            builder = builder.company(v.to_owned());
        },
        None => (),
    }
    match entry.first("phone") {
        Some(v) => {
            builder = builder.phone(v.to_owned());
        },
        None => (),
    }
    match parse_timestamp(entry.first("created")) {
        Some(t) => {
            builder = builder.created_at(t);
        },
        None => (),
    }
    match parse_timestamp(entry.first("updated")) {
        Some(t) => {
            builder = builder.updated_at(t);
        },
        None => (),
    }
    builder = builder.status(status).flags(flags).groups(groups);
    Ok(builder.build())
}

/// The entry's own distinguished-name text.
fn self_dn(entry: &LdapEntry) -> (r: &str)
    ensures
        r@ == entry.dn@,
{
    entry.dn.as_str()
}

/// Build a [`Group`] from a directory entry.
///
/// Succeeds exactly when the entry's name parses and it carries a `cn`;
/// the members are the parseable `member` values, in order.
pub fn parse_group_entry(entry: &LdapEntry) -> (r: Result<crate::group::Group, Error>)
    ensures
        r is Ok <==> (dn_parse_spec(entry.dn@) is Some && attr_first(
            entry.attributes@,
            "cn"@,
        ) is Some),
        match r {
            Ok(group) => {
                &&& groups_views(group.dn.rdns@) == dn_parse_spec(entry.dn@).unwrap()
                &&& Some(group.name@) == attr_first(entry.attributes@, "cn"@)
                &&& (match group.description {
                    Some(v) => attr_first(entry.attributes@, "description"@) == Some(v@),
                    None => attr_first(entry.attributes@, "description"@) is None,
                })
                &&& member_texts(group.members@) == parsed_member_texts(
                    match first_entry(entry.attributes@, "member"@) {
                        Some(vals) => vals@,
                        None => Seq::empty(),
                    },
                )
            },
            Err(e) => e is InvalidRequest,
        },
{
    let dn = match DistinguishedName::parse(self_dn(entry)) {
        Ok(dn) => dn,
        Err(e) => {
            return Err(e.into_core_error());
        },
    };
    let name = match entry.first("cn") {
        Some(v) => v.to_owned(),
        None => {
            return Err(missing_attribute("cn"));
        },
    };
    let mut builder = crate::group::Group::builder(dn, name);
    match entry.first("description") {
        Some(v) => {
            builder = builder.description(v.to_owned());
        },
        None => (),
    }
    let members = match entry.values("member") {
        Some(vals) => parse_member_dns(vals),
        None => Vec::new(),
    };
    builder = builder.members(members);
    Ok(builder.build())
}

/// The canonical texts of a list of member names.
pub open spec fn member_texts(members: Seq<DistinguishedName>) -> Seq<Seq<char>> {
    members.map_values(|m: DistinguishedName| m.raw@)
}

/// The canonical texts of the parseable member values, in order.
pub open spec fn parsed_member_texts(vals: Seq<String>) -> Seq<Seq<char>>
    decreases vals.len(),
{
    if vals.len() == 0 {
        Seq::empty()
    } else {
        parsed_member_texts(vals.drop_last()) + (match dn_parse_spec(vals.last()@) {
            Some(gs) => seq![crate::dn::dn_text(gs)],
            None => Seq::empty(),
        })
    }
}

/// Parse the member values into distinguished names, skipping malformed
/// ones.
fn parse_member_dns(vals: &Vec<String>) -> (r: Vec<DistinguishedName>)
    ensures
        member_texts(r@) == parsed_member_texts(vals@),
{
    let mut out: Vec<DistinguishedName> = Vec::new();
    let mut i: usize = 0;
    while i < vals.len()
        invariant
            i <= vals@.len(),
            member_texts(out@) == parsed_member_texts(vals@.subrange(0, i as int)),
        decreases vals@.len() - i,
    {
        let ghost before = member_texts(out@);
        let parsed = DistinguishedName::parse(vals[i].as_str());
        match parsed {
            Ok(dn) => {
                out.push(dn);
                proof {
                    assert(member_texts(out@) =~= before.push(out@.last().raw@));
                }
            },
            Err(_) => (),
        }
        proof {
            assert(vals@.subrange(0, i + 1).drop_last() =~= vals@.subrange(0, i as int));
            assert(vals@.subrange(0, i + 1).last() == vals@[i as int]);
            assert(member_texts(out@) =~= parsed_member_texts(vals@.subrange(0, i + 1)));
        }
        i = i + 1;
    }
    proof {
        assert(vals@.subrange(0, vals@.len() as int) =~= vals@);
    }
    out
}

} // verus!
