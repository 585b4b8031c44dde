//! Directory user representation and helpers.

use vstd::prelude::*;

use crate::dn::DistinguishedName;
use crate::text::eq_ignore_ascii_case;
use crate::text::lower_chars;
use crate::uuid::OwnerUuid;

verus! {

/// Account status flags that reflect the directory operational state.
#[derive(Debug, Clone, Copy, PartialEq, Eq, Structural)]
pub struct AccountStatus {
    /// Whether the account is an administrator.
    pub is_admin: bool,
    /// Whether the account is locked.
    pub is_locked: bool,
    /// Whether the account password has expired.
    pub password_expired: bool,
}

impl AccountStatus {
    /// Creates a new status with all flags disabled.
    pub fn new() -> (r: Self)
        ensures
            !r.is_admin && !r.is_locked && !r.password_expired,
    {
        Self { is_admin: false, is_locked: false, password_expired: false }
    }

    /// Marks the account as an administrator.
    pub fn with_admin(self, is_admin: bool) -> (r: Self)
        ensures
            r == (Self { is_admin, ..self }),
    {
        Self { is_admin, ..self }
    }

    /// Marks the account as locked.
    pub fn with_locked(self, is_locked: bool) -> (r: Self)
        ensures
            r == (Self { is_locked, ..self }),
    {
        Self { is_locked, ..self }
    }

    /// Marks the account password as expired.
    pub fn with_password_expired(self, password_expired: bool) -> (r: Self)
        ensures
            r == (Self { password_expired, ..self }),
    {
        Self { password_expired, ..self }
    }

    /// Returns true if the account is an administrator.
    pub fn is_admin(&self) -> (r: bool)
        ensures
            r == self.is_admin,
    {
        self.is_admin
    }

    /// Returns true if the account is locked.
    pub fn is_locked(&self) -> (r: bool)
        ensures
            r == self.is_locked,
    {
        self.is_locked
    }

    /// Returns true if the password is expired.
    pub fn is_password_expired(&self) -> (r: bool)
        ensures
            r == self.password_expired,
    {
        self.password_expired
    }

    /// Returns true if the account is active: not locked and the password
    /// still valid.
    pub fn is_active(&self) -> (r: bool)
        ensures
            r == (!self.is_locked && !self.password_expired),
    {
        !self.is_locked && !self.password_expired
    }
}

impl Default for AccountStatus {
    /// All flags are disabled by default.
    fn default() -> (r: Self)
        ensures
            !r.is_admin && !r.is_locked && !r.password_expired,
    {
        Self::new()
    }
}

/// Additional directory feature flags.
#[derive(Debug, Clone, Copy, PartialEq, Eq, Structural)]
pub struct UserFlags {
    /// Whether the user is approved for provisioning resources.
    pub approved_for_provisioning: bool,
    /// Whether the user is a registered developer.
    pub registered_developer: bool,
    /// Whether the naming service is enabled for the user.
    pub triton_cns_enabled: bool,
}

impl UserFlags {
    /// Enables or disables provisioning approval.
    pub fn with_provisioning(self, approved: bool) -> (r: Self)
        ensures
            r == (Self { approved_for_provisioning: approved, ..self }),
    {
        Self { approved_for_provisioning: approved, ..self }
    }

    /// Enables or disables the registered developer flag.
    pub fn with_registered_developer(self, registered: bool) -> (r: Self)
        ensures
            r == (Self { registered_developer: registered, ..self }),
    {
        Self { registered_developer: registered, ..self }
    }

    /// Enables or disables the naming service flag.
    pub fn with_triton_cns(self, enabled: bool) -> (r: Self)
        ensures
            r == (Self { triton_cns_enabled: enabled, ..self }),
    {
        Self { triton_cns_enabled: enabled, ..self }
    }
}

impl Default for UserFlags {
    /// All flags are disabled by default.
    fn default() -> (r: Self)
        ensures
            !r.approved_for_provisioning && !r.registered_developer && !r.triton_cns_enabled,
    {
        Self {
            approved_for_provisioning: false,
            registered_developer: false,
            triton_cns_enabled: false,
        }
    }
}

/// Representation of a directory user.
#[derive(Debug)]
pub struct User {
    /// Distinguished name of the user entry.
    pub dn: DistinguishedName,
    /// Unique identifier.
    pub uuid: OwnerUuid,
    /// Login name (usually the `uid` attribute).
    pub login: String,
    /// Primary email address.
    pub email: Option<String>,
    /// Common name.
    pub cn: Option<String>,
    /// Surname (last name).
    pub sn: Option<String>,
    /// Given name (first name).
    pub given_name: Option<String>,
    /// Company affiliation.
    pub company: Option<String>,
    /// Phone number.
    pub phone: Option<String>,
    /// Account status flags.
    pub status: AccountStatus,
    /// Feature flags.
    pub flags: UserFlags,
    /// Creation timestamp, in milliseconds since the Unix epoch.
    pub created_at: Option<i64>,
    /// Last update timestamp, in milliseconds since the Unix epoch.
    pub updated_at: Option<i64>,
    /// Group names the user belongs to.
    pub groups: Vec<String>,
}

impl User {
    /// Creates a builder for a new user instance.
    pub fn builder(dn: DistinguishedName, uuid: OwnerUuid, login: String) -> (r: UserBuilder)
        ensures
            r.dn == dn,
            r.uuid == uuid,
            r.login == login,
            r.email is None,
            r.cn is None,
            r.sn is None,
            r.given_name is None,
            r.company is None,
            r.phone is None,
            !r.status.is_admin && !r.status.is_locked && !r.status.password_expired,
            !r.flags.approved_for_provisioning && !r.flags.registered_developer
                && !r.flags.triton_cns_enabled,
            r.created_at is None,
            r.updated_at is None,
            r.groups@.len() == 0,
    {
        UserBuilder {
            dn,
            uuid,
            login,
            email: None,
            cn: None,
            sn: None,
            given_name: None,
            company: None,
            phone: None,
            status: AccountStatus::new(),
            flags: UserFlags::default(),
            created_at: None,
            updated_at: None,
            groups: Vec::new(),
        }
    }

    /// Returns true if the account is active: not locked and the password
    /// still valid.
    pub fn is_active(&self) -> (r: bool)
        ensures
            r == (!self.status.is_locked && !self.status.password_expired),
    {
        self.status.is_active()
    }

    /// Returns true if the user is an administrator.
    pub fn is_admin(&self) -> (r: bool)
        ensures
            r == self.status.is_admin,
    {
        self.status.is_admin()
    }

    /// Returns true if the user belongs to the provided group, ASCII
    /// case-insensitively.
    pub fn in_group(&self, group: &str) -> (r: bool)
        ensures
            r == exists|i: int|
                0 <= i < self.groups@.len() && lower_chars(#[trigger] self.groups@[i]@)
                    == lower_chars(group@),
    {
        let mut i: usize = 0;
        while i < self.groups.len()
            invariant
                i <= self.groups@.len(),
                forall|j: int|
                    0 <= j < i ==> lower_chars(#[trigger] self.groups@[j]@) != lower_chars(
                        group@,
                    ),
            decreases self.groups@.len() - i,
        {
            if eq_ignore_ascii_case(self.groups[i].as_str(), group) {
                return true;
            }
            i = i + 1;
        }
        false
    }

    /// Returns the preferred display name: the common name when available,
    /// else the given name and surname combined.
    pub fn display_name(&self) -> (r: Option<String>)
        ensures
            match self.cn {
                Some(cn) => r matches Some(v) && v@ == cn@,
                None => match (self.given_name, self.sn) {
                    (Some(given), Some(sn)) => r matches Some(v) && v@ == given@ + " "@ + sn@,
                    (Some(given), None) => r matches Some(v) && v@ == given@,
                    (None, Some(sn)) => r matches Some(v) && v@ == sn@,
                    (None, None) => r is None,
                },
            },
    {
        match &self.cn {
            Some(cn) => {
                return Some(cn.clone());
            },
            None => (),
        }
        match (&self.given_name, &self.sn) {
            (Some(given), Some(sn)) => {
                let mut out = given.clone();
                out.append(" ");
                out.append(sn.as_str());
                Some(out)
            },
            (Some(given), None) => Some(given.clone()),
            (None, Some(sn)) => Some(sn.clone()),
            (None, None) => None,
        }
    }
}

/// Builder for [`User`].
#[derive(Debug)]
pub struct UserBuilder {
    /// Distinguished name of the user entry.
    pub dn: DistinguishedName,
    /// Unique identifier.
    pub uuid: OwnerUuid,
    /// Login name.
    pub login: String,
    /// Primary email address.
    pub email: Option<String>,
    /// Common name.
    pub cn: Option<String>,
    /// Surname.
    pub sn: Option<String>,
    /// Given name.
    pub given_name: Option<String>,
    /// Company affiliation.
    pub company: Option<String>,
    /// Phone number.
    pub phone: Option<String>,
    /// Account status flags.
    pub status: AccountStatus,
    /// Feature flags.
    pub flags: UserFlags,
    /// Creation timestamp, in milliseconds since the Unix epoch.
    pub created_at: Option<i64>,
    /// Last update timestamp, in milliseconds since the Unix epoch.
    pub updated_at: Option<i64>,
    /// Group names.
    pub groups: Vec<String>,
}

impl UserBuilder {
    /// Sets the email address.
    pub fn email(self, email: String) -> (r: Self)
        ensures
            r == (Self { email: Some(email), ..self }),
    {
        Self { email: Some(email), ..self }
    }

    /// Sets the common name.
    pub fn cn(self, cn: String) -> (r: Self)
        ensures
            r == (Self { cn: Some(cn), ..self }),
    {
        Self { cn: Some(cn), ..self }
    }

    /// Sets the surname.
    pub fn sn(self, sn: String) -> (r: Self)
        ensures
            r == (Self { sn: Some(sn), ..self }),
    {
        Self { sn: Some(sn), ..self }
    }

    /// Sets the given name.
    pub fn given_name(self, given_name: String) -> (r: Self)
        ensures
            r == (Self { given_name: Some(given_name), ..self }),
    {
        Self { given_name: Some(given_name), ..self }
    }

    /// Sets the company.
    pub fn company(self, company: String) -> (r: Self)
        ensures
            r == (Self { company: Some(company), ..self }),
    {
        Self { company: Some(company), ..self }
    }

    /// Sets the phone number.
    pub fn phone(self, phone: String) -> (r: Self)
        ensures
            r == (Self { phone: Some(phone), ..self }),
    {
        Self { phone: Some(phone), ..self }
    }

    /// Overrides the account status.
    pub fn status(self, status: AccountStatus) -> (r: Self)
        ensures
            r == (Self { status, ..self }),
    {
        Self { status, ..self }
    }

    /// Overrides the feature flags.
    pub fn flags(self, flags: UserFlags) -> (r: Self)
        ensures
            r == (Self { flags, ..self }),
    {
        Self { flags, ..self }
    }

    /// Sets the creation timestamp, in milliseconds since the Unix epoch.
    pub fn created_at(self, created_at: i64) -> (r: Self)
        ensures
            r == (Self { created_at: Some(created_at), ..self }),
    {
        Self { created_at: Some(created_at), ..self }
    }

    /// Sets the update timestamp, in milliseconds since the Unix epoch.
    pub fn updated_at(self, updated_at: i64) -> (r: Self)
        ensures
            r == (Self { updated_at: Some(updated_at), ..self }),
    {
        Self { updated_at: Some(updated_at), ..self }
    }

    /// Appends a group name.
    pub fn add_group(self, group: String) -> (r: Self)
        ensures
            r.groups@ == self.groups@.push(group),
            r.dn == self.dn,
            r.uuid == self.uuid,
            r.login == self.login,
            r.email == self.email,
            r.cn == self.cn,
            r.sn == self.sn,
            r.given_name == self.given_name,
            r.company == self.company,
            r.phone == self.phone,
            r.status == self.status,
            r.flags == self.flags,
            r.created_at == self.created_at,
            r.updated_at == self.updated_at,
    {
        let mut groups = self.groups;
        groups.push(group);
        Self { groups, ..self }
    }

    /// Replaces the group list.
    pub fn groups(self, groups: Vec<String>) -> (r: Self)
        ensures
            r == (Self { groups, ..self }),
    {
        Self { groups, ..self }
    }

    /// Finalises the builder and returns the [`User`].
    pub fn build(self) -> (r: User)
        ensures
            r.dn == self.dn,
            r.uuid == self.uuid,
            r.login == self.login,
            r.email == self.email,
            r.cn == self.cn,
            r.sn == self.sn,
            r.given_name == self.given_name,
            r.company == self.company,
            r.phone == self.phone,
            r.status == self.status,
            r.flags == self.flags,
            r.created_at == self.created_at,
            r.updated_at == self.updated_at,
            r.groups == self.groups,
    {
        User {
            dn: self.dn,
            uuid: self.uuid,
            login: self.login,
            email: self.email,
            cn: self.cn,
            sn: self.sn,
            given_name: self.given_name,
            company: self.company,
            phone: self.phone,
            status: self.status,
            flags: self.flags,
            created_at: self.created_at,
            updated_at: self.updated_at,
            groups: self.groups,
        }
    }
}

} // verus!
