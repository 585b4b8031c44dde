//! Directory group representation.

use vstd::prelude::*;

use crate::dn::DistinguishedName;
use crate::text::str_eq;

verus! {

/// Representation of a directory group entry.
#[derive(Debug)]
pub struct Group {
    /// Distinguished name of the group.
    pub dn: DistinguishedName,
    /// Canonical group name (usually the `cn` attribute).
    pub name: String,
    /// Optional description.
    pub description: Option<String>,
    /// Distinguished names of the group members.
    pub members: Vec<DistinguishedName>,
}

impl Group {
    /// Creates a new builder with the required fields.
    pub fn builder(dn: DistinguishedName, name: String) -> (r: GroupBuilder)
        ensures
            r.dn == dn,
            r.name == name,
            r.description is None,
            r.members@.len() == 0,
    {
        GroupBuilder { dn, name, description: None, members: Vec::new() }
    }

    /// Returns the number of members in the group.
    pub fn member_count(&self) -> (r: usize)
        ensures
            r == self.members@.len(),
    {
        self.members.len()
    }

    /// Checks whether the given distinguished name is a member of this
    /// group (by canonical text).
    pub fn has_member(&self, member_dn: &DistinguishedName) -> (r: bool)
        ensures
            r == exists|i: int|
                0 <= i < self.members@.len() && #[trigger] self.members@[i].raw@
                    == member_dn.raw@,
    {
        let mut i: usize = 0;
        while i < self.members.len()
            invariant
                i <= self.members@.len(),
                forall|j: int| 0 <= j < i ==> #[trigger] self.members@[j].raw@ != member_dn.raw@,
            decreases self.members@.len() - i,
        {
            if str_eq(self.members[i].raw.as_str(), member_dn.raw.as_str()) {
                return true;
            }
            i = i + 1;
        }
        false
    }
}

/// Builder for [`Group`].
#[derive(Debug)]
pub struct GroupBuilder {
    /// Distinguished name of the group.
    pub dn: DistinguishedName,
    /// Canonical group name.
    pub name: String,
    /// Optional description.
    pub description: Option<String>,
    /// Member distinguished names.
    pub members: Vec<DistinguishedName>,
}

impl GroupBuilder {
    /// Sets the group description.
    pub fn description(self, description: String) -> (r: Self)
        ensures
            r == (Self { description: Some(description), ..self }),
    {
        Self { description: Some(description), ..self }
    }

    /// Appends a member distinguished name.
    pub fn add_member(self, dn: DistinguishedName) -> (r: Self)
        ensures
            r.members@ == self.members@.push(dn),
            r.dn == self.dn,
            r.name == self.name,
            r.description == self.description,
    {
        let mut members = self.members;
        members.push(dn);
        Self { members, ..self }
    }

    /// Appends multiple members.
    pub fn members(self, members: Vec<DistinguishedName>) -> (r: Self)
        ensures
            r.members@ == self.members@ + members@,
            r.dn == self.dn,
            r.name == self.name,
            r.description == self.description,
    {
        let mut own = self.members;
        let mut more = members;
        own.append(&mut more);
        Self { members: own, ..self }
    }

    /// Builds the [`Group`].
    pub fn build(self) -> (r: Group)
        ensures
            r.dn == self.dn,
            r.name == self.name,
            r.description == self.description,
            r.members == self.members,
    {
        Group {
            dn: self.dn,
            name: self.name,
            description: self.description,
            members: self.members,
        }
    }
}

} // verus!
