//! The statements on organizations and memberships.

use vstd::prelude::*;
use crate::models::{Id, Organization, OrganizationMember, Timestamp, User};
use crate::store::listing::{
    SortKey, insert_ordered, is_listing, lemma_listing_grow, lemma_listing_skip, newest_first,
    oldest_first,
};
use crate::store::{Store, StoreError, Tables};

verus! {

/// An organization together with the role that a user holds in it.
#[derive(Debug)]
pub struct OrganizationWithRole {
    pub organization: Organization,
    pub role: String,
}

/// A membership together with the user it belongs to.
#[derive(Debug)]
pub struct MemberWithUser {
    pub member: OrganizationMember,
    pub user: User,
}

/// The row of an organization that was just created: active, without logo or
/// website.
pub open spec fn created_organization(
    id: Id,
    name: String,
    slug: String,
    description: Option<String>,
    now: Timestamp,
) -> Organization {
    Organization {
        id,
        name,
        slug,
        description,
        logo_url: None,
        website: None,
        is_active: true,
        created_at: now,
        updated_at: now,
    }
}

/// The row of a membership that was just granted.
pub open spec fn granted_membership(
    id: Id,
    organization_id: Id,
    user_id: Id,
    role: String,
    invited_by: Option<Id>,
    now: Timestamp,
) -> OrganizationMember {
    OrganizationMember { id, organization_id, user_id, role, invited_by, joined_at: now }
}

/// The organization part of each listed pair.
pub open spec fn organizations_listed(listed: Seq<OrganizationWithRole>) -> Seq<Organization> {
    listed.map_values(|x: OrganizationWithRole| x.organization)
}

/// The membership part of each listed pair.
pub open spec fn members_listed(listed: Seq<MemberWithUser>) -> Seq<OrganizationMember> {
    listed.map_values(|x: MemberWithUser| x.member)
}

/// Orders organizations by creation, newest first.
pub open spec fn organization_order() -> spec_fn(Organization) -> SortKey {
    |o: Organization| newest_first(o.created_at)
}

/// Orders memberships by the instant of joining, oldest first.
pub open spec fn member_order() -> spec_fn(OrganizationMember) -> SortKey {
    |m: OrganizationMember| oldest_first(m.joined_at)
}

impl Tables {
    /// The tables after an organization row was added under the next
    /// identifier.
    pub open spec fn with_organization(self, organization: Organization) -> Tables {
        Tables {
            organizations: self.organizations.push(organization),
            next_id: (self.next_id + 1) as Id,
            ..self
        }
    }

    /// The tables after a membership row was added under the next identifier.
    pub open spec fn with_member(self, member: OrganizationMember) -> Tables {
        Tables { members: self.members.push(member), next_id: (self.next_id + 1) as Id, ..self }
    }

    /// The active organization with this identifier.
    pub open spec fn active_organization(self, id: Id) -> Option<Organization> {
        match self.organization_by_id(id) {
            Some(o) => if o.is_active {
                Some(o)
            } else {
                None
            },
            None => None,
        }
    }

    /// Selects the active organizations that a user belongs to.
    pub open spec fn active_and_joined_by(self, user_id: Id) -> spec_fn(Organization) -> bool {
        |o: Organization| o.is_active && self.membership(o.id, user_id) is Some
    }

    /// Selects the memberships of an organization whose user is in the store.
    pub open spec fn member_of(self, organization_id: Id) -> spec_fn(OrganizationMember) -> bool {
        |m: OrganizationMember|
            m.organization_id == organization_id && self.user_by_id(m.user_id) is Some
    }

    /// `listed` holds the active organizations that the user belongs to, each
    /// once with the user's role in it, newest first.
    pub open spec fn lists_organizations(self, listed: Seq<OrganizationWithRole>, user_id: Id) -> bool {
        &&& is_listing(
            organizations_listed(listed),
            self.organizations,
            self.active_and_joined_by(user_id),
            organization_order(),
        )
        &&& forall|i: int|
            0 <= i < listed.len() ==> Some((#[trigger] listed[i]).role) == self.role_in_organization(
                listed[i].organization.id,
                user_id,
            )
    }

    /// `listed` holds the memberships of the organization, each once with its
    /// user, in the order of joining.
    pub open spec fn lists_members(self, listed: Seq<MemberWithUser>, organization_id: Id) -> bool {
        &&& is_listing(
            members_listed(listed),
            self.members,
            self.member_of(organization_id),
            member_order(),
        )
        &&& forall|i: int|
            0 <= i < listed.len() ==> Some((#[trigger] listed[i]).user) == self.user_by_id(
                listed[i].member.user_id,
            )
    }

    /// Why a membership cannot be granted, if it cannot.
    pub open spec fn membership_refusal(self, organization_id: Id, user_id: Id) -> Option<
        StoreError,
    > {
        if self.organization_by_id(organization_id) is None {
            Some(StoreError::ForeignKeyViolation)
        } else if self.membership(organization_id, user_id) is Some {
            Some(StoreError::UniqueViolation)
        } else if self.next_id == u128::MAX {
            Some(StoreError::IdentifiersExhausted)
        } else {
            None
        }
    }

    /// Why an organization cannot be created, if it cannot.
    pub open spec fn organization_refusal(self, slug: Seq<char>) -> Option<StoreError> {
        if self.organization_slug_taken(slug) {
            Some(StoreError::UniqueViolation)
        } else if self.next_id == u128::MAX {
            Some(StoreError::IdentifiersExhausted)
        } else {
            None
        }
    }
}

impl Store {
    /// Whether an organization has this slug.
    pub fn organization_slug_exists(&self, slug: &str) -> (taken: bool)
        requires
            self.wf(),
        ensures
            taken == self@.organization_slug_taken(slug@),
    {
        self.find_organization_by_slug(slug).is_some()
    }

    /// Adds an organization and returns the new row. A slug that another
    /// organization has is refused.
    pub fn insert_organization(
        &mut self,
        name: String,
        slug: String,
        description: Option<String>,
        now: Timestamp,
    ) -> (inserted: Result<Organization, StoreError>)
        requires
            old(self).wf(),
        ensures
            final(self).wf(),
            match inserted {
                Ok(organization) => {
                    &&& old(self)@.organization_refusal(slug@) is None
                    &&& organization == created_organization(
                        old(self)@.next_id,
                        name,
                        slug,
                        description,
                        now,
                    )
                    &&& final(self)@ == old(self)@.with_organization(organization)
                },
                Err(e) => {
                    &&& final(self)@ == old(self)@
                    &&& old(self)@.organization_refusal(slug@) == Some(e)
                },
            },
    {
        if self.find_organization_by_slug(slug.as_str()).is_some() {
            return Err(StoreError::UniqueViolation);
        }
        if self.next_id == u128::MAX {
            return Err(StoreError::IdentifiersExhausted);
        }
        let organization = Organization {
            id: self.next_id,
            name,
            slug,
            description,
            logo_url: None,
            website: None,
            is_active: true,
            created_at: now,
            updated_at: now,
        };
        let copy = organization.clone();
        proof {
            assert forall|i: int| 0 <= i < old(self)@.organizations.len() implies old(
                self,
            )@.organizations[i].slug@ != slug@ by {
                assert(!old(self)@.organization_has_slug(i, slug@));
            }
        }
        self.organizations.push(organization);
        self.next_id = self.next_id + 1;
        assert(self@.comments == old(self)@.comments);
        Ok(copy)
    }

    /// Grants a user a role in an organization and returns the new row. The
    /// organization must be there, and the user must not be a member yet.
    pub fn insert_member(
        &mut self,
        organization_id: Id,
        user_id: Id,
        role: String,
        invited_by: Option<Id>,
        now: Timestamp,
    ) -> (inserted: Result<OrganizationMember, StoreError>)
        requires
            old(self).wf(),
        ensures
            final(self).wf(),
            match inserted {
                Ok(member) => {
                    &&& old(self)@.membership_refusal(organization_id, user_id) is None
                    &&& member == granted_membership(
                        old(self)@.next_id,
                        organization_id,
                        user_id,
                        role,
                        invited_by,
                        now,
                    )
                    &&& final(self)@ == old(self)@.with_member(member)
                },
                Err(e) => {
                    &&& final(self)@ == old(self)@
                    &&& old(self)@.membership_refusal(organization_id, user_id) == Some(e)
                },
            },
    {
        let organization = self.find_organization(organization_id);
        if organization.is_none() {
            return Err(StoreError::ForeignKeyViolation);
        }
        if self.find_member(organization_id, user_id).is_some() {
            return Err(StoreError::UniqueViolation);
        }
        if self.next_id == u128::MAX {
            return Err(StoreError::IdentifiersExhausted);
        }
        let member = OrganizationMember {
            id: self.next_id,
            organization_id,
            user_id,
            role,
            invited_by,
            joined_at: now,
        };
        let copy = member.clone();
        proof {
            assert(old(self)@.organizations[organization.unwrap() as int].id < old(self)@.next_id);
            assert forall|i: int| 0 <= i < old(self)@.members.len() implies !(old(
                self,
            )@.members[i].organization_id == organization_id && old(self)@.members[i].user_id
                == user_id) by {
                assert(!old(self)@.member_joins(i, organization_id, user_id));
            }
        }
        self.members.push(member);
        self.next_id = self.next_id + 1;
        assert(self@.comments == old(self)@.comments);
        Ok(copy)
    }

    /// The membership of this user in this organization.
    pub fn membership(&self, organization_id: Id, user_id: Id) -> (member: Option<
        OrganizationMember,
    >)
        requires
            self.wf(),
        ensures
            member == self@.membership(organization_id, user_id),
    {
        match self.find_member(organization_id, user_id) {
            Some(i) => Some(self.members[i].clone()),
            None => None,
        }
    }

    /// The active organization with this identifier.
    pub fn active_organization(&self, id: Id) -> (organization: Option<Organization>)
        requires
            self.wf(),
        ensures
            organization == self@.active_organization(id),
    {
        match self.find_organization(id) {
            Some(i) => {
                if self.organizations[i].is_active {
                    Some(self.organizations[i].clone())
                } else {
                    None
                }
            },
            None => None,
        }
    }

    /// The active organizations that a user belongs to, each with the user's
    /// role in it, newest first.
    pub fn organizations_of_user(&self, user_id: Id) -> (listed: Vec<OrganizationWithRole>)
        requires
            self.wf(),
        ensures
            self@.lists_organizations(listed@, user_id),
    {
        let ghost table = self@.organizations;
        let ghost wanted = self@.active_and_joined_by(user_id);
        let ghost key = organization_order();
        let mut rows: Vec<Organization> = Vec::new();
        let mut keys: Vec<SortKey> = Vec::new();
        let mut j: usize = 0;
        assert(table.no_duplicates());
        while j < self.organizations.len()
            invariant
                self.wf(),
                table == self@.organizations,
                wanted == self@.active_and_joined_by(user_id),
                key == organization_order(),
                table.no_duplicates(),
                j <= self.organizations.len(),
                keys.len() == rows.len(),
                is_listing(rows@, table.subrange(0, j as int), wanted, key),
                forall|i: int| 0 <= i < rows.len() ==> #[trigger] keys@[i] == key(rows@[i]),
            decreases self.organizations.len() - j,
        {
            let row = &self.organizations[j];
            if row.is_active && self.find_member(row.id, user_id).is_some() {
                let k = SortKey { major: -(row.created_at as i128), minor: 0 };
                let ghost before = rows@;
                let ghost keys_before = keys@;
                let pos = insert_ordered(&mut rows, &mut keys, row.clone(), k);
                proof {
                    lemma_listing_grow(before, keys_before, table, j as int, pos as int, wanted, key);
                }
            } else {
                proof {
                    lemma_listing_skip(rows@, table, j as int, wanted, key);
                }
            }
            j += 1;
        }
        assert(table.subrange(0, j as int) =~= table);
        let mut listed: Vec<OrganizationWithRole> = Vec::new();
        let mut i: usize = 0;
        while i < rows.len()
            invariant
                self.wf(),
                i <= rows.len(),
                listed.len() == i,
                forall|n: int| 0 <= n < rows.len() ==> wanted(#[trigger] rows@[n]),
                wanted == self@.active_and_joined_by(user_id),
                forall|n: int| 0 <= n < i ==> (#[trigger] listed@[n]).organization == rows@[n],
                forall|n: int|
                    0 <= n < i ==> Some((#[trigger] listed@[n]).role) == self@.role_in_organization(
                        listed@[n].organization.id,
                        user_id,
                    ),
            decreases rows.len() - i,
        {
            let organization = rows[i].clone();
            assert(wanted(rows@[i as int]));
            let found = self.find_member(organization.id, user_id);
            let role = self.members[found.unwrap()].role.clone();
            listed.push(OrganizationWithRole { organization, role });
            i += 1;
        }
        assert(organizations_listed(listed@) =~= rows@);
        listed
    }

    /// The memberships of an organization, each with its user, in the order in
    /// which the members joined. A membership whose user is not in the store is
    /// left out.
    pub fn members_of_organization(&self, organization_id: Id) -> (listed: Vec<MemberWithUser>)
        requires
            self.wf(),
        ensures
            self@.lists_members(listed@, organization_id),
    {
        let ghost table = self@.members;
        let ghost wanted = self@.member_of(organization_id);
        let ghost key = member_order();
        let mut rows: Vec<OrganizationMember> = Vec::new();
        let mut keys: Vec<SortKey> = Vec::new();
        let mut j: usize = 0;
        assert(table.no_duplicates());
        while j < self.members.len()
            invariant
                self.wf(),
                table == self@.members,
                wanted == self@.member_of(organization_id),
                key == member_order(),
                table.no_duplicates(),
                j <= self.members.len(),
                keys.len() == rows.len(),
                is_listing(rows@, table.subrange(0, j as int), wanted, key),
                forall|i: int| 0 <= i < rows.len() ==> #[trigger] keys@[i] == key(rows@[i]),
            decreases self.members.len() - j,
        {
            let row = &self.members[j];
            if row.organization_id == organization_id && self.find_user(row.user_id).is_some() {
                let k = SortKey { major: row.joined_at as i128, minor: 0 };
                let ghost before = rows@;
                let ghost keys_before = keys@;
                let pos = insert_ordered(&mut rows, &mut keys, row.clone(), k);
                proof {
                    lemma_listing_grow(before, keys_before, table, j as int, pos as int, wanted, key);
                }
            } else {
                proof {
                    lemma_listing_skip(rows@, table, j as int, wanted, key);
                }
            }
            j += 1;
        }
        assert(table.subrange(0, j as int) =~= table);
        let mut listed: Vec<MemberWithUser> = Vec::new();
        let mut i: usize = 0;
        while i < rows.len()
            invariant
                self.wf(),
                i <= rows.len(),
                listed.len() == i,
                forall|n: int| 0 <= n < rows.len() ==> wanted(#[trigger] rows@[n]),
                wanted == self@.member_of(organization_id),
                forall|n: int| 0 <= n < i ==> (#[trigger] listed@[n]).member == rows@[n],
                forall|n: int|
                    0 <= n < i ==> Some((#[trigger] listed@[n]).user) == self@.user_by_id(
                        listed@[n].member.user_id,
                    ),
            decreases rows.len() - i,
        {
            let member = rows[i].clone();
            assert(wanted(rows@[i as int]));
            let found = self.find_user(member.user_id);
            let user = self.users[found.unwrap()].clone();
            listed.push(MemberWithUser { member, user });
            i += 1;
        }
        assert(members_listed(listed@) =~= rows@);
        listed
    }
}

} // verus!
