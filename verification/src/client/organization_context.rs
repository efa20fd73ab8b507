//! The organizations of the user interface: those of the user, the one that is
//! selected, whether a request is under way, and what went wrong last.

use vstd::prelude::*;
use vstd::string::StringExecFns;
use crate::client::api::ApiError;
use crate::client::organizations::Organization;
use crate::models::Id;

verus! {

/// The organizations known to the user interface.
#[derive(Debug)]
pub struct OrganizationContext {
    pub organizations: Vec<Organization>,
    pub current_org: Option<Organization>,
    pub is_loading: bool,
    pub error: Option<String>,
}

/// The first of the organizations with this identifier.
pub open spec fn first_with_id(organizations: Seq<Organization>, org_id: Id) -> Option<
    Organization,
>
    decreases organizations.len(),
{
    if organizations.len() == 0 {
        None
    } else if organizations[0].id == org_id {
        Some(organizations[0])
    } else {
        first_with_id(organizations.drop_first(), org_id)
    }
}

/// The organization that is selected after a list was loaded: the one that was
/// selected before, or the first of the list where none was.
pub open spec fn selected_after_load(before: Option<Organization>, loaded: Seq<Organization>) -> Option<
    Organization,
> {
    if before is None && loaded.len() > 0 {
        Some(loaded[0])
    } else {
        before
    }
}

impl OrganizationContext {
    /// The state at the start: no organizations, none selected, nothing under
    /// way, no error.
    pub fn new() -> (context: OrganizationContext)
        ensures
            context.organizations@.len() == 0,
            context.current_org is None,
            !context.is_loading,
            context.error is None,
    {
        OrganizationContext {
            organizations: Vec::new(),
            current_org: None,
            is_loading: false,
            error: None,
        }
    }

    /// Marks a request as under way and forgets the last error.
    pub fn begin(&mut self)
        ensures
            final(self).is_loading,
            final(self).error is None,
            final(self).organizations == old(self).organizations,
            final(self).current_org == old(self).current_org,
    {
        self.is_loading = true;
        self.error = None;
    }

    /// Takes the answer to the request for the organizations of the user. A
    /// list that came replaces the known one, and its first entry is selected
    /// where none was selected. A failure is recorded.
    pub fn load_organizations(&mut self, answer: Result<Vec<Organization>, ApiError>)
        ensures
            !final(self).is_loading,
            match answer {
                Ok(loaded) => {
                    &&& final(self).organizations@ == loaded@
                    &&& final(self).current_org == selected_after_load(
                        old(self).current_org,
                        loaded@,
                    )
                    &&& final(self).error == old(self).error
                },
                Err(e) => {
                    &&& final(self).organizations == old(self).organizations
                    &&& final(self).current_org == old(self).current_org
                    &&& final(self).error matches Some(m)
                    &&& m@ == "Failed to load organizations: "@ + e.message@
                },
            },
    {
        match answer {
            Ok(loaded) => {
                if self.current_org.is_none() && loaded.len() > 0 {
                    self.current_org = Some(loaded[0].clone());
                }
                self.organizations = loaded;
            },
            Err(e) => {
                self.error = Some(
                    String::from_str("Failed to load organizations: ").concat(e.message.as_str()),
                );
            },
        }
        self.is_loading = false;
    }

    /// Takes the answer to the creation of an organization. An organization
    /// that came joins the known ones and is selected; a failure is recorded and
    /// handed back as its message.
    pub fn create_organization(&mut self, answer: Result<Organization, ApiError>) -> (outcome: Result<
        Organization,
        String,
    >)
        ensures
            !final(self).is_loading,
            match answer {
                Ok(created) => {
                    &&& outcome == Ok::<Organization, String>(created)
                    &&& final(self).organizations@ == old(self).organizations@.push(created)
                    &&& final(self).current_org == Some(created)
                    &&& final(self).error == old(self).error
                },
                Err(e) => {
                    &&& outcome matches Err(m)
                    &&& m@ == "Failed to create organization: "@ + e.message@
                    &&& final(self).error == Some(m)
                    &&& final(self).organizations == old(self).organizations
                    &&& final(self).current_org == old(self).current_org
                },
            },
    {
        match answer {
            Ok(created) => {
                self.organizations.push(created.clone());
                self.current_org = Some(created.clone());
                self.is_loading = false;
                Ok(created)
            },
            Err(e) => {
                let message = String::from_str("Failed to create organization: ").concat(
                    e.message.as_str(),
                );
                self.error = Some(message.clone());
                self.is_loading = false;
                Err(message)
            },
        }
    }

    /// Selects an organization.
    pub fn set_current_organization(&mut self, org: Organization)
        ensures
            final(self).current_org == Some(org),
            final(self).organizations == old(self).organizations,
            final(self).is_loading == old(self).is_loading,
            final(self).error == old(self).error,
    {
        self.current_org = Some(org);
    }

    /// Selects the first of the known organizations with this identifier. Where
    /// none has it, the selection stays as it is.
    pub fn set_current_organization_by_id(&mut self, org_id: Id)
        ensures
            final(self).current_org == match first_with_id(old(self).organizations@, org_id) {
                Some(found) => Some(found),
                None => old(self).current_org,
            },
            final(self).organizations == old(self).organizations,
            final(self).is_loading == old(self).is_loading,
            final(self).error == old(self).error,
    {
        let mut i: usize = 0;
        assert(self.organizations@.subrange(0, self.organizations@.len() as int)
            =~= self.organizations@);
        while i < self.organizations.len()
            invariant
                i <= self.organizations.len(),
                self.organizations == old(self).organizations,
                self.current_org == old(self).current_org,
                self.is_loading == old(self).is_loading,
                self.error == old(self).error,
                first_with_id(self.organizations@, org_id) == first_with_id(
                    self.organizations@.subrange(i as int, self.organizations@.len() as int),
                    org_id,
                ),
            decreases self.organizations.len() - i,
        {
            let ghost rest = self.organizations@.subrange(
                i as int,
                self.organizations@.len() as int,
            );
            assert(rest[0] == self.organizations@[i as int]);
            if self.organizations[i].id == org_id {
                self.current_org = Some(self.organizations[i].clone());
                return;
            }
            assert(rest.drop_first() =~= self.organizations@.subrange(
                i + 1,
                self.organizations@.len() as int,
            ));
            i += 1;
        }
        assert(self.organizations@.subrange(i as int, self.organizations@.len() as int).len() == 0);
    }
}

} // verus!
