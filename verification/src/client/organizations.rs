//! Organizations as the client knows them, and the endpoints that serve them.

use vstd::prelude::*;
use vstd::string::StringExecFns;
use crate::ident::{id_to_text, uuid_text};
use crate::models::{Id, Timestamp};
use crate::text::clone_optional_text;

verus! {

/// An organization as the interface sends it, with the caller's role.
#[derive(Debug)]
pub struct Organization {
    pub id: Id,
    pub name: String,
    pub slug: String,
    pub description: Option<String>,
    pub logo_url: Option<String>,
    pub website: Option<String>,
    pub is_active: bool,
    pub role: Option<String>,
}

impl Clone for Organization {
    fn clone(&self) -> (copy: Self)
        ensures
            copy == *self,
    {
        Organization {
            id: self.id,
            name: self.name.clone(),
            slug: self.slug.clone(),
            description: clone_optional_text(&self.description),
            logo_url: clone_optional_text(&self.logo_url),
            website: clone_optional_text(&self.website),
            is_active: self.is_active,
            role: clone_optional_text(&self.role),
        }
    }
}

/// A member of an organization as the interface sends it.
#[derive(Debug)]
pub struct OrganizationMember {
    pub id: Id,
    pub user_id: Id,
    pub user_email: String,
    pub user_first_name: Option<String>,
    pub user_last_name: Option<String>,
    pub role: String,
    pub joined_at: Timestamp,
}

/// The body of a request to create an organization.
#[derive(Debug)]
pub struct CreateOrganizationRequest {
    pub name: String,
    pub slug: String,
    pub description: Option<String>,
}

/// The endpoint of the organizations of the caller, and of their creation.
pub open spec fn organizations_endpoint() -> Seq<char> {
    "/api/organizations"@
}

/// The endpoint of one organization.
pub open spec fn organization_endpoint(org_id: Id) -> Seq<char> {
    "/api/organizations/"@ + uuid_text(org_id)
}

/// The endpoint of the members of an organization.
pub open spec fn members_endpoint(org_id: Id) -> Seq<char> {
    "/api/organizations/"@ + uuid_text(org_id) + "/members"@
}

/// The endpoint that lists the organizations of the caller.
pub fn get_my_organizations() -> (endpoint: String)
    ensures
        endpoint@ == organizations_endpoint(),
{
    String::from_str("/api/organizations")
}

/// The request that creates an organization: its endpoint and its body.
pub fn create_organization(name: String, slug: String, description: Option<String>) -> (request: (
    String,
    CreateOrganizationRequest,
))
    ensures
        request.0@ == organizations_endpoint(),
        request.1 == (CreateOrganizationRequest { name, slug, description }),
{
    (String::from_str("/api/organizations"), CreateOrganizationRequest { name, slug, description })
}

/// The endpoint that answers with one organization.
pub fn get_organization(org_id: Id) -> (endpoint: String)
    ensures
        endpoint@ == organization_endpoint(org_id),
{
    String::from_str("/api/organizations/").concat(id_to_text(org_id).as_str())
}

/// The endpoint that lists the members of an organization.
pub fn get_organization_members(org_id: Id) -> (endpoint: String)
    ensures
        endpoint@ == members_endpoint(org_id),
{
    String::from_str("/api/organizations/").concat(id_to_text(org_id).as_str()).concat("/members")
}

} // verus!
