//! Projects as the client knows them, and the endpoints that serve them.

use vstd::prelude::*;
use vstd::string::StringExecFns;
use crate::models::{Id, Timestamp};

verus! {

/// A project as the interface sends it.
#[derive(Debug)]
pub struct Project {
    pub id: Id,
    pub organization_id: Id,
    pub name: String,
    pub slug: String,
    pub description: Option<String>,
    pub status: String,
    pub color: Option<String>,
    pub created_by: Id,
    pub created_at: Timestamp,
    pub updated_at: Timestamp,
}

/// The body of a request to create a project.
#[derive(Debug)]
pub struct CreateProjectRequest {
    pub name: String,
    pub slug: String,
    pub description: Option<String>,
    pub status: Option<String>,
    pub color: Option<String>,
}

/// The body of a partial update of a project.
#[derive(Debug)]
pub struct UpdateProjectRequest {
    pub name: Option<String>,
    pub description: Option<String>,
    pub status: Option<String>,
    pub color: Option<String>,
}

/// The endpoint of the projects of an organization, and of their creation.
pub open spec fn projects_endpoint(org_id: Seq<char>) -> Seq<char> {
    "/api/organizations/"@ + org_id + "/projects"@
}

/// The endpoint of one project.
pub open spec fn project_endpoint(project_id: Seq<char>) -> Seq<char> {
    "/api/projects/"@ + project_id
}

/// The endpoint that lists the projects of an organization.
pub fn get_organization_projects(org_id: &str) -> (endpoint: String)
    ensures
        endpoint@ == projects_endpoint(org_id@),
{
    String::from_str("/api/organizations/").concat(org_id).concat("/projects")
}

/// The request that creates a project in an organization: its endpoint and its
/// body.
pub fn create_project(org_id: &str, request: CreateProjectRequest) -> (sent: (
    String,
    CreateProjectRequest,
))
    ensures
        sent.0@ == projects_endpoint(org_id@),
        sent.1 == request,
{
    (String::from_str("/api/organizations/").concat(org_id).concat("/projects"), request)
}

/// The endpoint that answers with one project.
pub fn get_project(project_id: &str) -> (endpoint: String)
    ensures
        endpoint@ == project_endpoint(project_id@),
{
    String::from_str("/api/projects/").concat(project_id)
}

/// The request that updates a project: its endpoint and its body.
pub fn update_project(project_id: &str, request: UpdateProjectRequest) -> (sent: (
    String,
    UpdateProjectRequest,
))
    ensures
        sent.0@ == project_endpoint(project_id@),
        sent.1 == request,
{
    (String::from_str("/api/projects/").concat(project_id), request)
}

/// The endpoint that deletes a project.
pub fn delete_project(project_id: &str) -> (endpoint: String)
    ensures
        endpoint@ == project_endpoint(project_id@),
{
    String::from_str("/api/projects/").concat(project_id)
}

} // verus!
