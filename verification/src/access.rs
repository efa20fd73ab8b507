//! The authorization rules: who may do what to which resource.
//!
//! Access to a project or a task is derived from the organization that owns it:
//! a user may touch a resource exactly when a membership joins the user to that
//! organization. Every member may read, create, update and comment. Deleting a
//! project takes the role of an owner or an admin. A caller who is no member
//! learns nothing by reading or deleting: the resource is reported as not found.
//! Creating and updating are reported as forbidden.

use vstd::prelude::*;
use vstd::string::StringExecFns;
use crate::error::{AppError, ErrorView};
use crate::ident::{parse_id, uuid_parsed};
use crate::models::{AuthUser, Id};
use crate::text::same_text;

verus! {

/// The operations that are subject to authorization.
#[derive(Debug, Clone, Copy, PartialEq, Eq, Structural)]
pub enum Operation {
    ViewOrganization,
    ListMembers,
    CreateProject,
    ListProjects,
    ViewProject,
    UpdateProject,
    DeleteProject,
    CreateTask,
    ListTasks,
    ViewTask,
    UpdateTask,
    DeleteTask,
    CreateComment,
    ListComments,
}

/// The kinds of resource that a request names.
#[derive(Debug, Clone, Copy, PartialEq, Eq, Structural)]
pub enum ResourceKind {
    Organization,
    Project,
    Task,
}

/// The end of the resolution of a request.
#[derive(Debug, Clone, Copy, PartialEq, Eq, Structural)]
pub enum Access {
    /// The operation may proceed.
    Permitted,
    /// The caller is a member, or is told that membership is missing, and may
    /// not do this.
    Forbidden,
    /// The caller is no member and is told that there is no such resource.
    NotFound,
}

/// The kind of resource whose identifier a request for this operation carries.
pub open spec fn resource_of(op: Operation) -> ResourceKind {
    match op {
        Operation::ViewOrganization
        | Operation::ListMembers
        | Operation::CreateProject
        | Operation::ListProjects => ResourceKind::Organization,
        Operation::ViewProject
        | Operation::UpdateProject
        | Operation::DeleteProject
        | Operation::CreateTask
        | Operation::ListTasks => ResourceKind::Project,
        Operation::ViewTask
        | Operation::UpdateTask
        | Operation::DeleteTask
        | Operation::CreateComment
        | Operation::ListComments => ResourceKind::Task,
    }
}

/// Whether a caller who is no member is told that the resource does not exist.
pub open spec fn hides_resource(op: Operation) -> bool {
    match op {
        Operation::ViewOrganization
        | Operation::ListMembers
        | Operation::ListProjects
        | Operation::ViewProject
        | Operation::DeleteProject
        | Operation::ListTasks
        | Operation::ViewTask
        | Operation::DeleteTask
        | Operation::ListComments => true,
        Operation::CreateProject
        | Operation::UpdateProject
        | Operation::CreateTask
        | Operation::UpdateTask
        | Operation::CreateComment => false,
    }
}

/// Whether the operation takes more than membership.
pub open spec fn needs_elevated_role(op: Operation) -> bool {
    op == Operation::DeleteProject
}

/// The roles that may do what takes more than membership. The comparison is
/// exact: the case of the letters counts.
pub open spec fn is_elevated(role: Seq<char>) -> bool {
    role == "owner"@ || role == "admin"@
}

/// The decision for an operation, given the caller's role in the organization
/// that owns the resource (`None` where the caller is no member, or the resource
/// does not exist).
pub open spec fn decision(op: Operation, role: Option<Seq<char>>) -> Access {
    match role {
        None => if hides_resource(op) {
            Access::NotFound
        } else {
            Access::Forbidden
        },
        Some(r) => if needs_elevated_role(op) && !is_elevated(r) {
            Access::Forbidden
        } else {
            Access::Permitted
        },
    }
}

/// The characters of an optional role.
pub open spec fn role_text(role: Option<String>) -> Option<Seq<char>> {
    match role {
        Some(r) => Some(r@),
        None => None,
    }
}

/// The word for a kind of resource.
pub open spec fn resource_noun(kind: ResourceKind) -> Seq<char> {
    match kind {
        ResourceKind::Organization => "organization"@,
        ResourceKind::Project => "project"@,
        ResourceKind::Task => "task"@,
    }
}

/// What a caller is told who lacks access to a resource of this kind.
pub open spec fn no_access_message(kind: ResourceKind) -> Seq<char> {
    "You don't have access to this "@ + resource_noun(kind)
}

/// What a caller who is no member is told.
pub open spec fn stranger_message(op: Operation) -> Seq<char> {
    match op {
        Operation::ViewOrganization | Operation::ListMembers | Operation::ListProjects =>
            "Organization not found or you don't have access"@,
        Operation::CreateProject => "You are not a member of this organization"@,
        Operation::ViewProject | Operation::DeleteProject | Operation::ListTasks =>
            "Project not found"@,
        Operation::UpdateProject | Operation::CreateTask => no_access_message(
            ResourceKind::Project,
        ),
        Operation::ViewTask | Operation::DeleteTask | Operation::ListComments => "Task not found"@,
        Operation::UpdateTask | Operation::CreateComment => no_access_message(ResourceKind::Task),
    }
}

/// What a member whose role does not suffice is told.
pub open spec fn member_message() -> Seq<char> {
    "Only organization owners and admins can delete projects"@
}

/// The error that a refused request ends with.
pub open spec fn refusal(op: Operation, role: Option<Seq<char>>) -> ErrorView {
    match role {
        None => if hides_resource(op) {
            ErrorView::NotFound(stranger_message(op))
        } else {
            ErrorView::Authorization(stranger_message(op))
        },
        Some(_) => ErrorView::Authorization(member_message()),
    }
}

/// Whether `role` is that of an owner or an admin.
pub fn role_is_elevated(role: &str) -> (elevated: bool)
    ensures
        elevated == is_elevated(role@),
{
    same_text(role, "owner") || same_text(role, "admin")
}

/// Decides an operation from the caller's role in the organization that owns
/// the resource.
pub fn decide(op: Operation, role: &Option<String>) -> (access: Access)
    ensures
        access == decision(op, role_text(*role)),
{
    match role {
        None => match op {
            Operation::ViewOrganization
            | Operation::ListMembers
            | Operation::ListProjects
            | Operation::ViewProject
            | Operation::DeleteProject
            | Operation::ListTasks
            | Operation::ViewTask
            | Operation::DeleteTask
            | Operation::ListComments => Access::NotFound,
            Operation::CreateProject
            | Operation::UpdateProject
            | Operation::CreateTask
            | Operation::UpdateTask
            | Operation::CreateComment => Access::Forbidden,
        },
        Some(r) => match op {
            Operation::DeleteProject => if role_is_elevated(r.as_str()) {
                Access::Permitted
            } else {
                Access::Forbidden
            },
            _ => Access::Permitted,
        },
    }
}

/// The text for a caller who lacks access to a resource of this kind.
fn no_access_text(kind: ResourceKind) -> (text: String)
    ensures
        text@ == no_access_message(kind),
{
    let prefix = String::from_str("You don't have access to this ");
    match kind {
        ResourceKind::Organization => prefix.concat("organization"),
        ResourceKind::Project => prefix.concat("project"),
        ResourceKind::Task => prefix.concat("task"),
    }
}

/// The text for a caller who is no member.
fn stranger_text(op: Operation) -> (text: String)
    ensures
        text@ == stranger_message(op),
{
    match op {
        Operation::ViewOrganization | Operation::ListMembers | Operation::ListProjects =>
            String::from_str("Organization not found or you don't have access"),
        Operation::CreateProject => String::from_str("You are not a member of this organization"),
        Operation::ViewProject | Operation::DeleteProject | Operation::ListTasks =>
            String::from_str("Project not found"),
        Operation::UpdateProject | Operation::CreateTask => no_access_text(ResourceKind::Project),
        Operation::ViewTask | Operation::DeleteTask | Operation::ListComments => String::from_str(
            "Task not found",
        ),
        Operation::UpdateTask | Operation::CreateComment => no_access_text(ResourceKind::Task),
    }
}

/// Lets an operation pass or ends the request: a permitted operation proceeds,
/// any other ends with the error for its refusal.
pub fn authorize(op: Operation, role: &Option<String>) -> (verdict: Result<(), AppError>)
    ensures
        match verdict {
            Ok(()) => decision(op, role_text(*role)) == Access::Permitted,
            Err(e) => decision(op, role_text(*role)) != Access::Permitted && e@ == refusal(
                op,
                role_text(*role),
            ),
        },
{
    match decide(op, role) {
        Access::Permitted => Ok(()),
        Access::NotFound => Err(AppError::NotFound(stranger_text(op))),
        Access::Forbidden => match role {
            None => Err(AppError::Authorization(stranger_text(op))),
            Some(_) => Err(
                AppError::Authorization(
                    String::from_str("Only organization owners and admins can delete projects"),
                ),
            ),
        },
    }
}

/// How the handlers of one resource report a principal that is no identifier.
#[derive(Debug, Clone, Copy, PartialEq, Eq, Structural)]
pub enum PrincipalFault {
    /// As an internal error: the handlers of organizations.
    Internal,
    /// As an authentication error: all other handlers.
    Authentication,
}

/// The error for a principal that is no identifier.
pub open spec fn principal_error(fault: PrincipalFault) -> ErrorView {
    match fault {
        PrincipalFault::Internal => ErrorView::InternalServerError("Invalid user ID"@),
        PrincipalFault::Authentication => ErrorView::Authentication("Invalid user ID"@),
    }
}

/// Reads the identifier of the authenticated user from the request context.
pub fn principal(auth: &AuthUser, fault: PrincipalFault) -> (user_id: Result<Id, AppError>)
    ensures
        match user_id {
            Ok(id) => uuid_parsed(auth.user_id@) == Some(id),
            Err(e) => uuid_parsed(auth.user_id@) is None && e@ == principal_error(fault),
        },
{
    match parse_id(auth.user_id.as_str()) {
        Some(id) => Ok(id),
        None => match fault {
            PrincipalFault::Internal => Err(
                AppError::InternalServerError(String::from_str("Invalid user ID")),
            ),
            PrincipalFault::Authentication => Err(
                AppError::Authentication(String::from_str("Invalid user ID")),
            ),
        },
    }
}

} // verus!
