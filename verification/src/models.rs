//! The entities of the tracker and the role enumeration.
//!
//! Identifiers are opaque 128-bit values. Instants are counted in microseconds
//! since the Unix epoch, in UTC.

use vstd::prelude::*;
use vstd::std_specs::convert::FromSpecImpl;
use crate::text::{clone_optional_text, same_text};

verus! {

/// An opaque, globally unique identifier.
pub type Id = u128;

/// An instant: microseconds since the Unix epoch, UTC.
pub type Timestamp = i64;

/// A registered person.
#[derive(Debug)]
pub struct User {
    pub id: Id,
    pub email: String,
    pub password_hash: String,
    pub first_name: Option<String>,
    pub last_name: Option<String>,
    pub is_active: bool,
    pub is_email_verified: bool,
    pub email_verified_at: Option<Timestamp>,
    pub last_login_at: Option<Timestamp>,
    pub created_at: Timestamp,
    pub updated_at: Timestamp,
}

/// A tenant: the owner of projects.
#[derive(Debug)]
pub struct Organization {
    pub id: Id,
    pub name: String,
    pub slug: String,
    pub description: Option<String>,
    pub logo_url: Option<String>,
    pub website: Option<String>,
    pub is_active: bool,
    pub created_at: Timestamp,
    pub updated_at: Timestamp,
}

/// The grant of a role in an organization to a user.
#[derive(Debug)]
pub struct OrganizationMember {
    pub id: Id,
    pub organization_id: Id,
    pub user_id: Id,
    pub role: String,
    pub invited_by: Option<Id>,
    pub joined_at: Timestamp,
}

/// A project of one organization.
#[derive(Debug)]
pub struct Project {
    pub id: Id,
    pub organization_id: Id,
    pub name: String,
    pub slug: String,
    pub description: Option<String>,
    pub status: String,
    pub color: Option<String>,
    pub created_by: Id,
    pub created_at: Timestamp,
    pub updated_at: Timestamp,
}

/// A per-project membership record.
#[derive(Debug)]
pub struct ProjectMember {
    pub id: Id,
    pub project_id: Id,
    pub user_id: Id,
    pub role: String,
    pub added_by: Option<Id>,
    pub added_at: Timestamp,
}

/// A unit of work in a project.
#[derive(Debug)]
pub struct Task {
    pub id: Id,
    pub project_id: Id,
    pub title: String,
    pub description: Option<String>,
    pub status: String,
    pub priority: String,
    pub assigned_to: Option<Id>,
    pub created_by: Id,
    pub due_date: Option<Timestamp>,
    pub completed_at: Option<Timestamp>,
    pub position: i32,
    pub created_at: Timestamp,
    pub updated_at: Timestamp,
}

/// A remark on a task.
#[derive(Debug)]
pub struct TaskComment {
    pub id: Id,
    pub task_id: Id,
    pub user_id: Id,
    pub content: String,
    pub created_at: Timestamp,
    pub updated_at: Timestamp,
}

/// A file attached to a task.
#[derive(Debug)]
pub struct TaskAttachment {
    pub id: Id,
    pub task_id: Id,
    pub user_id: Id,
    pub filename: String,
    pub file_path: String,
    pub file_size: i64,
    pub mime_type: String,
    pub created_at: Timestamp,
}

/// The authenticated principal of a request: the subject of its token.
#[derive(Debug)]
pub struct AuthUser {
    pub user_id: String,
}

impl Clone for User {
    fn clone(&self) -> (copy: Self)
        ensures
            copy == *self,
    {
        User {
            id: self.id,
            email: self.email.clone(),
            password_hash: self.password_hash.clone(),
            first_name: clone_optional_text(&self.first_name),
            last_name: clone_optional_text(&self.last_name),
            is_active: self.is_active,
            is_email_verified: self.is_email_verified,
            email_verified_at: self.email_verified_at,
            last_login_at: self.last_login_at,
            created_at: self.created_at,
            updated_at: self.updated_at,
        }
    }
}

impl Clone for Organization {
    fn clone(&self) -> (copy: Self)
        ensures
            copy == *self,
    {
        Organization {
            id: self.id,
            name: self.name.clone(),
            slug: self.slug.clone(),
            description: clone_optional_text(&self.description),
            logo_url: clone_optional_text(&self.logo_url),
            website: clone_optional_text(&self.website),
            is_active: self.is_active,
            created_at: self.created_at,
            updated_at: self.updated_at,
        }
    }
}

impl Clone for OrganizationMember {
    fn clone(&self) -> (copy: Self)
        ensures
            copy == *self,
    {
        OrganizationMember {
            id: self.id,
            organization_id: self.organization_id,
            user_id: self.user_id,
            role: self.role.clone(),
            invited_by: self.invited_by,
            joined_at: self.joined_at,
        }
    }
}

impl Clone for Project {
    fn clone(&self) -> (copy: Self)
        ensures
            copy == *self,
    {
        Project {
            id: self.id,
            organization_id: self.organization_id,
            name: self.name.clone(),
            slug: self.slug.clone(),
            description: clone_optional_text(&self.description),
            status: self.status.clone(),
            color: clone_optional_text(&self.color),
            created_by: self.created_by,
            created_at: self.created_at,
            updated_at: self.updated_at,
        }
    }
}

impl Clone for Task {
    fn clone(&self) -> (copy: Self)
        ensures
            copy == *self,
    {
        Task {
            id: self.id,
            project_id: self.project_id,
            title: self.title.clone(),
            description: clone_optional_text(&self.description),
            status: self.status.clone(),
            priority: self.priority.clone(),
            assigned_to: self.assigned_to,
            created_by: self.created_by,
            due_date: self.due_date,
            completed_at: self.completed_at,
            position: self.position,
            created_at: self.created_at,
            updated_at: self.updated_at,
        }
    }
}

impl Clone for TaskComment {
    fn clone(&self) -> (copy: Self)
        ensures
            copy == *self,
    {
        TaskComment {
            id: self.id,
            task_id: self.task_id,
            user_id: self.user_id,
            content: self.content.clone(),
            created_at: self.created_at,
            updated_at: self.updated_at,
        }
    }
}

impl Clone for AuthUser {
    fn clone(&self) -> (copy: Self)
        ensures
            copy == *self,
    {
        AuthUser { user_id: self.user_id.clone() }
    }
}

/// The body of a request to create a user.
#[derive(Debug)]
pub struct CreateUserRequest {
    pub email: String,
    pub password: String,
    pub first_name: Option<String>,
    pub last_name: Option<String>,
}

/// A user as sent to clients: the credential is left out.
#[derive(Debug)]
pub struct UserResponse {
    pub id: Id,
    pub email: String,
    pub first_name: Option<String>,
    pub last_name: Option<String>,
    pub is_active: bool,
    pub is_email_verified: bool,
    pub created_at: Timestamp,
}

/// The body of a request to create an organization.
#[derive(Debug)]
pub struct CreateOrganizationRequest {
    pub name: String,
    pub slug: String,
    pub description: Option<String>,
}

/// An organization as sent to clients.
#[derive(Debug)]
pub struct OrganizationResponse {
    pub id: Id,
    pub name: String,
    pub slug: String,
    pub description: Option<String>,
    pub created_at: Timestamp,
}

/// The body of a request to create a project.
#[derive(Debug)]
pub struct CreateProjectRequest {
    pub name: String,
    pub slug: String,
    pub description: Option<String>,
    pub status: Option<String>,
    pub color: Option<String>,
}

/// The body of a partial update of a project.
#[derive(Debug)]
pub struct UpdateProjectRequest {
    pub name: Option<String>,
    pub description: Option<String>,
    pub status: Option<String>,
    pub color: Option<String>,
}

/// A project as sent to clients.
#[derive(Debug)]
pub struct ProjectResponse {
    pub id: Id,
    pub organization_id: Id,
    pub name: String,
    pub slug: String,
    pub description: Option<String>,
    pub status: String,
    pub color: Option<String>,
    pub created_by: Id,
    pub created_at: Timestamp,
    pub updated_at: Timestamp,
}

/// The body of a request to create a task.
#[derive(Debug)]
pub struct CreateTaskRequest {
    pub title: String,
    pub description: Option<String>,
    pub status: Option<String>,
    pub priority: Option<String>,
    pub assigned_to: Option<Id>,
    pub due_date: Option<Timestamp>,
}

/// The body of a partial update of a task.
#[derive(Debug)]
pub struct UpdateTaskRequest {
    pub title: Option<String>,
    pub description: Option<String>,
    pub status: Option<String>,
    pub priority: Option<String>,
    pub assigned_to: Option<Id>,
    pub due_date: Option<Timestamp>,
    pub position: Option<i32>,
}

/// A task as sent to clients.
#[derive(Debug)]
pub struct TaskResponse {
    pub id: Id,
    pub project_id: Id,
    pub title: String,
    pub description: Option<String>,
    pub status: String,
    pub priority: String,
    pub assigned_to: Option<Id>,
    pub created_by: Id,
    pub due_date: Option<Timestamp>,
    pub completed_at: Option<Timestamp>,
    pub position: i32,
    pub created_at: Timestamp,
    pub updated_at: Timestamp,
}

/// The body of a request to comment on a task.
#[derive(Debug)]
pub struct CreateCommentRequest {
    pub content: String,
}

/// A comment as sent to clients.
#[derive(Debug)]
pub struct CommentResponse {
    pub id: Id,
    pub task_id: Id,
    pub user_id: Id,
    pub content: String,
    pub created_at: Timestamp,
    pub updated_at: Timestamp,
}

impl From<User> for UserResponse {
    /// Maps a user to what clients may see of it.
    fn from(user: User) -> (response: UserResponse) {
        UserResponse {
            id: user.id,
            email: user.email,
            first_name: user.first_name,
            last_name: user.last_name,
            is_active: user.is_active,
            is_email_verified: user.is_email_verified,
            created_at: user.created_at,
        }
    }
}

/// What clients may see of a user: everything but the credential and the times
/// of verification, login and update.
pub open spec fn user_response(user: User) -> UserResponse {
    UserResponse {
        id: user.id,
        email: user.email,
        first_name: user.first_name,
        last_name: user.last_name,
        is_active: user.is_active,
        is_email_verified: user.is_email_verified,
        created_at: user.created_at,
    }
}

impl FromSpecImpl<User> for UserResponse {
    open spec fn obeys_from_spec() -> bool {
        true
    }

    open spec fn from_spec(user: User) -> UserResponse {
        user_response(user)
    }
}

impl From<Organization> for OrganizationResponse {
    /// Maps an organization to what clients see of it.
    fn from(org: Organization) -> (response: OrganizationResponse) {
        OrganizationResponse {
            id: org.id,
            name: org.name,
            slug: org.slug,
            description: org.description,
            created_at: org.created_at,
        }
    }
}

/// What clients see of an organization.
pub open spec fn organization_summary(org: Organization) -> OrganizationResponse {
    OrganizationResponse {
        id: org.id,
        name: org.name,
        slug: org.slug,
        description: org.description,
        created_at: org.created_at,
    }
}

impl FromSpecImpl<Organization> for OrganizationResponse {
    open spec fn obeys_from_spec() -> bool {
        true
    }

    open spec fn from_spec(org: Organization) -> OrganizationResponse {
        organization_summary(org)
    }
}

impl From<Project> for ProjectResponse {
    /// Maps a project to what clients see of it.
    fn from(project: Project) -> (response: ProjectResponse) {
        ProjectResponse {
            id: project.id,
            organization_id: project.organization_id,
            name: project.name,
            slug: project.slug,
            description: project.description,
            status: project.status,
            color: project.color,
            created_by: project.created_by,
            created_at: project.created_at,
            updated_at: project.updated_at,
        }
    }
}

/// What clients see of a project.
pub open spec fn project_response(project: Project) -> ProjectResponse {
    ProjectResponse {
        id: project.id,
        organization_id: project.organization_id,
        name: project.name,
        slug: project.slug,
        description: project.description,
        status: project.status,
        color: project.color,
        created_by: project.created_by,
        created_at: project.created_at,
        updated_at: project.updated_at,
    }
}

impl FromSpecImpl<Project> for ProjectResponse {
    open spec fn obeys_from_spec() -> bool {
        true
    }

    open spec fn from_spec(project: Project) -> ProjectResponse {
        project_response(project)
    }
}

impl From<Task> for TaskResponse {
    /// Maps a task to what clients see of it.
    fn from(task: Task) -> (response: TaskResponse) {
        TaskResponse {
            id: task.id,
            project_id: task.project_id,
            title: task.title,
            description: task.description,
            status: task.status,
            priority: task.priority,
            assigned_to: task.assigned_to,
            created_by: task.created_by,
            due_date: task.due_date,
            completed_at: task.completed_at,
            position: task.position,
            created_at: task.created_at,
            updated_at: task.updated_at,
        }
    }
}

/// What clients see of a task.
pub open spec fn task_response(task: Task) -> TaskResponse {
    TaskResponse {
        id: task.id,
        project_id: task.project_id,
        title: task.title,
        description: task.description,
        status: task.status,
        priority: task.priority,
        assigned_to: task.assigned_to,
        created_by: task.created_by,
        due_date: task.due_date,
        completed_at: task.completed_at,
        position: task.position,
        created_at: task.created_at,
        updated_at: task.updated_at,
    }
}

impl FromSpecImpl<Task> for TaskResponse {
    open spec fn obeys_from_spec() -> bool {
        true
    }

    open spec fn from_spec(task: Task) -> TaskResponse {
        task_response(task)
    }
}

impl From<TaskComment> for CommentResponse {
    /// Maps a comment to what clients see of it.
    fn from(comment: TaskComment) -> (response: CommentResponse) {
        CommentResponse {
            id: comment.id,
            task_id: comment.task_id,
            user_id: comment.user_id,
            content: comment.content,
            created_at: comment.created_at,
            updated_at: comment.updated_at,
        }
    }
}

/// What clients see of a comment.
pub open spec fn comment_response(comment: TaskComment) -> CommentResponse {
    CommentResponse {
        id: comment.id,
        task_id: comment.task_id,
        user_id: comment.user_id,
        content: comment.content,
        created_at: comment.created_at,
        updated_at: comment.updated_at,
    }
}

impl FromSpecImpl<TaskComment> for CommentResponse {
    open spec fn obeys_from_spec() -> bool {
        true
    }

    open spec fn from_spec(comment: TaskComment) -> CommentResponse {
        comment_response(comment)
    }
}

/// The role a member holds in an organization.
#[derive(Debug, Clone, Copy, PartialEq, Eq, Structural)]
pub enum MemberRole {
    Owner,
    Admin,
    Manager,
    Member,
}

/// The name under which a role is stored.
pub open spec fn role_name(role: MemberRole) -> Seq<char> {
    match role {
        MemberRole::Owner => "owner"@,
        MemberRole::Admin => "admin"@,
        MemberRole::Manager => "manager"@,
        MemberRole::Member => "member"@,
    }
}

/// The role that a stored name denotes, if it denotes one.
pub open spec fn role_named(name: Seq<char>) -> Option<MemberRole> {
    if name == "owner"@ {
        Some(MemberRole::Owner)
    } else if name == "admin"@ {
        Some(MemberRole::Admin)
    } else if name == "manager"@ {
        Some(MemberRole::Manager)
    } else if name == "member"@ {
        Some(MemberRole::Member)
    } else {
        None
    }
}

impl MemberRole {
    /// The name under which this role is stored.
    pub fn as_str(&self) -> (name: &str)
        ensures
            name@ == role_name(*self),
    {
        match self {
            MemberRole::Owner => "owner",
            MemberRole::Admin => "admin",
            MemberRole::Manager => "manager",
            MemberRole::Member => "member",
        }
    }

    /// Reads a role from its stored name. The match is exact: the case of the
    /// letters counts, and a name that is none of the four is rejected.
    pub fn from_str(s: &str) -> (role: Option<MemberRole>)
        ensures
            role == role_named(s@),
    {
        if same_text(s, "owner") {
            Some(MemberRole::Owner)
        } else if same_text(s, "admin") {
            Some(MemberRole::Admin)
        } else if same_text(s, "manager") {
            Some(MemberRole::Manager)
        } else if same_text(s, "member") {
            Some(MemberRole::Member)
        } else {
            None
        }
    }

    /// The name of this role as an owned string.
    pub fn to_text(&self) -> (name: String)
        ensures
            name@ == role_name(*self),
    {
        self.as_str().to_owned()
    }
}

/// Reading the stored name of a role gives the role back.
pub proof fn lemma_role_name_round_trip(role: MemberRole)
    ensures
        role_named(role_name(role)) == Some(role),
{
    reveal_strlit("owner");
    reveal_strlit("admin");
    reveal_strlit("manager");
    reveal_strlit("member");
    assert("owner"@.len() == 5);
    assert("admin"@[0] == 'a');
    assert("owner"@[0] == 'o');
    assert("manager"@.len() == 7);
    assert("member"@.len() == 6);
}

/// A role that is written under its stored name is read back as the same role:
/// whatever `as_str` returns for a role, `from_str` reads as that role.
pub proof fn stored_role_reads_back(role: MemberRole, name: &str, read: Option<MemberRole>)
    requires
        call_ensures(MemberRole::as_str, (&role,), name),
        call_ensures(MemberRole::from_str, (name,), read),
    ensures
        read == Some(role),
{
    lemma_role_name_round_trip(role);
}

/// A role is read only from its own stored name: whatever `from_str` reads as a
/// role is the name that `as_str` gives for that role.
pub proof fn read_role_has_its_name(s: Seq<char>, role: MemberRole)
    requires
        role_named(s) == Some(role),
    ensures
        role_name(role) == s,
{
}

} // verus!
