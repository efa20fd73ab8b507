//! The entity store: six tables of rows and the statements that read and write
//! them.
//!
//! Every statement is atomic. Identifiers are assigned by the store and never
//! reused. The store keeps user emails unique whatever their case, organization
//! slugs unique, memberships unique per organization and user, and project slugs
//! unique within their organization.

use vstd::prelude::*;
use vstd::string::StringExecFns;
use crate::models::{
    Id, Organization, OrganizationMember, Project, Task, TaskComment, User,
};
use crate::text::lowercase;

pub mod listing;
pub mod lookup;
pub mod organizations;
pub mod projects;
pub mod protocol;
pub mod tasks;
pub mod users;

verus! {

/// Why the store refused a statement.
#[derive(Debug, Clone, Copy, PartialEq, Eq, Structural)]
pub enum StoreError {
    /// A uniqueness rule would be broken.
    UniqueViolation,
    /// A row refers to a row that is not there.
    ForeignKeyViolation,
    /// The statement needs a row that is not there.
    RowNotFound,
    /// No identifier is left to assign.
    IdentifiersExhausted,
}

/// The text of a refusal.
pub open spec fn store_error_text(e: StoreError) -> Seq<char> {
    match e {
        StoreError::UniqueViolation => "duplicate key value violates unique constraint"@,
        StoreError::ForeignKeyViolation => "insert or update violates foreign key constraint"@,
        StoreError::RowNotFound =>
            "no rows returned by a query that expected to return at least one row"@,
        StoreError::IdentifiersExhausted => "no identifier left to assign"@,
    }
}

impl StoreError {
    /// The text of this refusal.
    pub fn description(&self) -> (text: String)
        ensures
            text@ == store_error_text(*self),
    {
        match self {
            StoreError::UniqueViolation => String::from_str(
                "duplicate key value violates unique constraint",
            ),
            StoreError::ForeignKeyViolation => String::from_str(
                "insert or update violates foreign key constraint",
            ),
            StoreError::RowNotFound => String::from_str(
                "no rows returned by a query that expected to return at least one row",
            ),
            StoreError::IdentifiersExhausted => String::from_str("no identifier left to assign"),
        }
    }
}

/// The store's tables and the next identifier it will assign.
pub struct Store {
    pub(crate) users: Vec<User>,
    pub(crate) organizations: Vec<Organization>,
    pub(crate) members: Vec<OrganizationMember>,
    pub(crate) projects: Vec<Project>,
    pub(crate) tasks: Vec<Task>,
    pub(crate) comments: Vec<TaskComment>,
    pub(crate) next_id: Id,
}

/// What a store holds: each table as the sequence of its rows, in the order in
/// which they were inserted.
pub struct Tables {
    pub users: Seq<User>,
    pub organizations: Seq<Organization>,
    pub members: Seq<OrganizationMember>,
    pub projects: Seq<Project>,
    pub tasks: Seq<Task>,
    pub comments: Seq<TaskComment>,
    pub next_id: Id,
}

impl View for Store {
    type V = Tables;

    closed spec fn view(&self) -> Tables {
        Tables {
            users: self.users@,
            organizations: self.organizations@,
            members: self.members@,
            projects: self.projects@,
            tasks: self.tasks@,
            comments: self.comments@,
            next_id: self.next_id,
        }
    }
}

/// Two email addresses that differ at most in the case of their letters.
pub open spec fn same_email(a: Seq<char>, b: Seq<char>) -> bool {
    lowercase(a) == lowercase(b)
}

impl Tables {
    /// The user in row `i` has this email address.
    pub open spec fn user_has_email(self, i: int, email: Seq<char>) -> bool {
        0 <= i < self.users.len() && same_email(self.users[i].email@, email)
    }

    /// The user in row `i` has this identifier.
    pub open spec fn user_has_id(self, i: int, id: Id) -> bool {
        0 <= i < self.users.len() && self.users[i].id == id
    }

    /// The organization in row `i` has this slug.
    pub open spec fn organization_has_slug(self, i: int, slug: Seq<char>) -> bool {
        0 <= i < self.organizations.len() && self.organizations[i].slug@ == slug
    }

    /// The organization in row `i` has this identifier.
    pub open spec fn organization_has_id(self, i: int, id: Id) -> bool {
        0 <= i < self.organizations.len() && self.organizations[i].id == id
    }

    /// Row `i` of the memberships joins this organization and this user.
    pub open spec fn member_joins(self, i: int, organization_id: Id, user_id: Id) -> bool {
        0 <= i < self.members.len() && self.members[i].organization_id == organization_id
            && self.members[i].user_id == user_id
    }

    /// The project in row `i` has this identifier.
    pub open spec fn project_has_id(self, i: int, id: Id) -> bool {
        0 <= i < self.projects.len() && self.projects[i].id == id
    }

    /// The project in row `i` belongs to this organization under this slug.
    pub open spec fn project_has_slug(self, i: int, organization_id: Id, slug: Seq<char>) -> bool {
        0 <= i < self.projects.len() && self.projects[i].organization_id == organization_id
            && self.projects[i].slug@ == slug
    }

    /// The task in row `i` has this identifier.
    pub open spec fn task_has_id(self, i: int, id: Id) -> bool {
        0 <= i < self.tasks.len() && self.tasks[i].id == id
    }

    /// The rules that every store keeps.
    pub open spec fn valid(self) -> bool {
        &&& forall|i: int| 0 <= i < self.users.len() ==> (#[trigger] self.users[i]).id < self.next_id
        &&& forall|i: int|
            0 <= i < self.organizations.len() ==> (#[trigger] self.organizations[i]).id
                < self.next_id
        &&& forall|i: int|
            0 <= i < self.members.len() ==> (#[trigger] self.members[i]).id < self.next_id
                && self.members[i].organization_id < self.next_id
        &&& forall|i: int|
            0 <= i < self.projects.len() ==> (#[trigger] self.projects[i]).id < self.next_id
        &&& forall|i: int| 0 <= i < self.tasks.len() ==> (#[trigger] self.tasks[i]).id < self.next_id
        &&& forall|i: int|
            0 <= i < self.comments.len() ==> (#[trigger] self.comments[i]).id < self.next_id
        &&& forall|i: int, j: int|
            0 <= i < j < self.users.len() ==> (#[trigger] self.users[i]).id != (
            #[trigger] self.users[j]).id && !same_email(self.users[i].email@, self.users[j].email@)
        &&& forall|i: int, j: int|
            0 <= i < j < self.organizations.len() ==> (#[trigger] self.organizations[i]).id != (
            #[trigger] self.organizations[j]).id && self.organizations[i].slug@
                != self.organizations[j].slug@
        &&& forall|i: int, j: int|
            0 <= i < j < self.members.len() ==> (#[trigger] self.members[i]).id != (
            #[trigger] self.members[j]).id && !(self.members[i].organization_id
                == self.members[j].organization_id && self.members[i].user_id
                == self.members[j].user_id)
        &&& forall|i: int, j: int|
            0 <= i < j < self.projects.len() ==> (#[trigger] self.projects[i]).id != (
            #[trigger] self.projects[j]).id && !(self.projects[i].organization_id
                == self.projects[j].organization_id && self.projects[i].slug@
                == self.projects[j].slug@)
        &&& forall|i: int, j: int|
            0 <= i < j < self.tasks.len() ==> (#[trigger] self.tasks[i]).id != (
            #[trigger] self.tasks[j]).id
        &&& forall|i: int, j: int|
            0 <= i < j < self.comments.len() ==> (#[trigger] self.comments[i]).id != (
            #[trigger] self.comments[j]).id
    }

    /// The user with this email address, whatever the case of its letters.
    pub open spec fn user_by_email(self, email: Seq<char>) -> Option<User> {
        if exists|i: int| self.user_has_email(i, email) {
            Some(self.users[choose|i: int| self.user_has_email(i, email)])
        } else {
            None
        }
    }

    /// The user with this identifier.
    pub open spec fn user_by_id(self, id: Id) -> Option<User> {
        if exists|i: int| self.user_has_id(i, id) {
            Some(self.users[choose|i: int| self.user_has_id(i, id)])
        } else {
            None
        }
    }

    /// Whether an organization has this slug.
    pub open spec fn organization_slug_taken(self, slug: Seq<char>) -> bool {
        exists|i: int| self.organization_has_slug(i, slug)
    }

    /// The organization with this identifier.
    pub open spec fn organization_by_id(self, id: Id) -> Option<Organization> {
        if exists|i: int| self.organization_has_id(i, id) {
            Some(self.organizations[choose|i: int| self.organization_has_id(i, id)])
        } else {
            None
        }
    }

    /// The membership of this user in this organization.
    pub open spec fn membership(self, organization_id: Id, user_id: Id) -> Option<
        OrganizationMember,
    > {
        if exists|i: int| self.member_joins(i, organization_id, user_id) {
            Some(self.members[choose|i: int| self.member_joins(i, organization_id, user_id)])
        } else {
            None
        }
    }

    /// The project with this identifier.
    pub open spec fn project_by_id(self, id: Id) -> Option<Project> {
        if exists|i: int| self.project_has_id(i, id) {
            Some(self.projects[choose|i: int| self.project_has_id(i, id)])
        } else {
            None
        }
    }

    /// Whether a project of this organization has this slug.
    pub open spec fn project_slug_taken(self, organization_id: Id, slug: Seq<char>) -> bool {
        exists|i: int| self.project_has_slug(i, organization_id, slug)
    }

    /// The task with this identifier.
    pub open spec fn task_by_id(self, id: Id) -> Option<Task> {
        if exists|i: int| self.task_has_id(i, id) {
            Some(self.tasks[choose|i: int| self.task_has_id(i, id)])
        } else {
            None
        }
    }

    /// The organization that owns a project.
    pub open spec fn organization_of_project(self, project_id: Id) -> Option<Id> {
        match self.project_by_id(project_id) {
            Some(p) => Some(p.organization_id),
            None => None,
        }
    }

    /// The organization that owns the project of a task.
    pub open spec fn organization_of_task(self, task_id: Id) -> Option<Id> {
        match self.task_by_id(task_id) {
            Some(t) => self.organization_of_project(t.project_id),
            None => None,
        }
    }

    /// The role of a user in an organization: that of the membership row, or
    /// none where the user is no member.
    pub open spec fn role_in_organization(self, organization_id: Id, user_id: Id) -> Option<
        String,
    > {
        match self.membership(organization_id, user_id) {
            Some(m) => Some(m.role),
            None => None,
        }
    }

    /// The role of a user towards a project: the role in the organization that
    /// owns it.
    pub open spec fn role_for_project(self, project_id: Id, user_id: Id) -> Option<String> {
        match self.organization_of_project(project_id) {
            Some(organization_id) => self.role_in_organization(organization_id, user_id),
            None => None,
        }
    }

    /// The role of a user towards a task: the role in the organization that owns
    /// its project.
    pub open spec fn role_for_task(self, task_id: Id, user_id: Id) -> Option<String> {
        match self.organization_of_task(task_id) {
            Some(organization_id) => self.role_in_organization(organization_id, user_id),
            None => None,
        }
    }
}

impl Store {
    /// A store is well formed when its tables keep the rules.
    pub open spec fn wf(&self) -> bool {
        self@.valid()
    }

    /// An empty store.
    pub fn new() -> (store: Store)
        ensures
            store.wf(),
            store@.users.len() == 0,
            store@.organizations.len() == 0,
            store@.members.len() == 0,
            store@.projects.len() == 0,
            store@.tasks.len() == 0,
            store@.comments.len() == 0,
            store@.next_id == 1,
    {
        Store {
            users: Vec::new(),
            organizations: Vec::new(),
            members: Vec::new(),
            projects: Vec::new(),
            tasks: Vec::new(),
            comments: Vec::new(),
            next_id: 1,
        }
    }
}

} // verus!
