//! The statements of the store as values, and their replies.
//!
//! A request handler does not touch the store. It names the statement it needs
//! next, and is run again when the reply has come. Whoever holds the store runs
//! the statement: `Store::perform` on the tables in memory, or a driver on a
//! relational database.

use vstd::prelude::*;
use crate::models::{
    Id, Organization, OrganizationMember, Project, Task, TaskComment, Timestamp, User,
};
use crate::store::listing::is_listing;
use crate::store::organizations::{
    MemberWithUser, OrganizationWithRole, created_organization, granted_membership,
};
use crate::store::projects::{created_project, patched_project, project_of, project_order};
use crate::store::tasks::{
    TaskPatch, comment_on, comment_order, created_task, patched_task, task_of, task_order,
    written_comment,
};
use crate::store::users::registered_user;
use crate::store::{Store, StoreError, Tables, store_error_text};

verus! {

/// A statement of the store.
#[allow(inconsistent_fields)]
#[derive(Debug)]
pub enum Statement {
    UserByEmail { email: String },
    UserById { id: Id },
    InsertUser {
        email: String,
        password_hash: String,
        first_name: Option<String>,
        last_name: Option<String>,
    },
    RecordLogin { id: Id },
    OrganizationSlugExists { slug: String },
    InsertOrganization { name: String, slug: String, description: Option<String> },
    InsertMember { organization_id: Id, user_id: Id, role: String, invited_by: Option<Id> },
    Membership { organization_id: Id, user_id: Id },
    ActiveOrganization { id: Id },
    OrganizationsOfUser { user_id: Id },
    MembersOfOrganization { organization_id: Id },
    ProjectSlugExists { organization_id: Id, slug: String },
    InsertProject {
        organization_id: Id,
        name: String,
        slug: String,
        description: Option<String>,
        status: String,
        color: Option<String>,
        created_by: Id,
    },
    ProjectsOfOrganization { organization_id: Id },
    ProjectForMember { project_id: Id, user_id: Id },
    RoleForProject { project_id: Id, user_id: Id },
    UpdateProject {
        id: Id,
        name: Option<String>,
        description: Option<String>,
        status: Option<String>,
        color: Option<String>,
    },
    DeleteProject { id: Id },
    MaxPosition { project_id: Id, status: String },
    InsertTask {
        project_id: Id,
        title: String,
        description: Option<String>,
        status: String,
        priority: String,
        assigned_to: Option<Id>,
        created_by: Id,
        due_date: Option<Timestamp>,
        position: i32,
    },
    TasksOfProject { project_id: Id },
    TaskForMember { task_id: Id, user_id: Id },
    RoleForTask { task_id: Id, user_id: Id },
    UpdateTask { id: Id, patch: TaskPatch },
    DeleteTask { id: Id },
    InsertComment { task_id: Id, user_id: Id, content: String },
    CommentsOfTask { task_id: Id },
}

/// The reply to a statement.
#[derive(Debug)]
pub enum Reply {
    /// A user that was looked up or added.
    User(Option<User>),
    /// An organization that was looked up or added.
    Organization(Option<Organization>),
    /// A membership that was looked up or granted.
    Member(Option<OrganizationMember>),
    /// A project that was looked up, added or changed.
    Project(Option<Project>),
    /// A task that was looked up, added or changed.
    Task(Option<Task>),
    /// A comment that was added.
    Comment(Option<TaskComment>),
    /// A role that was looked up.
    Role(Option<String>),
    /// Whether something exists.
    Flag(bool),
    /// The greatest position of a column.
    Position(Option<i32>),
    /// A listing of organizations with roles.
    Organizations(Vec<OrganizationWithRole>),
    /// A listing of members with users.
    Members(Vec<MemberWithUser>),
    /// A listing of projects.
    Projects(Vec<Project>),
    /// A listing of tasks.
    Tasks(Vec<Task>),
    /// A listing of comments.
    Comments(Vec<TaskComment>),
    /// The statement was run and replies nothing.
    Done,
    /// The statement failed; the text says why.
    Failed(String),
}

/// How far a handler has come: it needs the reply to a statement, or it has its
/// answer.
#[derive(Debug)]
pub enum Progress<T> {
    Ask(Statement),
    Finished(T),
}

/// Why a reply is of no use to a handler.
#[derive(Debug)]
pub enum Fault {
    /// The statement failed; the text says why.
    Failed(String),
    /// The reply is of another kind than the statement gives.
    Unexpected,
}

/// The fault of a reply that is not of the kind a handler wants: the failure
/// where the statement failed, else the wrong kind.
pub open spec fn fault_of(reply: Reply) -> Fault {
    match reply {
        Reply::Failed(text) => Fault::Failed(text),
        _ => Fault::Unexpected,
    }
}

/// The fault of a reply.
fn fault(reply: &Reply) -> (found: Fault)
    ensures
        found == fault_of(*reply),
{
    match reply {
        Reply::Failed(text) => Fault::Failed(text.clone()),
        _ => Fault::Unexpected,
    }
}

/// The reply at place `at`, where it is a user.
pub fn user_at(replies: &Vec<Reply>, at: usize) -> (found: Result<
    Option<&Option<User>>,
    Fault,
>)
    ensures
        match found {
            Ok(None) => replies.len() <= at,
            Ok(Some(value)) => at < replies.len() && replies[at as int] == Reply::User(*value),
            Err(e) => at < replies.len() && !(replies[at as int] is User) && e == fault_of(
                replies[at as int],
            ),
        },
{
    if at >= replies.len() {
        return Ok(None);
    }
    match &replies[at] {
        Reply::User(value) => Ok(Some(value)),
        other => Err(fault(other)),
    }
}

/// The reply at place `at`, where it is an organization.
pub fn organization_at(replies: &Vec<Reply>, at: usize) -> (found: Result<
    Option<&Option<Organization>>,
    Fault,
>)
    ensures
        match found {
            Ok(None) => replies.len() <= at,
            Ok(Some(value)) => at < replies.len() && replies[at as int] == Reply::Organization(
                *value,
            ),
            Err(e) => at < replies.len() && !(replies[at as int] is Organization) && e == fault_of(
                replies[at as int],
            ),
        },
{
    if at >= replies.len() {
        return Ok(None);
    }
    match &replies[at] {
        Reply::Organization(value) => Ok(Some(value)),
        other => Err(fault(other)),
    }
}

/// The reply at place `at`, where it is a membership.
pub fn member_at(replies: &Vec<Reply>, at: usize) -> (found: Result<
    Option<&Option<OrganizationMember>>,
    Fault,
>)
    ensures
        match found {
            Ok(None) => replies.len() <= at,
            Ok(Some(value)) => at < replies.len() && replies[at as int] == Reply::Member(*value),
            Err(e) => at < replies.len() && !(replies[at as int] is Member) && e == fault_of(
                replies[at as int],
            ),
        },
{
    if at >= replies.len() {
        return Ok(None);
    }
    match &replies[at] {
        Reply::Member(value) => Ok(Some(value)),
        other => Err(fault(other)),
    }
}

/// The reply at place `at`, where it is a project.
pub fn project_at(replies: &Vec<Reply>, at: usize) -> (found: Result<
    Option<&Option<Project>>,
    Fault,
>)
    ensures
        match found {
            Ok(None) => replies.len() <= at,
            Ok(Some(value)) => at < replies.len() && replies[at as int] == Reply::Project(*value),
            Err(e) => at < replies.len() && !(replies[at as int] is Project) && e == fault_of(
                replies[at as int],
            ),
        },
{
    if at >= replies.len() {
        return Ok(None);
    }
    match &replies[at] {
        Reply::Project(value) => Ok(Some(value)),
        other => Err(fault(other)),
    }
}

/// The reply at place `at`, where it is a task.
pub fn task_at(replies: &Vec<Reply>, at: usize) -> (found: Result<
    Option<&Option<Task>>,
    Fault,
>)
    ensures
        match found {
            Ok(None) => replies.len() <= at,
            Ok(Some(value)) => at < replies.len() && replies[at as int] == Reply::Task(*value),
            Err(e) => at < replies.len() && !(replies[at as int] is Task) && e == fault_of(
                replies[at as int],
            ),
        },
{
    if at >= replies.len() {
        return Ok(None);
    }
    match &replies[at] {
        Reply::Task(value) => Ok(Some(value)),
        other => Err(fault(other)),
    }
}

/// The reply at place `at`, where it is a comment.
pub fn comment_at(replies: &Vec<Reply>, at: usize) -> (found: Result<
    Option<&Option<TaskComment>>,
    Fault,
>)
    ensures
        match found {
            Ok(None) => replies.len() <= at,
            Ok(Some(value)) => at < replies.len() && replies[at as int] == Reply::Comment(*value),
            Err(e) => at < replies.len() && !(replies[at as int] is Comment) && e == fault_of(
                replies[at as int],
            ),
        },
{
    if at >= replies.len() {
        return Ok(None);
    }
    match &replies[at] {
        Reply::Comment(value) => Ok(Some(value)),
        other => Err(fault(other)),
    }
}

/// The reply at place `at`, where it is a role.
pub fn role_at(replies: &Vec<Reply>, at: usize) -> (found: Result<
    Option<&Option<String>>,
    Fault,
>)
    ensures
        match found {
            Ok(None) => replies.len() <= at,
            Ok(Some(value)) => at < replies.len() && replies[at as int] == Reply::Role(*value),
            Err(e) => at < replies.len() && !(replies[at as int] is Role) && e == fault_of(
                replies[at as int],
            ),
        },
{
    if at >= replies.len() {
        return Ok(None);
    }
    match &replies[at] {
        Reply::Role(value) => Ok(Some(value)),
        other => Err(fault(other)),
    }
}

/// The reply at place `at`, where it is a flag.
pub fn flag_at(replies: &Vec<Reply>, at: usize) -> (found: Result<
    Option<&bool>,
    Fault,
>)
    ensures
        match found {
            Ok(None) => replies.len() <= at,
            Ok(Some(value)) => at < replies.len() && replies[at as int] == Reply::Flag(*value),
            Err(e) => at < replies.len() && !(replies[at as int] is Flag) && e == fault_of(
                replies[at as int],
            ),
        },
{
    if at >= replies.len() {
        return Ok(None);
    }
    match &replies[at] {
        Reply::Flag(value) => Ok(Some(value)),
        other => Err(fault(other)),
    }
}

/// The reply at place `at`, where it is a position.
pub fn position_at(replies: &Vec<Reply>, at: usize) -> (found: Result<
    Option<&Option<i32>>,
    Fault,
>)
    ensures
        match found {
            Ok(None) => replies.len() <= at,
            Ok(Some(value)) => at < replies.len() && replies[at as int] == Reply::Position(*value),
            Err(e) => at < replies.len() && !(replies[at as int] is Position) && e == fault_of(
                replies[at as int],
            ),
        },
{
    if at >= replies.len() {
        return Ok(None);
    }
    match &replies[at] {
        Reply::Position(value) => Ok(Some(value)),
        other => Err(fault(other)),
    }
}

/// The reply at place `at`, where it is a listing of organizations.
pub fn organizations_at(replies: &Vec<Reply>, at: usize) -> (found: Result<
    Option<&Vec<OrganizationWithRole>>,
    Fault,
>)
    ensures
        match found {
            Ok(None) => replies.len() <= at,
            Ok(Some(value)) => at < replies.len() && replies[at as int] == Reply::Organizations(
                *value,
            ),
            Err(e) => at < replies.len() && !(replies[at as int] is Organizations) && e == fault_of(
                replies[at as int],
            ),
        },
{
    if at >= replies.len() {
        return Ok(None);
    }
    match &replies[at] {
        Reply::Organizations(value) => Ok(Some(value)),
        other => Err(fault(other)),
    }
}

/// The reply at place `at`, where it is a listing of members.
pub fn members_at(replies: &Vec<Reply>, at: usize) -> (found: Result<
    Option<&Vec<MemberWithUser>>,
    Fault,
>)
    ensures
        match found {
            Ok(None) => replies.len() <= at,
            Ok(Some(value)) => at < replies.len() && replies[at as int] == Reply::Members(*value),
            Err(e) => at < replies.len() && !(replies[at as int] is Members) && e == fault_of(
                replies[at as int],
            ),
        },
{
    if at >= replies.len() {
        return Ok(None);
    }
    match &replies[at] {
        Reply::Members(value) => Ok(Some(value)),
        other => Err(fault(other)),
    }
}

/// The reply at place `at`, where it is a listing of projects.
pub fn projects_at(replies: &Vec<Reply>, at: usize) -> (found: Result<
    Option<&Vec<Project>>,
    Fault,
>)
    ensures
        match found {
            Ok(None) => replies.len() <= at,
            Ok(Some(value)) => at < replies.len() && replies[at as int] == Reply::Projects(*value),
            Err(e) => at < replies.len() && !(replies[at as int] is Projects) && e == fault_of(
                replies[at as int],
            ),
        },
{
    if at >= replies.len() {
        return Ok(None);
    }
    match &replies[at] {
        Reply::Projects(value) => Ok(Some(value)),
        other => Err(fault(other)),
    }
}

/// The reply at place `at`, where it is a listing of tasks.
pub fn tasks_at(replies: &Vec<Reply>, at: usize) -> (found: Result<
    Option<&Vec<Task>>,
    Fault,
>)
    ensures
        match found {
            Ok(None) => replies.len() <= at,
            Ok(Some(value)) => at < replies.len() && replies[at as int] == Reply::Tasks(*value),
            Err(e) => at < replies.len() && !(replies[at as int] is Tasks) && e == fault_of(
                replies[at as int],
            ),
        },
{
    if at >= replies.len() {
        return Ok(None);
    }
    match &replies[at] {
        Reply::Tasks(value) => Ok(Some(value)),
        other => Err(fault(other)),
    }
}

/// The reply at place `at`, where it is a listing of comments.
pub fn comments_at(replies: &Vec<Reply>, at: usize) -> (found: Result<
    Option<&Vec<TaskComment>>,
    Fault,
>)
    ensures
        match found {
            Ok(None) => replies.len() <= at,
            Ok(Some(value)) => at < replies.len() && replies[at as int] == Reply::Comments(*value),
            Err(e) => at < replies.len() && !(replies[at as int] is Comments) && e == fault_of(
                replies[at as int],
            ),
        },
{
    if at >= replies.len() {
        return Ok(None);
    }
    match &replies[at] {
        Reply::Comments(value) => Ok(Some(value)),
        other => Err(fault(other)),
    }
}

/// Whether the statement at place `at` was run without a reply of its own.
pub fn done_at(replies: &Vec<Reply>, at: usize) -> (found: Result<bool, Fault>)
    ensures
        match found {
            Ok(false) => replies.len() <= at,
            Ok(true) => at < replies.len() && replies[at as int] == Reply::Done,
            Err(e) => at < replies.len() && !(replies[at as int] is Done) && e == fault_of(
                replies[at as int],
            ),
        },
{
    if at >= replies.len() {
        return Ok(false);
    }
    match &replies[at] {
        Reply::Done => Ok(true),
        other => Err(fault(other)),
    }
}

/// Runs a statement on the store and records its reply after the others.
pub fn record(store: &mut Store, replies: &mut Vec<Reply>, statement: Statement, now: Timestamp)
    requires
        old(store).wf(),
    ensures
        final(store).wf(),
        final(replies)@.len() == old(replies)@.len() + 1,
        final(replies)@.drop_last() == old(replies)@,
        old(store)@.performs(statement, now, final(replies)@.last(), final(store)@),
{
    let reply = store.perform(statement, now);
    replies.push(reply);
    assert(replies@.drop_last() =~= old(replies)@);
}

/// The reply of a statement that the store refused.
pub open spec fn refused(reply: Reply, e: StoreError) -> bool {
    reply matches Reply::Failed(text) && text@ == store_error_text(e)
}

impl Tables {
    /// Whether running `statement` at `now` on these tables may reply `reply` and
    /// leave the tables `after`. A listing leaves open the order of rows that
    /// the query does not tell apart; everything else is determined.
    pub open spec fn performs(
        self,
        statement: Statement,
        now: Timestamp,
        reply: Reply,
        after: Tables,
    ) -> bool {
        match statement {
            Statement::UserByEmail { email } => reply == Reply::User(self.user_by_email(email@))
                && after == self,
            Statement::UserById { id } => reply == Reply::User(self.user_by_id(id)) && after
                == self,
            Statement::InsertUser { email, password_hash, first_name, last_name } => match reply {
                Reply::User(Some(user)) => {
                    &&& self.user_by_email(email@) is None
                    &&& self.next_id < u128::MAX
                    &&& user == registered_user(
                        self.next_id,
                        email,
                        password_hash,
                        first_name,
                        last_name,
                        now,
                    )
                    &&& after == self.with_user(user)
                },
                Reply::Failed(_) => {
                    &&& after == self
                    &&& self.user_by_email(email@) is Some || self.next_id == u128::MAX
                    &&& refused(
                        reply,
                        if self.user_by_email(email@) is Some {
                            StoreError::UniqueViolation
                        } else {
                            StoreError::IdentifiersExhausted
                        },
                    )
                },
                _ => false,
            },
            Statement::RecordLogin { id } => reply == Reply::Done && after == self.after_login(
                id,
                now,
            ),
            Statement::OrganizationSlugExists { slug } => reply == Reply::Flag(
                self.organization_slug_taken(slug@),
            ) && after == self,
            Statement::InsertOrganization { name, slug, description } => match reply {
                Reply::Organization(Some(organization)) => {
                    &&& self.organization_refusal(slug@) is None
                    &&& organization == created_organization(
                        self.next_id,
                        name,
                        slug,
                        description,
                        now,
                    )
                    &&& after == self.with_organization(organization)
                },
                Reply::Failed(_) => {
                    &&& after == self
                    &&& self.organization_refusal(slug@) matches Some(e)
                    &&& refused(reply, e)
                },
                _ => false,
            },
            Statement::InsertMember { organization_id, user_id, role, invited_by } => match reply {
                Reply::Member(Some(member)) => {
                    &&& self.membership_refusal(organization_id, user_id) is None
                    &&& member == granted_membership(
                        self.next_id,
                        organization_id,
                        user_id,
                        role,
                        invited_by,
                        now,
                    )
                    &&& after == self.with_member(member)
                },
                Reply::Failed(_) => {
                    &&& after == self
                    &&& self.membership_refusal(organization_id, user_id) matches Some(e)
                    &&& refused(reply, e)
                },
                _ => false,
            },
            Statement::Membership { organization_id, user_id } => reply == Reply::Member(
                self.membership(organization_id, user_id),
            ) && after == self,
            Statement::ActiveOrganization { id } => reply == Reply::Organization(
                self.active_organization(id),
            ) && after == self,
            Statement::OrganizationsOfUser { user_id } => {
                &&& reply matches Reply::Organizations(rows)
                &&& self.lists_organizations(rows@, user_id)
                &&& after == self
            },
            Statement::MembersOfOrganization { organization_id } => {
                &&& reply matches Reply::Members(rows)
                &&& self.lists_members(rows@, organization_id)
                &&& after == self
            },
            Statement::ProjectSlugExists { organization_id, slug } => reply == Reply::Flag(
                self.project_slug_taken(organization_id, slug@),
            ) && after == self,
            Statement::InsertProject {
                organization_id,
                name,
                slug,
                description,
                status,
                color,
                created_by,
            } => match reply {
                Reply::Project(Some(project)) => {
                    &&& self.project_refusal(organization_id, slug@) is None
                    &&& project == created_project(
                        self.next_id,
                        organization_id,
                        name,
                        slug,
                        description,
                        status,
                        color,
                        created_by,
                        now,
                    )
                    &&& after == self.with_project(project)
                },
                Reply::Failed(_) => {
                    &&& after == self
                    &&& self.project_refusal(organization_id, slug@) matches Some(e)
                    &&& refused(reply, e)
                },
                _ => false,
            },
            Statement::ProjectsOfOrganization { organization_id } => {
                &&& reply matches Reply::Projects(rows)
                &&& is_listing(rows@, self.projects, project_of(organization_id), project_order())
                &&& after == self
            },
            Statement::ProjectForMember { project_id, user_id } => reply == Reply::Project(
                self.project_for_member(project_id, user_id),
            ) && after == self,
            Statement::RoleForProject { project_id, user_id } => reply == Reply::Role(
                self.role_for_project(project_id, user_id),
            ) && after == self,
            Statement::UpdateProject { id, name, description, status, color } => match reply {
                Reply::Project(Some(project)) => {
                    &&& self.project_by_id(id) matches Some(before)
                    &&& project == patched_project(before, name, description, status, color, now)
                    &&& after == self.with_project_at(self.project_row(id), project)
                },
                Reply::Failed(_) => {
                    &&& after == self
                    &&& self.project_by_id(id) is None
                    &&& refused(reply, StoreError::RowNotFound)
                },
                _ => false,
            },
            Statement::DeleteProject { id } => reply == Reply::Done && after
                == self.without_project(id) && after.project_by_id(id) is None,
            Statement::MaxPosition { project_id, status } => reply == Reply::Position(
                self.max_position(project_id, status@),
            ) && after == self,
            Statement::InsertTask {
                project_id,
                title,
                description,
                status,
                priority,
                assigned_to,
                created_by,
                due_date,
                position,
            } => match reply {
                Reply::Task(Some(task)) => {
                    &&& self.next_id < u128::MAX
                    &&& task == created_task(
                        self.next_id,
                        project_id,
                        title,
                        description,
                        status,
                        priority,
                        assigned_to,
                        created_by,
                        due_date,
                        position,
                        now,
                    )
                    &&& after == self.with_task(task)
                },
                Reply::Failed(_) => {
                    &&& after == self
                    &&& self.next_id == u128::MAX
                    &&& refused(reply, StoreError::IdentifiersExhausted)
                },
                _ => false,
            },
            Statement::TasksOfProject { project_id } => {
                &&& reply matches Reply::Tasks(rows)
                &&& is_listing(rows@, self.tasks, task_of(project_id), task_order())
                &&& after == self
            },
            Statement::TaskForMember { task_id, user_id } => reply == Reply::Task(
                self.task_for_member(task_id, user_id),
            ) && after == self,
            Statement::RoleForTask { task_id, user_id } => reply == Reply::Role(
                self.role_for_task(task_id, user_id),
            ) && after == self,
            Statement::UpdateTask { id, patch } => match reply {
                Reply::Task(Some(task)) => {
                    &&& self.task_by_id(id) matches Some(before)
                    &&& task == patched_task(before, patch, now)
                    &&& after == self.with_task_at(self.task_row(id), task)
                },
                Reply::Failed(_) => {
                    &&& after == self
                    &&& self.task_by_id(id) is None
                    &&& refused(reply, StoreError::RowNotFound)
                },
                _ => false,
            },
            Statement::DeleteTask { id } => reply == Reply::Done && after == self.without_task(id)
                && after.task_by_id(id) is None,
            Statement::InsertComment { task_id, user_id, content } => match reply {
                Reply::Comment(Some(comment)) => {
                    &&& self.next_id < u128::MAX
                    &&& comment == written_comment(self.next_id, task_id, user_id, content, now)
                    &&& after == self.with_comment(comment)
                },
                Reply::Failed(_) => {
                    &&& after == self
                    &&& self.next_id == u128::MAX
                    &&& refused(reply, StoreError::IdentifiersExhausted)
                },
                _ => false,
            },
            Statement::CommentsOfTask { task_id } => {
                &&& reply matches Reply::Comments(rows)
                &&& is_listing(rows@, self.comments, comment_on(task_id), comment_order())
                &&& after == self
            },
        }
    }
}

impl Store {
    /// Runs a statement at the instant `now` and gives its reply.
    pub fn perform(&mut self, statement: Statement, now: Timestamp) -> (reply: Reply)
        requires
            old(self).wf(),
        ensures
            final(self).wf(),
            old(self)@.performs(statement, now, reply, final(self)@),
    {
        match statement {
            Statement::UserByEmail { email } => Reply::User(self.user_by_email(email.as_str())),
            Statement::UserById { id } => Reply::User(self.user_by_id(id)),
            Statement::InsertUser { email, password_hash, first_name, last_name } => {
                match self.insert_user(email, password_hash, first_name, last_name, now) {
                    Ok(user) => Reply::User(Some(user)),
                    Err(e) => Reply::Failed(e.description()),
                }
            },
            Statement::RecordLogin { id } => {
                self.record_login(id, now);
                Reply::Done
            },
            Statement::OrganizationSlugExists { slug } => Reply::Flag(
                self.organization_slug_exists(slug.as_str()),
            ),
            Statement::InsertOrganization { name, slug, description } => {
                match self.insert_organization(name, slug, description, now) {
                    Ok(organization) => Reply::Organization(Some(organization)),
                    Err(e) => Reply::Failed(e.description()),
                }
            },
            Statement::InsertMember { organization_id, user_id, role, invited_by } => {
                match self.insert_member(organization_id, user_id, role, invited_by, now) {
                    Ok(member) => Reply::Member(Some(member)),
                    Err(e) => Reply::Failed(e.description()),
                }
            },
            Statement::Membership { organization_id, user_id } => Reply::Member(
                self.membership(organization_id, user_id),
            ),
            Statement::ActiveOrganization { id } => Reply::Organization(
                self.active_organization(id),
            ),
            Statement::OrganizationsOfUser { user_id } => Reply::Organizations(
                self.organizations_of_user(user_id),
            ),
            Statement::MembersOfOrganization { organization_id } => Reply::Members(
                self.members_of_organization(organization_id),
            ),
            Statement::ProjectSlugExists { organization_id, slug } => Reply::Flag(
                self.project_slug_exists(organization_id, slug.as_str()),
            ),
            Statement::InsertProject {
                organization_id,
                name,
                slug,
                description,
                status,
                color,
                created_by,
            } => {
                match self.insert_project(
                    organization_id,
                    name,
                    slug,
                    description,
                    status,
                    color,
                    created_by,
                    now,
                ) {
                    Ok(project) => Reply::Project(Some(project)),
                    Err(e) => Reply::Failed(e.description()),
                }
            },
            Statement::ProjectsOfOrganization { organization_id } => Reply::Projects(
                self.projects_of_organization(organization_id),
            ),
            Statement::ProjectForMember { project_id, user_id } => Reply::Project(
                self.project_for_member(project_id, user_id),
            ),
            Statement::RoleForProject { project_id, user_id } => Reply::Role(
                self.role_for_project(project_id, user_id),
            ),
            Statement::UpdateProject { id, name, description, status, color } => {
                match self.update_project(id, name, description, status, color, now) {
                    Ok(project) => Reply::Project(Some(project)),
                    Err(e) => Reply::Failed(e.description()),
                }
            },
            Statement::DeleteProject { id } => {
                self.delete_project(id);
                Reply::Done
            },
            Statement::MaxPosition { project_id, status } => Reply::Position(
                self.max_position(project_id, status.as_str()),
            ),
            Statement::InsertTask {
                project_id,
                title,
                description,
                status,
                priority,
                assigned_to,
                created_by,
                due_date,
                position,
            } => {
                match self.insert_task(
                    project_id,
                    title,
                    description,
                    status,
                    priority,
                    assigned_to,
                    created_by,
                    due_date,
                    position,
                    now,
                ) {
                    Ok(task) => Reply::Task(Some(task)),
                    Err(e) => Reply::Failed(e.description()),
                }
            },
            Statement::TasksOfProject { project_id } => Reply::Tasks(
                self.tasks_of_project(project_id),
            ),
            Statement::TaskForMember { task_id, user_id } => Reply::Task(
                self.task_for_member(task_id, user_id),
            ),
            Statement::RoleForTask { task_id, user_id } => Reply::Role(
                self.role_for_task(task_id, user_id),
            ),
            Statement::UpdateTask { id, patch } => {
                match self.update_task(id, patch, now) {
                    Ok(task) => Reply::Task(Some(task)),
                    Err(e) => Reply::Failed(e.description()),
                }
            },
            Statement::DeleteTask { id } => {
                self.delete_task(id);
                Reply::Done
            },
            Statement::InsertComment { task_id, user_id, content } => {
                match self.insert_comment(task_id, user_id, content, now) {
                    Ok(comment) => Reply::Comment(Some(comment)),
                    Err(e) => Reply::Failed(e.description()),
                }
            },
            Statement::CommentsOfTask { task_id } => Reply::Comments(
                self.comments_of_task(task_id),
            ),
        }
    }
}

} // verus!
