//! What holds of the handlers across requests, proved from their contracts.

use vstd::prelude::*;
use crate::access::{Access, Operation, decision, refusal};
use crate::api::auth::is_token_for;
use crate::credentials::{
    Claims, bearer_prefix, hash_password, token_subject, validate_token, verify_password,
};
use crate::middleware::{Rejection, auth_middleware, bearer_token};
use crate::text::has_prefix;
use crate::error::AppError;
use crate::ident::{id_to_text, uuid_parsed};
use crate::models::User;
use crate::state::AppState;
use crate::api::organizations::{
    create_organization_refusal, organization_view, slug_conflict_message,
};
use crate::api::projects::{project_refusal, project_view};
use crate::api::tasks::{completion, done_status, task_patch, task_refusal, task_view};
use crate::error::{ErrorView, status_of};
use crate::models::{
    Id, Organization, OrganizationMember, Project, Task, Timestamp, UpdateTaskRequest,
};
use crate::store::projects::patched_project;
use crate::store::tasks::patched_task;
use crate::store::Tables;

verus! {

/// A password verifies against the credential that hashing it gave: whenever
/// `hash_password` returns a credential for a password, `verify_password` answers
/// `true` for that password and that credential.
pub proof fn hashed_password_verifies(
    password: &str,
    hash: String,
    stored: &str,
    verdict: Result<bool, AppError>,
)
    requires
        call_ensures(hash_password, (password,), Ok::<String, AppError>(hash)),
        stored@ == hash@,
        call_ensures(verify_password, (password, stored), verdict),
    ensures
        verdict matches Ok(accepted) && accepted,
{
}

/// A token names its user: a token for a user carries the text of the user's
/// identifier as its subject, and reading that text gives the identifier back.
pub proof fn token_names_its_user(state: AppState, user: User, token: Seq<char>, subject: String)
    requires
        is_token_for(state, user, token),
        call_ensures(id_to_text, (user.id,), subject),
    ensures
        uuid_parsed(subject@) == Some(user.id),
        token_subject(token, state.config.jwt.secret@) == Some(subject@),
{
}

/// A token that was issued for a user validates to that user's claims: whenever
/// `validate_token` accepts such a token under the secret that it was issued
/// under, the subject of the claims reads as the user's identifier, the email
/// address is the user's, and the expiry lies the configured lifetime after the
/// time of issue.
pub proof fn issued_token_gives_back_its_user(
    state: AppState,
    user: User,
    token: &str,
    secret: &str,
    claims: Claims,
)
    requires
        is_token_for(state, user, token@),
        secret@ == state.config.jwt.secret@,
        call_ensures(validate_token, (token, secret), Ok::<Claims, AppError>(claims)),
    ensures
        uuid_parsed(claims.sub@) == Some(user.id),
        claims.email@ == user.email@,
        claims.exp == claims.iat + state.config.jwt.expiration,
{
}

/// The session resolver finds the user that a token was issued for: whenever it
/// accepts a header that carries such a token behind the bearer scheme, the
/// subject that it hands on reads as the user's identifier.
pub proof fn session_names_the_user_of_its_token(
    state: &AppState,
    user: User,
    token: Seq<char>,
    header: &str,
    subject: String,
)
    requires
        is_token_for(*state, user, token),
        header@ == bearer_prefix() + token,
        call_ensures(auth_middleware, (state, Some(header)), Ok::<String, Rejection>(subject)),
    ensures
        uuid_parsed(subject@) == Some(user.id),
{
    assert(has_prefix(header@, bearer_prefix())) by {
        assert(header@.subrange(0, bearer_prefix().len() as int) =~= bearer_prefix());
    }
    assert(bearer_token(header@) =~= token);
}

/// Slugs of organizations stay unique: once an organization was created under a
/// slug, a request by any user to create another under the same slug ends with
/// a conflict, whichever of two such requests came first.
pub proof fn same_slug_conflicts(
    before: Tables,
    first_user: Id,
    created: Organization,
    owner: OrganizationMember,
    second_user: Id,
)
    requires
        before.valid(),
        create_organization_refusal(before, Some(first_user), created.slug@) is None,
    ensures
        create_organization_refusal(
            before.with_organization(created).with_member(owner),
            Some(second_user),
            created.slug@,
        ) == Some(ErrorView::Conflict(slug_conflict_message(created.slug@))),
        status_of(ErrorView::Conflict(slug_conflict_message(created.slug@))) == 409,
{
    let after = before.with_organization(created).with_member(owner);
    assert(after.organization_has_slug(before.organizations.len() as int, created.slug@));
}

/// A user who is no member of an organization is told that the organization,
/// each of its projects and each of their tasks do not exist: whatever the user
/// reads, lists or deletes there, the answer is "not found", never "forbidden".
pub proof fn strangers_are_told_not_found(
    tables: Tables,
    user_id: Id,
    organization_id: Id,
    project_id: Id,
    task_id: Id,
)
    requires
        tables.valid(),
        tables.role_in_organization(organization_id, user_id) is None,
    ensures
        organization_view(tables, Some(user_id), organization_id) matches Err(e) && status_of(e)
            == 404,
        tables.organization_of_project(project_id) == Some(organization_id) ==> (project_view(
            tables,
            Some(user_id),
            project_id,
        ) matches Err(e) && status_of(e) == 404),
        tables.organization_of_task(task_id) == Some(organization_id) ==> (task_view(
            tables,
            Some(user_id),
            task_id,
        ) matches Err(e) && status_of(e) == 404),
        tables.organization_of_project(project_id) == Some(organization_id) ==> (project_refusal(
            tables,
            Operation::DeleteProject,
            Some(user_id),
            project_id,
        ) matches Some(e) && status_of(e) == 404),
        tables.organization_of_task(task_id) == Some(organization_id) ==> (task_refusal(
            tables,
            Operation::DeleteTask,
            Some(user_id),
            task_id,
        ) matches Some(e) && status_of(e) == 404),
        status_of(refusal(Operation::ListMembers, None)) == 404,
        status_of(refusal(Operation::ListProjects, None)) == 404,
        tables.organization_of_project(project_id) == Some(organization_id) ==> (project_refusal(
            tables,
            Operation::ListTasks,
            Some(user_id),
            project_id,
        ) matches Some(e) && status_of(e) == 404),
        tables.organization_of_task(task_id) == Some(organization_id) ==> (task_refusal(
            tables,
            Operation::ListComments,
            Some(user_id),
            task_id,
        ) matches Some(e) && status_of(e) == 404),
{
}

/// Positions count up: after a task entered a project at the next position for
/// its status, the next position for that status is one higher.
pub proof fn positions_count_up(tables: Tables, task: Task)
    requires
        tables.valid(),
        task.position == tables.next_position(task.project_id, task.status@),
    ensures
        tables.with_task(task).next_position(task.project_id, task.status@) == task.position + 1,
        tables.max_position(task.project_id, task.status@) is None ==> task.position == 0,
{
    let after = tables.with_task(task);
    let project_id = task.project_id;
    let status = task.status@;
    let n = tables.tasks.len() as int;
    assert(after.tasks[n] == task);
    assert(after.task_in_column(n, project_id, status));
    assert forall|i: int| after.task_in_column(i, project_id, status) implies after.tasks[i].position
        <= task.position by {
        if i < n {
            assert(tables.task_in_column(i, project_id, status));
            let top = choose|p: i32| tables.tops_column(p, project_id, status);
            lemma_column_has_top(tables, project_id, status);
            assert(tables.tops_column(top, project_id, status));
        }
    }
    assert(after.tops_column(task.position, project_id, status));
    let c = choose|p: i32| after.tops_column(p, project_id, status);
    assert(after.tops_column(c, project_id, status));
    assert(c == task.position);
}

/// A column that holds a task has a greatest position.
pub proof fn lemma_column_has_top(tables: Tables, project_id: Id, status: Seq<char>)
    requires
        exists|i: int| tables.task_in_column(i, project_id, status),
    ensures
        exists|p: i32| tables.tops_column(p, project_id, status),
{
    lemma_prefix_has_top(tables, project_id, status, tables.tasks.len() as int);
    let p = choose|p: i32| tops_prefix(tables, p, project_id, status, tables.tasks.len() as int);
    assert(tables.tops_column(p, project_id, status)) by {
        let w = choose|i: int|
            0 <= i < tables.tasks.len() && tables.task_in_column(i, project_id, status)
                && tables.tasks[i].position == p;
        assert(tables.task_in_column(w, project_id, status) && tables.tasks[w].position == p);
    }
}

/// `position` is the greatest position among the first `n` tasks that belong to
/// this project and have this status.
pub open spec fn tops_prefix(
    tables: Tables,
    position: i32,
    project_id: Id,
    status: Seq<char>,
    n: int,
) -> bool {
    &&& exists|i: int|
        0 <= i < n && tables.task_in_column(i, project_id, status) && tables.tasks[i].position
            == position
    &&& forall|i: int|
        0 <= i < n && tables.task_in_column(i, project_id, status) ==> tables.tasks[i].position
            <= position
}

/// Among the first `n` tasks, a column that holds one has a greatest position.
proof fn lemma_prefix_has_top(tables: Tables, project_id: Id, status: Seq<char>, n: int)
    requires
        0 <= n <= tables.tasks.len(),
        exists|i: int| 0 <= i < n && tables.task_in_column(i, project_id, status),
    ensures
        exists|p: i32| tops_prefix(tables, p, project_id, status, n),
    decreases n,
{
    let last = n - 1;
    if exists|i: int| 0 <= i < last && tables.task_in_column(i, project_id, status) {
        lemma_prefix_has_top(tables, project_id, status, last);
        let q = choose|p: i32| tops_prefix(tables, p, project_id, status, last);
        let w = choose|i: int|
            0 <= i < last && tables.task_in_column(i, project_id, status)
                && tables.tasks[i].position == q;
        if tables.task_in_column(last, project_id, status) && tables.tasks[last].position > q {
            assert(tops_prefix(tables, tables.tasks[last].position, project_id, status, n));
        } else {
            assert(0 <= w < n && tables.task_in_column(w, project_id, status)
                && tables.tasks[w].position == q);
            assert(tops_prefix(tables, q, project_id, status, n));
        }
    } else {
        assert(tables.task_in_column(last, project_id, status));
        assert(tops_prefix(tables, tables.tasks[last].position, project_id, status, n));
    }
}

/// Completion follows the status: an update that sets the status to `done`
/// records the instant of the update as the instant of completion; an update
/// with any other status, or with none, leaves the instant of completion as it
/// was.
pub proof fn completion_follows_status(before: Task, payload: UpdateTaskRequest, now: Timestamp)
    ensures
        (payload.status matches Some(s) && s@ == done_status()) ==> patched_task(
            before,
            task_patch(payload, now),
            now,
        ).completed_at == Some(now),
        !(payload.status matches Some(s) && s@ == done_status()) ==> patched_task(
            before,
            task_patch(payload, now),
            now,
        ).completed_at == before.completed_at,
{
}

/// Access follows membership: but for the deletion of a project, an operation
/// on a resource is permitted exactly when the caller has a role in the
/// organization that owns it, whatever that role is.
pub proof fn access_follows_membership(op: Operation, role: Option<Seq<char>>)
    requires
        op != Operation::DeleteProject,
    ensures
        decision(op, role) == Access::Permitted <==> role is Some,
{
}

/// A project stays in its organization: no update changes the identifier, the
/// organization, the slug, the creator or the instant of creation of a project.
pub proof fn project_stays_in_its_organization(
    before: Project,
    name: Option<String>,
    description: Option<String>,
    status: Option<String>,
    color: Option<String>,
    now: Timestamp,
)
    ensures
        ({
            let after = patched_project(before, name, description, status, color, now);
            &&& after.id == before.id
            &&& after.organization_id == before.organization_id
            &&& after.slug == before.slug
            &&& after.created_by == before.created_by
            &&& after.created_at == before.created_at
        }),
{
}

/// A task stays in its project: no update changes the identifier, the project,
/// the creator or the instant of creation of a task.
pub proof fn task_stays_in_its_project(before: Task, payload: UpdateTaskRequest, now: Timestamp)
    ensures
        ({
            let after = patched_task(before, task_patch(payload, now), now);
            &&& after.id == before.id
            &&& after.project_id == before.project_id
            &&& after.created_by == before.created_by
            &&& after.created_at == before.created_at
        }),
{
}

/// A deleted project is gone.
pub proof fn lemma_deleted_project_is_gone(tables: Tables, project_id: Id)
    requires
        tables.valid(),
    ensures
        tables.without_project(project_id).project_by_id(project_id) is None,
{
    let after = tables.without_project(project_id);
    if tables.project_by_id(project_id) is Some {
        let i = tables.project_row(project_id);
        assert(tables.project_has_id(i, project_id));
        assert forall|k: int| !after.project_has_id(k, project_id) by {
            if after.project_has_id(k, project_id) {
                let o = if k < i { k } else { k + 1 };
                assert(tables.projects[o] == after.projects[k]);
                assert(tables.project_has_id(o, project_id));
            }
        }
    } else {
        assert forall|k: int| !after.project_has_id(k, project_id) by {
            if after.project_has_id(k, project_id) {
                assert(tables.project_has_id(k, project_id));
            }
        }
    }
}

/// Who may delete a project: a member with the role `member` is forbidden to; an
/// owner or an admin may, and after the deletion the project is not found by
/// anyone.
pub proof fn project_deletion_takes_elevated_role(
    tables: Tables,
    user_id: Id,
    project_id: Id,
    role: String,
    anyone: Id,
)
    requires
        tables.valid(),
        tables.role_for_project(project_id, user_id) == Some(role),
    ensures
        role@ == "member"@ ==> (project_refusal(
            tables,
            Operation::DeleteProject,
            Some(user_id),
            project_id,
        ) matches Some(e) && status_of(e) == 403),
        (role@ == "owner"@ || role@ == "admin"@) ==> project_refusal(
            tables,
            Operation::DeleteProject,
            Some(user_id),
            project_id,
        ) is None,
        project_view(tables.without_project(project_id), Some(anyone), project_id) matches Err(e)
            && status_of(e) == 404,
{
    reveal_strlit("member");
    reveal_strlit("owner");
    reveal_strlit("admin");
    if role@ == "member"@ {
        assert(role@.len() == 6);
        assert("owner"@.len() == 5);
        assert("admin"@.len() == 5);
    }
    lemma_deleted_project_is_gone(tables, project_id);
}

} // verus!
