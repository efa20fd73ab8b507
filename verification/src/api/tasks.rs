//! The handlers of tasks and comments.

use vstd::prelude::*;
use vstd::string::StringExecFns;
use crate::access::{
    Access, Operation, PrincipalFault, authorize, decision, principal, principal_error, refusal,
    role_text,
};
use crate::api::steps::{failed_while, failure_while, gated};
use crate::api::projects::project_refusal;
use crate::error::{AppError, ErrorView, agrees};
use crate::ident::uuid_parsed;
use crate::models::{
    AuthUser, CommentResponse, CreateCommentRequest, CreateTaskRequest, Id, Task, TaskComment,
    TaskResponse, Timestamp, UpdateTaskRequest, comment_response, task_response,
};
use crate::state::AppState;
use crate::store::listing::is_listing;
use crate::store::tasks::{
    TaskPatch, comment_on, comment_order, patched_task, task_of, task_order, written_comment,
};
use crate::store::protocol::{
    Progress, Reply, Statement, comment_at, comments_at, done_at, fault_of, position_at, record,
    role_at, task_at, tasks_at,
};
use crate::store::Tables;
use crate::text::{clone_optional_text, same_text, text_or, text_or_default};

verus! {

/// The status of a task that is created without one.
pub open spec fn default_task_status() -> Seq<char> {
    "todo"@
}

/// The priority of a task that is created without one.
pub open spec fn default_task_priority() -> Seq<char> {
    "medium"@
}

/// The status that marks a task as completed.
pub open spec fn done_status() -> Seq<char> {
    "done"@
}

/// `row` is the task that a request creates under the identifier `id` at
/// `position`.
pub open spec fn is_new_task(
    row: Task,
    id: Id,
    project_id: Id,
    payload: CreateTaskRequest,
    user_id: Id,
    position: int,
    now: Timestamp,
) -> bool {
    &&& row.id == id
    &&& row.project_id == project_id
    &&& row.title == payload.title
    &&& row.description == payload.description
    &&& row.status@ == text_or(payload.status, default_task_status())
    &&& row.priority@ == text_or(payload.priority, default_task_priority())
    &&& row.assigned_to == payload.assigned_to
    &&& row.created_by == user_id
    &&& row.due_date == payload.due_date
    &&& row.completed_at is None
    &&& row.position == position
    &&& row.created_at == now
    &&& row.updated_at == now
}

/// Why a task cannot be created, if it cannot: the first of the checks that
/// fails.
pub open spec fn create_task_refusal(
    tables: Tables,
    user_id: Option<Id>,
    project_id: Id,
    status: Seq<char>,
) -> Option<ErrorView> {
    if project_refusal(tables, Operation::CreateTask, user_id, project_id) is Some {
        project_refusal(tables, Operation::CreateTask, user_id, project_id)
    } else if tables.next_position(project_id, status) > i32::MAX {
        Some(ErrorView::Internal("Task position out of range"@))
    } else if tables.next_id == u128::MAX {
        Some(ErrorView::DatabaseError("Failed to create task"@))
    } else {
        None
    }
}

/// Why a request on a task is refused, if it is.
pub open spec fn task_refusal(tables: Tables, op: Operation, user_id: Option<Id>, task_id: Id) -> Option<
    ErrorView,
> {
    match user_id {
        None => Some(principal_error(PrincipalFault::Authentication)),
        Some(uid) => {
            let role = role_text(tables.role_for_task(task_id, uid));
            if decision(op, role) == Access::Permitted {
                None
            } else {
                Some(refusal(op, role))
            }
        },
    }
}

/// Why a comment cannot be written, if it cannot.
pub open spec fn create_comment_refusal(tables: Tables, user_id: Option<Id>, task_id: Id) -> Option<
    ErrorView,
> {
    if task_refusal(tables, Operation::CreateComment, user_id, task_id) is Some {
        task_refusal(tables, Operation::CreateComment, user_id, task_id)
    } else if tables.next_id == u128::MAX {
        Some(ErrorView::DatabaseError("Failed to create comment"@))
    } else {
        None
    }
}

/// The instant of completion that an update records: the instant of the update
/// where it sets the status to `done`, none otherwise.
pub open spec fn completion(status: Option<String>, now: Timestamp) -> Option<Timestamp> {
    match status {
        Some(s) => if s@ == done_status() {
            Some(now)
        } else {
            None
        },
        None => None,
    }
}

/// The changes that a request asks for, with the instant of completion that the
/// update at `now` records.
pub open spec fn task_patch(payload: UpdateTaskRequest, now: Timestamp) -> TaskPatch {
    TaskPatch {
        title: payload.title,
        description: payload.description,
        status: payload.status,
        priority: payload.priority,
        assigned_to: payload.assigned_to,
        due_date: payload.due_date,
        position: payload.position,
        completed_at: completion(payload.status, now),
    }
}

/// The responses for listed tasks, in their order.
pub open spec fn task_responses(rows: Seq<Task>) -> Seq<TaskResponse> {
    rows.map_values(|t: Task| task_response(t))
}

/// The responses for listed comments, in their order.
pub open spec fn comment_responses(rows: Seq<TaskComment>) -> Seq<CommentResponse> {
    rows.map_values(|c: TaskComment| comment_response(c))
}

/// What `get_task` answers: the task, or the first refusal. A caller who is no
/// member of the owning organization and a missing task get the same answer.
pub open spec fn task_view(tables: Tables, user_id: Option<Id>, task_id: Id) -> Result<
    TaskResponse,
    ErrorView,
> {
    match user_id {
        None => Err(principal_error(PrincipalFault::Authentication)),
        Some(uid) => match tables.task_for_member(task_id, uid) {
            Some(task) => Ok(task_response(task)),
            None => Err(refusal(Operation::ViewTask, None)),
        },
    }
}

/// The position after the greatest of a column, or 0 for an empty column.
pub open spec fn position_after(top: Option<i32>) -> int {
    match top {
        Some(p) => p + 1,
        None => 0,
    }
}

/// The position of the next task of a column whose greatest position is `top`.
/// A position that no `i32` holds is refused.
pub fn next_position(top: Option<i32>) -> (position: Result<i32, AppError>)
    ensures
        match position {
            Ok(p) => p == position_after(top),
            Err(e) => position_after(top) > i32::MAX && e@ == ErrorView::Internal(
                "Task position out of range"@,
            ),
        },
{
    match top {
        Some(p) => {
            if p == i32::MAX {
                Err(AppError::Internal(String::from_str("Task position out of range")))
            } else {
                Ok(p + 1)
            }
        },
        None => Ok(0),
    }
}

/// The response for the task that was looked up, or the answer that there is
/// none.
pub fn task_or_not_found(found: Option<Task>) -> (response: Result<TaskResponse, AppError>)
    ensures
        match response {
            Ok(r) => found matches Some(t) && r == task_response(t),
            Err(e) => found is None && e@ == refusal(Operation::ViewTask, None),
        },
{
    match found {
        Some(task) => Ok(TaskResponse::from(task)),
        None => Err(AppError::NotFound(String::from_str("Task not found"))),
    }
}

/// Maps listed tasks to their responses.
pub fn respond_with_tasks(rows: &Vec<Task>) -> (responses: Vec<TaskResponse>)
    ensures
        responses@ == task_responses(rows@),
{
    let mut responses: Vec<TaskResponse> = Vec::new();
    let mut i: usize = 0;
    assert(rows@.subrange(0, 0) =~= Seq::<Task>::empty());
    while i < rows.len()
        invariant
            i <= rows.len(),
            responses@ == task_responses(rows@.subrange(0, i as int)),
        decreases rows.len() - i,
    {
        responses.push(TaskResponse::from(rows[i].clone()));
        i += 1;
        assert(responses@ =~= task_responses(rows@.subrange(0, i as int)));
    }
    assert(rows@.subrange(0, rows.len() as int) =~= rows@);
    responses
}

/// Maps listed comments to their responses.
pub fn respond_with_comments(rows: &Vec<TaskComment>) -> (responses: Vec<CommentResponse>)
    ensures
        responses@ == comment_responses(rows@),
{
    let mut responses: Vec<CommentResponse> = Vec::new();
    let mut i: usize = 0;
    assert(rows@.subrange(0, 0) =~= Seq::<TaskComment>::empty());
    while i < rows.len()
        invariant
            i <= rows.len(),
            responses@ == comment_responses(rows@.subrange(0, i as int)),
        decreases rows.len() - i,
    {
        responses.push(CommentResponse::from(rows[i].clone()));
        i += 1;
        assert(responses@ =~= comment_responses(rows@.subrange(0, i as int)));
    }
    assert(rows@.subrange(0, rows.len() as int) =~= rows@);
    responses
}

/// A copy of a task that was looked up.
fn clone_task(found: &Option<Task>) -> (copy: Option<Task>)
    ensures
        copy == *found,
{
    match found {
        Some(task) => Some(task.clone()),
        None => None,
    }
}

/// The instant of completion that an update at `now` records.
pub fn completion_of(status: &Option<String>, now: Timestamp) -> (completed_at: Option<Timestamp>)
    ensures
        completed_at == completion(*status, now),
{
    match status {
        Some(s) => if same_text(s.as_str(), "done") {
            Some(now)
        } else {
            None
        },
        None => None,
    }
}

/// The changes that a request asks for, with the instant of completion that the
/// update at `now` records.
pub fn task_patch_of(payload: &UpdateTaskRequest, now: Timestamp) -> (patch: TaskPatch)
    ensures
        patch == task_patch(*payload, now),
{
    TaskPatch {
        title: clone_optional_text(&payload.title),
        description: clone_optional_text(&payload.description),
        status: clone_optional_text(&payload.status),
        priority: clone_optional_text(&payload.priority),
        assigned_to: payload.assigned_to,
        due_date: payload.due_date,
        position: payload.position,
        completed_at: completion_of(&payload.status, now),
    }
}

/// What the next step of the creation of a task is, given the replies so far:
/// the role of the caller towards the project is asked for; for a member, the
/// greatest position of the column; then the task is added after it; then the
/// answer is 201 with the task.
pub open spec fn create_task_plan(
    step: Result<Progress<(u16, TaskResponse)>, AppError>,
    user_id: Option<Id>,
    project_id: Id,
    payload: CreateTaskRequest,
    replies: Seq<Reply>,
) -> bool {
    gated(
        step,
        user_id,
        Operation::CreateTask,
        replies,
        "Failed to check project access"@,
        |statement: Statement, uid: Id|
            statement == (Statement::RoleForProject { project_id, user_id: uid }),
        |uid: Id|
            if replies.len() == 1 {
                step matches Ok(Progress::Ask(Statement::MaxPosition { project_id: p, status }))
                    && p == project_id && status@ == text_or(
                    payload.status,
                    default_task_status(),
                )
            } else {
                match replies[1] {
                    Reply::Position(top) => if position_after(top) > i32::MAX {
                        step matches Err(e) && e@ == ErrorView::Internal(
                            "Task position out of range"@,
                        )
                    } else if replies.len() == 2 {
                        &&& step matches Ok(
                            Progress::Ask(
                                Statement::InsertTask {
                                    project_id: p,
                                    title,
                                    description,
                                    status,
                                    priority,
                                    assigned_to,
                                    created_by,
                                    due_date,
                                    position,
                                },
                            ),
                        )
                        &&& p == project_id
                        &&& title == payload.title
                        &&& description == payload.description
                        &&& status@ == text_or(payload.status, default_task_status())
                        &&& priority@ == text_or(payload.priority, default_task_priority())
                        &&& assigned_to == payload.assigned_to
                        &&& created_by == uid
                        &&& due_date == payload.due_date
                        &&& position == position_after(top)
                    } else {
                        match replies[2] {
                            Reply::Task(Some(task)) => step matches Ok(
                                Progress::Finished((code, response)),
                            ) && code == 201 && response == task_response(task),
                            other => step matches Err(e) && e@ == failure_while(
                                fault_of(other),
                                "Failed to create task"@,
                            ),
                        }
                    },
                    other => step matches Err(e) && e@ == failure_while(
                        fault_of(other),
                        "Failed to get max position"@,
                    ),
                }
            },
    )
}

/// The next step of the creation of a task.
pub fn create_task_step(
    auth_user: &AuthUser,
    project_id: Id,
    payload: &CreateTaskRequest,
    replies: &Vec<Reply>,
) -> (step: Result<Progress<(u16, TaskResponse)>, AppError>)
    ensures
        create_task_plan(step, uuid_parsed(auth_user.user_id@), project_id, *payload, replies@),
        replies.len() >= 3 ==> !(step matches Ok(Progress::Ask(_))),
{
    let user_id = principal(auth_user, PrincipalFault::Authentication)?;
    let role = match role_at(replies, 0) {
        Ok(Some(role)) => role,
        Ok(None) => {
            return Ok(Progress::Ask(Statement::RoleForProject { project_id, user_id }));
        },
        Err(fault) => {
            return Err(failed_while(fault, "Failed to check project access"));
        },
    };
    authorize(Operation::CreateTask, role)?;
    let status = text_or_default(clone_optional_text(&payload.status), "todo");
    let top = match position_at(replies, 1) {
        Ok(Some(top)) => *top,
        Ok(None) => {
            return Ok(Progress::Ask(Statement::MaxPosition { project_id, status }));
        },
        Err(fault) => {
            return Err(failed_while(fault, "Failed to get max position"));
        },
    };
    let position = next_position(top)?;
    match task_at(replies, 2) {
        Ok(Some(Some(task))) => Ok(Progress::Finished((201, TaskResponse::from(task.clone())))),
        Ok(Some(None)) => Err(AppError::unexpected()),
        Ok(None) => Ok(
            Progress::Ask(
                Statement::InsertTask {
                    project_id,
                    title: payload.title.clone(),
                    description: clone_optional_text(&payload.description),
                    status,
                    priority: text_or_default(clone_optional_text(&payload.priority), "medium"),
                    assigned_to: payload.assigned_to,
                    created_by: user_id,
                    due_date: payload.due_date,
                    position,
                },
            ),
        ),
        Err(fault) => Err(failed_while(fault, "Failed to create task")),
    }
}

/// Creates a task in a project, after the last task of the project with the same
/// status. Every member of the organization that owns the project may.
pub fn create_task(
    state: &mut AppState,
    auth_user: &AuthUser,
    project_id: Id,
    payload: CreateTaskRequest,
    now: Timestamp,
) -> (created: Result<(u16, TaskResponse), AppError>)
    requires
        old(state).store.wf(),
    ensures
        final(state).store.wf(),
        final(state).config == old(state).config,
        match created {
            Ok((code, response)) => {
                let row = final(state).store@.tasks.last();
                &&& create_task_refusal(
                    old(state).store@,
                    uuid_parsed(auth_user.user_id@),
                    project_id,
                    text_or(payload.status, default_task_status()),
                ) is None
                &&& code == 201
                &&& final(state).store@ == old(state).store@.with_task(row)
                &&& is_new_task(
                    row,
                    old(state).store@.next_id,
                    project_id,
                    payload,
                    uuid_parsed(auth_user.user_id@)->0,
                    old(state).store@.next_position(
                        project_id,
                        text_or(payload.status, default_task_status()),
                    ),
                    now,
                )
                &&& response == task_response(row)
            },
            Err(e) => {
                &&& create_task_refusal(
                    old(state).store@,
                    uuid_parsed(auth_user.user_id@),
                    project_id,
                    text_or(payload.status, default_task_status()),
                ) == Some(e@)
                &&& final(state).store@ == old(state).store@
            },
        },
{
    let mut replies: Vec<Reply> = Vec::new();
    match create_task_step(auth_user, project_id, &payload, &replies)? {
        Progress::Finished(answer) => {
            return Ok(answer);
        },
        Progress::Ask(statement) => record(&mut state.store, &mut replies, statement, now),
    }
    match create_task_step(auth_user, project_id, &payload, &replies)? {
        Progress::Finished(answer) => {
            return Ok(answer);
        },
        Progress::Ask(statement) => record(&mut state.store, &mut replies, statement, now),
    }
    match create_task_step(auth_user, project_id, &payload, &replies)? {
        Progress::Finished(answer) => {
            return Ok(answer);
        },
        Progress::Ask(statement) => record(&mut state.store, &mut replies, statement, now),
    }
    match create_task_step(auth_user, project_id, &payload, &replies)? {
        Progress::Finished(answer) => Ok(answer),
        Progress::Ask(_) => Err(AppError::unexpected()),
    }
}

/// What the next step of the listing of the tasks of a project is, given the
/// replies so far: the role of the caller towards the project is asked for; for
/// a member, the tasks; then the answer is their responses.
pub open spec fn list_tasks_plan(
    step: Result<Progress<Vec<TaskResponse>>, AppError>,
    user_id: Option<Id>,
    project_id: Id,
    replies: Seq<Reply>,
) -> bool {
    gated(
        step,
        user_id,
        Operation::ListTasks,
        replies,
        "Failed to check project access"@,
        |statement: Statement, uid: Id|
            statement == (Statement::RoleForProject { project_id, user_id: uid }),
        |uid: Id|
            if replies.len() == 1 {
                step == Ok::<Progress<Vec<TaskResponse>>, AppError>(
                    Progress::Ask(Statement::TasksOfProject { project_id }),
                )
            } else {
                match replies[1] {
                    Reply::Tasks(rows) => step matches Ok(Progress::Finished(responses))
                        && responses@ == task_responses(rows@),
                    other => step matches Err(e) && e@ == failure_while(
                        fault_of(other),
                        "Failed to fetch tasks"@,
                    ),
                }
            },
    )
}

/// The next step of the listing of the tasks of a project.
pub fn get_project_tasks_step(auth_user: &AuthUser, project_id: Id, replies: &Vec<Reply>) -> (step:
    Result<Progress<Vec<TaskResponse>>, AppError>)
    ensures
        list_tasks_plan(step, uuid_parsed(auth_user.user_id@), project_id, replies@),
        replies.len() >= 2 ==> !(step matches Ok(Progress::Ask(_))),
{
    let user_id = principal(auth_user, PrincipalFault::Authentication)?;
    let role = match role_at(replies, 0) {
        Ok(Some(role)) => role,
        Ok(None) => {
            return Ok(Progress::Ask(Statement::RoleForProject { project_id, user_id }));
        },
        Err(fault) => {
            return Err(failed_while(fault, "Failed to check project access"));
        },
    };
    authorize(Operation::ListTasks, role)?;
    match tasks_at(replies, 1) {
        Ok(Some(rows)) => Ok(Progress::Finished(respond_with_tasks(rows))),
        Ok(None) => Ok(Progress::Ask(Statement::TasksOfProject { project_id })),
        Err(fault) => Err(failed_while(fault, "Failed to fetch tasks")),
    }
}

/// The tasks of a project by position, then oldest first. Every member of the
/// organization that owns the project may see them.
pub fn get_project_tasks(state: &mut AppState, auth_user: &AuthUser, project_id: Id) -> (listed: Result<
    Vec<TaskResponse>,
    AppError,
>)
    requires
        old(state).store.wf(),
    ensures
        final(state).store.wf(),
        final(state).config == old(state).config,
        final(state).store@ == old(state).store@,
        match listed {
            Ok(responses) => {
                &&& project_refusal(
                    old(state).store@,
                    Operation::ListTasks,
                    uuid_parsed(auth_user.user_id@),
                    project_id,
                ) is None
                &&& exists|found: Seq<Task>|
                    #![trigger task_responses(found)]
                    is_listing(found, old(state).store@.tasks, task_of(project_id), task_order())
                        && responses@ == task_responses(found)
            },
            Err(e) => project_refusal(
                old(state).store@,
                Operation::ListTasks,
                uuid_parsed(auth_user.user_id@),
                project_id,
            ) == Some(e@),
        },
{
    let mut replies: Vec<Reply> = Vec::new();
    match get_project_tasks_step(auth_user, project_id, &replies)? {
        Progress::Finished(answer) => {
            return Ok(answer);
        },
        Progress::Ask(statement) => record(&mut state.store, &mut replies, statement, 0),
    }
    match get_project_tasks_step(auth_user, project_id, &replies)? {
        Progress::Finished(answer) => {
            return Ok(answer);
        },
        Progress::Ask(statement) => record(&mut state.store, &mut replies, statement, 0),
    }
    match get_project_tasks_step(auth_user, project_id, &replies)? {
        Progress::Finished(answer) => {
            assert(replies@[1] is Tasks);
            assert(answer@ == task_responses(replies@[1]->Tasks_0@));
            Ok(answer)
        },
        Progress::Ask(_) => Err(AppError::unexpected()),
    }
}

/// What the next step of the reading of a task is, given the replies so far: the
/// task is asked for as the caller may see it; then the answer is the task, or
/// that there is none.
pub open spec fn get_task_plan(
    step: Result<Progress<TaskResponse>, AppError>,
    user_id: Option<Id>,
    task_id: Id,
    replies: Seq<Reply>,
) -> bool {
    match user_id {
        None => step matches Err(e) && e@ == principal_error(PrincipalFault::Authentication),
        Some(uid) => if replies.len() == 0 {
            step == Ok::<Progress<TaskResponse>, AppError>(
                Progress::Ask(Statement::TaskForMember { task_id, user_id: uid }),
            )
        } else {
            match replies[0] {
                Reply::Task(Some(task)) => step matches Ok(Progress::Finished(response))
                    && response == task_response(task),
                Reply::Task(None) => step matches Err(e) && e@ == refusal(Operation::ViewTask, None),
                other => step matches Err(e) && e@ == failure_while(
                    fault_of(other),
                    "Failed to fetch task"@,
                ),
            }
        },
    }
}

/// The next step of the reading of a task.
pub fn get_task_step(auth_user: &AuthUser, task_id: Id, replies: &Vec<Reply>) -> (step: Result<
    Progress<TaskResponse>,
    AppError,
>)
    ensures
        get_task_plan(step, uuid_parsed(auth_user.user_id@), task_id, replies@),
        replies.len() >= 1 ==> !(step matches Ok(Progress::Ask(_))),
{
    let user_id = principal(auth_user, PrincipalFault::Authentication)?;
    match task_at(replies, 0) {
        Ok(Some(found)) => Ok(Progress::Finished(task_or_not_found(clone_task(found))?)),
        Ok(None) => Ok(Progress::Ask(Statement::TaskForMember { task_id, user_id })),
        Err(fault) => Err(failed_while(fault, "Failed to fetch task")),
    }
}

/// One task. Only members of the organization that owns its project see it.
pub fn get_task(state: &mut AppState, auth_user: &AuthUser, task_id: Id) -> (found: Result<
    TaskResponse,
    AppError,
>)
    requires
        old(state).store.wf(),
    ensures
        final(state).store.wf(),
        final(state).config == old(state).config,
        final(state).store@ == old(state).store@,
        agrees(found, task_view(old(state).store@, uuid_parsed(auth_user.user_id@), task_id)),
{
    let mut replies: Vec<Reply> = Vec::new();
    match get_task_step(auth_user, task_id, &replies)? {
        Progress::Finished(answer) => {
            return Ok(answer);
        },
        Progress::Ask(statement) => record(&mut state.store, &mut replies, statement, 0),
    }
    match get_task_step(auth_user, task_id, &replies)? {
        Progress::Finished(answer) => Ok(answer),
        Progress::Ask(_) => Err(AppError::unexpected()),
    }
}

/// What the next step of the update of a task is, given the replies so far: the
/// role of the caller towards the task is asked for; for a member, the task is
/// changed; then the answer is the changed task.
pub open spec fn update_task_plan(
    step: Result<Progress<TaskResponse>, AppError>,
    user_id: Option<Id>,
    task_id: Id,
    payload: UpdateTaskRequest,
    now: Timestamp,
    replies: Seq<Reply>,
) -> bool {
    gated(
        step,
        user_id,
        Operation::UpdateTask,
        replies,
        "Failed to check task access"@,
        |statement: Statement, uid: Id|
            statement == (Statement::RoleForTask { task_id, user_id: uid }),
        |uid: Id|
            if replies.len() == 1 {
                step == Ok::<Progress<TaskResponse>, AppError>(
                    Progress::Ask(
                        Statement::UpdateTask { id: task_id, patch: task_patch(payload, now) },
                    ),
                )
            } else {
                match replies[1] {
                    Reply::Task(Some(task)) => step matches Ok(Progress::Finished(response))
                        && response == task_response(task),
                    other => step matches Err(e) && e@ == failure_while(
                        fault_of(other),
                        "Failed to update task"@,
                    ),
                }
            },
    )
}

/// The next step of the update of a task at the instant `now`.
pub fn update_task_step(
    auth_user: &AuthUser,
    task_id: Id,
    payload: &UpdateTaskRequest,
    now: Timestamp,
    replies: &Vec<Reply>,
) -> (step: Result<Progress<TaskResponse>, AppError>)
    ensures
        update_task_plan(step, uuid_parsed(auth_user.user_id@), task_id, *payload, now, replies@),
        replies.len() >= 2 ==> !(step matches Ok(Progress::Ask(_))),
{
    let user_id = principal(auth_user, PrincipalFault::Authentication)?;
    let role = match role_at(replies, 0) {
        Ok(Some(role)) => role,
        Ok(None) => {
            return Ok(Progress::Ask(Statement::RoleForTask { task_id, user_id }));
        },
        Err(fault) => {
            return Err(failed_while(fault, "Failed to check task access"));
        },
    };
    authorize(Operation::UpdateTask, role)?;
    match task_at(replies, 1) {
        Ok(Some(Some(task))) => Ok(Progress::Finished(TaskResponse::from(task.clone()))),
        Ok(Some(None)) => Err(AppError::unexpected()),
        Ok(None) => Ok(
            Progress::Ask(Statement::UpdateTask { id: task_id, patch: task_patch_of(payload, now) }),
        ),
        Err(fault) => Err(failed_while(fault, "Failed to update task")),
    }
}

/// Changes the fields of a task for which the request gives a value. A status
/// of `done` records the instant of the update as the instant of completion;
/// any other update leaves that instant as it was. Every member of the
/// organization that owns the project may.
pub fn update_task(
    state: &mut AppState,
    auth_user: &AuthUser,
    task_id: Id,
    payload: UpdateTaskRequest,
    now: Timestamp,
) -> (updated: Result<TaskResponse, AppError>)
    requires
        old(state).store.wf(),
    ensures
        final(state).store.wf(),
        final(state).config == old(state).config,
        match updated {
            Ok(response) => {
                &&& task_refusal(
                    old(state).store@,
                    Operation::UpdateTask,
                    uuid_parsed(auth_user.user_id@),
                    task_id,
                ) is None
                &&& old(state).store@.task_by_id(task_id) matches Some(before)
                &&& response == task_response(patched_task(before, task_patch(payload, now), now))
                &&& final(state).store@ == old(state).store@.with_task_at(
                    old(state).store@.task_row(task_id),
                    patched_task(before, task_patch(payload, now), now),
                )
            },
            Err(e) => {
                &&& task_refusal(
                    old(state).store@,
                    Operation::UpdateTask,
                    uuid_parsed(auth_user.user_id@),
                    task_id,
                ) == Some(e@)
                &&& final(state).store@ == old(state).store@
            },
        },
{
    let mut replies: Vec<Reply> = Vec::new();
    match update_task_step(auth_user, task_id, &payload, now, &replies)? {
        Progress::Finished(answer) => {
            return Ok(answer);
        },
        Progress::Ask(statement) => record(&mut state.store, &mut replies, statement, now),
    }
    match update_task_step(auth_user, task_id, &payload, now, &replies)? {
        Progress::Finished(answer) => {
            return Ok(answer);
        },
        Progress::Ask(statement) => record(&mut state.store, &mut replies, statement, now),
    }
    match update_task_step(auth_user, task_id, &payload, now, &replies)? {
        Progress::Finished(answer) => Ok(answer),
        Progress::Ask(_) => Err(AppError::unexpected()),
    }
}

/// What the next step of the deletion of a task is, given the replies so far:
/// the role of the caller towards the task is asked for; for a member, the task
/// is deleted; then the answer is 204.
pub open spec fn delete_task_plan(
    step: Result<Progress<u16>, AppError>,
    user_id: Option<Id>,
    task_id: Id,
    replies: Seq<Reply>,
) -> bool {
    gated(
        step,
        user_id,
        Operation::DeleteTask,
        replies,
        "Failed to check task access"@,
        |statement: Statement, uid: Id|
            statement == (Statement::RoleForTask { task_id, user_id: uid }),
        |uid: Id|
            if replies.len() == 1 {
                step == Ok::<Progress<u16>, AppError>(
                    Progress::Ask(Statement::DeleteTask { id: task_id }),
                )
            } else {
                match replies[1] {
                    Reply::Done => step == Ok::<Progress<u16>, AppError>(Progress::Finished(204)),
                    other => step matches Err(e) && e@ == failure_while(
                        fault_of(other),
                        "Failed to delete task"@,
                    ),
                }
            },
    )
}

/// The next step of the deletion of a task.
pub fn delete_task_step(auth_user: &AuthUser, task_id: Id, replies: &Vec<Reply>) -> (step: Result<
    Progress<u16>,
    AppError,
>)
    ensures
        delete_task_plan(step, uuid_parsed(auth_user.user_id@), task_id, replies@),
        replies.len() >= 2 ==> !(step matches Ok(Progress::Ask(_))),
{
    let user_id = principal(auth_user, PrincipalFault::Authentication)?;
    let role = match role_at(replies, 0) {
        Ok(Some(role)) => role,
        Ok(None) => {
            return Ok(Progress::Ask(Statement::RoleForTask { task_id, user_id }));
        },
        Err(fault) => {
            return Err(failed_while(fault, "Failed to check task access"));
        },
    };
    authorize(Operation::DeleteTask, role)?;
    match done_at(replies, 1) {
        Ok(true) => Ok(Progress::Finished(204)),
        Ok(false) => Ok(Progress::Ask(Statement::DeleteTask { id: task_id })),
        Err(fault) => Err(failed_while(fault, "Failed to delete task")),
    }
}

/// Deletes a task. Every member of the organization that owns its project may;
/// to a caller who is no member the task does not exist.
pub fn delete_task(state: &mut AppState, auth_user: &AuthUser, task_id: Id) -> (deleted: Result<
    u16,
    AppError,
>)
    requires
        old(state).store.wf(),
    ensures
        final(state).store.wf(),
        final(state).config == old(state).config,
        match deleted {
            Ok(code) => {
                &&& task_refusal(
                    old(state).store@,
                    Operation::DeleteTask,
                    uuid_parsed(auth_user.user_id@),
                    task_id,
                ) is None
                &&& code == 204
                &&& final(state).store@ == old(state).store@.without_task(task_id)
                &&& final(state).store@.task_by_id(task_id) is None
            },
            Err(e) => {
                &&& task_refusal(
                    old(state).store@,
                    Operation::DeleteTask,
                    uuid_parsed(auth_user.user_id@),
                    task_id,
                ) == Some(e@)
                &&& final(state).store@ == old(state).store@
            },
        },
{
    let mut replies: Vec<Reply> = Vec::new();
    match delete_task_step(auth_user, task_id, &replies)? {
        Progress::Finished(code) => {
            return Ok(code);
        },
        Progress::Ask(statement) => record(&mut state.store, &mut replies, statement, 0),
    }
    match delete_task_step(auth_user, task_id, &replies)? {
        Progress::Finished(code) => {
            return Ok(code);
        },
        Progress::Ask(statement) => record(&mut state.store, &mut replies, statement, 0),
    }
    match delete_task_step(auth_user, task_id, &replies)? {
        Progress::Finished(code) => Ok(code),
        Progress::Ask(_) => Err(AppError::unexpected()),
    }
}

/// What the next step of the writing of a comment is, given the replies so far:
/// the role of the caller towards the task is asked for; for a member, the
/// comment is added; then the answer is 201 with the comment.
pub open spec fn create_comment_plan(
    step: Result<Progress<(u16, CommentResponse)>, AppError>,
    user_id: Option<Id>,
    task_id: Id,
    payload: CreateCommentRequest,
    replies: Seq<Reply>,
) -> bool {
    gated(
        step,
        user_id,
        Operation::CreateComment,
        replies,
        "Failed to check task access"@,
        |statement: Statement, uid: Id|
            statement == (Statement::RoleForTask { task_id, user_id: uid }),
        |uid: Id|
            if replies.len() == 1 {
                step == Ok::<Progress<(u16, CommentResponse)>, AppError>(
                    Progress::Ask(
                        Statement::InsertComment { task_id, user_id: uid, content: payload.content },
                    ),
                )
            } else {
                match replies[1] {
                    Reply::Comment(Some(comment)) => step matches Ok(
                        Progress::Finished((code, response)),
                    ) && code == 201 && response == comment_response(comment),
                    other => step matches Err(e) && e@ == failure_while(
                        fault_of(other),
                        "Failed to create comment"@,
                    ),
                }
            },
    )
}

/// The next step of the writing of a comment.
pub fn create_comment_step(
    auth_user: &AuthUser,
    task_id: Id,
    payload: &CreateCommentRequest,
    replies: &Vec<Reply>,
) -> (step: Result<Progress<(u16, CommentResponse)>, AppError>)
    ensures
        create_comment_plan(step, uuid_parsed(auth_user.user_id@), task_id, *payload, replies@),
        replies.len() >= 2 ==> !(step matches Ok(Progress::Ask(_))),
{
    let user_id = principal(auth_user, PrincipalFault::Authentication)?;
    let role = match role_at(replies, 0) {
        Ok(Some(role)) => role,
        Ok(None) => {
            return Ok(Progress::Ask(Statement::RoleForTask { task_id, user_id }));
        },
        Err(fault) => {
            return Err(failed_while(fault, "Failed to check task access"));
        },
    };
    authorize(Operation::CreateComment, role)?;
    match comment_at(replies, 1) {
        Ok(Some(Some(comment))) => Ok(
            Progress::Finished((201, CommentResponse::from(comment.clone()))),
        ),
        Ok(Some(None)) => Err(AppError::unexpected()),
        Ok(None) => Ok(
            Progress::Ask(
                Statement::InsertComment { task_id, user_id, content: payload.content.clone() },
            ),
        ),
        Err(fault) => Err(failed_while(fault, "Failed to create comment")),
    }
}

/// Writes a comment on a task. Every member of the organization that owns its
/// project may.
pub fn create_comment(
    state: &mut AppState,
    auth_user: &AuthUser,
    task_id: Id,
    payload: CreateCommentRequest,
    now: Timestamp,
) -> (created: Result<(u16, CommentResponse), AppError>)
    requires
        old(state).store.wf(),
    ensures
        final(state).store.wf(),
        final(state).config == old(state).config,
        match created {
            Ok((code, response)) => {
                let row = written_comment(
                    old(state).store@.next_id,
                    task_id,
                    uuid_parsed(auth_user.user_id@)->0,
                    payload.content,
                    now,
                );
                &&& create_comment_refusal(
                    old(state).store@,
                    uuid_parsed(auth_user.user_id@),
                    task_id,
                ) is None
                &&& code == 201
                &&& final(state).store@ == old(state).store@.with_comment(row)
                &&& response == comment_response(row)
            },
            Err(e) => {
                &&& create_comment_refusal(
                    old(state).store@,
                    uuid_parsed(auth_user.user_id@),
                    task_id,
                ) == Some(e@)
                &&& final(state).store@ == old(state).store@
            },
        },
{
    let mut replies: Vec<Reply> = Vec::new();
    match create_comment_step(auth_user, task_id, &payload, &replies)? {
        Progress::Finished(answer) => {
            return Ok(answer);
        },
        Progress::Ask(statement) => record(&mut state.store, &mut replies, statement, now),
    }
    match create_comment_step(auth_user, task_id, &payload, &replies)? {
        Progress::Finished(answer) => {
            return Ok(answer);
        },
        Progress::Ask(statement) => record(&mut state.store, &mut replies, statement, now),
    }
    match create_comment_step(auth_user, task_id, &payload, &replies)? {
        Progress::Finished(answer) => Ok(answer),
        Progress::Ask(_) => Err(AppError::unexpected()),
    }
}

/// What the next step of the listing of the comments on a task is, given the
/// replies so far: the role of the caller towards the task is asked for; for a
/// member, the comments; then the answer is their responses.
pub open spec fn list_comments_plan(
    step: Result<Progress<Vec<CommentResponse>>, AppError>,
    user_id: Option<Id>,
    task_id: Id,
    replies: Seq<Reply>,
) -> bool {
    gated(
        step,
        user_id,
        Operation::ListComments,
        replies,
        "Failed to check task access"@,
        |statement: Statement, uid: Id|
            statement == (Statement::RoleForTask { task_id, user_id: uid }),
        |uid: Id|
            if replies.len() == 1 {
                step == Ok::<Progress<Vec<CommentResponse>>, AppError>(
                    Progress::Ask(Statement::CommentsOfTask { task_id }),
                )
            } else {
                match replies[1] {
                    Reply::Comments(rows) => step matches Ok(Progress::Finished(responses))
                        && responses@ == comment_responses(rows@),
                    other => step matches Err(e) && e@ == failure_while(
                        fault_of(other),
                        "Failed to fetch comments"@,
                    ),
                }
            },
    )
}

/// The next step of the listing of the comments on a task.
pub fn get_task_comments_step(auth_user: &AuthUser, task_id: Id, replies: &Vec<Reply>) -> (step: Result<
    Progress<Vec<CommentResponse>>,
    AppError,
>)
    ensures
        list_comments_plan(step, uuid_parsed(auth_user.user_id@), task_id, replies@),
        replies.len() >= 2 ==> !(step matches Ok(Progress::Ask(_))),
{
    let user_id = principal(auth_user, PrincipalFault::Authentication)?;
    let role = match role_at(replies, 0) {
        Ok(Some(role)) => role,
        Ok(None) => {
            return Ok(Progress::Ask(Statement::RoleForTask { task_id, user_id }));
        },
        Err(fault) => {
            return Err(failed_while(fault, "Failed to check task access"));
        },
    };
    authorize(Operation::ListComments, role)?;
    match comments_at(replies, 1) {
        Ok(Some(rows)) => Ok(Progress::Finished(respond_with_comments(rows))),
        Ok(None) => Ok(Progress::Ask(Statement::CommentsOfTask { task_id })),
        Err(fault) => Err(failed_while(fault, "Failed to fetch comments")),
    }
}

/// The comments on a task, oldest first. Every member of the organization that
/// owns its project may see them.
pub fn get_task_comments(state: &mut AppState, auth_user: &AuthUser, task_id: Id) -> (listed: Result<
    Vec<CommentResponse>,
    AppError,
>)
    requires
        old(state).store.wf(),
    ensures
        final(state).store.wf(),
        final(state).config == old(state).config,
        final(state).store@ == old(state).store@,
        match listed {
            Ok(responses) => {
                &&& task_refusal(
                    old(state).store@,
                    Operation::ListComments,
                    uuid_parsed(auth_user.user_id@),
                    task_id,
                ) is None
                &&& exists|found: Seq<TaskComment>|
                    #![trigger comment_responses(found)]
                    is_listing(
                        found,
                        old(state).store@.comments,
                        comment_on(task_id),
                        comment_order(),
                    ) && responses@ == comment_responses(found)
            },
            Err(e) => task_refusal(
                old(state).store@,
                Operation::ListComments,
                uuid_parsed(auth_user.user_id@),
                task_id,
            ) == Some(e@),
        },
{
    let mut replies: Vec<Reply> = Vec::new();
    match get_task_comments_step(auth_user, task_id, &replies)? {
        Progress::Finished(answer) => {
            return Ok(answer);
        },
        Progress::Ask(statement) => record(&mut state.store, &mut replies, statement, 0),
    }
    match get_task_comments_step(auth_user, task_id, &replies)? {
        Progress::Finished(answer) => {
            return Ok(answer);
        },
        Progress::Ask(statement) => record(&mut state.store, &mut replies, statement, 0),
    }
    match get_task_comments_step(auth_user, task_id, &replies)? {
        Progress::Finished(answer) => {
            assert(replies@[1] is Comments);
            assert(answer@ == comment_responses(replies@[1]->Comments_0@));
            Ok(answer)
        },
        Progress::Ask(_) => Err(AppError::unexpected()),
    }
}

} // verus!
