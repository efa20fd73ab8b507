//! Tasks and comments as the client knows them, and the endpoints that serve
//! them.

use vstd::prelude::*;
use vstd::string::StringExecFns;
use crate::models::{Id, Timestamp};
use crate::text::{clone_optional_text, same_text};

verus! {

/// A task as the interface sends it.
#[derive(Debug)]
pub struct Task {
    pub id: Id,
    pub project_id: Id,
    pub title: String,
    pub description: Option<String>,
    pub status: String,
    pub priority: String,
    pub assigned_to: Option<Id>,
    pub created_by: Id,
    pub due_date: Option<Timestamp>,
    pub completed_at: Option<Timestamp>,
    pub position: i32,
    pub created_at: Timestamp,
    pub updated_at: Timestamp,
}

impl Clone for Task {
    fn clone(&self) -> (copy: Self)
        ensures
            copy == *self,
    {
        Task {
            id: self.id,
            project_id: self.project_id,
            title: self.title.clone(),
            description: clone_optional_text(&self.description),
            status: self.status.clone(),
            priority: self.priority.clone(),
            assigned_to: self.assigned_to,
            created_by: self.created_by,
            due_date: self.due_date,
            completed_at: self.completed_at,
            position: self.position,
            created_at: self.created_at,
            updated_at: self.updated_at,
        }
    }
}

/// The body of a request to create a task.
#[derive(Debug)]
pub struct CreateTaskRequest {
    pub title: String,
    pub description: Option<String>,
    pub status: Option<String>,
    pub priority: Option<String>,
    pub assigned_to: Option<Id>,
    pub due_date: Option<Timestamp>,
}

/// The body of a partial update of a task.
#[derive(Debug)]
pub struct UpdateTaskRequest {
    pub title: Option<String>,
    pub description: Option<String>,
    pub status: Option<String>,
    pub priority: Option<String>,
    pub assigned_to: Option<Id>,
    pub due_date: Option<Timestamp>,
    pub position: Option<i32>,
}

/// A comment as the interface sends it.
#[derive(Debug)]
pub struct Comment {
    pub id: Id,
    pub task_id: Id,
    pub user_id: Id,
    pub content: String,
    pub created_at: Timestamp,
    pub updated_at: Timestamp,
}

/// The body of a request to comment on a task.
#[derive(Debug)]
pub struct CreateCommentRequest {
    pub content: String,
}

/// The endpoint of the tasks of a project, and of their creation.
pub open spec fn tasks_endpoint(project_id: Seq<char>) -> Seq<char> {
    "/api/projects/"@ + project_id + "/tasks"@
}

/// The endpoint of one task.
pub open spec fn task_endpoint(task_id: Seq<char>) -> Seq<char> {
    "/api/tasks/"@ + task_id
}

/// The endpoint of the comments on a task, and of their creation.
pub open spec fn comments_endpoint(task_id: Seq<char>) -> Seq<char> {
    "/api/tasks/"@ + task_id + "/comments"@
}

/// The endpoint that lists the tasks of a project.
pub fn get_project_tasks(project_id: &str) -> (endpoint: String)
    ensures
        endpoint@ == tasks_endpoint(project_id@),
{
    String::from_str("/api/projects/").concat(project_id).concat("/tasks")
}

/// The request that creates a task in a project: its endpoint and its body.
pub fn create_task(project_id: &str, request: CreateTaskRequest) -> (sent: (
    String,
    CreateTaskRequest,
))
    ensures
        sent.0@ == tasks_endpoint(project_id@),
        sent.1 == request,
{
    (String::from_str("/api/projects/").concat(project_id).concat("/tasks"), request)
}

/// The endpoint that answers with one task.
pub fn get_task(task_id: &str) -> (endpoint: String)
    ensures
        endpoint@ == task_endpoint(task_id@),
{
    String::from_str("/api/tasks/").concat(task_id)
}

/// The request that updates a task: its endpoint and its body.
pub fn update_task(task_id: &str, request: UpdateTaskRequest) -> (sent: (
    String,
    UpdateTaskRequest,
))
    ensures
        sent.0@ == task_endpoint(task_id@),
        sent.1 == request,
{
    (String::from_str("/api/tasks/").concat(task_id), request)
}

/// The endpoint that deletes a task.
pub fn delete_task(task_id: &str) -> (endpoint: String)
    ensures
        endpoint@ == task_endpoint(task_id@),
{
    String::from_str("/api/tasks/").concat(task_id)
}

/// The endpoint that lists the comments on a task.
pub fn get_task_comments(task_id: &str) -> (endpoint: String)
    ensures
        endpoint@ == comments_endpoint(task_id@),
{
    String::from_str("/api/tasks/").concat(task_id).concat("/comments")
}

/// The request that writes a comment on a task: its endpoint and its body.
pub fn create_comment(task_id: &str, request: CreateCommentRequest) -> (sent: (
    String,
    CreateCommentRequest,
))
    ensures
        sent.0@ == comments_endpoint(task_id@),
        sent.1 == request,
{
    (String::from_str("/api/tasks/").concat(task_id).concat("/comments"), request)
}

/// The tasks of a board column: those with this status, in the order of the
/// board.
pub open spec fn column_of(tasks: Seq<Task>, status: Seq<char>) -> Seq<Task> {
    tasks.filter(|t: Task| t.status@ == status)
}

/// The tasks with this status, in their order.
pub fn tasks_with_status(tasks: &Vec<Task>, status: &str) -> (column: Vec<Task>)
    ensures
        column@ == column_of(tasks@, status@),
{
    let mut column: Vec<Task> = Vec::new();
    let mut i: usize = 0;
    proof {
        reveal(Seq::filter);
        assert(tasks@.subrange(0, 0) =~= Seq::<Task>::empty());
    }
    while i < tasks.len()
        invariant
            i <= tasks.len(),
            column@ == column_of(tasks@.subrange(0, i as int), status@),
        decreases tasks.len() - i,
    {
        proof {
            reveal(Seq::filter);
            assert(tasks@.subrange(0, i + 1).drop_last() =~= tasks@.subrange(0, i as int));
        }
        if same_text(tasks[i].status.as_str(), status) {
            column.push(tasks[i].clone());
        }
        i += 1;
    }
    assert(tasks@.subrange(0, i as int) =~= tasks@);
    column
}

/// The row of the first task with this identifier, if there is one.
pub open spec fn first_task_with(tasks: Seq<Task>, task_id: Id) -> Option<int>
    decreases tasks.len(),
{
    if tasks.len() == 0 {
        None
    } else if tasks[0].id == task_id {
        Some(0)
    } else {
        match first_task_with(tasks.drop_first(), task_id) {
            Some(i) => Some(i + 1),
            None => None,
        }
    }
}

/// The board after an updated task came back: it stands in place of the first
/// task with this identifier; a board without such a task stays as it is.
pub open spec fn with_updated(tasks: Seq<Task>, task_id: Id, updated: Task) -> Seq<Task> {
    match first_task_with(tasks, task_id) {
        Some(i) => tasks.update(i, updated),
        None => tasks,
    }
}

/// Puts an updated task in place of the first task of the board with this
/// identifier.
pub fn replace_task(tasks: &mut Vec<Task>, task_id: Id, updated: Task)
    ensures
        final(tasks)@ == with_updated(old(tasks)@, task_id, updated),
{
    let ghost before = tasks@;
    let mut i: usize = 0;
    assert(before.subrange(0, before.len() as int) =~= before);
    while i < tasks.len()
        invariant
            i <= tasks.len(),
            tasks@ == before,
            before == old(tasks)@,
            first_task_with(before, task_id) == match first_task_with(
                before.subrange(i as int, before.len() as int),
                task_id,
            ) {
                Some(k) => Some(k + i),
                None => None,
            },
        decreases tasks.len() - i,
    {
        let ghost rest = before.subrange(i as int, before.len() as int);
        assert(rest[0] == before[i as int]);
        assert(rest.drop_first() =~= before.subrange(i + 1, before.len() as int));
        if tasks[i].id == task_id {
            tasks.remove(i);
            tasks.insert(i, updated);
            assert(tasks@ =~= before.update(i as int, updated));
            return;
        }

        i += 1;
    }
    assert(before.subrange(i as int, before.len() as int).len() == 0);
}

/// The style of a task card for a priority: red for high, yellow for medium,
/// green for low, gray for any other.
pub open spec fn priority_style(priority: Seq<char>) -> Seq<char> {
    if priority == "high"@ {
        "border-l-4 border-red-500"@
    } else if priority == "medium"@ {
        "border-l-4 border-yellow-500"@
    } else if priority == "low"@ {
        "border-l-4 border-green-500"@
    } else {
        "border-l-4 border-gray-300"@
    }
}

/// The style of a task card for a priority.
pub fn priority_color(priority: &str) -> (style: &'static str)
    ensures
        style@ == priority_style(priority@),
{
    if same_text(priority, "high") {
        "border-l-4 border-red-500"
    } else if same_text(priority, "medium") {
        "border-l-4 border-yellow-500"
    } else if same_text(priority, "low") {
        "border-l-4 border-green-500"
    } else {
        "border-l-4 border-gray-300"
    }
}

} // verus!
