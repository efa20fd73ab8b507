//! The statements on tasks and comments.

use vstd::prelude::*;
use crate::models::{Id, Task, TaskComment, Timestamp};
use crate::store::listing::{
    SortKey, by_position, insert_ordered, is_listing, lemma_listing_grow, lemma_listing_skip,
    oldest_first,
};
use crate::store::projects::{patch_option, patch_text, patched_option, patched_text};
use crate::store::{Store, StoreError, Tables};
use crate::text::same_text;

verus! {

/// The row of a task that was just created: not completed.
pub open spec fn created_task(
    id: Id,
    project_id: Id,
    title: String,
    description: Option<String>,
    status: String,
    priority: String,
    assigned_to: Option<Id>,
    created_by: Id,
    due_date: Option<Timestamp>,
    position: i32,
    now: Timestamp,
) -> Task {
    Task {
        id,
        project_id,
        title,
        description,
        status,
        priority,
        assigned_to,
        created_by,
        due_date,
        completed_at: None,
        position,
        created_at: now,
        updated_at: now,
    }
}

/// The fields of a partial update of a task. A field without a value stays as it
/// is.
#[derive(Debug)]
pub struct TaskPatch {
    pub title: Option<String>,
    pub description: Option<String>,
    pub status: Option<String>,
    pub priority: Option<String>,
    pub assigned_to: Option<Id>,
    pub due_date: Option<Timestamp>,
    pub position: Option<i32>,
    pub completed_at: Option<Timestamp>,
}

/// A task after a partial update at `now`. Its project and creator stay as they
/// are.
pub open spec fn patched_task(task: Task, patch: TaskPatch, now: Timestamp) -> Task {
    Task {
        title: patched_text(task.title, patch.title),
        description: patched_option(task.description, patch.description),
        status: patched_text(task.status, patch.status),
        priority: patched_text(task.priority, patch.priority),
        assigned_to: patched_option(task.assigned_to, patch.assigned_to),
        due_date: patched_option(task.due_date, patch.due_date),
        position: match patch.position {
            Some(p) => p,
            None => task.position,
        },
        completed_at: patched_option(task.completed_at, patch.completed_at),
        updated_at: now,
        ..task
    }
}

/// The row of a comment that was just written.
pub open spec fn written_comment(
    id: Id,
    task_id: Id,
    user_id: Id,
    content: String,
    now: Timestamp,
) -> TaskComment {
    TaskComment { id, task_id, user_id, content, created_at: now, updated_at: now }
}

/// Orders tasks by position, then by creation, oldest first.
pub open spec fn task_order() -> spec_fn(Task) -> SortKey {
    |t: Task| by_position(t.position, t.created_at)
}

/// Selects the tasks of a project.
pub open spec fn task_of(project_id: Id) -> spec_fn(Task) -> bool {
    |t: Task| t.project_id == project_id
}

/// Orders comments by creation, oldest first.
pub open spec fn comment_order() -> spec_fn(TaskComment) -> SortKey {
    |c: TaskComment| oldest_first(c.created_at)
}

/// Selects the comments on a task.
pub open spec fn comment_on(task_id: Id) -> spec_fn(TaskComment) -> bool {
    |c: TaskComment| c.task_id == task_id
}

impl Tables {
    /// The task in row `i` belongs to this project and has this status.
    pub open spec fn task_in_column(self, i: int, project_id: Id, status: Seq<char>) -> bool {
        0 <= i < self.tasks.len() && self.tasks[i].project_id == project_id
            && self.tasks[i].status@ == status
    }

    /// `position` is the greatest position among the tasks of this project with
    /// this status.
    pub open spec fn tops_column(self, position: i32, project_id: Id, status: Seq<char>) -> bool {
        &&& exists|i: int|
            self.task_in_column(i, project_id, status) && self.tasks[i].position == position
        &&& forall|i: int|
            self.task_in_column(i, project_id, status) ==> self.tasks[i].position <= position
    }

    /// The greatest position among the tasks of this project with this status,
    /// or none where there is no such task.
    pub open spec fn max_position(self, project_id: Id, status: Seq<char>) -> Option<i32> {
        if exists|i: int| self.task_in_column(i, project_id, status) {
            Some(choose|p: i32| self.tops_column(p, project_id, status))
        } else {
            None
        }
    }

    /// The position of the next task of this project with this status: one
    /// after the greatest, or 0 where there is none.
    pub open spec fn next_position(self, project_id: Id, status: Seq<char>) -> int {
        match self.max_position(project_id, status) {
            Some(p) => p + 1,
            None => 0,
        }
    }

    /// The tables after a task row was added under the next identifier.
    pub open spec fn with_task(self, task: Task) -> Tables {
        Tables { tasks: self.tasks.push(task), next_id: (self.next_id + 1) as Id, ..self }
    }

    /// The tables with another row in place of task row `i`.
    pub open spec fn with_task_at(self, i: int, task: Task) -> Tables {
        Tables { tasks: self.tasks.update(i, task), ..self }
    }

    /// The tables without task row `i`.
    pub open spec fn without_task_at(self, i: int) -> Tables {
        Tables { tasks: self.tasks.remove(i), ..self }
    }

    /// The row of the task with this identifier.
    pub open spec fn task_row(self, id: Id) -> int {
        choose|i: int| self.task_has_id(i, id)
    }

    /// The tables after the task `id` was deleted: a task that is not there
    /// leaves them unchanged.
    pub open spec fn without_task(self, id: Id) -> Tables {
        if self.task_by_id(id) is Some {
            self.without_task_at(self.task_row(id))
        } else {
            self
        }
    }

    /// The tables after a comment row was added under the next identifier.
    pub open spec fn with_comment(self, comment: TaskComment) -> Tables {
        Tables { comments: self.comments.push(comment), next_id: (self.next_id + 1) as Id, ..self }
    }

    /// The task `task_id`, if the user is a member of the organization that owns
    /// its project.
    pub open spec fn task_for_member(self, task_id: Id, user_id: Id) -> Option<Task> {
        if self.role_for_task(task_id, user_id) is Some {
            self.task_by_id(task_id)
        } else {
            None
        }
    }
}

impl Store {
    /// The greatest position among the tasks of this project with this status.
    pub fn max_position(&self, project_id: Id, status: &str) -> (top: Option<i32>)
        requires
            self.wf(),
        ensures
            top == self@.max_position(project_id, status@),
    {
        let mut top: Option<i32> = None;
        let mut i: usize = 0;
        while i < self.tasks.len()
            invariant
                i <= self.tasks.len(),
                match top {
                    Some(p) => {
                        &&& exists|k: int|
                            0 <= k < i && self@.task_in_column(k, project_id, status@)
                                && self@.tasks[k].position == p
                        &&& forall|k: int|
                            0 <= k < i && self@.task_in_column(k, project_id, status@)
                                ==> self@.tasks[k].position <= p
                    },
                    None => forall|k: int|
                        0 <= k < i ==> !self@.task_in_column(k, project_id, status@),
                },
            decreases self.tasks.len() - i,
        {
            let row = &self.tasks[i];
            if row.project_id == project_id && same_text(row.status.as_str(), status) {
                assert(self@.task_in_column(i as int, project_id, status@));
                top =
                match top {
                    Some(p) => if row.position > p {
                        Some(row.position)
                    } else {
                        Some(p)
                    },
                    None => Some(row.position),
                };
            }
            i += 1;
        }
        proof {
            if let Some(p) = top {
                assert(self@.tops_column(p, project_id, status@));
                let c = choose|c: i32| self@.tops_column(c, project_id, status@);
                assert(self@.tops_column(c, project_id, status@));
                assert(c == p);
            }
        }
        top
    }

    /// Adds a task and returns the new row.
    pub fn insert_task(
        &mut self,
        project_id: Id,
        title: String,
        description: Option<String>,
        status: String,
        priority: String,
        assigned_to: Option<Id>,
        created_by: Id,
        due_date: Option<Timestamp>,
        position: i32,
        now: Timestamp,
    ) -> (inserted: Result<Task, StoreError>)
        requires
            old(self).wf(),
        ensures
            final(self).wf(),
            match inserted {
                Ok(task) => {
                    &&& old(self)@.next_id < u128::MAX
                    &&& task == created_task(
                        old(self)@.next_id,
                        project_id,
                        title,
                        description,
                        status,
                        priority,
                        assigned_to,
                        created_by,
                        due_date,
                        position,
                        now,
                    )
                    &&& final(self)@ == old(self)@.with_task(task)
                },
                Err(e) => {
                    &&& final(self)@ == old(self)@
                    &&& e == StoreError::IdentifiersExhausted
                    &&& old(self)@.next_id == u128::MAX
                },
            },
    {
        if self.next_id == u128::MAX {
            return Err(StoreError::IdentifiersExhausted);
        }
        let task = Task {
            id: self.next_id,
            project_id,
            title,
            description,
            status,
            priority,
            assigned_to,
            created_by,
            due_date,
            completed_at: None,
            position,
            created_at: now,
            updated_at: now,
        };
        let copy = task.clone();
        self.tasks.push(task);
        self.next_id = self.next_id + 1;
        assert(self@.comments == old(self)@.comments);
        Ok(copy)
    }

    /// The tasks of a project, by position, then oldest first.
    pub fn tasks_of_project(&self, project_id: Id) -> (listed: Vec<Task>)
        requires
            self.wf(),
        ensures
            is_listing(listed@, self@.tasks, task_of(project_id), task_order()),
    {
        let ghost table = self@.tasks;
        let ghost wanted = task_of(project_id);
        let ghost key = task_order();
        let mut rows: Vec<Task> = Vec::new();
        let mut keys: Vec<SortKey> = Vec::new();
        let mut j: usize = 0;
        assert(table.no_duplicates());
        while j < self.tasks.len()
            invariant
                table == self@.tasks,
                wanted == task_of(project_id),
                key == task_order(),
                table.no_duplicates(),
                j <= self.tasks.len(),
                keys.len() == rows.len(),
                is_listing(rows@, table.subrange(0, j as int), wanted, key),
                forall|i: int| 0 <= i < rows.len() ==> #[trigger] keys@[i] == key(rows@[i]),
            decreases self.tasks.len() - j,
        {
            let row = &self.tasks[j];
            if row.project_id == project_id {
                let k = SortKey { major: row.position as i128, minor: row.created_at as i128 };
                let ghost before = rows@;
                let ghost keys_before = keys@;
                let pos = insert_ordered(&mut rows, &mut keys, row.clone(), k);
                proof {
                    lemma_listing_grow(before, keys_before, table, j as int, pos as int, wanted, key);
                }
            } else {
                proof {
                    lemma_listing_skip(rows@, table, j as int, wanted, key);
                }
            }
            j += 1;
        }
        assert(table.subrange(0, j as int) =~= table);
        rows
    }

    /// The role of a user towards a task: the role in the organization that owns
    /// its project.
    pub fn role_for_task(&self, task_id: Id, user_id: Id) -> (role: Option<String>)
        requires
            self.wf(),
        ensures
            role == self@.role_for_task(task_id, user_id),
    {
        match self.find_task(task_id) {
            Some(t) => self.role_for_project(self.tasks[t].project_id, user_id),
            None => None,
        }
    }

    /// The task `task_id`, if the user is a member of the organization that owns
    /// its project.
    pub fn task_for_member(&self, task_id: Id, user_id: Id) -> (task: Option<Task>)
        requires
            self.wf(),
        ensures
            task == self@.task_for_member(task_id, user_id),
    {
        match self.find_task(task_id) {
            Some(t) => match self.role_for_project(self.tasks[t].project_id, user_id) {
                Some(_) => Some(self.tasks[t].clone()),
                None => None,
            },
            None => None,
        }
    }

    /// Changes the fields of a task for which a value is given, stamps the change
    /// with `now` and returns the new row.
    pub fn update_task(&mut self, id: Id, patch: TaskPatch, now: Timestamp) -> (updated: Result<
        Task,
        StoreError,
    >)
        requires
            old(self).wf(),
        ensures
            final(self).wf(),
            match updated {
                Ok(task) => {
                    &&& old(self)@.task_by_id(id) matches Some(before)
                    &&& task == patched_task(before, patch, now)
                    &&& final(self)@ == old(self)@.with_task_at(old(self)@.task_row(id), task)
                },
                Err(e) => {
                    &&& final(self)@ == old(self)@
                    &&& e == StoreError::RowNotFound
                    &&& old(self)@.task_by_id(id) is None
                },
            },
    {
        match self.find_task(id) {
            Some(i) => {
                let before = self.tasks.remove(i);
                let task = Task {
                    id: before.id,
                    project_id: before.project_id,
                    title: patch_text(before.title, patch.title),
                    description: patch_option(before.description, patch.description),
                    status: patch_text(before.status, patch.status),
                    priority: patch_text(before.priority, patch.priority),
                    assigned_to: patch_option(before.assigned_to, patch.assigned_to),
                    created_by: before.created_by,
                    due_date: patch_option(before.due_date, patch.due_date),
                    completed_at: patch_option(before.completed_at, patch.completed_at),
                    position: match patch.position {
                        Some(p) => p,
                        None => before.position,
                    },
                    created_at: before.created_at,
                    updated_at: now,
                };
                let copy = task.clone();
                self.tasks.insert(i, task);
                proof {
                    assert(old(self)@.task_has_id(i as int, id));
                    assert(old(self)@.task_row(id) == i);
                    assert(self.tasks@ =~= old(self)@.tasks.update(i as int, copy));
                    assert(self@.comments == old(self)@.comments);
                }
                Ok(copy)
            },
            None => Err(StoreError::RowNotFound),
        }
    }

    /// Deletes the task `id`, if it is there.
    pub fn delete_task(&mut self, id: Id)
        requires
            old(self).wf(),
        ensures
            final(self).wf(),
            final(self)@ == old(self)@.without_task(id),
            final(self)@.task_by_id(id) is None,
    {
        match self.find_task(id) {
            Some(i) => {
                self.tasks.remove(i);
                proof {
                    assert(old(self)@.task_has_id(i as int, id));
                    assert(old(self)@.task_row(id) == i);
                    assert(self@.comments == old(self)@.comments);
                    assert forall|k: int| !self@.task_has_id(k, id) by {
                        if self@.task_has_id(k, id) {
                            let o = if k < i { k } else { k + 1 };
                            assert(old(self)@.tasks[o] == self@.tasks[k]);
                            assert(old(self)@.task_has_id(o, id));
                        }
                    }
                }
            },
            None => {},
        }
    }

    /// Adds a comment and returns the new row.
    pub fn insert_comment(&mut self, task_id: Id, user_id: Id, content: String, now: Timestamp) -> (inserted:
        Result<TaskComment, StoreError>)
        requires
            old(self).wf(),
        ensures
            final(self).wf(),
            match inserted {
                Ok(comment) => {
                    &&& old(self)@.next_id < u128::MAX
                    &&& comment == written_comment(old(self)@.next_id, task_id, user_id, content, now)
                    &&& final(self)@ == old(self)@.with_comment(comment)
                },
                Err(e) => {
                    &&& final(self)@ == old(self)@
                    &&& e == StoreError::IdentifiersExhausted
                    &&& old(self)@.next_id == u128::MAX
                },
            },
    {
        if self.next_id == u128::MAX {
            return Err(StoreError::IdentifiersExhausted);
        }
        let comment = TaskComment {
            id: self.next_id,
            task_id,
            user_id,
            content,
            created_at: now,
            updated_at: now,
        };
        let copy = comment.clone();
        self.comments.push(comment);
        self.next_id = self.next_id + 1;
        assert(self@.comments == old(self)@.comments.push(copy));
        Ok(copy)
    }

    /// The comments on a task, oldest first.
    pub fn comments_of_task(&self, task_id: Id) -> (listed: Vec<TaskComment>)
        requires
            self.wf(),
        ensures
            is_listing(listed@, self@.comments, comment_on(task_id), comment_order()),
    {
        let ghost table = self@.comments;
        let ghost wanted = comment_on(task_id);
        let ghost key = comment_order();
        let mut rows: Vec<TaskComment> = Vec::new();
        let mut keys: Vec<SortKey> = Vec::new();
        let mut j: usize = 0;
        assert(table.no_duplicates());
        while j < self.comments.len()
            invariant
                table == self@.comments,
                wanted == comment_on(task_id),
                key == comment_order(),
                table.no_duplicates(),
                j <= self.comments.len(),
                keys.len() == rows.len(),
                is_listing(rows@, table.subrange(0, j as int), wanted, key),
                forall|i: int| 0 <= i < rows.len() ==> #[trigger] keys@[i] == key(rows@[i]),
            decreases self.comments.len() - j,
        {
            let row = &self.comments[j];
            if row.task_id == task_id {
                let k = SortKey { major: row.created_at as i128, minor: 0 };
                let ghost before = rows@;
                let ghost keys_before = keys@;
                let pos = insert_ordered(&mut rows, &mut keys, row.clone(), k);
                proof {
                    lemma_listing_grow(before, keys_before, table, j as int, pos as int, wanted, key);
                }
            } else {
                proof {
                    lemma_listing_skip(rows@, table, j as int, wanted, key);
                }
            }
            j += 1;
        }
        assert(table.subrange(0, j as int) =~= table);
        rows
    }
}

} // verus!
