//! The statements on projects.

use vstd::prelude::*;
use crate::models::{Id, Project, Timestamp};
use crate::store::listing::{
    SortKey, insert_ordered, is_listing, lemma_listing_grow, lemma_listing_skip, newest_first,
};
use crate::store::{Store, StoreError, Tables};

verus! {

/// The row of a project that was just created.
pub open spec fn created_project(
    id: Id,
    organization_id: Id,
    name: String,
    slug: String,
    description: Option<String>,
    status: String,
    color: Option<String>,
    created_by: Id,
    now: Timestamp,
) -> Project {
    Project {
        id,
        organization_id,
        name,
        slug,
        description,
        status,
        color,
        created_by,
        created_at: now,
        updated_at: now,
    }
}

/// A text field after a partial update: the new value where one is given, else
/// the old one.
pub open spec fn patched_text(old: String, new: Option<String>) -> String {
    match new {
        Some(x) => x,
        None => old,
    }
}

/// An optional field after a partial update: the new value where one is given,
/// else the old one. An update cannot clear such a field.
pub open spec fn patched_option<T>(old: Option<T>, new: Option<T>) -> Option<T> {
    match new {
        Some(x) => Some(x),
        None => old,
    }
}

/// A project after a partial update at `now`. Its organization, slug and creator
/// stay as they are.
pub open spec fn patched_project(
    project: Project,
    name: Option<String>,
    description: Option<String>,
    status: Option<String>,
    color: Option<String>,
    now: Timestamp,
) -> Project {
    Project {
        name: patched_text(project.name, name),
        description: patched_option(project.description, description),
        status: patched_text(project.status, status),
        color: patched_option(project.color, color),
        updated_at: now,
        ..project
    }
}

/// Orders projects by creation, newest first.
pub open spec fn project_order() -> spec_fn(Project) -> SortKey {
    |p: Project| newest_first(p.created_at)
}

/// Selects the projects of an organization.
pub open spec fn project_of(organization_id: Id) -> spec_fn(Project) -> bool {
    |p: Project| p.organization_id == organization_id
}

impl Tables {
    /// The tables after a project row was added under the next identifier.
    pub open spec fn with_project(self, project: Project) -> Tables {
        Tables { projects: self.projects.push(project), next_id: (self.next_id + 1) as Id, ..self }
    }

    /// The tables with another row in place of project row `i`.
    pub open spec fn with_project_at(self, i: int, project: Project) -> Tables {
        Tables { projects: self.projects.update(i, project), ..self }
    }

    /// The tables without project row `i`.
    pub open spec fn without_project_at(self, i: int) -> Tables {
        Tables { projects: self.projects.remove(i), ..self }
    }

    /// The row of the project with this identifier.
    pub open spec fn project_row(self, id: Id) -> int {
        choose|i: int| self.project_has_id(i, id)
    }

    /// The tables after the project `id` was deleted: a project that is not
    /// there leaves them unchanged.
    pub open spec fn without_project(self, id: Id) -> Tables {
        if self.project_by_id(id) is Some {
            self.without_project_at(self.project_row(id))
        } else {
            self
        }
    }

    /// Why a project cannot be created, if it cannot.
    pub open spec fn project_refusal(self, organization_id: Id, slug: Seq<char>) -> Option<
        StoreError,
    > {
        if self.project_slug_taken(organization_id, slug) {
            Some(StoreError::UniqueViolation)
        } else if self.next_id == u128::MAX {
            Some(StoreError::IdentifiersExhausted)
        } else {
            None
        }
    }

    /// The project `project_id`, if the user is a member of the organization
    /// that owns it.
    pub open spec fn project_for_member(self, project_id: Id, user_id: Id) -> Option<Project> {
        if self.role_for_project(project_id, user_id) is Some {
            self.project_by_id(project_id)
        } else {
            None
        }
    }
}

/// The new value of a text field under a partial update.
pub(crate) fn patch_text(old: String, new: Option<String>) -> (patched: String)
    ensures
        patched == patched_text(old, new),
{
    match new {
        Some(x) => x,
        None => old,
    }
}

/// The new value of an optional field under a partial update.
pub(crate) fn patch_option<T>(old: Option<T>, new: Option<T>) -> (patched: Option<T>)
    ensures
        patched == patched_option(old, new),
{
    match new {
        Some(x) => Some(x),
        None => old,
    }
}

impl Store {
    /// Whether a project of this organization has this slug.
    pub fn project_slug_exists(&self, organization_id: Id, slug: &str) -> (taken: bool)
        requires
            self.wf(),
        ensures
            taken == self@.project_slug_taken(organization_id, slug@),
    {
        self.find_project_by_slug(organization_id, slug).is_some()
    }

    /// Adds a project and returns the new row. A slug that another project of
    /// the organization has is refused.
    pub fn insert_project(
        &mut self,
        organization_id: Id,
        name: String,
        slug: String,
        description: Option<String>,
        status: String,
        color: Option<String>,
        created_by: Id,
        now: Timestamp,
    ) -> (inserted: Result<Project, StoreError>)
        requires
            old(self).wf(),
        ensures
            final(self).wf(),
            match inserted {
                Ok(project) => {
                    &&& old(self)@.project_refusal(organization_id, slug@) is None
                    &&& project == created_project(
                        old(self)@.next_id,
                        organization_id,
                        name,
                        slug,
                        description,
                        status,
                        color,
                        created_by,
                        now,
                    )
                    &&& final(self)@ == old(self)@.with_project(project)
                },
                Err(e) => {
                    &&& final(self)@ == old(self)@
                    &&& old(self)@.project_refusal(organization_id, slug@) == Some(e)
                },
            },
    {
        if self.find_project_by_slug(organization_id, slug.as_str()).is_some() {
            return Err(StoreError::UniqueViolation);
        }
        if self.next_id == u128::MAX {
            return Err(StoreError::IdentifiersExhausted);
        }
        let project = Project {
            id: self.next_id,
            organization_id,
            name,
            slug,
            description,
            status,
            color,
            created_by,
            created_at: now,
            updated_at: now,
        };
        let copy = project.clone();
        proof {
            assert forall|i: int| 0 <= i < old(self)@.projects.len() implies !(old(
                self,
            )@.projects[i].organization_id == organization_id && old(self)@.projects[i].slug@
                == slug@) by {
                assert(!old(self)@.project_has_slug(i, organization_id, slug@));
            }
        }
        self.projects.push(project);
        self.next_id = self.next_id + 1;
        assert(self@.comments == old(self)@.comments);
        Ok(copy)
    }

    /// The projects of an organization, newest first.
    pub fn projects_of_organization(&self, organization_id: Id) -> (listed: Vec<Project>)
        requires
            self.wf(),
        ensures
            is_listing(listed@, self@.projects, project_of(organization_id), project_order()),
    {
        let ghost table = self@.projects;
        let ghost wanted = project_of(organization_id);
        let ghost key = project_order();
        let mut rows: Vec<Project> = Vec::new();
        let mut keys: Vec<SortKey> = Vec::new();
        let mut j: usize = 0;
        assert(table.no_duplicates());
        while j < self.projects.len()
            invariant
                table == self@.projects,
                wanted == project_of(organization_id),
                key == project_order(),
                table.no_duplicates(),
                j <= self.projects.len(),
                keys.len() == rows.len(),
                is_listing(rows@, table.subrange(0, j as int), wanted, key),
                forall|i: int| 0 <= i < rows.len() ==> #[trigger] keys@[i] == key(rows@[i]),
            decreases self.projects.len() - j,
        {
            let row = &self.projects[j];
            if row.organization_id == organization_id {
                let k = SortKey { major: -(row.created_at as i128), minor: 0 };
                let ghost before = rows@;
                let ghost keys_before = keys@;
                let pos = insert_ordered(&mut rows, &mut keys, row.clone(), k);
                proof {
                    lemma_listing_grow(before, keys_before, table, j as int, pos as int, wanted, key);
                }
            } else {
                proof {
                    lemma_listing_skip(rows@, table, j as int, wanted, key);
                }
            }
            j += 1;
        }
        assert(table.subrange(0, j as int) =~= table);
        rows
    }

    /// The role of a user towards a project: the role in the organization that
    /// owns it.
    pub fn role_for_project(&self, project_id: Id, user_id: Id) -> (role: Option<String>)
        requires
            self.wf(),
        ensures
            role == self@.role_for_project(project_id, user_id),
    {
        match self.find_project(project_id) {
            Some(i) => match self.find_member(self.projects[i].organization_id, user_id) {
                Some(m) => Some(self.members[m].role.clone()),
                None => None,
            },
            None => None,
        }
    }

    /// The project `project_id`, if the user is a member of the organization
    /// that owns it.
    pub fn project_for_member(&self, project_id: Id, user_id: Id) -> (project: Option<Project>)
        requires
            self.wf(),
        ensures
            project == self@.project_for_member(project_id, user_id),
    {
        match self.find_project(project_id) {
            Some(i) => match self.find_member(self.projects[i].organization_id, user_id) {
                Some(_) => Some(self.projects[i].clone()),
                None => None,
            },
            None => None,
        }
    }

    /// Changes the fields of a project for which a value is given, stamps the
    /// change with `now` and returns the new row.
    pub fn update_project(
        &mut self,
        id: Id,
        name: Option<String>,
        description: Option<String>,
        status: Option<String>,
        color: Option<String>,
        now: Timestamp,
    ) -> (updated: Result<Project, StoreError>)
        requires
            old(self).wf(),
        ensures
            final(self).wf(),
            match updated {
                Ok(project) => {
                    &&& old(self)@.project_by_id(id) matches Some(before)
                    &&& project == patched_project(before, name, description, status, color, now)
                    &&& final(self)@ == old(self)@.with_project_at(
                        old(self)@.project_row(id),
                        project,
                    )
                },
                Err(e) => {
                    &&& final(self)@ == old(self)@
                    &&& e == StoreError::RowNotFound
                    &&& old(self)@.project_by_id(id) is None
                },
            },
    {
        match self.find_project(id) {
            Some(i) => {
                let before = self.projects.remove(i);
                let project = Project {
                    id: before.id,
                    organization_id: before.organization_id,
                    name: patch_text(before.name, name),
                    slug: before.slug,
                    description: patch_option(before.description, description),
                    status: patch_text(before.status, status),
                    color: patch_option(before.color, color),
                    created_by: before.created_by,
                    created_at: before.created_at,
                    updated_at: now,
                };
                let copy = project.clone();
                self.projects.insert(i, project);
                proof {
                    assert(old(self)@.project_has_id(i as int, id));
                    assert(old(self)@.project_row(id) == i);
                    assert(self.projects@ =~= old(self)@.projects.update(i as int, copy));
                    assert(self@.comments == old(self)@.comments);
                }
                Ok(copy)
            },
            None => Err(StoreError::RowNotFound),
        }
    }

    /// Deletes the project `id`, if it is there.
    pub fn delete_project(&mut self, id: Id)
        requires
            old(self).wf(),
        ensures
            final(self).wf(),
            final(self)@ == old(self)@.without_project(id),
            final(self)@.project_by_id(id) is None,
    {
        match self.find_project(id) {
            Some(i) => {
                self.projects.remove(i);
                proof {
                    assert(old(self)@.project_has_id(i as int, id));
                    assert(old(self)@.project_row(id) == i);
                    assert(self@.comments == old(self)@.comments);
                    assert forall|k: int| !self@.project_has_id(k, id) by {
                        if self@.project_has_id(k, id) {
                            let o = if k < i { k } else { k + 1 };
                            assert(old(self)@.projects[o] == self@.projects[k]);
                            assert(old(self)@.project_has_id(o, id));
                        }
                    }
                }
            },
            None => {},
        }
    }
}

} // verus!
