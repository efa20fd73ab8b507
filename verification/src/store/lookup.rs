//! Finding rows by their keys.
//!
//! Each search walks its table once. Because the store keeps the keys unique, the
//! row it finds is the row that the specification speaks of.

use vstd::prelude::*;
use crate::models::Id;
use crate::store::Store;
use crate::text::same_text;

verus! {

impl Store {
    /// The row of the user with this identifier.
    pub(crate) fn find_user(&self, id: Id) -> (found: Option<usize>)
        requires
            self.wf(),
        ensures
            match found {
                Some(i) => {
                    &&& self@.user_has_id(i as int, id)
                    &&& self@.user_by_id(id) == Some(self@.users[i as int])
                },
                None => self@.user_by_id(id) is None,
            },
    {
        let mut i: usize = 0;
        while i < self.users.len()
            invariant
                self.wf(),
                i <= self.users.len(),
                forall|j: int| 0 <= j < i ==> !self@.user_has_id(j, id),
            decreases self.users.len() - i,
        {
            if self.users[i].id == id {
                proof {
                    assert(self@.user_has_id(i as int, id));
                    let c = choose|c: int| self@.user_has_id(c, id);
                    assert(c == i);
                }
                return Some(i);
            }
            i += 1;
        }
        None
    }

    /// The row of the user with this email address, whatever the case of its letters.
    pub(crate) fn find_user_by_email(&self, email: &str) -> (found: Option<usize>)
        requires
            self.wf(),
        ensures
            match found {
                Some(i) => {
                    &&& self@.user_has_email(i as int, email@)
                    &&& self@.user_by_email(email@) == Some(self@.users[i as int])
                },
                None => self@.user_by_email(email@) is None,
            },
    {
        let wanted = email.to_lowercase();
        let mut i: usize = 0;
        while i < self.users.len()
            invariant
                self.wf(),
                i <= self.users.len(),
                wanted@ == crate::text::lowercase(email@),
                forall|j: int| 0 <= j < i ==> !self@.user_has_email(j, email@),
            decreases self.users.len() - i,
        {
            if same_text(self.users[i].email.as_str().to_lowercase().as_str(), wanted.as_str()) {
                proof {
                    assert(self@.user_has_email(i as int, email@));
                    let c = choose|c: int| self@.user_has_email(c, email@);
                    assert(c == i);
                }
                return Some(i);
            }
            i += 1;
        }
        None
    }

    /// The row of the organization with this identifier.
    pub(crate) fn find_organization(&self, id: Id) -> (found: Option<usize>)
        requires
            self.wf(),
        ensures
            match found {
                Some(i) => {
                    &&& self@.organization_has_id(i as int, id)
                    &&& self@.organization_by_id(id) == Some(self@.organizations[i as int])
                },
                None => self@.organization_by_id(id) is None,
            },
    {
        let mut i: usize = 0;
        while i < self.organizations.len()
            invariant
                self.wf(),
                i <= self.organizations.len(),
                forall|j: int| 0 <= j < i ==> !self@.organization_has_id(j, id),
            decreases self.organizations.len() - i,
        {
            if self.organizations[i].id == id {
                proof {
                    assert(self@.organization_has_id(i as int, id));
                    let c = choose|c: int| self@.organization_has_id(c, id);
                    assert(c == i);
                }
                return Some(i);
            }
            i += 1;
        }
        None
    }

    /// The row of the organization with this slug.
    pub(crate) fn find_organization_by_slug(&self, slug: &str) -> (found: Option<usize>)
        requires
            self.wf(),
        ensures
            match found {
                Some(i) => {
                    &&& self@.organization_has_slug(i as int, slug@)
                    &&& self@.organization_slug_taken(slug@)
                },
                None => !self@.organization_slug_taken(slug@),
            },
    {
        let mut i: usize = 0;
        while i < self.organizations.len()
            invariant
                self.wf(),
                i <= self.organizations.len(),
                forall|j: int| 0 <= j < i ==> !self@.organization_has_slug(j, slug@),
            decreases self.organizations.len() - i,
        {
            if same_text(self.organizations[i].slug.as_str(), slug) {
                proof {
                    assert(self@.organization_has_slug(i as int, slug@));
                    let c = choose|c: int| self@.organization_has_slug(c, slug@);
                    assert(c == i);
                }
                return Some(i);
            }
            i += 1;
        }
        None
    }

    /// The row of the membership of this user in this organization.
    pub(crate) fn find_member(&self, organization_id: Id, user_id: Id) -> (found: Option<usize>)
        requires
            self.wf(),
        ensures
            match found {
                Some(i) => {
                    &&& self@.member_joins(i as int, organization_id, user_id)
                    &&& self@.membership(organization_id, user_id) == Some(self@.members[i as int])
                },
                None => self@.membership(organization_id, user_id) is None,
            },
    {
        let mut i: usize = 0;
        while i < self.members.len()
            invariant
                self.wf(),
                i <= self.members.len(),
                forall|j: int| 0 <= j < i ==> !self@.member_joins(j, organization_id, user_id),
            decreases self.members.len() - i,
        {
            if self.members[i].organization_id == organization_id && self.members[i].user_id
                == user_id {
                proof {
                    assert(self@.member_joins(i as int, organization_id, user_id));
                    let c = choose|c: int| self@.member_joins(c, organization_id, user_id);
                    assert(c == i);
                }
                return Some(i);
            }
            i += 1;
        }
        None
    }

    /// The row of the project with this identifier.
    pub(crate) fn find_project(&self, id: Id) -> (found: Option<usize>)
        requires
            self.wf(),
        ensures
            match found {
                Some(i) => {
                    &&& self@.project_has_id(i as int, id)
                    &&& self@.project_by_id(id) == Some(self@.projects[i as int])
                },
                None => self@.project_by_id(id) is None,
            },
    {
        let mut i: usize = 0;
        while i < self.projects.len()
            invariant
                self.wf(),
                i <= self.projects.len(),
                forall|j: int| 0 <= j < i ==> !self@.project_has_id(j, id),
            decreases self.projects.len() - i,
        {
            if self.projects[i].id == id {
                proof {
                    assert(self@.project_has_id(i as int, id));
                    let c = choose|c: int| self@.project_has_id(c, id);
                    assert(c == i);
                }
                return Some(i);
            }
            i += 1;
        }
        None
    }

    /// The row of the project of this organization with this slug.
    pub(crate) fn find_project_by_slug(&self, organization_id: Id, slug: &str) -> (found: Option<
        usize,
    >)
        requires
            self.wf(),
        ensures
            match found {
                Some(i) => {
                    &&& self@.project_has_slug(i as int, organization_id, slug@)
                    &&& self@.project_slug_taken(organization_id, slug@)
                },
                None => !self@.project_slug_taken(organization_id, slug@),
            },
    {
        let mut i: usize = 0;
        while i < self.projects.len()
            invariant
                self.wf(),
                i <= self.projects.len(),
                forall|j: int| 0 <= j < i ==> !self@.project_has_slug(j, organization_id, slug@),
            decreases self.projects.len() - i,
        {
            if self.projects[i].organization_id == organization_id && same_text(
                self.projects[i].slug.as_str(),
                slug,
            ) {
                proof {
                    assert(self@.project_has_slug(i as int, organization_id, slug@));
                    let c = choose|c: int| self@.project_has_slug(c, organization_id, slug@);
                    assert(c == i);
                }
                return Some(i);
            }
            i += 1;
        }
        None
    }

    /// The row of the task with this identifier.
    pub(crate) fn find_task(&self, id: Id) -> (found: Option<usize>)
        requires
            self.wf(),
        ensures
            match found {
                Some(i) => {
                    &&& self@.task_has_id(i as int, id)
                    &&& self@.task_by_id(id) == Some(self@.tasks[i as int])
                },
                None => self@.task_by_id(id) is None,
            },
    {
        let mut i: usize = 0;
        while i < self.tasks.len()
            invariant
                self.wf(),
                i <= self.tasks.len(),
                forall|j: int| 0 <= j < i ==> !self@.task_has_id(j, id),
            decreases self.tasks.len() - i,
        {
            if self.tasks[i].id == id {
                proof {
                    assert(self@.task_has_id(i as int, id));
                    let c = choose|c: int| self@.task_has_id(c, id);
                    assert(c == i);
                }
                return Some(i);
            }
            i += 1;
        }
        None
    }
}

} // verus!
