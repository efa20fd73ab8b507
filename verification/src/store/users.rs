//! The statements on users.

use vstd::prelude::*;
use crate::models::{Id, Timestamp, User};
use crate::store::{Store, StoreError, Tables};

verus! {

/// The row of a user who has just registered: active, the email address not yet
/// verified, never logged in.
pub open spec fn registered_user(
    id: Id,
    email: String,
    password_hash: String,
    first_name: Option<String>,
    last_name: Option<String>,
    now: Timestamp,
) -> User {
    User {
        id,
        email,
        password_hash,
        first_name,
        last_name,
        is_active: true,
        is_email_verified: false,
        email_verified_at: None,
        last_login_at: None,
        created_at: now,
        updated_at: now,
    }
}

impl Tables {
    /// The tables after a user row was added under the next identifier.
    pub open spec fn with_user(self, user: User) -> Tables {
        Tables { users: self.users.push(user), next_id: (self.next_id + 1) as Id, ..self }
    }

    /// The tables after the login of the user in row `i` at `now` was recorded.
    pub open spec fn with_login(self, i: int, now: Timestamp) -> Tables {
        Tables {
            users: self.users.update(i, User { last_login_at: Some(now), ..self.users[i] }),
            ..self
        }
    }

    /// The tables after a login of the user `id` at `now`: a user who is not
    /// there leaves them unchanged.
    pub open spec fn after_login(self, id: Id, now: Timestamp) -> Tables {
        if exists|i: int| self.user_has_id(i, id) {
            self.with_login(choose|i: int| self.user_has_id(i, id), now)
        } else {
            self
        }
    }
}

impl Store {
    /// The user with this email address, whatever the case of its letters.
    pub fn user_by_email(&self, email: &str) -> (user: Option<User>)
        requires
            self.wf(),
        ensures
            user == self@.user_by_email(email@),
    {
        match self.find_user_by_email(email) {
            Some(i) => Some(self.users[i].clone()),
            None => None,
        }
    }

    /// The user with this identifier.
    pub fn user_by_id(&self, id: Id) -> (user: Option<User>)
        requires
            self.wf(),
        ensures
            user == self@.user_by_id(id),
    {
        match self.find_user(id) {
            Some(i) => Some(self.users[i].clone()),
            None => None,
        }
    }

    /// Adds a user and returns the new row. An email address that another user
    /// has, in whatever case, is refused.
    pub fn insert_user(
        &mut self,
        email: String,
        password_hash: String,
        first_name: Option<String>,
        last_name: Option<String>,
        now: Timestamp,
    ) -> (inserted: Result<User, StoreError>)
        requires
            old(self).wf(),
        ensures
            final(self).wf(),
            match inserted {
                Ok(user) => {
                    &&& old(self)@.user_by_email(email@) is None
                    &&& old(self)@.next_id < u128::MAX
                    &&& user == registered_user(
                        old(self)@.next_id,
                        email,
                        password_hash,
                        first_name,
                        last_name,
                        now,
                    )
                    &&& final(self)@ == old(self)@.with_user(user)
                },
                Err(e) => {
                    &&& final(self)@ == old(self)@
                    &&& e == if old(self)@.user_by_email(email@) is Some {
                        StoreError::UniqueViolation
                    } else {
                        StoreError::IdentifiersExhausted
                    }
                    &&& old(self)@.user_by_email(email@) is Some || old(self)@.next_id == u128::MAX
                },
            },
    {
        if self.find_user_by_email(email.as_str()).is_some() {
            return Err(StoreError::UniqueViolation);
        }
        if self.next_id == u128::MAX {
            return Err(StoreError::IdentifiersExhausted);
        }
        let user = User {
            id: self.next_id,
            email,
            password_hash,
            first_name,
            last_name,
            is_active: true,
            is_email_verified: false,
            email_verified_at: None,
            last_login_at: None,
            created_at: now,
            updated_at: now,
        };
        let copy = user.clone();
        proof {
            assert forall|i: int| 0 <= i < old(self)@.users.len() implies !crate::store::same_email(
                old(self)@.users[i].email@,
                email@,
            ) by {
                assert(!old(self)@.user_has_email(i, email@));
            }
        }
        self.users.push(user);
        self.next_id = self.next_id + 1;
        assert(self@.comments == old(self)@.comments);
        Ok(copy)
    }

    /// Records that the user `id` logged in at `now`.
    pub fn record_login(&mut self, id: Id, now: Timestamp)
        requires
            old(self).wf(),
        ensures
            final(self).wf(),
            final(self)@ == old(self)@.after_login(id, now),
    {
        match self.find_user(id) {
            Some(i) => {
                let mut user = self.users.remove(i);
                user.last_login_at = Some(now);
                self.users.insert(i, user);
                proof {
                    let c = choose|c: int| old(self)@.user_has_id(c, id);
                    assert(old(self)@.user_has_id(i as int, id));
                    assert(c == i);
                    assert(self.users@ =~= old(self)@.with_login(i as int, now).users);
                }
            },
            None => {},
        }
    }
}

} // verus!
