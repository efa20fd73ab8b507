//! The authentication state of the user interface: who is logged in, whether a
//! request is under way, and what went wrong last.
//!
//! A request has two steps. `begin` marks it as under way. When the answer has
//! come, the step named after the request takes it and settles the state.

use vstd::prelude::*;
use crate::client::api::{ApiError, TokenStore};
use crate::client::auth::{AuthResponse, User, is_authenticated, logout};

verus! {

/// The authentication state.
#[derive(Debug)]
pub struct AuthContext {
    pub user: Option<User>,
    pub is_loading: bool,
    pub error: Option<String>,
}

impl AuthContext {
    /// The state at the start: nobody logged in, nothing under way, no error.
    pub fn new() -> (context: AuthContext)
        ensures
            context.user is None,
            !context.is_loading,
            context.error is None,
    {
        AuthContext { user: None, is_loading: false, error: None }
    }

    /// Whether a user is logged in.
    pub fn is_authenticated(&self) -> (logged_in: bool)
        ensures
            logged_in == self.user is Some,
    {
        self.user.is_some()
    }

    /// Marks a request as under way and forgets the last error.
    pub fn begin(&mut self)
        ensures
            final(self).is_loading,
            final(self).error is None,
            final(self).user == old(self).user,
    {
        self.is_loading = true;
        self.error = None;
    }

    /// Whether the profile of the user is to be loaded: only where a token is
    /// kept.
    pub fn should_load_user(store: &TokenStore) -> (load: bool)
        ensures
            load == store.token is Some,
    {
        is_authenticated(store)
    }

    /// Takes the answer to the request for the profile. A profile that came is
    /// the user; a failure is recorded, the user is logged out and the token,
    /// which must be invalid, is forgotten.
    pub fn load_user(&mut self, store: &mut TokenStore, answer: Result<User, ApiError>)
        ensures
            !final(self).is_loading,
            match answer {
                Ok(user) => {
                    &&& final(self).user == Some(user)
                    &&& final(self).error is None
                    &&& final(store).token == old(store).token
                },
                Err(e) => {
                    &&& final(self).user is None
                    &&& final(self).error == Some(e.message)
                    &&& final(store).token is None
                },
            },
    {
        match answer {
            Ok(user) => {
                self.user = Some(user);
                self.error = None;
            },
            Err(e) => {
                self.error = Some(e.message);
                self.user = None;
                logout(store);
            },
        }
        self.is_loading = false;
    }

    /// Takes the answer to a login. The user of an answer that came is logged
    /// in; a failure is recorded and handed back as its message.
    pub fn login(&mut self, answer: Result<AuthResponse, ApiError>) -> (outcome: Result<(), String>)
        ensures
            !final(self).is_loading,
            match answer {
                Ok(response) => {
                    &&& outcome is Ok
                    &&& final(self).user == Some(response.user)
                    &&& final(self).error is None
                },
                Err(e) => {
                    &&& outcome == Err::<(), String>(e.message)
                    &&& final(self).user == old(self).user
                    &&& final(self).error == Some(e.message)
                },
            },
    {
        match answer {
            Ok(response) => {
                self.user = Some(response.user);
                self.error = None;
                self.is_loading = false;
                Ok(())
            },
            Err(e) => {
                self.error = Some(e.message.clone());
                self.is_loading = false;
                Err(e.message)
            },
        }
    }

    /// Takes the answer to a registration. The user of an answer that came is
    /// logged in; a failure is recorded and handed back as its message.
    pub fn register(&mut self, answer: Result<AuthResponse, ApiError>) -> (outcome: Result<
        (),
        String,
    >)
        ensures
            !final(self).is_loading,
            match answer {
                Ok(response) => {
                    &&& outcome is Ok
                    &&& final(self).user == Some(response.user)
                    &&& final(self).error is None
                },
                Err(e) => {
                    &&& outcome == Err::<(), String>(e.message)
                    &&& final(self).user == old(self).user
                    &&& final(self).error == Some(e.message)
                },
            },
    {
        match answer {
            Ok(response) => {
                self.user = Some(response.user);
                self.error = None;
                self.is_loading = false;
                Ok(())
            },
            Err(e) => {
                self.error = Some(e.message.clone());
                self.is_loading = false;
                Err(e.message)
            },
        }
    }

    /// Logs the user out: the token is forgotten, and so are the user and the
    /// last error.
    pub fn logout(&mut self, store: &mut TokenStore)
        ensures
            final(self).user is None,
            final(self).error is None,
            final(self).is_loading == old(self).is_loading,
            final(store).token is None,
    {
        logout(store);
        self.user = None;
        self.error = None;
    }
}

} // verus!
