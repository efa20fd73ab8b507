//! The user as the client knows it, and the steps of registration, login and
//! logout.

use vstd::prelude::*;
use vstd::string::StringExecFns;
use crate::client::api::{ApiError, TokenStore, remove_token, set_token};
use crate::text::clone_optional_text;

verus! {

/// A user as the interface sends it.
#[derive(Debug)]
pub struct User {
    pub id: String,
    pub email: String,
    pub first_name: Option<String>,
    pub last_name: Option<String>,
    pub is_active: bool,
    pub is_email_verified: bool,
    pub created_at: String,
}

impl Clone for User {
    fn clone(&self) -> (copy: Self)
        ensures
            copy == *self,
    {
        User {
            id: self.id.clone(),
            email: self.email.clone(),
            first_name: clone_optional_text(&self.first_name),
            last_name: clone_optional_text(&self.last_name),
            is_active: self.is_active,
            is_email_verified: self.is_email_verified,
            created_at: self.created_at.clone(),
        }
    }
}

/// The name to show for a user: first and last name where both are known, the
/// one that is known where only one is, else the email address.
pub open spec fn shown_name(user: User) -> Seq<char> {
    match (user.first_name, user.last_name) {
        (Some(first), Some(last)) => first@ + " "@ + last@,
        (Some(first), None) => first@,
        (None, Some(last)) => last@,
        (None, None) => user.email@,
    }
}

impl User {
    /// The name to show for this user.
    pub fn full_name(&self) -> (name: String)
        ensures
            name@ == shown_name(*self),
    {
        match (&self.first_name, &self.last_name) {
            (Some(first), Some(last)) => first.clone().concat(" ").concat(last.as_str()),
            (Some(first), None) => first.clone(),
            (None, Some(last)) => last.clone(),
            (None, None) => self.email.clone(),
        }
    }
}

/// The body of a request to register.
#[derive(Debug)]
pub struct RegisterRequest {
    pub email: String,
    pub password: String,
    pub first_name: Option<String>,
    pub last_name: Option<String>,
}

/// The body of a request to log in.
#[derive(Debug)]
pub struct LoginRequest {
    pub email: String,
    pub password: String,
}

/// The answer to a registration or a login.
#[derive(Debug)]
pub struct AuthResponse {
    pub user: User,
    pub token: String,
}

/// The endpoint of registration.
pub open spec fn register_endpoint() -> Seq<char> {
    "/api/auth/register"@
}

/// The endpoint of login.
pub open spec fn login_endpoint() -> Seq<char> {
    "/api/auth/login"@
}

/// The endpoint of the caller's profile.
pub open spec fn profile_endpoint() -> Seq<char> {
    "/api/auth/me"@
}

/// The request that registers a user: its endpoint and its body.
pub fn register(
    email: String,
    password: String,
    first_name: Option<String>,
    last_name: Option<String>,
) -> (request: (String, RegisterRequest))
    ensures
        request.0@ == register_endpoint(),
        request.1 == (RegisterRequest { email, password, first_name, last_name }),
{
    (
        String::from_str("/api/auth/register"),
        RegisterRequest { email, password, first_name, last_name },
    )
}

/// The request that logs a user in: its endpoint and its body.
pub fn login(email: String, password: String) -> (request: (String, LoginRequest))
    ensures
        request.0@ == login_endpoint(),
        request.1 == (LoginRequest { email, password }),
{
    (String::from_str("/api/auth/login"), LoginRequest { email, password })
}

/// Takes the answer to a registration or a login: a token that came is kept, a
/// failure leaves the kept token as it is. The answer is handed on unchanged.
pub fn authenticated(store: &mut TokenStore, answer: Result<AuthResponse, ApiError>) -> (outcome:
    Result<AuthResponse, ApiError>)
    ensures
        outcome == answer,
        match answer {
            Ok(response) => final(store).token matches Some(kept) && kept@ == response.token@,
            Err(_) => final(store).token == old(store).token,
        },
{
    match answer {
        Ok(response) => {
            set_token(store, response.token.as_str());
            Ok(response)
        },
        Err(e) => Err(e),
    }
}

/// Logs the user out: the token is forgotten.
pub fn logout(store: &mut TokenStore)
    ensures
        final(store).token is None,
{
    remove_token(store);
}

/// The endpoint that answers with the profile of the caller.
pub fn get_current_user() -> (endpoint: String)
    ensures
        endpoint@ == profile_endpoint(),
{
    String::from_str("/api/auth/me")
}

/// Whether a user is logged in: whether a token is kept.
pub fn is_authenticated(store: &TokenStore) -> (logged_in: bool)
    ensures
        logged_in == store.token is Some,
{
    store.token.is_some()
}

} // verus!
