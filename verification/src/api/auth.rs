//! Registration, login and the profile of the caller.

use vstd::prelude::*;
use vstd::string::StringExecFns;
use vstd::string::StrSliceExecFns;
use crate::access::{PrincipalFault, principal, principal_error};
use crate::api::steps::{driver_failure, failed_in_driver};
use crate::config::JwtConfig;
use crate::credentials::{
    argon2_accepts, generate_token, hash_password, is_issued, verify_password,
};
use crate::error::{AppError, ErrorView, agrees};
use crate::ident::uuid_parsed;
use crate::models::{AuthUser, Id, Timestamp, User, UserResponse, user_response};
use crate::state::AppState;
use crate::store::protocol::{Progress, Reply, Statement, done_at, fault_of, record, user_at};
use crate::store::users::registered_user;
use crate::text::clone_optional_text;
use crate::store::Tables;

verus! {

/// The body of a request to register.
#[derive(Debug)]
pub struct RegisterRequest {
    pub email: String,
    pub password: String,
    pub first_name: Option<String>,
    pub last_name: Option<String>,
}

/// The body of a request to log in.
#[derive(Debug)]
pub struct LoginRequest {
    pub email: String,
    pub password: String,
}

/// The answer to a registration or a login: the user and a token.
#[derive(Debug)]
pub struct AuthResponse {
    pub user: UserResponse,
    pub token: String,
}

/// Whether a text is an email address by the rule of the HTML5 standard, as
/// `validator::ValidateEmail::validate_email` decides it.
pub uninterp spec fn email_well_formed(email: Seq<char>) -> bool;

/// `validator::ValidateEmail::validate_email` on a string slice. A text without
/// the character `@` is no address.
#[verifier::external_body]
fn email_is_valid(email: &str) -> (valid: bool)
    ensures
        valid == email_well_formed(email@),
        !email@.contains('@') ==> !valid,
{
    validator::ValidateEmail::validate_email(&email)
}

/// The least number of characters of a password.
pub const MIN_PASSWORD_LENGTH: usize = 8;

/// What is wrong with the fields of a registration, if anything: one line for
/// each field at fault, the email address first.
pub open spec fn registration_fault(email: Seq<char>, password: Seq<char>) -> Option<Seq<char>> {
    if !email_well_formed(email) && password.len() < MIN_PASSWORD_LENGTH {
        Some("email: Invalid email format\npassword: Password must be at least 8 characters"@)
    } else if !email_well_formed(email) {
        Some("email: Invalid email format"@)
    } else if password.len() < MIN_PASSWORD_LENGTH {
        Some("password: Password must be at least 8 characters"@)
    } else {
        None
    }
}

/// What is wrong with the fields of a login, if anything.
pub open spec fn login_fault(email: Seq<char>) -> Option<Seq<char>> {
    if !email_well_formed(email) {
        Some("email: Invalid email format"@)
    } else {
        None
    }
}

impl RegisterRequest {
    /// Checks the fields: the email address must be well formed and the password
    /// at least eight characters long.
    pub fn validate(&self) -> (checked: Result<(), AppError>)
        ensures
            match checked {
                Ok(()) => registration_fault(self.email@, self.password@) is None,
                Err(e) => e matches AppError::Validation(m) && registration_fault(
                    self.email@,
                    self.password@,
                ) == Some(m@),
            },
            !self.email@.contains('@') ==> (checked matches Err(e) && e is Validation),
    {
        let email_ok = email_is_valid(self.email.as_str());
        let password_ok = self.password.as_str().unicode_len() >= MIN_PASSWORD_LENGTH;
        if !email_ok && !password_ok {
            Err(
                AppError::Validation(
                    String::from_str(
                        "email: Invalid email format\npassword: Password must be at least 8 characters",
                    ),
                ),
            )
        } else if !email_ok {
            Err(AppError::Validation(String::from_str("email: Invalid email format")))
        } else if !password_ok {
            Err(
                AppError::Validation(
                    String::from_str("password: Password must be at least 8 characters"),
                ),
            )
        } else {
            Ok(())
        }
    }
}

impl LoginRequest {
    /// Checks the fields: the email address must be well formed.
    pub fn validate(&self) -> (checked: Result<(), AppError>)
        ensures
            match checked {
                Ok(()) => login_fault(self.email@) is None,
                Err(e) => e matches AppError::Validation(m) && login_fault(self.email@) == Some(m@),
            },
            !self.email@.contains('@') ==> (checked matches Err(e) && e is Validation),
    {
        if email_is_valid(self.email.as_str()) {
            Ok(())
        } else {
            Err(AppError::Validation(String::from_str("email: Invalid email format")))
        }
    }
}

/// Why a registration is refused before anything is computed or stored, if it
/// is: invalid fields, or an email address that is taken.
pub open spec fn registration_refusal(tables: Tables, email: Seq<char>, password: Seq<char>) -> Option<
    ErrorView,
> {
    match registration_fault(email, password) {
        Some(m) => Some(ErrorView::Validation(m)),
        None => if tables.user_by_email(email) is Some {
            Some(ErrorView::Conflict("Email already registered"@))
        } else {
            None
        },
    }
}

/// Why a login is refused, if it is: invalid fields, an unknown email address,
/// a deactivated account, or a password that does not match.
pub open spec fn login_refusal(tables: Tables, email: Seq<char>, password: Seq<char>) -> Option<
    ErrorView,
> {
    match login_fault(email) {
        Some(m) => Some(ErrorView::Validation(m)),
        None => credentials_refusal(tables.user_by_email(email), password),
    }
}

/// Whether `token` is a token for this user, issued under this configuration at
/// some instant.
pub open spec fn token_for(config: JwtConfig, user: User, token: Seq<char>) -> bool {
    exists|iat: i64| #[trigger]
        is_issued(token, user.id, user.email@, config.secret@, config.expiration as int, iat as int)
}

/// Whether `token` is a token for this user, issued under the configuration of
/// `state` at some instant.
pub open spec fn is_token_for(state: AppState, user: User, token: Seq<char>) -> bool {
    token_for(state.config.jwt, user, token)
}

/// What `me` answers: the profile of the caller.
pub open spec fn profile_view(tables: Tables, user_id: Option<Id>) -> Result<UserResponse, ErrorView> {
    match user_id {
        None => Err(principal_error(PrincipalFault::Authentication)),
        Some(uid) => match tables.user_by_id(uid) {
            Some(user) => Ok(user_response(user)),
            None => Err(ErrorView::NotFound("User not found"@)),
        },
    }
}

/// Lets an email address pass that no user has, and refuses one that is taken.
pub fn ensure_email_free(taken: bool) -> (checked: Result<(), AppError>)
    ensures
        match checked {
            Ok(()) => !taken,
            Err(e) => taken && e@ == ErrorView::Conflict("Email already registered"@),
        },
{
    if taken {
        Err(AppError::Conflict(String::from_str("Email already registered")))
    } else {
        Ok(())
    }
}

/// Why the user that was looked up may not log in with this password, if it may
/// not: there is none, the account is deactivated, or the password does not
/// match the credential.
pub open spec fn credentials_refusal(found: Option<User>, password: Seq<char>) -> Option<
    ErrorView,
> {
    match found {
        None => Some(ErrorView::Authentication("Invalid credentials"@)),
        Some(user) => if !user.is_active {
            Some(ErrorView::Authentication("Account is deactivated"@))
        } else if argon2_accepts(password, user.password_hash@) != Some(true) {
            Some(ErrorView::Authentication("Invalid credentials"@))
        } else {
            None
        },
    }
}

/// Checks a login against the user that was looked up: the user must be there
/// and active, and the password must match the stored credential.
pub fn check_credentials(found: Option<User>, password: &str) -> (checked: Result<User, AppError>)
    ensures
        match checked {
            Ok(user) => found == Some(user) && credentials_refusal(found, password@) is None,
            Err(e) => credentials_refusal(found, password@) == Some(e@),
        },
{
    let user = match found {
        Some(u) => u,
        None => {
            return Err(AppError::Authentication(String::from_str("Invalid credentials")));
        },
    };
    if !user.is_active {
        return Err(AppError::Authentication(String::from_str("Account is deactivated")));
    }
    if !verify_password(password, user.password_hash.as_str())? {
        return Err(AppError::Authentication(String::from_str("Invalid credentials")));
    }
    Ok(user)
}

/// The profile of the user that was looked up, or the answer that there is
/// none.
pub fn profile_of(found: Option<User>) -> (profile: Result<UserResponse, AppError>)
    ensures
        match profile {
            Ok(r) => found matches Some(u) && r == user_response(u),
            Err(e) => found is None && e@ == ErrorView::NotFound("User not found"@),
        },
{
    match found {
        Some(user) => Ok(UserResponse::from(user)),
        None => Err(AppError::NotFound(String::from_str("User not found"))),
    }
}

/// A copy of a user that was looked up.
fn clone_user(found: &Option<User>) -> (copy: Option<User>)
    ensures
        copy == *found,
{
    match found {
        Some(user) => Some(user.clone()),
        None => None,
    }
}

/// What the next step of a registration is, given the replies so far: for valid
/// fields the user with the email address is asked for; where there is none the
/// password is hashed and the user is added; then a token is issued and the
/// answer is 201 with the user and the token. Hashing and issuing may fail.
pub open spec fn register_plan(
    step: Result<Progress<(u16, AuthResponse)>, AppError>,
    config: JwtConfig,
    payload: RegisterRequest,
    replies: Seq<Reply>,
) -> bool {
    match registration_fault(payload.email@, payload.password@) {
        Some(m) => step matches Err(e) && e@ == ErrorView::Validation(m),
        None => if replies.len() == 0 {
            step == Ok::<Progress<(u16, AuthResponse)>, AppError>(
                Progress::Ask(Statement::UserByEmail { email: payload.email }),
            )
        } else {
            match replies[0] {
                Reply::User(Some(_)) => step matches Err(e) && e@ == ErrorView::Conflict(
                    "Email already registered"@,
                ),
                Reply::User(None) => if replies.len() == 1 {
                    match step {
                        Ok(
                            Progress::Ask(
                                Statement::InsertUser { email, password_hash, first_name, last_name },
                            ),
                        ) => {
                            &&& email == payload.email
                            &&& argon2_accepts(payload.password@, password_hash@) == Some(true)
                            &&& first_name == payload.first_name
                            &&& last_name == payload.last_name
                        },
                        Err(e) => e@ is Internal,
                        _ => false,
                    }
                } else {
                    match replies[1] {
                        Reply::User(Some(user)) => match step {
                            Ok(Progress::Finished((code, response))) => {
                                &&& code == 201
                                &&& response.user == user_response(user)
                                &&& token_for(config, user, response.token@)
                            },
                            Err(e) => e@ is Internal,
                            _ => false,
                        },
                        other => step matches Err(e) && e@ == driver_failure(fault_of(other)),
                    }
                },
                other => step matches Err(e) && e@ == driver_failure(fault_of(other)),
            }
        },
    }
}

/// The next step of a registration.
pub fn register_step(config: &JwtConfig, payload: &RegisterRequest, replies: &Vec<Reply>) -> (step:
    Result<Progress<(u16, AuthResponse)>, AppError>)
    ensures
        register_plan(step, *config, *payload, replies@),
        !payload.email@.contains('@') ==> (step matches Err(e) && e@ is Validation),
        replies.len() >= 2 ==> !(step matches Ok(Progress::Ask(_))),
{
    payload.validate()?;
    let existing = match user_at(replies, 0) {
        Ok(Some(found)) => found,
        Ok(None) => {
            return Ok(Progress::Ask(Statement::UserByEmail { email: payload.email.clone() }));
        },
        Err(fault) => {
            return Err(failed_in_driver(fault));
        },
    };
    ensure_email_free(existing.is_some())?;
    match user_at(replies, 1) {
        Ok(Some(Some(user))) => {
            let token = generate_token(
                user.id,
                user.email.as_str(),
                config.secret.as_str(),
                config.expiration,
            )?;
            Ok(
                Progress::Finished(
                    (201, AuthResponse { user: UserResponse::from(user.clone()), token }),
                ),
            )
        },
        Ok(Some(None)) => Err(AppError::unexpected()),
        Ok(None) => {
            let password_hash = hash_password(payload.password.as_str())?;
            Ok(
                Progress::Ask(
                    Statement::InsertUser {
                        email: payload.email.clone(),
                        password_hash,
                        first_name: clone_optional_text(&payload.first_name),
                        last_name: clone_optional_text(&payload.last_name),
                    },
                ),
            )
        },
        Err(fault) => Err(failed_in_driver(fault)),
    }
}

/// Registers a user and issues a token for it. The fields must be valid and the
/// email address free. The password is stored as a credential that it matches;
/// the answer leaves the credential out.
pub fn register(state: &mut AppState, payload: RegisterRequest, now: Timestamp) -> (registered: Result<
    (u16, AuthResponse),
    AppError,
>)
    requires
        old(state).store.wf(),
    ensures
        final(state).store.wf(),
        final(state).config == old(state).config,
        !payload.email@.contains('@') ==> (registered matches Err(e) && e@ is Validation),
        match registered {
            Ok((code, response)) => {
                let user = final(state).store@.users.last();
                &&& registration_refusal(old(state).store@, payload.email@, payload.password@) is None
                &&& code == 201
                &&& final(state).store@ == old(state).store@.with_user(user)
                &&& user == registered_user(
                    old(state).store@.next_id,
                    payload.email,
                    user.password_hash,
                    payload.first_name,
                    payload.last_name,
                    now,
                )
                &&& argon2_accepts(payload.password@, user.password_hash@) == Some(true)
                &&& response.user == user_response(user)
                &&& is_token_for(*old(state), user, response.token@)
            },
            Err(e) => match registration_refusal(
                old(state).store@,
                payload.email@,
                payload.password@,
            ) {
                Some(refused) => e@ == refused && final(state).store@ == old(state).store@,
                None => {
                    ||| e@ is Internal && final(state).store@ == old(state).store@
                    ||| e@ is Database && old(state).store@.next_id == u128::MAX
                        && final(state).store@ == old(state).store@
                    ||| {
                        let user = final(state).store@.users.last();
                        &&& e@ is Internal
                        &&& final(state).store@ == old(state).store@.with_user(user)
                        &&& user == registered_user(
                            old(state).store@.next_id,
                            payload.email,
                            user.password_hash,
                            payload.first_name,
                            payload.last_name,
                            now,
                        )
                        &&& argon2_accepts(payload.password@, user.password_hash@) == Some(true)
                    }
                },
            },
        },
{
    let mut replies: Vec<Reply> = Vec::new();
    match register_step(&state.config.jwt, &payload, &replies)? {
        Progress::Finished(answer) => {
            return Ok(answer);
        },
        Progress::Ask(statement) => record(&mut state.store, &mut replies, statement, now),
    }
    match register_step(&state.config.jwt, &payload, &replies)? {
        Progress::Finished(answer) => {
            return Ok(answer);
        },
        Progress::Ask(statement) => record(&mut state.store, &mut replies, statement, now),
    }
    match register_step(&state.config.jwt, &payload, &replies)? {
        Progress::Finished(answer) => Ok(answer),
        Progress::Ask(_) => Err(AppError::unexpected()),
    }
}

/// What the next step of a login is, given the replies so far: for valid fields
/// the user with the email address is asked for; where the credentials hold the
/// login is recorded; then a token is issued and the answer is the user and the
/// token. Issuing may fail.
pub open spec fn login_plan(
    step: Result<Progress<AuthResponse>, AppError>,
    config: JwtConfig,
    payload: LoginRequest,
    replies: Seq<Reply>,
) -> bool {
    match login_fault(payload.email@) {
        Some(m) => step matches Err(e) && e@ == ErrorView::Validation(m),
        None => if replies.len() == 0 {
            step == Ok::<Progress<AuthResponse>, AppError>(
                Progress::Ask(Statement::UserByEmail { email: payload.email }),
            )
        } else {
            match replies[0] {
                Reply::User(found) => match credentials_refusal(found, payload.password@) {
                    Some(refused) => step matches Err(e) && e@ == refused,
                    None => if replies.len() == 1 {
                        step == Ok::<Progress<AuthResponse>, AppError>(
                            Progress::Ask(Statement::RecordLogin { id: found->0.id }),
                        )
                    } else {
                        match replies[1] {
                            Reply::Done => match step {
                                Ok(Progress::Finished(response)) => {
                                    &&& response.user == user_response(found->0)
                                    &&& token_for(config, found->0, response.token@)
                                },
                                Err(e) => e@ is Internal,
                                _ => false,
                            },
                            other => step matches Err(e) && e@ == driver_failure(
                                fault_of(other),
                            ),
                        }
                    },
                },
                other => step matches Err(e) && e@ == driver_failure(fault_of(other)),
            }
        },
    }
}

/// The next step of a login.
pub fn login_step(config: &JwtConfig, payload: &LoginRequest, replies: &Vec<Reply>) -> (step: Result<
    Progress<AuthResponse>,
    AppError,
>)
    ensures
        login_plan(step, *config, *payload, replies@),
        !payload.email@.contains('@') ==> (step matches Err(e) && e@ is Validation),
        replies.len() >= 2 ==> !(step matches Ok(Progress::Ask(_))),
{
    payload.validate()?;
    let found = match user_at(replies, 0) {
        Ok(Some(found)) => found,
        Ok(None) => {
            return Ok(Progress::Ask(Statement::UserByEmail { email: payload.email.clone() }));
        },
        Err(fault) => {
            return Err(failed_in_driver(fault));
        },
    };
    let user = check_credentials(clone_user(found), payload.password.as_str())?;
    match done_at(replies, 1) {
        Ok(true) => {
            let token = generate_token(
                user.id,
                user.email.as_str(),
                config.secret.as_str(),
                config.expiration,
            )?;
            Ok(Progress::Finished(AuthResponse { user: UserResponse::from(user), token }))
        },
        Ok(false) => Ok(Progress::Ask(Statement::RecordLogin { id: user.id })),
        Err(fault) => Err(failed_in_driver(fault)),
    }
}

/// Logs a user in: checks the password, records the login and issues a token.
/// An unknown address and a wrong password get the same answer.
pub fn login(state: &mut AppState, payload: LoginRequest, now: Timestamp) -> (logged_in: Result<
    AuthResponse,
    AppError,
>)
    requires
        old(state).store.wf(),
    ensures
        final(state).store.wf(),
        final(state).config == old(state).config,
        !payload.email@.contains('@') ==> (logged_in matches Err(e) && e@ is Validation),
        match logged_in {
            Ok(response) => {
                &&& login_refusal(old(state).store@, payload.email@, payload.password@) is None
                &&& old(state).store@.user_by_email(payload.email@) matches Some(user)
                &&& final(state).store@ == old(state).store@.after_login(user.id, now)
                &&& response.user == user_response(user)
                &&& is_token_for(*old(state), user, response.token@)
            },
            Err(e) => match login_refusal(old(state).store@, payload.email@, payload.password@) {
                Some(refused) => e@ == refused && final(state).store@ == old(state).store@,
                None => {
                    &&& e@ is Internal
                    &&& old(state).store@.user_by_email(payload.email@) matches Some(user)
                    &&& final(state).store@ == old(state).store@.after_login(user.id, now)
                },
            },
        },
{
    let mut replies: Vec<Reply> = Vec::new();
    match login_step(&state.config.jwt, &payload, &replies)? {
        Progress::Finished(answer) => {
            return Ok(answer);
        },
        Progress::Ask(statement) => record(&mut state.store, &mut replies, statement, now),
    }
    match login_step(&state.config.jwt, &payload, &replies)? {
        Progress::Finished(answer) => {
            return Ok(answer);
        },
        Progress::Ask(statement) => record(&mut state.store, &mut replies, statement, now),
    }
    match login_step(&state.config.jwt, &payload, &replies)? {
        Progress::Finished(answer) => Ok(answer),
        Progress::Ask(_) => Err(AppError::unexpected()),
    }
}

/// What the next step of the reading of the caller's profile is, given the
/// replies so far: the user is asked for; then the answer is the profile, or
/// that there is none.
pub open spec fn me_plan(
    step: Result<Progress<UserResponse>, AppError>,
    user_id: Option<Id>,
    replies: Seq<Reply>,
) -> bool {
    match user_id {
        None => step matches Err(e) && e@ == principal_error(PrincipalFault::Authentication),
        Some(uid) => if replies.len() == 0 {
            step == Ok::<Progress<UserResponse>, AppError>(
                Progress::Ask(Statement::UserById { id: uid }),
            )
        } else {
            match replies[0] {
                Reply::User(Some(user)) => step matches Ok(Progress::Finished(response))
                    && response == user_response(user),
                Reply::User(None) => step matches Err(e) && e@ == ErrorView::NotFound(
                    "User not found"@,
                ),
                other => step matches Err(e) && e@ == driver_failure(fault_of(other)),
            }
        },
    }
}

/// The next step of the reading of the caller's profile.
pub fn me_step(auth_user: &AuthUser, replies: &Vec<Reply>) -> (step: Result<
    Progress<UserResponse>,
    AppError,
>)
    ensures
        me_plan(step, uuid_parsed(auth_user.user_id@), replies@),
        replies.len() >= 1 ==> !(step matches Ok(Progress::Ask(_))),
{
    let user_id = principal(auth_user, PrincipalFault::Authentication)?;
    match user_at(replies, 0) {
        Ok(Some(found)) => Ok(Progress::Finished(profile_of(clone_user(found))?)),
        Ok(None) => Ok(Progress::Ask(Statement::UserById { id: user_id })),
        Err(fault) => Err(failed_in_driver(fault)),
    }
}

/// The profile of the caller.
pub fn me(state: &mut AppState, auth_user: &AuthUser) -> (found: Result<UserResponse, AppError>)
    requires
        old(state).store.wf(),
    ensures
        final(state).store.wf(),
        final(state).config == old(state).config,
        final(state).store@ == old(state).store@,
        agrees(found, profile_view(old(state).store@, uuid_parsed(auth_user.user_id@))),
{
    let mut replies: Vec<Reply> = Vec::new();
    match me_step(auth_user, &replies)? {
        Progress::Finished(answer) => {
            return Ok(answer);
        },
        Progress::Ask(statement) => record(&mut state.store, &mut replies, statement, 0),
    }
    match me_step(auth_user, &replies)? {
        Progress::Finished(answer) => Ok(answer),
        Progress::Ask(_) => Err(AppError::unexpected()),
    }
}

} // verus!
