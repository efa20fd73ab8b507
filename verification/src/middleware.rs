//! The session resolver: from the authorization header of a request to the
//! authenticated user. A request that fails here reaches no handler.

use vstd::prelude::*;
use vstd::string::StringExecFns;
use crate::credentials::{
    Claims, bearer_prefix, extract_token_from_header, token_subject, validate_token,
};
use crate::error::{AppError, description_of};
use crate::models::AuthUser;
use crate::state::AppState;
use crate::text::has_prefix;

verus! {

/// The status code of every rejection by the session resolver.
pub const UNAUTHORIZED: u16 = 401;

/// A rejection: the status code and the message.
#[derive(Debug)]
pub struct Rejection {
    pub status: u16,
    pub message: String,
}

/// The subject of validated claims, or the rejection for a token that failed
/// validation.
pub fn subject_of(validated: Result<Claims, AppError>) -> (subject: Result<String, Rejection>)
    ensures
        match subject {
            Ok(sub) => validated matches Ok(claims) && sub == claims.sub,
            Err(rejection) => {
                &&& validated matches Err(e)
                &&& rejection.status == UNAUTHORIZED
                &&& rejection.message@ == "Invalid token: "@ + description_of(e@)
            },
        },
{
    match validated {
        Ok(claims) => Ok(claims.sub),
        Err(e) => {
            let message = String::from_str("Invalid token: ").concat(e.message().as_str());
            Err(Rejection { status: UNAUTHORIZED, message })
        },
    }
}

/// The token of a header that begins with the bearer scheme: what follows it.
pub open spec fn bearer_token(header: Seq<char>) -> Seq<char> {
    header.subrange(bearer_prefix().len() as int, header.len() as int)
}

/// What the session resolver owes for a header, whatever the validation of the
/// token says: a missing header and a header without the bearer scheme are
/// rejected with their own messages; any other rejection names the token; and a
/// subject is the one that the token of the header names under `secret`.
pub open spec fn resolves(
    secret: Seq<char>,
    authorization: Option<&str>,
    subject: Result<String, Rejection>,
) -> bool {
    match authorization {
        None => subject matches Err(rejection) && rejection.status == UNAUTHORIZED
            && rejection.message@ == "Missing authorization header"@,
        Some(header) => if !has_prefix(header@, bearer_prefix()) {
            subject matches Err(rejection) && rejection.status == UNAUTHORIZED
                && rejection.message@
                == "Invalid authorization header: Authentication error: Invalid authorization header format"@
        } else {
            match subject {
                Ok(sub) => token_subject(bearer_token(header@), secret) == Some(sub@),
                Err(rejection) => rejection.status == UNAUTHORIZED && has_prefix(
                    rejection.message@,
                    "Invalid token: "@,
                ),
            }
        },
    }
}

/// Resolves the caller of a request from its authorization header. The header
/// must be there and carry a bearer token that validates under `secret`; the
/// subject of the token is then the authenticated user.
pub fn resolve_session(secret: &str, authorization: Option<&str>) -> (subject: Result<
    String,
    Rejection,
>)
    ensures
        resolves(secret@, authorization, subject),
{
    let header = match authorization {
        Some(h) => h,
        None => {
            return Err(
                Rejection {
                    status: UNAUTHORIZED,
                    message: String::from_str("Missing authorization header"),
                },
            );
        },
    };
    let token = match extract_token_from_header(header) {
        Ok(t) => t,
        Err(e) => {
            let message = String::from_str("Invalid authorization header: ").concat(
                e.message().as_str(),
            );
            proof {
                reveal_strlit("Invalid authorization header: ");
                reveal_strlit("Authentication error: ");
                reveal_strlit("Invalid authorization header format");
                reveal_strlit(
                    "Invalid authorization header: Authentication error: Invalid authorization header format",
                );
                assert(message@
                    =~= "Invalid authorization header: Authentication error: Invalid authorization header format"@);
            }
            return Err(Rejection { status: UNAUTHORIZED, message });
        },
    };
    proof {
        reveal_strlit("Bearer ");
    }
    let subject = subject_of(validate_token(token, secret));
    proof {
        if subject is Err {
            assert(subject->Err_0.message@.subrange(0, "Invalid token: "@.len() as int)
                =~= "Invalid token: "@);
        }
    }
    subject
}

/// Resolves the caller of a request under the signing secret of the server.
pub fn auth_middleware(state: &AppState, authorization: Option<&str>) -> (subject: Result<
    String,
    Rejection,
>)
    ensures
        resolves(state.config.jwt.secret@, authorization, subject),
{
    resolve_session(state.config.jwt.secret.as_str(), authorization)
}

impl AuthUser {
    /// The authenticated user of a request, from the subject that the session
    /// resolver left in the request context. A request without one is rejected.
    pub fn from_request_parts(subject: Option<&String>) -> (user: Result<AuthUser, Rejection>)
        ensures
            match subject {
                Some(sub) => user matches Ok(auth) && auth.user_id == *sub,
                None => user matches Err(rejection) && rejection.status == UNAUTHORIZED
                    && rejection.message@ == "User ID not found in request"@,
            },
    {
        match subject {
            Some(sub) => Ok(AuthUser { user_id: sub.clone() }),
            None => Err(
                Rejection {
                    status: UNAUTHORIZED,
                    message: String::from_str("User ID not found in request"),
                },
            ),
        }
    }
}

} // verus!
