//! The error taxonomy and its mapping to HTTP status codes.

use vstd::prelude::*;
use vstd::string::StringExecFns;

verus! {

/// Every way a request can fail.
#[derive(Debug)]
pub enum AppError {
    /// A store statement failed; the text is kept for the server log.
    DatabaseError(String),
    /// A store failure raised by the driver itself.
    Database(String),
    /// The request body breaks a constraint.
    Validation(String),
    /// The token is missing, malformed or expired, or the login is wrong.
    Authentication(String),
    /// The caller is known but may not do this.
    Authorization(String),
    /// The resource is absent, or hidden from a caller who is no member.
    NotFound(String),
    /// A uniqueness rule would be broken.
    Conflict(String),
    /// Something unexpected happened.
    InternalServerError(String),
    /// Something unexpected happened inside a helper.
    Internal(String),
    /// The request is malformed.
    BadRequest(String),
    /// A service this one depends on failed.
    ExternalService(String),
}

/// What an error says: its kind and the characters of its message.
pub enum ErrorView {
    DatabaseError(Seq<char>),
    Database(Seq<char>),
    Validation(Seq<char>),
    Authentication(Seq<char>),
    Authorization(Seq<char>),
    NotFound(Seq<char>),
    Conflict(Seq<char>),
    InternalServerError(Seq<char>),
    Internal(Seq<char>),
    BadRequest(Seq<char>),
    ExternalService(Seq<char>),
}

impl View for AppError {
    type V = ErrorView;

    open spec fn view(&self) -> ErrorView {
        match *self {
            AppError::DatabaseError(m) => ErrorView::DatabaseError(m@),
            AppError::Database(m) => ErrorView::Database(m@),
            AppError::Validation(m) => ErrorView::Validation(m@),
            AppError::Authentication(m) => ErrorView::Authentication(m@),
            AppError::Authorization(m) => ErrorView::Authorization(m@),
            AppError::NotFound(m) => ErrorView::NotFound(m@),
            AppError::Conflict(m) => ErrorView::Conflict(m@),
            AppError::InternalServerError(m) => ErrorView::InternalServerError(m@),
            AppError::Internal(m) => ErrorView::Internal(m@),
            AppError::BadRequest(m) => ErrorView::BadRequest(m@),
            AppError::ExternalService(m) => ErrorView::ExternalService(m@),
        }
    }
}

/// Whether the result of a handler is the expected one: the same value, or an
/// error of the same kind with the same message.
pub open spec fn agrees<T>(actual: Result<T, AppError>, expected: Result<T, ErrorView>) -> bool {
    match actual {
        Ok(x) => expected == Ok::<T, ErrorView>(x),
        Err(e) => expected == Err::<T, ErrorView>(e@),
    }
}

/// The status code that belongs to each kind of error.
pub open spec fn status_of(e: ErrorView) -> int {
    match e {
        ErrorView::DatabaseError(_) => 500,
        ErrorView::Database(_) => 500,
        ErrorView::Validation(_) => 400,
        ErrorView::Authentication(_) => 401,
        ErrorView::Authorization(_) => 403,
        ErrorView::NotFound(_) => 404,
        ErrorView::Conflict(_) => 409,
        ErrorView::InternalServerError(_) => 500,
        ErrorView::Internal(_) => 500,
        ErrorView::BadRequest(_) => 400,
        ErrorView::ExternalService(_) => 502,
    }
}

/// The text sent to the client: the error's own message where it is safe to
/// show, a fixed text where the detail stays in the server log.
pub open spec fn client_text_of(e: ErrorView) -> Seq<char> {
    match e {
        ErrorView::DatabaseError(_) => "Database error occurred"@,
        ErrorView::Database(_) => "Database error occurred"@,
        ErrorView::Validation(m) => m,
        ErrorView::Authentication(m) => m,
        ErrorView::Authorization(m) => m,
        ErrorView::NotFound(m) => m,
        ErrorView::Conflict(m) => m,
        ErrorView::InternalServerError(_) => "Internal server error"@,
        ErrorView::Internal(_) => "Internal server error"@,
        ErrorView::BadRequest(m) => m,
        ErrorView::ExternalService(_) => "External service error"@,
    }
}

/// The full description of an error, as written to the log.
pub open spec fn description_of(e: ErrorView) -> Seq<char> {
    match e {
        ErrorView::DatabaseError(m) => "Database error: "@ + m,
        ErrorView::Database(_) => "Database error"@,
        ErrorView::Validation(m) => "Validation error: "@ + m,
        ErrorView::Authentication(m) => "Authentication error: "@ + m,
        ErrorView::Authorization(m) => "Authorization error: "@ + m,
        ErrorView::NotFound(m) => "Not found: "@ + m,
        ErrorView::Conflict(m) => "Conflict: "@ + m,
        ErrorView::InternalServerError(m) => "Internal server error: "@ + m,
        ErrorView::Internal(m) => "Internal server error: "@ + m,
        ErrorView::BadRequest(m) => "Bad request: "@ + m,
        ErrorView::ExternalService(m) => "External service error: "@ + m,
    }
}

/// Whether the detail of an error stays in the server log.
pub open spec fn is_logged(e: ErrorView) -> bool {
    e is DatabaseError || e is Database || e is ExternalService || e is InternalServerError
        || e is Internal
}

/// The error for a reply of another kind than the statement gives.
pub open spec fn unexpected_reply() -> ErrorView {
    ErrorView::Internal("Unexpected reply from the store"@)
}

impl AppError {
    /// The error for a reply of another kind than the statement gives.
    pub fn unexpected() -> (error: AppError)
        ensures
            error@ == unexpected_reply(),
    {
        AppError::Internal(String::from_str("Unexpected reply from the store"))
    }

    /// The HTTP status code of the response for this error.
    pub fn status_code(&self) -> (code: u16)
        ensures
            code == status_of(self@),
    {
        match self {
            AppError::DatabaseError(_) => 500,
            AppError::Database(_) => 500,
            AppError::Validation(_) => 400,
            AppError::Authentication(_) => 401,
            AppError::Authorization(_) => 403,
            AppError::NotFound(_) => 404,
            AppError::Conflict(_) => 409,
            AppError::InternalServerError(_) => 500,
            AppError::Internal(_) => 500,
            AppError::BadRequest(_) => 400,
            AppError::ExternalService(_) => 502,
        }
    }

    /// The message placed under the key `error` of the response body.
    pub fn client_message(&self) -> (text: String)
        ensures
            text@ == client_text_of(self@),
    {
        match self {
            AppError::DatabaseError(_) => String::from_str("Database error occurred"),
            AppError::Database(_) => String::from_str("Database error occurred"),
            AppError::Validation(m) => m.clone(),
            AppError::Authentication(m) => m.clone(),
            AppError::Authorization(m) => m.clone(),
            AppError::NotFound(m) => m.clone(),
            AppError::Conflict(m) => m.clone(),
            AppError::InternalServerError(_) => String::from_str("Internal server error"),
            AppError::Internal(_) => String::from_str("Internal server error"),
            AppError::BadRequest(m) => m.clone(),
            AppError::ExternalService(_) => String::from_str("External service error"),
        }
    }

    /// Whether the detail of this error is written to the server log and kept
    /// from the client.
    pub fn logs_detail(&self) -> (logged: bool)
        ensures
            logged == is_logged(self@),
    {
        match self {
            AppError::DatabaseError(_)
            | AppError::Database(_)
            | AppError::ExternalService(_)
            | AppError::InternalServerError(_)
            | AppError::Internal(_) => true,
            _ => false,
        }
    }

    /// The description of this error: its kind, then its message.
    pub fn message(&self) -> (text: String)
        ensures
            text@ == description_of(self@),
    {
        match self {
            AppError::DatabaseError(m) => String::from_str("Database error: ").concat(m.as_str()),
            AppError::Database(_) => String::from_str("Database error"),
            AppError::Validation(m) => String::from_str("Validation error: ").concat(m.as_str()),
            AppError::Authentication(m) => String::from_str("Authentication error: ").concat(
                m.as_str(),
            ),
            AppError::Authorization(m) => String::from_str("Authorization error: ").concat(
                m.as_str(),
            ),
            AppError::NotFound(m) => String::from_str("Not found: ").concat(m.as_str()),
            AppError::Conflict(m) => String::from_str("Conflict: ").concat(m.as_str()),
            AppError::InternalServerError(m) => String::from_str("Internal server error: ").concat(
                m.as_str(),
            ),
            AppError::Internal(m) => String::from_str("Internal server error: ").concat(m.as_str()),
            AppError::BadRequest(m) => String::from_str("Bad request: ").concat(m.as_str()),
            AppError::ExternalService(m) => String::from_str("External service error: ").concat(
                m.as_str(),
            ),
        }
    }
}

} // verus!
