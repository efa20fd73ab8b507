//! Requests and their failures, and the slot that keeps the token.

use vstd::prelude::*;
use vstd::string::StringExecFns;
use crate::credentials::bearer_prefix;
use crate::text::has_prefix;

verus! {

/// The address of the interface.
pub const API_BASE_URL: &'static str = "http://localhost:3000";

/// The failure of a request.
#[derive(Debug)]
pub struct ApiError {
    pub message: String,
}

impl Clone for ApiError {
    fn clone(&self) -> (copy: Self)
        ensures
            copy == *self,
    {
        ApiError { message: self.message.clone() }
    }
}

impl ApiError {
    /// The failure of a request that did not reach the interface, or whose
    /// answer did not arrive.
    pub fn network(detail: &str) -> (error: ApiError)
        ensures
            error.message@ == "Network error: "@ + detail@,
    {
        ApiError { message: String::from_str("Network error: ").concat(detail) }
    }

    /// The failure to write a body as JSON, or to read one.
    pub fn json(detail: &str) -> (error: ApiError)
        ensures
            error.message@ == "JSON error: "@ + detail@,
    {
        ApiError { message: String::from_str("JSON error: ").concat(detail) }
    }

    /// The text of this failure: its message.
    pub fn to_text(&self) -> (text: String)
        ensures
            text == self.message,
    {
        self.message.clone()
    }
}

/// The slot of the browser's storage that keeps the token between requests.
#[derive(Debug)]
pub struct TokenStore {
    pub token: Option<String>,
}

/// The token that is kept, if one is.
pub fn get_token(store: &TokenStore) -> (token: Option<String>)
    ensures
        token == store.token,
{
    match &store.token {
        Some(t) => Some(t.clone()),
        None => None,
    }
}

/// Keeps a token in place of whatever was kept.
pub fn set_token(store: &mut TokenStore, token: &str)
    ensures
        final(store).token matches Some(kept) && kept@ == token@,
{
    store.token = Some(String::from_str(token));
}

/// Forgets the token.
pub fn remove_token(store: &mut TokenStore)
    ensures
        final(store).token is None,
{
    store.token = None;
}

/// The methods of the requests that the client sends.
#[derive(Debug, Clone, Copy, PartialEq, Eq, Structural)]
pub enum Method {
    Get,
    Post,
}

/// A request, ready to be sent.
#[derive(Debug)]
pub struct Request {
    pub method: Method,
    pub url: String,
    pub content_type: Option<String>,
    pub authorization: Option<String>,
    pub body: Option<String>,
}

/// The value of the authorization header for a token.
pub open spec fn bearer(token: Seq<char>) -> Seq<char> {
    bearer_prefix() + token
}

/// The authorization header that goes with a kept token: none where no token is
/// kept.
pub open spec fn authorization_of(token: Option<String>) -> Option<Seq<char>> {
    match token {
        Some(t) => Some(bearer(t@)),
        None => None,
    }
}

/// The characters of an optional header.
pub open spec fn header_text(header: Option<String>) -> Option<Seq<char>> {
    match header {
        Some(h) => Some(h@),
        None => None,
    }
}

/// The address of an endpoint.
pub open spec fn url_of(endpoint: Seq<char>) -> Seq<char> {
    API_BASE_URL@ + endpoint
}

/// The authorization header for the kept token.
pub fn authorization_header(store: &TokenStore) -> (header: Option<String>)
    ensures
        header_text(header) == authorization_of(store.token),
{
    match &store.token {
        Some(t) => Some(String::from_str("Bearer ").concat(t.as_str())),
        None => None,
    }
}

/// A request to read an endpoint, with the kept token where one is kept.
pub fn get(store: &TokenStore, endpoint: &str) -> (request: Request)
    ensures
        request.method == Method::Get,
        request.url@ == url_of(endpoint@),
        request.content_type is None,
        header_text(request.authorization) == authorization_of(store.token),
        request.body is None,
{
    Request {
        method: Method::Get,
        url: String::from_str(API_BASE_URL).concat(endpoint),
        content_type: None,
        authorization: authorization_header(store),
        body: None,
    }
}

/// A request to send a JSON body to an endpoint, with the kept token where one
/// is kept.
pub fn post(store: &TokenStore, endpoint: &str, body_json: String) -> (request: Request)
    ensures
        request.method == Method::Post,
        request.url@ == url_of(endpoint@),
        request.content_type matches Some(c) && c@ == "application/json"@,
        header_text(request.authorization) == authorization_of(store.token),
        request.body == Some(body_json),
{
    Request {
        method: Method::Post,
        url: String::from_str(API_BASE_URL).concat(endpoint),
        content_type: Some(String::from_str("application/json")),
        authorization: authorization_header(store),
        body: Some(body_json),
    }
}

/// The character of a decimal digit.
pub open spec fn digit(d: nat) -> char {
    if d == 0 {
        '0'
    } else if d == 1 {
        '1'
    } else if d == 2 {
        '2'
    } else if d == 3 {
        '3'
    } else if d == 4 {
        '4'
    } else if d == 5 {
        '5'
    } else if d == 6 {
        '6'
    } else if d == 7 {
        '7'
    } else if d == 8 {
        '8'
    } else {
        '9'
    }
}

/// The decimal digits of a number, most significant first, without leading
/// zeros.
pub open spec fn decimal(n: nat) -> Seq<char>
    decreases n,
{
    if n < 10 {
        seq![digit(n)]
    } else {
        decimal(n / 10).push(digit(n % 10))
    }
}

/// The text of a decimal digit.
fn digit_text(d: u16) -> (text: &'static str)
    requires
        d < 10,
    ensures
        text@ == seq![digit(d as nat)],
{
    proof {
        reveal_strlit("0");
        reveal_strlit("1");
        reveal_strlit("2");
        reveal_strlit("3");
        reveal_strlit("4");
        reveal_strlit("5");
        reveal_strlit("6");
        reveal_strlit("7");
        reveal_strlit("8");
        reveal_strlit("9");
    }
    let text = if d == 0 {
        "0"
    } else if d == 1 {
        "1"
    } else if d == 2 {
        "2"
    } else if d == 3 {
        "3"
    } else if d == 4 {
        "4"
    } else if d == 5 {
        "5"
    } else if d == 6 {
        "6"
    } else if d == 7 {
        "7"
    } else if d == 8 {
        "8"
    } else {
        "9"
    };
    assert(text@ =~= seq![digit(d as nat)]);
    text
}

/// The decimal digits of a number as text.
pub fn decimal_text(n: u16) -> (text: String)
    ensures
        text@ == decimal(n as nat),
    decreases n,
{
    if n < 10 {
        String::from_str(digit_text(n))
    } else {
        let text = decimal_text(n / 10).concat(digit_text(n % 10));
        assert(text@ =~= decimal((n / 10) as nat).push(digit((n % 10) as nat)));
        text
    }
}

/// The message of the failure of a request that was answered with an error
/// status: the body of the answer where it could be read, else the status.
pub open spec fn failure_message(body: Option<String>, status: u16) -> Seq<char> {
    match body {
        Some(text) => text@,
        None => "HTTP error: "@ + decimal(status as nat),
    }
}

/// The failure of a request that was answered with an error status.
pub fn failure(body: Option<String>, status: u16) -> (error: ApiError)
    ensures
        error.message@ == failure_message(body, status),
{
    match body {
        Some(text) => ApiError { message: text },
        None => ApiError {
            message: String::from_str("HTTP error: ").concat(decimal_text(status).as_str()),
        },
    }
}

/// The header that the client sends for a token is one that the server accepts,
/// and the token that the server reads from it is the token that was sent.
pub proof fn bearer_header_carries_token(token: Seq<char>)
    ensures
        has_prefix(bearer(token), bearer_prefix()),
        bearer(token).subrange(7, bearer(token).len() as int) == token,
{
    reveal_strlit("Bearer ");
    assert(bearer(token).subrange(0, 7) =~= bearer_prefix());
    assert(bearer(token).subrange(7, bearer(token).len() as int) =~= token);
}

} // verus!
