//! The credential service: password hashing and verification, token issuance and
//! validation, and the bearer header.
//!
//! Hashing is Argon2 with a fresh random salt. Tokens are JSON Web Tokens signed
//! with HMAC-SHA256 under the server secret.

use vstd::prelude::*;
use vstd::string::StringExecFns;
use vstd::string::StrSliceExecFns;
use crate::error::AppError;
use crate::ident::{id_to_text, uuid_parsed, uuid_text};
use crate::models::Id;
use crate::text::{has_prefix, same_text, starts_with};

verus! {

#[verifier::external_type_specification]
#[verifier::external_body]
pub struct ExSaltString(argon2::password_hash::SaltString);

#[verifier::external_type_specification]
#[verifier::external_body]
pub struct ExPasswordHashError(argon2::password_hash::Error);

#[verifier::external_type_specification]
#[verifier::external_body]
pub struct ExTokenError(jsonwebtoken::errors::Error);

/// Whether Argon2 accepts `password` for the stored credential `hash`: `None`
/// where `hash` is no credential in the PHC string format, else whether the
/// password matches.
pub uninterp spec fn argon2_accepts(password: Seq<char>, hash: Seq<char>) -> Option<bool>;

/// The value of a claim of a token.
#[derive(Debug)]
pub enum ClaimValue {
    /// A text.
    Text(String),
    /// An integer in the range of `i64`.
    Integer(i64),
    /// Anything else: nothing, a truth value, another number, a list, an object.
    Other,
}

/// What the value of a claim holds.
pub enum ClaimValueView {
    Text(Seq<char>),
    Integer(i64),
    Other,
}

impl View for ClaimValue {
    type V = ClaimValueView;

    open spec fn view(&self) -> ClaimValueView {
        match *self {
            ClaimValue::Text(text) => ClaimValueView::Text(text@),
            ClaimValue::Integer(number) => ClaimValueView::Integer(number),
            ClaimValue::Other => ClaimValueView::Other,
        }
    }
}

/// A claim of a token: a name and a value.
#[derive(Debug)]
pub struct Claim {
    pub name: String,
    pub value: ClaimValue,
}

/// What a claim holds.
pub struct ClaimView {
    pub name: Seq<char>,
    pub value: ClaimValueView,
}

impl View for Claim {
    type V = ClaimView;

    open spec fn view(&self) -> ClaimView {
        ClaimView { name: self.name@, value: self.value@ }
    }
}

/// What a list of claims holds.
pub open spec fn claims_view(claims: Seq<Claim>) -> Seq<ClaimView> {
    claims.map_values(|c: Claim| c@)
}

/// The value of the first claim with this name, if there is one.
pub open spec fn claim_named(claims: Seq<ClaimView>, name: Seq<char>) -> Option<ClaimValueView>
    decreases claims.len(),
{
    if claims.len() == 0 {
        None
    } else if claims[0].name == name {
        Some(claims[0].value)
    } else {
        claim_named(claims.drop_first(), name)
    }
}

/// Whether no two of the claims have the same name.
pub open spec fn distinct_names(claims: Seq<ClaimView>) -> bool {
    forall|i: int, j: int|
        0 <= i < j < claims.len() ==> (#[trigger] claims[i]).name != (#[trigger] claims[j]).name
}

/// Whether what was read from a token are these claims: under every name the
/// same value, or nothing under both.
pub open spec fn carries_all(read: Option<Seq<ClaimView>>, claims: Seq<ClaimView>) -> bool {
    &&& read matches Some(found)
    &&& forall|name: Seq<char>| claim_named(found, name) == #[trigger] claim_named(claims, name)
}

/// The token that signing these claims, in this order, under `secret` gives, or
/// `None` where signing fails.
pub uninterp spec fn jwt_signed(claims: Seq<ClaimView>, secret: Seq<char>) -> Option<Seq<char>>;

/// The claims that a token carries where its signature verifies under `secret`:
/// what `jsonwebtoken::decode` reads from it whenever it accepts it.
pub uninterp spec fn jwt_claims(token: Seq<char>, secret: Seq<char>) -> Option<Seq<ClaimView>>;

/// `SaltString::generate` on the operating system's random source: a fresh salt.
#[verifier::external_body]
fn fresh_salt() -> (salt: argon2::password_hash::SaltString) {
    argon2::password_hash::SaltString::generate(&mut argon2::password_hash::rand_core::OsRng)
}

/// `PasswordHasher::hash_password` of `Argon2::default()`, written out as a PHC
/// string. A credential that it returns is one that Argon2 accepts for the same
/// password.
#[verifier::external_body]
fn argon2_hash(password: &str, salt: &argon2::password_hash::SaltString) -> (hashed: Result<
    String,
    argon2::password_hash::Error,
>)
    ensures
        hashed matches Ok(h) ==> argon2_accepts(password@, h@) == Some(true),
{
    let hasher = argon2::Argon2::default();
    match argon2::PasswordHasher::hash_password(&hasher, password.as_bytes(), salt) {
        Ok(hash) => Ok(hash.to_string()),
        Err(e) => Err(e),
    }
}

/// `PasswordHash::new`, then `PasswordVerifier::verify_password` of
/// `Argon2::default()`: `None` where the credential does not parse, else whether
/// the password matches it.
#[verifier::external_body]
fn argon2_verify(password: &str, hash: &str) -> (accepted: Option<bool>)
    ensures
        accepted == argon2_accepts(password@, hash@),
{
    let verifier = argon2::Argon2::default();
    match argon2::password_hash::PasswordHash::new(hash) {
        Ok(parsed) => Some(
            argon2::PasswordVerifier::verify_password(&verifier, password.as_bytes(), &parsed)
                .is_ok(),
        ),
        Err(_) => None,
    }
}

/// The `Display` text of a hashing error.
#[verifier::external_body]
fn hash_error_text(e: &argon2::password_hash::Error) -> (text: String) {
    format!("{}", e)
}

/// `jsonwebtoken::encode` with the default header (HS256), the claims as a JSON
/// object in their order, and `secret` as the HMAC key. Where no two claims have
/// the same name, the token that it gives carries each claim with its value, and
/// no other.
#[verifier::external_body]
fn jwt_encode(claims: &Vec<Claim>, secret: &str) -> (token: Result<
    String,
    jsonwebtoken::errors::Error,
>)
    ensures
        jwt_signed(claims_view(claims@), secret@) == match token {
            Ok(t) => Some(t@),
            Err(_) => None,
        },
        match token {
            Ok(t) => distinct_names(claims_view(claims@)) ==> carries_all(
                jwt_claims(t@, secret@),
                claims_view(claims@),
            ),
            Err(_) => true,
        },
{
    let mut object = serde_json::Map::new();
    for claim in claims {
        let value = match &claim.value {
            ClaimValue::Text(text) => serde_json::Value::from(text.as_str()),
            ClaimValue::Integer(number) => serde_json::Value::from(*number),
            ClaimValue::Other => serde_json::Value::Null,
        };
        object.insert(claim.name.clone(), value);
    }
    let key = jsonwebtoken::EncodingKey::from_secret(secret.as_bytes());
    jsonwebtoken::encode(&jsonwebtoken::Header::default(), &object, &key)
}

/// `jsonwebtoken::decode` with the default validation: HS256, a required `exp`
/// claim, checked against the current time. Whether it accepts a token depends
/// on the clock; the claims that it reads from a token that it accepts do not.
#[verifier::external_body]
fn jwt_decode(token: &str, secret: &str) -> (claims: Result<
    Vec<Claim>,
    jsonwebtoken::errors::Error,
>)
    ensures
        claims matches Ok(read) ==> jwt_claims(token@, secret@) == Some(claims_view(read@)),
{
    let key = jsonwebtoken::DecodingKey::from_secret(secret.as_bytes());
    let rules = jsonwebtoken::Validation::default();
    let data = jsonwebtoken::decode::<serde_json::Map<String, serde_json::Value>>(token, &key, &rules)?;
    let mut claims = Vec::new();
    for (name, value) in data.claims {
        let value = match value {
            serde_json::Value::String(text) => ClaimValue::Text(text),
            serde_json::Value::Number(n) => n.as_i64().map_or(ClaimValue::Other, ClaimValue::Integer),
            _ => ClaimValue::Other,
        };
        claims.push(Claim { name, value });
    }
    Ok(claims)
}

/// The `Display` text of a token error.
#[verifier::external_body]
fn token_error_text(e: &jsonwebtoken::errors::Error) -> (text: String) {
    format!("{}", e)
}

/// `chrono::Utc::now().timestamp()`: the current time in seconds since the Unix
/// epoch.
#[verifier::external_body]
fn unix_now() -> (seconds: i64) {
    chrono::Utc::now().timestamp()
}

/// The claims of a token.
#[derive(Debug)]
pub struct Claims {
    /// The subject: the user's identifier as text.
    pub sub: String,
    /// The user's email address.
    pub email: String,
    /// The expiry, in seconds since the Unix epoch.
    pub exp: i64,
    /// The time of issue, in seconds since the Unix epoch.
    pub iat: i64,
}

/// Hashes a password with a fresh random salt. The credential is
/// self-describing: it carries the algorithm, its parameters and the salt.
pub fn hash_password(password: &str) -> (hashed: Result<String, AppError>)
    ensures
        match hashed {
            Ok(h) => argon2_accepts(password@, h@) == Some(true),
            Err(e) => e matches AppError::Internal(m) && has_prefix(
                m@,
                "Failed to hash password: "@,
            ),
        },
{
    let salt = fresh_salt();
    match argon2_hash(password, &salt) {
        Ok(h) => Ok(h),
        Err(e) => {
            let detail = hash_error_text(&e);
            let m = String::from_str("Failed to hash password: ").concat(detail.as_str());
            assert(m@.subrange(0, "Failed to hash password: "@.len() as int)
                =~= "Failed to hash password: "@);
            Err(AppError::Internal(m))
        },
    }
}

/// Checks a password against a stored credential. A credential that cannot be
/// read matches no password: the answer is `false`, never an error.
pub fn verify_password(password: &str, hash: &str) -> (verdict: Result<bool, AppError>)
    ensures
        verdict matches Ok(b) && b == (argon2_accepts(password@, hash@) == Some(true)),
{
    match argon2_verify(password, hash) {
        Some(b) => Ok(b),
        None => Ok(false),
    }
}

/// The claims of a token for a user, in their order: the subject, the email
/// address, the expiry and the time of issue.
pub open spec fn claim_fields(sub: Seq<char>, email: Seq<char>, exp: i64, iat: i64) -> Seq<
    ClaimView,
> {
    seq![
        ClaimView { name: "sub"@, value: ClaimValueView::Text(sub) },
        ClaimView { name: "email"@, value: ClaimValueView::Text(email) },
        ClaimView { name: "exp"@, value: ClaimValueView::Integer(exp) },
        ClaimView { name: "iat"@, value: ClaimValueView::Integer(iat) },
    ]
}

/// Whether a token, where its signature verifies under `secret`, carries these
/// four claims.
pub open spec fn token_carries(
    token: Seq<char>,
    secret: Seq<char>,
    sub: Seq<char>,
    email: Seq<char>,
    exp: i64,
    iat: i64,
) -> bool {
    &&& jwt_claims(token, secret) matches Some(read)
    &&& text_claim_of(read, "sub"@) == Some(sub)
    &&& text_claim_of(read, "email"@) == Some(email)
    &&& integer_claim_of(read, "exp"@) == Some(exp)
    &&& integer_claim_of(read, "iat"@) == Some(iat)
}

/// The token for `user_id` and `email` issued at `iat` with a lifetime of
/// `expiration` seconds, or `None` where signing fails.
pub open spec fn token_issued_at(
    user_id: Id,
    email: Seq<char>,
    secret: Seq<char>,
    expiration: int,
    iat: int,
) -> Option<Seq<char>> {
    jwt_signed(
        claim_fields(uuid_text(user_id), email, (iat + expiration) as i64, iat as i64),
        secret,
    )
}

/// Whether `token` is the token issued for a user at `iat`: it is the token
/// signed over the user's claims, it carries them, and its subject reads back as
/// the user's identifier.
pub open spec fn is_issued(
    token: Seq<char>,
    user_id: Id,
    email: Seq<char>,
    secret: Seq<char>,
    expiration: int,
    iat: int,
) -> bool {
    &&& i64::MIN <= iat <= i64::MAX
    &&& i64::MIN <= iat + expiration <= i64::MAX
    &&& token_issued_at(user_id, email, secret, expiration, iat) == Some(token)
    &&& token_carries(
        token,
        secret,
        uuid_text(user_id),
        email,
        (iat + expiration) as i64,
        iat as i64,
    )
    &&& uuid_parsed(uuid_text(user_id)) == Some(user_id)
}

/// The claims of a token for a user.
fn claims_of(sub: String, email: &str, exp: i64, iat: i64) -> (claims: Vec<Claim>)
    ensures
        claims_view(claims@) == claim_fields(sub@, email@, exp, iat),
{
    let mut claims: Vec<Claim> = Vec::new();
    claims.push(Claim { name: String::from_str("sub"), value: ClaimValue::Text(sub) });
    claims.push(
        Claim { name: String::from_str("email"), value: ClaimValue::Text(String::from_str(email)) },
    );
    claims.push(Claim { name: String::from_str("exp"), value: ClaimValue::Integer(exp) });
    claims.push(Claim { name: String::from_str("iat"), value: ClaimValue::Integer(iat) });
    assert(claims_view(claims@) =~= claim_fields(sub@, email@, exp, iat));
    claims
}

/// The four claims of a token for a user have different names, and each is
/// found under its own.
pub proof fn lemma_claim_fields(sub: Seq<char>, email: Seq<char>, exp: i64, iat: i64)
    ensures
        distinct_names(claim_fields(sub, email, exp, iat)),
        claim_named(claim_fields(sub, email, exp, iat), "sub"@) == Some(ClaimValueView::Text(sub)),
        claim_named(claim_fields(sub, email, exp, iat), "email"@) == Some(
            ClaimValueView::Text(email),
        ),
        claim_named(claim_fields(sub, email, exp, iat), "exp"@) == Some(
            ClaimValueView::Integer(exp),
        ),
        claim_named(claim_fields(sub, email, exp, iat), "iat"@) == Some(
            ClaimValueView::Integer(iat),
        ),
{
    reveal_strlit("sub");
    reveal_strlit("email");
    reveal_strlit("exp");
    reveal_strlit("iat");
    let fields = claim_fields(sub, email, exp, iat);
    assert("sub"@[0] == 's' && "email"@[0] == 'e' && "exp"@[0] == 'e' && "iat"@[0] == 'i');
    assert("email"@.len() == 5 && "exp"@.len() == 3);
    let rest1 = fields.drop_first();
    let rest2 = rest1.drop_first();
    let rest3 = rest2.drop_first();
    assert(rest1[0] == fields[1] && rest2[0] == fields[2] && rest3[0] == fields[3]);
    reveal_with_fuel(claim_named, 5);
}

/// Issues a token at the instant `now`, in seconds since the Unix epoch. The
/// token names the user as its subject, carries the email address and expires
/// `expiration` seconds after `now`. An expiry that no `i64` holds is refused.
pub fn generate_token_at(user_id: Id, email: &str, secret: &str, expiration: i64, now: i64) -> (token:
    Result<String, AppError>)
    ensures
        match token {
            Ok(t) => is_issued(t@, user_id, email@, secret@, expiration as int, now as int),
            Err(e) => {
                &&& e matches AppError::Internal(m) && has_prefix(m@, "Failed to generate token: "@)
                &&& (i64::MIN <= now + expiration <= i64::MAX ==> token_issued_at(
                    user_id,
                    email@,
                    secret@,
                    expiration as int,
                    now as int,
                ) is None)
            },
        },
{
    let exp = match now.checked_add(expiration) {
        Some(exp) => exp,
        None => {
            let m = String::from_str("Failed to generate token: ").concat("expiry out of range");
            assert(m@.subrange(0, "Failed to generate token: "@.len() as int)
                =~= "Failed to generate token: "@);
            return Err(AppError::Internal(m));
        },
    };
    let sub = id_to_text(user_id);
    let claims = claims_of(sub, email, exp, now);
    proof {
        lemma_claim_fields(uuid_text(user_id), email@, exp, now);
    }
    match jwt_encode(&claims, secret) {
        Ok(t) => Ok(t),
        Err(e) => {
            let detail = token_error_text(&e);
            let m = String::from_str("Failed to generate token: ").concat(detail.as_str());
            assert(m@.subrange(0, "Failed to generate token: "@.len() as int)
                =~= "Failed to generate token: "@);
            Err(AppError::Internal(m))
        },
    }
}

/// Issues a token now: a signed, time-bounded assertion with the user's
/// identifier as subject, the email address, the time of issue and the expiry.
pub fn generate_token(user_id: Id, email: &str, secret: &str, expiration: i64) -> (token: Result<
    String,
    AppError,
>)
    ensures
        match token {
            Ok(t) => exists|iat: i64| #[trigger]
                is_issued(t@, user_id, email@, secret@, expiration as int, iat as int),
            Err(e) => e matches AppError::Internal(m) && has_prefix(
                m@,
                "Failed to generate token: "@,
            ),
        },
{
    let now = unix_now();
    generate_token_at(user_id, email, secret, expiration, now)
}

/// The text of the first claim with this name, where it is a text.
pub open spec fn text_claim_of(claims: Seq<ClaimView>, name: Seq<char>) -> Option<Seq<char>> {
    match claim_named(claims, name) {
        Some(ClaimValueView::Text(text)) => Some(text),
        _ => None,
    }
}

/// The number of the first claim with this name, where it is an integer.
pub open spec fn integer_claim_of(claims: Seq<ClaimView>, name: Seq<char>) -> Option<i64> {
    match claim_named(claims, name) {
        Some(ClaimValueView::Integer(number)) => Some(number),
        _ => None,
    }
}

/// The characters of an optional text.
pub open spec fn optional_text(text: Option<String>) -> Option<Seq<char>> {
    match text {
        Some(t) => Some(t@),
        None => None,
    }
}

/// The row of the first claim with this name.
fn find_claim(claims: &Vec<Claim>, name: &str) -> (found: Option<usize>)
    ensures
        match found {
            Some(i) => i < claims.len() && claim_named(claims_view(claims@), name@) == Some(
                claims@[i as int].value@,
            ),
            None => claim_named(claims_view(claims@), name@) is None,
        },
{
    let ghost all = claims_view(claims@);
    let mut i: usize = 0;
    assert(all.subrange(0, all.len() as int) =~= all);
    while i < claims.len()
        invariant
            i <= claims.len(),
            all == claims_view(claims@),
            claim_named(all, name@) == claim_named(all.subrange(i as int, all.len() as int), name@),
        decreases claims.len() - i,
    {
        let ghost rest = all.subrange(i as int, all.len() as int);
        assert(rest[0] == claims@[i as int]@);
        assert(rest.drop_first() =~= all.subrange(i + 1, all.len() as int));
        if same_text(claims[i].name.as_str(), name) {
            return Some(i);
        }
        i += 1;
    }
    assert(all.subrange(i as int, all.len() as int).len() == 0);
    None
}

/// The text of the first claim with this name, where it is a text.
pub fn text_claim(claims: &Vec<Claim>, name: &str) -> (text: Option<String>)
    ensures
        optional_text(text) == text_claim_of(claims_view(claims@), name@),
{
    match find_claim(claims, name) {
        Some(i) => match &claims[i].value {
            ClaimValue::Text(text) => Some(text.clone()),
            _ => None,
        },
        None => None,
    }
}

/// The number of the first claim with this name, where it is an integer.
pub fn integer_claim(claims: &Vec<Claim>, name: &str) -> (number: Option<i64>)
    ensures
        number == integer_claim_of(claims_view(claims@), name@),
{
    match find_claim(claims, name) {
        Some(i) => match &claims[i].value {
            ClaimValue::Integer(number) => Some(*number),
            _ => None,
        },
        None => None,
    }
}

/// The claims read from a decoded token: all four must be there.
pub open spec fn claims_complete(
    sub: Option<String>,
    email: Option<String>,
    exp: Option<i64>,
    iat: Option<i64>,
) -> bool {
    sub is Some && email is Some && exp is Some && iat is Some
}

/// Builds the claims from the four fields of a decoded token. A token that lacks
/// one of them, or holds it in another type, is invalid.
pub fn claims_from_parts(
    sub: Option<String>,
    email: Option<String>,
    exp: Option<i64>,
    iat: Option<i64>,
) -> (claims: Result<Claims, AppError>)
    ensures
        match claims {
            Ok(c) => {
                &&& claims_complete(sub, email, exp, iat)
                &&& Some(c.sub) == sub
                &&& Some(c.email) == email
                &&& Some(c.exp) == exp
                &&& Some(c.iat) == iat
            },
            Err(e) => {
                &&& !claims_complete(sub, email, exp, iat)
                &&& e matches AppError::Authentication(m)
                &&& m@ == "Invalid token: missing claim"@
            },
        },
{
    match (sub, email, exp, iat) {
        (Some(sub), Some(email), Some(exp), Some(iat)) => Ok(Claims { sub, email, exp, iat }),
        _ => Err(AppError::Authentication(String::from_str("Invalid token: missing claim"))),
    }
}

/// Whether claims that were read from a token hold all four claims of a token
/// for a user, each in its type.
pub open spec fn holds_user_claims(read: Seq<ClaimView>) -> bool {
    &&& text_claim_of(read, "sub"@) is Some
    &&& text_claim_of(read, "email"@) is Some
    &&& integer_claim_of(read, "exp"@) is Some
    &&& integer_claim_of(read, "iat"@) is Some
}

/// Picks the four claims of a token for a user out of the claims that were read
/// from a token, each under its name: the subject and the email address as
/// texts, the expiry and the time of issue as integers. Where one of them is not
/// there, or is of another type, the token is invalid.
pub fn read_claims(read: &Vec<Claim>) -> (claims: Result<Claims, AppError>)
    ensures
        match claims {
            Ok(c) => {
                &&& text_claim_of(claims_view(read@), "sub"@) == Some(c.sub@)
                &&& text_claim_of(claims_view(read@), "email"@) == Some(c.email@)
                &&& integer_claim_of(claims_view(read@), "exp"@) == Some(c.exp)
                &&& integer_claim_of(claims_view(read@), "iat"@) == Some(c.iat)
            },
            Err(e) => {
                &&& !holds_user_claims(claims_view(read@))
                &&& e matches AppError::Authentication(m)
                &&& m@ == "Invalid token: missing claim"@
            },
        },
{
    let sub = text_claim(read, "sub");
    let email = text_claim(read, "email");
    let exp = integer_claim(read, "exp");
    let iat = integer_claim(read, "iat");
    claims_from_parts(sub, email, exp, iat)
}

/// Verifies the signature and the expiry of a token and reads its claims. A
/// token that is malformed, wrongly signed, expired or incomplete is an
/// authentication error. The claims of an accepted token are those that the
/// token carries.
pub fn validate_token(token: &str, secret: &str) -> (claims: Result<Claims, AppError>)
    ensures
        match claims {
            Ok(c) => token_carries(token@, secret@, c.sub@, c.email@, c.exp, c.iat),
            Err(e) => {
                &&& e matches AppError::Authentication(m)
                &&& has_prefix(m@, "Invalid token: "@)
            },
        },
{
    proof {
        reveal_strlit("Invalid token: ");
        reveal_strlit("Invalid token: missing claim");
    }
    match jwt_decode(token, secret) {
        Ok(read) => {
            let claims = read_claims(&read);
            assert(has_prefix("Invalid token: missing claim"@, "Invalid token: "@)) by {
                assert("Invalid token: missing claim"@.subrange(0, "Invalid token: "@.len() as int)
                    =~= "Invalid token: "@);
            }
            claims
        },
        Err(e) => {
            let detail = token_error_text(&e);
            let m = String::from_str("Invalid token: ").concat(detail.as_str());
            assert(m@.subrange(0, "Invalid token: "@.len() as int) =~= "Invalid token: "@);
            Err(AppError::Authentication(m))
        },
    }
}

/// The subject that a token names where its signature verifies under `secret`:
/// the text of its `sub` claim.
pub open spec fn token_subject(token: Seq<char>, secret: Seq<char>) -> Option<Seq<char>> {
    match jwt_claims(token, secret) {
        Some(read) => text_claim_of(read, "sub"@),
        None => None,
    }
}

/// The scheme that an authorization header must begin with.
pub open spec fn bearer_prefix() -> Seq<char> {
    "Bearer "@
}

/// Takes the token out of an authorization header. The header must begin with
/// `Bearer `; what follows is the token.
pub fn extract_token_from_header(auth_header: &str) -> (token: Result<&str, AppError>)
    ensures
        match token {
            Ok(t) => has_prefix(auth_header@, bearer_prefix()) && t@ == auth_header@.subrange(
                7,
                auth_header@.len() as int,
            ),
            Err(e) => {
                &&& !has_prefix(auth_header@, bearer_prefix())
                &&& e matches AppError::Authentication(m)
                &&& m@ == "Invalid authorization header format"@
            },
        },
{
    proof {
        reveal_strlit("Bearer ");
    }
    if !starts_with(auth_header, "Bearer ") {
        return Err(
            AppError::Authentication(String::from_str("Invalid authorization header format")),
        );
    }
    let n = auth_header.unicode_len();
    Ok(auth_header.substring_char(7, n))
}

} // verus!
