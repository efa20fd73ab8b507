//! Identifiers in their textual form.
//!
//! An identifier travels through tokens and request contexts as text. Reading and
//! writing that text is the work of the `uuid` crate.

use vstd::prelude::*;
use crate::models::Id;

verus! {

/// The identifier that a text denotes, as `uuid::Uuid::parse_str` reads it;
/// `None` where the text is no identifier.
pub uninterp spec fn uuid_parsed(text: Seq<char>) -> Option<u128>;

/// The text of an identifier, as `uuid::Uuid` displays it.
pub uninterp spec fn uuid_text(id: u128) -> Seq<char>;

/// `uuid::Uuid::parse_str`: reads an identifier in any of the textual forms the
/// crate writes. The value of the identifier is its 128 bits, most significant
/// byte first.
#[verifier::external_body]
pub(crate) fn parse_uuid(text: &str) -> (id: Option<Id>)
    ensures
        id == uuid_parsed(text@),
{
    match uuid::Uuid::parse_str(text) {
        Ok(parsed) => Some(parsed.as_u128()),
        Err(_) => None,
    }
}

/// The `Display` form of `uuid::Uuid`: thirty-two lowercase hexadecimal digits in
/// five hyphenated groups. `parse_str` reads that form back to the same value.
#[verifier::external_body]
pub(crate) fn uuid_to_text(id: Id) -> (text: String)
    ensures
        text@ == uuid_text(id),
        uuid_parsed(text@) == Some(id),
{
    uuid::Uuid::from_u128(id).to_string()
}

/// Reads an identifier from its text.
pub fn parse_id(text: &str) -> (id: Option<Id>)
    ensures
        id == uuid_parsed(text@),
{
    parse_uuid(text)
}

/// Writes an identifier as text. Reading the text gives the identifier back.
pub fn id_to_text(id: Id) -> (text: String)
    ensures
        text@ == uuid_text(id),
        uuid_parsed(text@) == Some(id),
{
    uuid_to_text(id)
}

} // verus!
