//! UUID validation and generation, relying on the `uuid` crate for the
//! parser and the hyphenated rendering.

use vstd::prelude::*;
use crate::models::DBError;

verus! {

/// Whether a string of characters is a valid UUID in one of the forms
/// the `uuid` crate's parser accepts.
pub uninterp spec fn is_uuid(s: Seq<char>) -> bool;

/// The diagnostic message the `uuid` crate's parser gives for a string
/// it rejects.
pub uninterp spec fn uuid_parse_error(s: Seq<char>) -> Seq<char>;

/// The hyphenated rendering of the UUID whose 128 bits are `n`.
pub uninterp spec fn uuid_text(n: u128) -> Seq<char>;

/// Relies on uuid::Uuid::parse_str: whether a string is a valid UUID
/// depends on its characters alone, as does the parser's diagnostic
/// message.
#[verifier::external_body]
fn parse_uuid(s: &str) -> (r: Result<(), String>)
    ensures
        r is Ok <==> is_uuid(s@),
        r matches Err(m) ==> m@ == uuid_parse_error(s@),
{
    match uuid::Uuid::parse_str(s) {
        Ok(_) => Ok(()),
        Err(e) => Err(e.to_string()),
    }
}

/// Relies on uuid::Uuid::from_u128 and its Display form: the hyphenated
/// rendering is a function of the 128-bit value alone, and parse_str
/// accepts every string that Display produces.
#[verifier::external_body]
pub(crate) fn uuid_string(n: u128) -> (r: String)
    ensures
        r@ == uuid_text(n),
        is_uuid(r@),
{
    uuid::Uuid::from_u128(n).to_string()
}

/// Holds of the data-layer error that a store reports for the
/// malformed identifier string `s`: `InvalidUUID` carrying the
/// parser's diagnostic.
pub open spec fn invalid_uuid_error(e: DBError, s: Seq<char>) -> bool {
    e matches DBError::InvalidUUID(m) && m@ == uuid_parse_error(s)
}

/// Checks an identifier string, returning the data-layer error that the
/// store reports for a malformed UUID.
pub fn validate_uuid(s: &str) -> (r: Result<(), DBError>)
    ensures
        r is Ok <==> is_uuid(s@),
        r matches Err(e) ==> invalid_uuid_error(e, s@),
{
    match parse_uuid(s) {
        Ok(()) => Ok(()),
        Err(m) => Err(DBError::InvalidUUID(m)),
    }
}

} // verus!
