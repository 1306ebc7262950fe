//! The textual form of a user id. Inside the library an id is the plain
//! 128-bit value of a UUID; parsing the many accepted text forms and
//! printing the hyphenated form are left to the uuid crate.

use vstd::prelude::*;

verus! {

/// The 128-bit value that the uuid crate reads out of a string, `None`
/// where the string is not a well-formed UUID. Parsing is a function of
/// the characters alone.
pub uninterp spec fn uuid_of_str(s: Seq<char>) -> Option<u128>;

/// Relies on `uuid::Uuid::parse_str` and `Uuid::as_u128`: accepts the
/// standard UUID text forms and yields the 128-bit value, big-endian.
#[verifier::external_body]
pub(crate) fn parse_uuid(s: &str) -> (r: Option<u128>)
    ensures
        r == uuid_of_str(s@),
{
    uuid::Uuid::parse_str(s).ok().map(|u| u.as_u128())
}

/// The hyphenated lower-case text of a 128-bit id, a function of the
/// value alone.
pub uninterp spec fn uuid_str_of(v: u128) -> Seq<char>;

/// Relies on `uuid::Uuid::from_u128` and the uuid crate's `Display`
/// impl, which prints the hyphenated lower-case form; the parser accepts
/// that form, so the text parses back to the value it came from.
#[verifier::external_body]
pub(crate) fn format_uuid(v: u128) -> (r: String)
    ensures
        r@ == uuid_str_of(v),
        uuid_of_str(r@) == Some(v),
{
    uuid::Uuid::from_u128(v).to_string()
}

} // verus!
