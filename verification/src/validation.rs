//! Input validation at the service boundary: ids must be well-formed
//! UUID text, names must be non-empty, emails must be non-empty and of a
//! conventional `local@domain.tld` shape.

use vstd::prelude::*;
use vstd::string::StringExecFns;
use crate::errors::GrpcError;
use crate::uuid_codec::{parse_uuid, uuid_of_str};

verus! {

/// Whether `text` matches the regular expression `pattern`, a function
/// of the two strings alone; a pattern the regex crate cannot parse
/// matches nothing.
pub uninterp spec fn regex_match(pattern: Seq<char>, text: Seq<char>) -> bool;

/// Relies on `regex::Regex::new` and `Regex::is_match`.
#[verifier::external_body]
fn regex_is_match(pattern: &str, text: &str) -> (r: bool)
    ensures
        r == regex_match(pattern@, text@),
{
    match regex::Regex::new(pattern) {
        Ok(re) => re.is_match(text),
        Err(_) => false,
    }
}

/// The conventional email shape: a non-empty local part, `@`, a domain
/// label, a dot and a top-level part.
pub open spec fn email_pattern() -> Seq<char> {
    "^[a-zA-Z0-9_.+-]+@[a-zA-Z0-9-]+\\.[a-zA-Z0-9-.]+$"@
}

pub open spec fn valid_uuid(s: Seq<char>) -> bool {
    uuid_of_str(s) is Some
}

pub open spec fn valid_user_name(s: Seq<char>) -> bool {
    s.len() > 0
}

pub open spec fn valid_user_email(s: Seq<char>) -> bool {
    s.len() > 0 && regex_match(email_pattern(), s)
}

/// Parse an id out of its text form, or reject the request.
pub fn validate_uuid(uuid_str: &str) -> (r: Result<u128, GrpcError>)
    ensures
        r matches Ok(v) ==> uuid_of_str(uuid_str@) == Some(v),
        r is Err ==> !valid_uuid(uuid_str@),
        r matches Err(e) ==> e matches GrpcError::InvalidArgument(m) && m@ == "Invalid UUID"@,
{
    match parse_uuid(uuid_str) {
        Some(v) => Ok(v),
        None => Err(GrpcError::InvalidArgument(String::from_str("Invalid UUID"))),
    }
}

/// A user name only has to be non-empty.
pub fn validate_user_name(name: &str) -> (r: Result<(), GrpcError>)
    ensures
        r is Ok <==> valid_user_name(name@),
        r matches Err(e) ==> e matches GrpcError::InvalidArgument(m)
            && m@ == "User name cannot be empty"@,
{
    if name.is_empty() {
        Err(GrpcError::InvalidArgument(String::from_str("User name cannot be empty")))
    } else {
        Ok(())
    }
}

/// An email must be non-empty and match the conventional shape.
pub fn validate_user_email(email: &str) -> (r: Result<(), GrpcError>)
    ensures
        r is Ok <==> valid_user_email(email@),
        r matches Err(e) ==> e matches GrpcError::InvalidArgument(m)
            && (email@.len() == 0 ==> m@ == "User email cannot be empty"@)
            && (email@.len() > 0 ==> m@ == "Invalid email format"@),
{
    if email.is_empty() {
        return Err(GrpcError::InvalidArgument(String::from_str("User email cannot be empty")));
    }
    if !regex_is_match("^[a-zA-Z0-9_.+-]+@[a-zA-Z0-9-]+\\.[a-zA-Z0-9-.]+$", email) {
        return Err(GrpcError::InvalidArgument(String::from_str("Invalid email format")));
    }
    Ok(())
}

} // verus!
