//! Row identifiers. A UUID is held as the 128-bit number it stands for.

use vstd::prelude::*;

verus! {

/// What `uuid::Uuid::parse_str` makes of `text`: the number of the UUID it
/// reads, or `None` where it reports an error.
pub uninterp spec fn parsed_uuid(text: Seq<char>) -> Option<u128>;

/// How `uuid::Uuid` displays the UUID with this number: lowercase
/// hexadecimal digits in hyphenated groups.
pub uninterp spec fn uuid_text(id: u128) -> Seq<char>;

/// Calls `uuid::Uuid::parse_str`. The contract only names the result. An
/// `Ok` is handed on through `as_u128`; every error becomes `None`.
#[verifier::external_body]
pub(crate) fn parse_uuid(text: &str) -> (parsed: Option<u128>)
    ensures
        parsed == parsed_uuid(text@),
{
    match uuid::Uuid::parse_str(text) {
        Ok(id) => Some(id.as_u128()),
        Err(_) => None,
    }
}

/// Calls `to_string` on the `uuid::Uuid` made by `from_u128`. The contract
/// only names the result.
#[verifier::external_body]
pub(crate) fn format_uuid(id: u128) -> (text: String)
    ensures
        text@ == uuid_text(id),
{
    uuid::Uuid::from_u128(id).to_string()
}

} // verus!
