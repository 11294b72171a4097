//! The device-identifier parser, consumed as a black box from text to a
//! 128-bit identifier or failure.

use vstd::prelude::*;

verus! {

/// What the identifier parser returns for a given text: `None` when the
/// text is not a well-formed identifier, otherwise the 128-bit value it
/// encodes. Which texts parse, and to what, is the collaborator's affair;
/// it depends on the characters alone.
pub uninterp spec fn guid_of(s: Seq<char>) -> Option<u128>;

/// Relies on `uuid::Uuid::parse_str` (with `Uuid::as_u128` reading the
/// parsed value out): a deterministic function of the input text alone,
/// accepting hexadecimal identifiers with optional hyphens.
#[verifier::external_body]
pub(crate) fn parse_guid(s: &str) -> (r: Option<u128>)
    ensures
        r == guid_of(s@),
{
    match uuid::Uuid::parse_str(s) {
        Ok(u) => Some(u.as_u128()),
        Err(_) => None,
    }
}

} // verus!
