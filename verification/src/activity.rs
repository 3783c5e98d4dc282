//! The activity id: the 128-bit identifier under which the server files a
//! request.

use vstd::prelude::*;

verus! {

/// The identifier that `uuid` reads from a text, where the text is one.
pub uninterp spec fn uuid_parse(text: Seq<char>) -> Option<u128>;

/// `uuid::Uuid::parse_str`, followed by `uuid::Uuid::as_u128`: the
/// identifier that the text spells, as one number.
#[verifier::external_body]
pub(crate) fn parse_uuid(text: &str) -> (r: Option<u128>)
    ensures
        r == uuid_parse(text@),
{
    match uuid::Uuid::parse_str(text) {
        Ok(id) => Some(id.as_u128()),
        Err(_) => None,
    }
}

} // verus!
