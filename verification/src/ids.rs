//! Identifiers of games: 128-bit values, written as UUIDs.
use std::str::FromStr;
use vstd::prelude::*;

verus! {

/// The error with which the `uuid` crate rejects a text.
#[verifier::external_type_specification]
#[verifier::external_body]
pub struct ExUuidError(uuid::Error);

/// Whether the value carries the version and variant marks of a random
/// (version 4) UUID: the version digit is 4, and the two highest bits of the
/// variant digit are 1 and 0.
pub open spec fn is_random_id(id: u128) -> bool {
    id & 0xF000_C000_0000_0000_0000u128 == 0x4000_8000_0000_0000_0000u128
}

/// The text that the `uuid` crate writes for an identifier.
pub uninterp spec fn id_text(id: u128) -> Seq<char>;

/// The identifier that the `uuid` crate reads from a text, if it reads one.
pub uninterp spec fn parsed_id(text: Seq<char>) -> Option<u128>;

/// The identifier in the answer of the `uuid` crate to a text, if it
/// accepted the text.
pub open spec fn accepted(parsed: Result<u128, uuid::Error>) -> Option<u128> {
    match parsed {
        Ok(id) => Some(id),
        Err(_) => None,
    }
}

/// A new random identifier.
///
/// Calls `uuid::Uuid::new_v4` and takes the value with `Uuid::as_u128`. The
/// value is random, so the contract states only what `new_v4` does to every
/// value it draws: it sets the version and variant marks. It panics if the
/// operating system hands out no random bytes.
#[verifier::external_body]
pub(crate) fn fresh_id() -> (id: u128)
    ensures
        is_random_id(id),
{
    uuid::Uuid::new_v4().as_u128()
}

/// The text of an identifier.
///
/// Makes a `uuid::Uuid` with `Uuid::from_u128` and writes it with its
/// `to_string`; the result is a function of the identifier alone, which the
/// contract names.
#[verifier::external_body]
pub(crate) fn id_to_string(id: u128) -> (text: String)
    ensures
        text@ == id_text(id),
{
    uuid::Uuid::from_u128(id).to_string()
}

/// Reads an identifier from a text.
///
/// Calls `uuid::Uuid::from_str` and takes the value with `Uuid::as_u128`;
/// whether the text is accepted, and as which identifier, is a function of
/// the text alone, which the contract names.
#[verifier::external_body]
pub(crate) fn parse_id(text: &str) -> (parsed: Result<u128, uuid::Error>)
    ensures
        accepted(parsed) == parsed_id(text@),
{
    match uuid::Uuid::from_str(text) {
        Ok(id) => Ok(id.as_u128()),
        Err(error) => Err(error),
    }
}

} // verus!
