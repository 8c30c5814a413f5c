//! Identifiers of users and of stored records: 128-bit numbers, written as
//! text in the hyphenated form of a UUID.

use vstd::prelude::*;

verus! {

/// The text that `uuid::Uuid` displays for the identifier `id`.
pub uninterp spec fn uuid_string(id: u128) -> Seq<char>;

/// The identifier that `uuid::Uuid::parse_str` reads from `text`, if it reads
/// one.
pub uninterp spec fn uuid_parsing(text: Seq<char>) -> Option<u128>;

/// Whether `id` has the form of a random UUID: the four bits of its version
/// say 4, and the two bits of its variant say RFC 9562.
pub open spec fn is_random_uuid(id: u128) -> bool {
    (id >> 76u128) & 0xfu128 == 4u128 && (id >> 62u128) & 0x3u128 == 2u128
}

/// Calls `uuid::Uuid::new_v4` and returns the identifier as a number. The
/// value is random but for the bits that the crate sets on every random
/// UUID: version 4 and the RFC variant.
#[verifier::external_body]
fn random_uuid() -> (id: u128)
    ensures
        is_random_uuid(id),
{
    uuid::Uuid::new_v4().as_u128()
}

/// Calls `Uuid::from_u128(id).to_string()`. The result is the text that the
/// crate displays for `id`, and `Uuid::parse_str` reads `id` back from it.
#[verifier::external_body]
fn format_uuid(id: u128) -> (text: String)
    ensures
        text@ == uuid_string(id),
        uuid_parsing(text@) == Some(id),
{
    uuid::Uuid::from_u128(id).to_string()
}

/// Calls `uuid::Uuid::parse_str` and returns the identifier as a number, or
/// `None` where the crate reports an error.
#[verifier::external_body]
fn parse_uuid(text: &str) -> (id: Option<u128>)
    ensures
        id == uuid_parsing(text@),
{
    uuid::Uuid::parse_str(text).ok().map(|parsed| parsed.as_u128())
}

/// A new random identifier, in the form of a random UUID: 122 of its bits
/// are drawn at random, the other six mark its version and variant.
pub fn new_id() -> (id: u128)
    ensures
        is_random_uuid(id),
{
    random_uuid()
}

/// The text form of an identifier. Parsing the text gives the identifier
/// back.
pub fn id_to_string(id: u128) -> (text: String)
    ensures
        text@ == uuid_string(id),
        uuid_parsing(text@) == Some(id),
{
    format_uuid(id)
}

/// Reads an identifier from its text form.
pub fn parse_id(text: &str) -> (id: Option<u128>)
    ensures
        id == uuid_parsing(text@),
{
    parse_uuid(text)
}

} // verus!
