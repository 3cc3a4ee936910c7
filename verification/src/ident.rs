//! Instance identifiers.
//!
//! An identifier is a UUID, held as the 128-bit number that its sixteen
//! bytes denote in big-endian order. Comparing two identifiers as numbers
//! is comparing their raw bytes.

use uuid::Uuid;
use vstd::prelude::*;

verus! {

/// The text that `Uuid` displays for the identifier: lower-case
/// hexadecimal digits in hyphenated groups.
pub uninterp spec fn uuid_text(id: u128) -> Seq<char>;

/// The identifier that `Uuid::parse_str` reads from `text`, if it reads
/// one.
pub uninterp spec fn uuid_parse(text: Seq<char>) -> Option<u128>;

/// `Uuid::from_u128(id)` shown with `Display`. Believed, not proved: the
/// text depends on `id` alone, and, since `Uuid::parse_str` reads every
/// format that the `uuid` crate writes, it parses back to `id`.
#[verifier::external_body]
pub(crate) fn format_uuid(id: u128) -> (text: String)
    ensures
        text@ == uuid_text(id),
        uuid_parse(text@) == Some(id),
{
    Uuid::from_u128(id).to_string()
}

/// `Uuid::parse_str(text)`, the identifier taken out with `as_u128`.
/// Believed, not proved: what is read depends on the text alone.
#[verifier::external_body]
pub(crate) fn parse_uuid(text: &str) -> (r: Option<u128>)
    ensures
        r == uuid_parse(text@),
{
    match Uuid::parse_str(text) {
        Ok(uuid) => Some(uuid.as_u128()),
        Err(_) => None,
    }
}

/// Whether an identifier is a random UUID: of version 4, which is the high
/// half of its seventh byte, and of the variant whose mark is the bits 1
/// and 0 at the top of its ninth byte.
pub open spec fn is_random_uuid(id: u128) -> bool {
    (id / 0x1000_0000_0000_0000_0000) % 16 == 4 && (id / 0x4000_0000_0000_0000) % 4 == 2
}

/// `Uuid::new_v4()`: a fresh random identifier, taken out with `as_u128`.
/// Believed, not proved: version and variant are set as `new_v4` sets
/// them. Nothing else is known of the identifier. Where the system has
/// no random numbers to give, `new_v4` does not return.
#[verifier::external_body]
pub(crate) fn random_uuid() -> (id: u128)
    ensures
        is_random_uuid(id),
{
    Uuid::new_v4().as_u128()
}

} // verus!
