use vstd::prelude::*;

verus! {

/// The bit positions of a 128-bit identifier that hold its version and its
/// variant, when the identifier is read as a UUID in big-endian order.
pub const VERSION_VARIANT_MASK: u128 = 0x0000_0000_0000_f000_c000_0000_0000_0000;

/// The contents of those positions in a randomly generated (version 4,
/// RFC variant) identifier.
pub const RANDOM_VERSION_VARIANT: u128 = 0x0000_0000_0000_4000_8000_0000_0000_0000;

/// Whether `id` carries the version and variant marks of a randomly generated
/// identifier.
pub open spec fn is_random_id(id: u128) -> bool {
    id & VERSION_VARIANT_MASK == RANDOM_VERSION_VARIANT
}

/// The identifier that the text form of a UUID stands for, or `None` where the
/// text is no UUID in any of the notations that `uuid::Uuid::parse_str`
/// accepts (simple, hyphenated, URN, braced).
pub uninterp spec fn parsed_uuid(text: Seq<char>) -> Option<u128>;

/// The error that `uuid::Uuid::parse_str` reports for a text it rejects.
#[verifier::external_type_specification]
#[verifier::external_body]
pub struct ExUuidError(uuid::Error);

/// Draws a fresh identifier with `uuid::Uuid::new_v4`.
///
/// Trusted: the result is random, so nothing is claimed of it beyond the
/// version and variant bits that `new_v4` forces onto every value it returns.
/// `new_v4` aborts the process when the operating system cannot supply random
/// bytes.
#[verifier::external_body]
pub(crate) fn fresh_device_id() -> (id: u128)
    ensures
        is_random_id(id),
{
    uuid::Uuid::new_v4().as_u128()
}

/// Reads an identifier from its text form with `uuid::Uuid::parse_str`.
///
/// Trusted: the outcome depends on the text alone; `parsed_uuid` names it, with
/// the accepted value taken as the 128-bit number that `Uuid::as_u128` gives.
#[verifier::external_body]
pub(crate) fn parse_uuid_text(text: &str) -> (parsed: Result<u128, uuid::Error>)
    ensures
        match parsed {
            Ok(id) => parsed_uuid(text@) == Some(id),
            Err(_) => parsed_uuid(text@) is None,
        },
{
    match uuid::Uuid::parse_str(text) {
        Ok(uuid) => Ok(uuid.as_u128()),
        Err(error) => Err(error),
    }
}

/// Reads an identifier from its text form; `None` where the text is no UUID.
pub fn parse_device_id(text: &str) -> (id: Option<u128>)
    ensures
        id == parsed_uuid(text@),
{
    match parse_uuid_text(text) {
        Ok(id) => Some(id),
        Err(_) => None,
    }
}

} // verus!
