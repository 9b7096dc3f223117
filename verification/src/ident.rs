//! Universally unique identifiers, held as 128-bit numbers.
//!
//! Reading, printing and drawing identifiers is the work of the `uuid` crate.
//! The functions here call it; what is stated of them is taken on trust from
//! that crate and is not proved.

use vstd::prelude::*;

verus! {

/// The lower-case hexadecimal digit for a value below sixteen.
pub open spec fn hex_digit(n: int) -> char {
    if n == 0 {
        '0'
    } else if n == 1 {
        '1'
    } else if n == 2 {
        '2'
    } else if n == 3 {
        '3'
    } else if n == 4 {
        '4'
    } else if n == 5 {
        '5'
    } else if n == 6 {
        '6'
    } else if n == 7 {
        '7'
    } else if n == 8 {
        '8'
    } else if n == 9 {
        '9'
    } else if n == 10 {
        'a'
    } else if n == 11 {
        'b'
    } else if n == 12 {
        'c'
    } else if n == 13 {
        'd'
    } else if n == 14 {
        'e'
    } else {
        'f'
    }
}

/// The `k`-th of the 32 four-bit groups of `id`, counted from the most
/// significant one.
pub open spec fn nibble(id: u128, k: int) -> int {
    ((id >> ((4 * (31 - k)) as u128)) & 0xf) as int
}

/// Which four-bit group is written at position `i` of the hyphenated form,
/// for a position that does not hold a hyphen.
pub open spec fn group_at(i: int) -> int {
    if i < 8 {
        i
    } else if i < 13 {
        i - 1
    } else if i < 18 {
        i - 2
    } else if i < 23 {
        i - 3
    } else {
        i - 4
    }
}

/// The canonical text of an identifier: 32 lower-case hexadecimal digits in
/// groups of 8, 4, 4, 4 and 12, separated by hyphens.
pub open spec fn hyphenated(id: u128) -> Seq<char> {
    Seq::new(
        36,
        |i: int|
            if i == 8 || i == 13 || i == 18 || i == 23 {
                '-'
            } else {
                hex_digit(nibble(id, group_at(i)))
            },
    )
}

/// Whether `id` carries the marks of a randomly drawn identifier: version 4
/// in bits 76 to 79 and the RFC 4122 variant in bits 62 and 63.
pub open spec fn is_random_uuid(id: u128) -> bool {
    &&& (id >> 76u128) & 0xf == 4
    &&& (id >> 62u128) & 0x3 == 2
}

/// The identifier that `uuid::Uuid::parse_str` reads from `text`, or `None`
/// where it reports an error.
pub uninterp spec fn uuid_parse_str(text: Seq<char>) -> Option<u128>;

/// Declares `uuid::Error`, the error of a failed parse. Nothing is known of
/// what it holds; it is only told apart from success.
#[verifier::external_type_specification]
#[verifier::external_body]
pub struct ExUuidError(uuid::Error);

/// Calls `uuid::Uuid::parse_str`. The contract only gives the outcome its
/// name: the same text is always read the same way.
#[verifier::external_body]
pub(crate) fn parse_uuid(text: &str) -> (r: Result<u128, uuid::Error>)
    ensures
        r is Ok <==> uuid_parse_str(text@) is Some,
        r matches Ok(id) ==> uuid_parse_str(text@) == Some(id),
{
    match uuid::Uuid::parse_str(text) {
        Ok(id) => Ok(id.as_u128()),
        Err(e) => Err(e),
    }
}

/// Formats an identifier with `Display` of `uuid::Uuid`, which writes the
/// hyphenated lower-case form. The contract claims that form digit by digit,
/// and that `parse_str` reads it back as the same identifier, as the crate
/// documents for every format it writes.
#[verifier::external_body]
pub(crate) fn uuid_to_string(id: u128) -> (text: String)
    ensures
        text@ == hyphenated(id),
        uuid_parse_str(text@) == Some(id),
{
    uuid::Uuid::from_u128(id).to_string()
}

/// Draws a fresh identifier with `uuid::Uuid::new_v4`. Nothing is claimed of
/// the value but the version and variant marks that the crate sets on every
/// result. The call panics if the operating system cannot supply random bytes.
#[verifier::external_body]
pub(crate) fn new_uuid() -> (id: u128)
    ensures
        is_random_uuid(id),
{
    uuid::Uuid::new_v4().as_u128()
}

} // verus!
