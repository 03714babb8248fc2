//! Plant and plant-type identifiers.
//!
//! Identifiers are UUIDs. The library holds one as the 128-bit number that
//! its sixteen bytes spell, most significant byte first.

use vstd::arithmetic::power::pow;
use vstd::prelude::*;
use crate::ingest_id::hex_digit;

verus! {

/// The UUID that a text spells, in any of the textual forms of a UUID, or
/// `None` where it spells none.
pub uninterp spec fn uuid_value(text: Seq<char>) -> Option<u128>;

/// The `k`-th of the 32 hexadecimal digits of an identifier, as a number.
pub open spec fn nibble(id: u128, k: int) -> int {
    (id as int / pow(16, (31 - k) as nat)) % 16
}

/// How many hyphens stand before position `i` of the hyphenated form.
pub open spec fn hyphens_before(i: int) -> int {
    if i < 8 {
        0
    } else if i < 13 {
        1
    } else if i < 18 {
        2
    } else if i < 23 {
        3
    } else {
        4
    }
}

/// The canonical text of an identifier: 32 lowercase hexadecimal digits in
/// groups of 8, 4, 4, 4 and 12, separated by hyphens.
pub open spec fn uuid_text(id: u128) -> Seq<char> {
    Seq::new(
        36,
        |i: int|
            if i == 8 || i == 13 || i == 18 || i == 23 {
                '-'
            } else {
                hex_digit(nibble(id, i - hyphens_before(i)))
            },
    )
}

/// Calls `uuid::Uuid::parse_str` and, on success, `Uuid::as_u128`: the result
/// is the identifier that the text spells, if it spells one.
#[verifier::external_body]
pub(crate) fn parse_uuid(text: &str) -> (id: Option<u128>)
    ensures
        id == uuid_value(text@),
{
    match uuid::Uuid::parse_str(text) {
        Ok(u) => Some(u.as_u128()),
        Err(_) => None,
    }
}

/// Calls `uuid::Uuid::from_u128` and formats the result, which gives the
/// hyphenated lowercase form.
#[verifier::external_body]
pub(crate) fn format_uuid(id: u128) -> (text: String)
    ensures
        text@ == uuid_text(id),
{
    uuid::Uuid::from_u128(id).to_string()
}

} // verus!
