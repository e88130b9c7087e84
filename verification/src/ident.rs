//! Record identifiers and the text that names them.
//!
//! An identifier is the 128-bit value of a UUID. In text it is written as 32
//! lower-case hexadecimal digits, most significant first, in groups of
//! 8, 4, 4, 4 and 12 joined by hyphens.

use vstd::arithmetic::power::pow;
use vstd::prelude::*;

verus! {

/// The character that stands for a hexadecimal digit `0 <= digit < 16`.
pub open spec fn hex_char(digit: int) -> char {
    seq!['0', '1', '2', '3', '4', '5', '6', '7', '8', '9', 'a', 'b', 'c', 'd', 'e', 'f'][digit]
}

/// The `k`-th hexadecimal digit of `id`, digit 0 being the most significant
/// of its 32.
pub open spec fn hex_digit(id: u128, k: int) -> int {
    (id as int / pow(16, (31 - k) as nat)) % 16
}

/// How many hyphens stand before position `at` of the hyphenated form.
pub open spec fn hyphens_before(at: int) -> int {
    if at < 8 {
        0
    } else if at < 13 {
        1
    } else if at < 18 {
        2
    } else if at < 23 {
        3
    } else {
        4
    }
}

/// The hyphenated form of `id`: 36 characters, hyphens at positions 8, 13, 18
/// and 23, the digits of `id` in order everywhere else.
pub open spec fn hyphenated(id: u128) -> Seq<char> {
    Seq::new(
        36,
        |at: int|
            if at == 8 || at == 13 || at == 18 || at == 23 {
                '-'
            } else {
                hex_char(hex_digit(id, at - hyphens_before(at)))
            },
    )
}

/// Writes `id` as `uuid::Uuid` displays it. `Uuid::from_u128` takes the value
/// big-endian, and `Display` for `Uuid` is its lower-case hyphenated form; the
/// contract states that form character by character.
#[verifier::external_body]
pub(crate) fn hyphenated_text(id: u128) -> (text: String)
    ensures
        text@ == hyphenated(id),
{
    uuid::Uuid::from_u128(id).to_string()
}

} // verus!
