//! Random 128-bit identifiers and their textual form.
use vstd::prelude::*;

verus! {

/// The lower-case hexadecimal digit for `n` (below sixteen).
pub open spec fn hex_digit(n: u128) -> char {
    seq!['0', '1', '2', '3', '4', '5', '6', '7', '8', '9', 'a', 'b', 'c', 'd', 'e', 'f'][n as int]
}

/// The `k`-th hexadecimal digit of `id`, counted from the most significant.
pub open spec fn nibble(id: u128, k: int) -> u128 {
    (id >> ((124 - 4 * k) as u128)) & 15u128
}

/// Whether position `i` of the hyphenated form holds a hyphen.
pub open spec fn is_hyphen_at(i: int) -> bool {
    i == 8 || i == 13 || i == 18 || i == 23
}

/// Which digit stands at position `i` of the hyphenated form.
pub open spec fn digit_index(i: int) -> int {
    if i < 8 {
        i
    } else if i < 13 {
        i - 1
    } else if i < 18 {
        i - 2
    } else if i < 23 {
        i - 3
    } else {
        i - 4
    }
}

/// The hyphenated lower-case form of an identifier, in groups of 8-4-4-4-12
/// digits, most significant first.
pub open spec fn id_text(id: u128) -> Seq<char> {
    Seq::new(
        36,
        |i: int|
            if is_hyphen_at(i) {
                '-'
            } else {
                hex_digit(nibble(id, digit_index(i)))
            },
    )
}

/// Whether `id` carries the marks of a random (version 4, RFC 4122 variant) identifier.
pub open spec fn is_random_id(id: u128) -> bool {
    (id >> 76u128) & 15u128 == 4 && (id >> 62u128) & 3u128 == 2
}

/// A fresh random identifier.
///
/// Relies on `uuid::Uuid::new_v4`, which sets the version and variant bits
/// of a random value, and on `Uuid::as_u128`, which reads its bytes big-endian.
/// It panics only when the operating system's random source fails.
#[verifier::external_body]
pub fn new_id() -> (r: u128)
    ensures
        is_random_id(r),
{
    uuid::Uuid::new_v4().as_u128()
}

/// The text of an identifier, as it appears in paths and responses.
///
/// Relies on the `Display` of `uuid::Uuid` (lower-case hyphenated form) and on
/// `Uuid::from_u128`, which takes the value big-endian.
#[verifier::external_body]
pub fn format_id(id: u128) -> (r: String)
    ensures
        r@ == id_text(id),
{
    uuid::Uuid::from_u128(id).to_string()
}

} // verus!
