//! Connection identity: a process-unique 128-bit value assigned at
//! session creation, handed to handlers in its canonical text form
//! (lowercase hexadecimal, grouped 8-4-4-4-12 with hyphens).

use vstd::prelude::*;

verus! {

/// The lowercase hexadecimal digit for a value below sixteen.
pub open spec fn hex_digit_char(d: int) -> char {
    if d == 0 {
        '0'
    } else if d == 1 {
        '1'
    } else if d == 2 {
        '2'
    } else if d == 3 {
        '3'
    } else if d == 4 {
        '4'
    } else if d == 5 {
        '5'
    } else if d == 6 {
        '6'
    } else if d == 7 {
        '7'
    } else if d == 8 {
        '8'
    } else if d == 9 {
        '9'
    } else if d == 10 {
        'a'
    } else if d == 11 {
        'b'
    } else if d == 12 {
        'c'
    } else if d == 13 {
        'd'
    } else if d == 14 {
        'e'
    } else {
        'f'
    }
}

/// `v` written as exactly `width` lowercase hexadecimal digits, most
/// significant digit first.
pub open spec fn hex_text(v: int, width: nat) -> Seq<char>
    decreases width,
{
    if width == 0 {
        Seq::empty()
    } else {
        hex_text(v / 16, (width - 1) as nat).push(hex_digit_char(v % 16))
    }
}

/// The canonical text of a 128-bit identity: its 32 hexadecimal digits
/// split into groups of 8, 4, 4, 4 and 12, joined by hyphens.
pub open spec fn identity_text(id: u128) -> Seq<char> {
    let digits = hex_text(id as int, 32);
    digits.subrange(0, 8) + seq!['-'] + digits.subrange(8, 12) + seq!['-'] + digits.subrange(
        12,
        16,
    ) + seq!['-'] + digits.subrange(16, 20) + seq!['-'] + digits.subrange(20, 32)
}

/// Draws a fresh identity for a new session.
///
/// Relies on `uuid::Uuid::new_v4`, which returns a freshly drawn random
/// value; nothing can be promised of the result.
#[verifier::external_body]
pub(crate) fn fresh_identity() -> u128 {
    uuid::Uuid::new_v4().as_u128()
}

/// Formats an identity in its canonical text form.
///
/// Relies on `uuid::Uuid::from_u128`, which takes the value big-endian,
/// and on `uuid::Uuid`'s display form: lowercase hexadecimal digits,
/// most significant first, hyphenated in groups of 8, 4, 4, 4 and 12.
#[verifier::external_body]
pub(crate) fn identity_string(id: u128) -> (r: String)
    ensures
        r@ == identity_text(id),
{
    uuid::Uuid::from_u128(id).to_string()
}

} // verus!
