//! Hexadecimal text encoding of byte buffers.
//!
//! The encoding itself is fully specified: byte `b` becomes the digits of
//! `b >> 4` then `b & 15`, in the requested case. The outside crate does
//! the work at run time; its wrappers promise exactly this spec.
use vstd::prelude::*;

verus! {

use vstd::utf8::is_ascii_chars;

/// The lowercase hexadecimal digit of a value below 16.
pub open spec fn hex_digit_lower(n: u8) -> char {
    if n == 0 { '0' } else if n == 1 { '1' } else if n == 2 { '2' } else if n == 3 { '3' }
    else if n == 4 { '4' } else if n == 5 { '5' } else if n == 6 { '6' } else if n == 7 { '7' }
    else if n == 8 { '8' } else if n == 9 { '9' } else if n == 10 { 'a' } else if n == 11 { 'b' }
    else if n == 12 { 'c' } else if n == 13 { 'd' } else if n == 14 { 'e' } else { 'f' }
}

/// The uppercase hexadecimal digit of a value below 16.
pub open spec fn hex_digit_upper(n: u8) -> char {
    if n == 0 { '0' } else if n == 1 { '1' } else if n == 2 { '2' } else if n == 3 { '3' }
    else if n == 4 { '4' } else if n == 5 { '5' } else if n == 6 { '6' } else if n == 7 { '7' }
    else if n == 8 { '8' } else if n == 9 { '9' } else if n == 10 { 'A' } else if n == 11 { 'B' }
    else if n == 12 { 'C' } else if n == 13 { 'D' } else if n == 14 { 'E' } else { 'F' }
}

/// Lowercase hex text: two digits per byte, most significant first.
pub open spec fn spec_hex_lower(b: Seq<u8>) -> Seq<char> {
    Seq::new(
        2 * b.len(),
        |i: int| if i % 2 == 0 { hex_digit_lower(b[i / 2] >> 4) } else {
            hex_digit_lower(b[i / 2] & 0x0f)
        },
    )
}

/// Uppercase hex text: two digits per byte, most significant first.
pub open spec fn spec_hex_upper(b: Seq<u8>) -> Seq<char> {
    Seq::new(
        2 * b.len(),
        |i: int| if i % 2 == 0 { hex_digit_upper(b[i / 2] >> 4) } else {
            hex_digit_upper(b[i / 2] & 0x0f)
        },
    )
}

/// A character that can appear in lowercase hex text.
pub open spec fn is_hex_digit_lower(c: char) -> bool {
    ('0' <= c && c <= '9') || ('a' <= c && c <= 'f')
}

/// A character that can appear in uppercase hex text.
pub open spec fn is_hex_digit_upper(c: char) -> bool {
    ('0' <= c && c <= '9') || ('A' <= c && c <= 'F')
}

/// Lowercase hex text holds only lowercase hex digits, all ASCII.
pub proof fn lemma_hex_lower_digits(b: Seq<u8>)
    ensures
        spec_hex_lower(b).len() == 2 * b.len(),
        forall|i: int| 0 <= i < 2 * b.len() ==> is_hex_digit_lower(#[trigger] spec_hex_lower(b)[i]),
        is_ascii_chars(spec_hex_lower(b)),
{
    assert(forall|n: u8| is_hex_digit_lower(#[trigger] hex_digit_lower(n)));
    assert(forall|c: char| is_hex_digit_lower(c) ==> '\0' <= c <= '\u{7f}');
}

/// Uppercase hex text holds only uppercase hex digits, all ASCII.
pub proof fn lemma_hex_upper_digits(b: Seq<u8>)
    ensures
        spec_hex_upper(b).len() == 2 * b.len(),
        forall|i: int| 0 <= i < 2 * b.len() ==> is_hex_digit_upper(#[trigger] spec_hex_upper(b)[i]),
        is_ascii_chars(spec_hex_upper(b)),
{
    assert(forall|n: u8| is_hex_digit_upper(#[trigger] hex_digit_upper(n)));
    assert(forall|c: char| is_hex_digit_upper(c) ==> '\0' <= c <= '\u{7f}');
}

/// Relies on hex::encode: lowercase hex, two digits per byte, most
/// significant nibble first.
#[verifier::external_body]
pub(crate) fn hex_encode(b: &[u8]) -> (r: String)
    requires
        b@.len() <= usize::MAX / 2,
    ensures
        r@ == spec_hex_lower(b@),
{
    hex::encode(b)
}

/// Relies on hex::encode_upper: uppercase hex, two digits per byte, most
/// significant nibble first.
#[verifier::external_body]
pub(crate) fn hex_encode_upper(b: &[u8]) -> (r: String)
    requires
        b@.len() <= usize::MAX / 2,
    ensures
        r@ == spec_hex_upper(b@),
{
    hex::encode_upper(b)
}

} // verus!
