//! Base64 text encoding of byte buffers, standard alphabet with padding.
use vstd::prelude::*;

verus! {

use vstd::utf8::is_ascii_chars;
use crate::ascii::ascii_bytes_of;

/// The base64 text of a byte buffer under the standard alphabet with
/// `=` padding. The precise grouping takes pages to state, so it only
/// gets a name; the result depends on the input bytes alone.
pub uninterp spec fn b64_chars_of(b: Seq<u8>) -> Seq<char>;

/// The bytes of that base64 text (it is ASCII, one byte per character).
pub open spec fn b64_bytes_of(b: Seq<u8>) -> Seq<u8> {
    ascii_bytes_of(b64_chars_of(b))
}

/// A character that can appear in padded standard base64 text.
pub open spec fn is_b64_char(c: char) -> bool {
    ('A' <= c && c <= 'Z') || ('a' <= c && c <= 'z') || ('0' <= c && c <= '9') || c == '+'
        || c == '/' || c == '='
}

/// Relies on base64's BASE64_STANDARD engine (Engine::encode): the
/// standard alphabet with `=` padding, four output characters for every
/// started group of three input bytes.
#[verifier::external_body]
pub(crate) fn b64_encode(b: &[u8]) -> (r: String)
    requires
        b@.len() <= usize::MAX / 2,
    ensures
        r@ == b64_chars_of(b@),
        r@.len() == 4 * ((b@.len() + 2) / 3),
        is_ascii_chars(r@),
        forall|i: int| 0 <= i < r@.len() ==> is_b64_char(#[trigger] r@[i]),
{
    base64::Engine::encode(&base64::prelude::BASE64_STANDARD, b)
}

} // verus!
