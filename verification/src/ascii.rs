//! Relating ASCII text to the byte buffers the ciphers work on.
//!
//! The protocol's keys, separators and digit alphabets are ASCII string
//! constants, but every cipher input is a byte sequence. `ascii_bytes_of`
//! is the canonical spec-level bridge: for an ASCII character sequence it
//! is exactly the UTF-8 byte encoding.
use vstd::prelude::*;

verus! {

use vstd::utf8::is_ascii_chars;
use vstd::string::StringSliceAdditionalSpecFns;

/// Each character of `s`, narrowed to one byte. For ASCII text this is
/// the UTF-8 encoding of `s`.
pub open spec fn ascii_bytes_of(s: Seq<char>) -> Seq<u8> {
    Seq::new(s.len(), |i: int| s[i] as u8)
}

/// The bytes of an ASCII string slice are its characters, one byte each.
pub proof fn lemma_ascii_str_bytes(s: &str)
    requires
        is_ascii_chars(s@),
    ensures
        s.spec_bytes() == ascii_bytes_of(s@),
{
    vstd::string::is_ascii_spec_bytes(s);
    assert(s.spec_bytes() =~= ascii_bytes_of(s@));
}

/// The UTF-8 bytes of a byte buffer decoded as text with every invalid
/// sequence replaced by the replacement character. Stating the decoding
/// takes pages, so it only gets a name; the result depends on the input
/// bytes alone.
pub uninterp spec fn utf8_lossy_of(b: Seq<u8>) -> Seq<u8>;

/// Relies on String::from_utf8_lossy: the input decoded as UTF-8 with
/// invalid sequences replaced, handed back as its bytes.
#[verifier::external_body]
pub(crate) fn utf8_lossy_bytes(b: &[u8]) -> (r: Vec<u8>)
    ensures
        r@ == utf8_lossy_of(b@),
{
    String::from_utf8_lossy(b).into_owned().into_bytes()
}

/// `str::as_bytes` for ASCII text, with the result stated over the view.
pub fn ascii_str_bytes(s: &str) -> (r: &[u8])
    requires
        is_ascii_chars(s@),
    ensures
        r@ == ascii_bytes_of(s@),
        r@.len() == s@.len(),
{
    proof {
        lemma_ascii_str_bytes(s);
    }
    s.as_bytes()
}

} // verus!
