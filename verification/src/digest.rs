//! The MD5 digest used by the `eapi` scheme.
use vstd::prelude::*;

verus! {

use crate::hexstr::{hex_encode, spec_hex_lower};

/// The 16-byte MD5 digest of a byte buffer. The algorithm takes pages to
/// state, so it only gets a name; the result depends on the input alone.
pub uninterp spec fn md5_of(b: Seq<u8>) -> Seq<u8>;

/// Relies on md5::Md5::digest (the md-5 crate): the 16-byte MD5 digest,
/// a function of the input bytes alone.
#[verifier::external_body]
fn md5_digest(b: &[u8]) -> (r: Vec<u8>)
    ensures
        r@ == md5_of(b@),
        r@.len() == 16,
{
    <md5::Md5 as md5::Digest>::digest(b).to_vec()
}

/// The MD5 digest written as 32 lowercase hex digits.
pub open spec fn spec_md5_hex(b: Seq<u8>) -> Seq<char> {
    spec_hex_lower(md5_of(b))
}

/// The MD5 digest of `b`, as lowercase hex text.
pub fn md5_hex(b: &[u8]) -> (r: String)
    ensures
        r@ == spec_md5_hex(b@),
        r@.len() == 32,
{
    let d = md5_digest(b);
    hex_encode(d.as_slice())
}

} // verus!
