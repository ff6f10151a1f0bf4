//! The random byte source for `weapi`'s per-call secret key.
use vstd::prelude::*;

verus! {

/// Relies on rand::thread_rng and rand::RngCore::fill_bytes: 16 bytes
/// from the thread-local cryptographically secure generator. Nothing is
/// assumed of their values; every caller must hold for every outcome.
#[verifier::external_body]
pub(crate) fn random_bytes_16() -> (r: Vec<u8>)
    ensures
        r@.len() == 16,
{
    let mut rng = rand::thread_rng();
    let mut buf = [0u8; 16];
    rand::RngCore::fill_bytes(&mut rng, &mut buf);
    buf.to_vec()
}

} // verus!
