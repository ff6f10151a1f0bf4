//! Raw (textbook) RSA: modular exponentiation of a big-endian integer.
//!
//! The protocol's counterpart server implements the same padding-free
//! scheme, so this must stay `message ^ exponent mod modulus` with the
//! message read as a big-endian unsigned integer — not a standard padded
//! RSA encryption.
use vstd::prelude::*;

verus! {

use vstd::arithmetic::power::pow;

/// The value of a byte buffer read as a big-endian unsigned integer.
pub open spec fn be_val(s: Seq<u8>) -> nat
    decreases s.len(),
{
    if s.len() == 0 {
        0
    } else {
        (be_val(s.drop_last()) * 256 + s.last()) as nat
    }
}

/// 256 raised to `n`: the number of values of an `n`-byte buffer.
pub open spec fn pow256(n: nat) -> nat
    decreases n,
{
    if n == 0 {
        1
    } else {
        (256 * pow256((n - 1) as nat)) as nat
    }
}

pub proof fn lemma_pow256_pos(n: nat)
    ensures
        pow256(n) >= 1,
    decreases n,
{
    if n > 0 {
        lemma_pow256_pos((n - 1) as nat);
    }
}

proof fn lemma_pow256_increases(a: nat, b: nat)
    requires
        a <= b,
    ensures
        pow256(a) <= pow256(b),
    decreases b,
{
    if a < b && b > 0 {
        lemma_pow256_increases(a, (b - 1) as nat);
        lemma_pow256_pos((b - 1) as nat);
    }
}

/// An `n`-byte buffer holds a value below 256^n.
pub proof fn lemma_be_val_upper(s: Seq<u8>)
    ensures
        be_val(s) < pow256(s.len()),
    decreases s.len(),
{
    if s.len() > 0 {
        lemma_be_val_upper(s.drop_last());
        assert(be_val(s.drop_last()) * 256 + 255 < pow256(s.len())) by (nonlinear_arith)
            requires
                be_val(s.drop_last()) < pow256((s.len() - 1) as nat),
                pow256(s.len()) == 256 * pow256((s.len() - 1) as nat),
        {}
    }
}

/// A buffer with a nonzero leading byte holds a value of at least
/// 256^(length - 1).
pub proof fn lemma_be_val_lower(s: Seq<u8>)
    requires
        s.len() >= 1,
        s[0] != 0,
    ensures
        be_val(s) >= pow256((s.len() - 1) as nat),
    decreases s.len(),
{
    if s.len() == 1 {
        assert(s.drop_last() =~= Seq::<u8>::empty());
        assert(be_val(s) == s[0]);
    } else {
        lemma_be_val_lower(s.drop_last());
        assert(be_val(s.drop_last()) * 256 >= pow256((s.len() - 1) as nat)) by (nonlinear_arith)
            requires
                be_val(s.drop_last()) >= pow256((s.len() - 2) as nat),
                pow256((s.len() - 1) as nat) == 256 * pow256((s.len() - 2) as nat),
        {}
    }
}

/// A minimal big-endian buffer (no leading zero byte, or the single zero
/// byte) holding a value below another buffer's value is no longer than
/// that buffer.
pub proof fn lemma_minimal_be_len(r: Seq<u8>, m: Seq<u8>)
    requires
        be_val(r) < be_val(m),
        r.len() >= 1,
        r[0] != 0 || r =~= seq![0u8],
    ensures
        r.len() <= m.len(),
{
    if r.len() > m.len() {
        if r[0] != 0 {
            lemma_be_val_lower(r);
            lemma_be_val_upper(m);
            lemma_pow256_increases(m.len(), (r.len() - 1) as nat);
        }
    }
}

/// `r` is the raw RSA ciphertext of `msg`: the minimal big-endian form
/// (no leading zero byte; a single zero byte for zero) of
/// `msg ^ exp mod modulus`, all read as big-endian integers.
pub open spec fn is_rsa_cipher_of(msg: Seq<u8>, modulus: Seq<u8>, exp: nat, r: Seq<u8>) -> bool {
    &&& be_val(r) == pow(be_val(msg) as int, exp) % (be_val(modulus) as int)
    &&& r.len() >= 1
    &&& (r[0] != 0 || r =~= seq![0u8])
}

/// Relies on num_bigint::BigUint::modpow (with from_bytes_be and
/// to_bytes_be converting at the edges): the result is the minimal
/// big-endian form of base^exp mod modulus — no leading zero byte, a
/// single zero byte for the value zero.
#[verifier::external_body]
pub(crate) fn mod_exp_be(base: &[u8], exp: u64, modulus: &[u8]) -> (r: Vec<u8>)
    requires
        be_val(modulus@) >= 1,
    ensures
        is_rsa_cipher_of(base@, modulus@, exp as nat, r@),
{
    let b = num_bigint::BigUint::from_bytes_be(base);
    let e = num_bigint::BigUint::from(exp);
    let m = num_bigint::BigUint::from_bytes_be(modulus);
    b.modpow(&e, &m).to_bytes_be()
}

} // verus!
