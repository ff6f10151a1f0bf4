//! AES-128 in ECB and CBC mode with block padding.
//!
//! The padding scheme, the block chaining and the padding validation on
//! decrypt are written and verified here; only the 16-byte AES block
//! permutation itself is an outside call. The padding fills a plaintext
//! to the next multiple of 16 bytes (always adding at least one byte),
//! each pad byte holding the pad length, and decryption rejects a buffer
//! whose length is not block-aligned or whose trailing pad is malformed.
use vstd::prelude::*;

verus! {

use aes::cipher::{BlockDecrypt, BlockEncrypt, KeyInit};
use aes::cipher::generic_array::GenericArray;

/// Decryption failed: the ciphertext length is not a multiple of the
/// block size, or the padding is invalid after decryption.
#[derive(Debug, Clone, Copy, PartialEq, Eq)]
pub struct DecryptError;

/// What the AES-128 block cipher makes of one 16-byte block under a
/// 16-byte key. The permutation takes pages to state, so it only gets a
/// name; the trusted wrappers below relate it to the outside cipher.
pub uninterp spec fn aes_enc_block(key: Seq<u8>, block: Seq<u8>) -> Seq<u8>;

/// The inverse permutation: what AES-128 block decryption makes of one
/// 16-byte ciphertext block.
pub uninterp spec fn aes_dec_block(key: Seq<u8>, block: Seq<u8>) -> Seq<u8>;

/// Relies on aes::Aes128 (cipher::BlockEncrypt::encrypt_block): encrypts
/// one 16-byte block; block decryption inverts it, so decrypting the
/// result gives the block back.
#[verifier::external_body]
fn encrypt_block(key: &[u8], block: &[u8]) -> (r: Vec<u8>)
    requires
        key@.len() == 16,
        block@.len() == 16,
    ensures
        r@ == aes_enc_block(key@, block@),
        r@.len() == 16,
        aes_dec_block(key@, r@) == block@,
{
    let cipher = aes::Aes128::new(GenericArray::from_slice(key));
    let mut b = GenericArray::clone_from_slice(block);
    cipher.encrypt_block(&mut b);
    b.to_vec()
}

/// Relies on aes::Aes128 (cipher::BlockDecrypt::decrypt_block): decrypts
/// one 16-byte block.
#[verifier::external_body]
fn decrypt_block(key: &[u8], block: &[u8]) -> (r: Vec<u8>)
    requires
        key@.len() == 16,
        block@.len() == 16,
    ensures
        r@ == aes_dec_block(key@, block@),
        r@.len() == 16,
{
    let cipher = aes::Aes128::new(GenericArray::from_slice(key));
    let mut b = GenericArray::clone_from_slice(block);
    cipher.decrypt_block(&mut b);
    b.to_vec()
}

/// How many pad bytes a text of length `n` gets: 1 to 16, filling to the
/// next multiple of 16.
pub open spec fn spec_pad_len(n: nat) -> nat {
    (16 - (n % 16)) as nat
}

/// The text filled to a multiple of 16 bytes, each added byte holding the
/// number of added bytes.
pub open spec fn spec_pad(b: Seq<u8>) -> Seq<u8> {
    b + Seq::new(spec_pad_len(b.len()), |i: int| spec_pad_len(b.len()) as u8)
}

/// Undoing `spec_pad`: `None` if the buffer is empty, the final byte is
/// not a pad length between 1 and 16, or the trailing bytes do not all
/// hold that length.
pub open spec fn spec_unpad(raw: Seq<u8>) -> Option<Seq<u8>> {
    if raw.len() == 0 {
        None
    } else {
        let p = raw.last() as int;
        if 1 <= p <= 16 && p <= raw.len() && (forall|i: int|
            raw.len() - p <= i < raw.len() ==> raw[i] == raw.last()) {
            Some(raw.take(raw.len() - p))
        } else {
            None
        }
    }
}

/// Each 16-byte block of an aligned buffer encrypted independently.
pub open spec fn spec_ecb_enc_blocks(key: Seq<u8>, p: Seq<u8>) -> Seq<u8>
    decreases p.len(),
{
    if p.len() < 16 {
        Seq::empty()
    } else {
        aes_enc_block(key, p.take(16)) + spec_ecb_enc_blocks(key, p.skip(16))
    }
}

/// AES-128-ECB of the padded text.
pub open spec fn spec_ecb_enc(key: Seq<u8>, text: Seq<u8>) -> Seq<u8> {
    spec_ecb_enc_blocks(key, spec_pad(text))
}

/// Each 16-byte block of an aligned buffer decrypted independently.
pub open spec fn spec_ecb_dec_blocks(key: Seq<u8>, c: Seq<u8>) -> Seq<u8>
    decreases c.len(),
{
    if c.len() < 16 {
        Seq::empty()
    } else {
        aes_dec_block(key, c.take(16)) + spec_ecb_dec_blocks(key, c.skip(16))
    }
}

/// AES-128-ECB decryption: blockwise decryption then pad removal, `None`
/// exactly on a misaligned length or malformed padding.
pub open spec fn spec_ecb_dec(key: Seq<u8>, c: Seq<u8>) -> Option<Seq<u8>> {
    if c.len() % 16 != 0 {
        None
    } else {
        spec_unpad(spec_ecb_dec_blocks(key, c))
    }
}

/// Two 16-byte blocks combined bytewise by xor.
pub open spec fn spec_xor16(a: Seq<u8>, b: Seq<u8>) -> Seq<u8> {
    Seq::new(16, |i: int| a[i] ^ b[i])
}

/// CBC chaining over an aligned buffer: each block is xored with the
/// previous ciphertext block (initially `prev`) before encryption.
pub open spec fn spec_cbc_enc_blocks(key: Seq<u8>, prev: Seq<u8>, p: Seq<u8>) -> Seq<u8>
    decreases p.len(),
{
    if p.len() < 16 {
        Seq::empty()
    } else {
        let c = aes_enc_block(key, spec_xor16(prev, p.take(16)));
        c + spec_cbc_enc_blocks(key, c, p.skip(16))
    }
}

/// AES-128-CBC of the padded text under `key` with initialization
/// vector `iv`.
pub open spec fn spec_cbc_enc(key: Seq<u8>, iv: Seq<u8>, text: Seq<u8>) -> Seq<u8> {
    spec_cbc_enc_blocks(key, iv, spec_pad(text))
}

/// Appending one block to an aligned buffer appends its encryption.
proof fn lemma_enc_blocks_snoc(key: Seq<u8>, p: Seq<u8>, b: Seq<u8>)
    requires
        p.len() % 16 == 0,
        b.len() == 16,
    ensures
        spec_ecb_enc_blocks(key, p + b) == spec_ecb_enc_blocks(key, p) + aes_enc_block(key, b),
    decreases p.len(),
{
    if p.len() == 0 {
        assert(p + b =~= b);
        assert(b.skip(16) =~= Seq::<u8>::empty());
        assert(b.take(16) =~= b);
        assert(spec_ecb_enc_blocks(key, b.skip(16)) == Seq::<u8>::empty());
        assert(spec_ecb_enc_blocks(key, p) == Seq::<u8>::empty());
        assert(spec_ecb_enc_blocks(key, p + b) =~= spec_ecb_enc_blocks(key, p)
            + aes_enc_block(key, b));
    } else {
        assert((p + b).take(16) =~= p.take(16));
        assert((p + b).skip(16) =~= p.skip(16) + b);
        lemma_enc_blocks_snoc(key, p.skip(16), b);
        assert(spec_ecb_enc_blocks(key, p + b) =~= spec_ecb_enc_blocks(key, p)
            + aes_enc_block(key, b));
    }
}

/// Appending one block to an aligned buffer appends its decryption.
proof fn lemma_dec_blocks_snoc(key: Seq<u8>, c: Seq<u8>, b: Seq<u8>)
    requires
        c.len() % 16 == 0,
        b.len() == 16,
    ensures
        spec_ecb_dec_blocks(key, c + b) == spec_ecb_dec_blocks(key, c) + aes_dec_block(key, b),
    decreases c.len(),
{
    if c.len() == 0 {
        assert(c + b =~= b);
        assert(b.skip(16) =~= Seq::<u8>::empty());
        assert(b.take(16) =~= b);
        assert(spec_ecb_dec_blocks(key, b.skip(16)) == Seq::<u8>::empty());
        assert(spec_ecb_dec_blocks(key, c) == Seq::<u8>::empty());
        assert(spec_ecb_dec_blocks(key, c + b) =~= spec_ecb_dec_blocks(key, c)
            + aes_dec_block(key, b));
    } else {
        assert((c + b).take(16) =~= c.take(16));
        assert((c + b).skip(16) =~= c.skip(16) + b);
        lemma_dec_blocks_snoc(key, c.skip(16), b);
        assert(spec_ecb_dec_blocks(key, c + b) =~= spec_ecb_dec_blocks(key, c)
            + aes_dec_block(key, b));
    }
}

/// Pad removal undoes the padding, whatever the text.
pub proof fn lemma_unpad_pad(b: Seq<u8>)
    ensures
        spec_unpad(spec_pad(b)) == Some(b),
{
    let pl = spec_pad_len(b.len());
    let padded = spec_pad(b);
    assert(1 <= pl <= 16);
    assert(padded.len() == b.len() + pl);
    assert(padded.last() == pl as u8);
    assert(forall|i: int| padded.len() - pl <= i < padded.len() ==> padded[i] == padded.last());
    assert(padded.take(padded.len() - pl) =~= b);
}

/// The padded text under `spec_pad`.
fn pad_block(text: &[u8]) -> (r: Vec<u8>)
    ensures
        r@ == spec_pad(text@),
        r@.len() % 16 == 0,
        r@.len() == text@.len() + spec_pad_len(text@.len()),
{
    let mut r = vstd::slice::slice_to_vec(text);
    let p: u8 = (16 - (text.len() % 16)) as u8;
    let mut k: usize = 0;
    assert(r@ =~= text@ + Seq::new(0, |j: int| p));
    while k < (p as usize)
        invariant
            p == spec_pad_len(text@.len()) as u8,
            1 <= p <= 16,
            k <= p as usize,
            r@ == text@ + Seq::new(k as nat, |j: int| p),
        decreases p as int - k as int,
    {
        r.push(p);
        proof {
            assert(r@ =~= text@ + Seq::new((k + 1) as nat, |j: int| p));
        }
        k += 1;
    }
    proof {
        assert(r@ =~= spec_pad(text@));
    }
    r
}

/// Pad validation and removal under `spec_unpad`.
fn unpad(raw: &[u8]) -> (r: Result<Vec<u8>, DecryptError>)
    ensures
        match r {
            Ok(v) => spec_unpad(raw@) == Some(v@),
            Err(_) => spec_unpad(raw@) is None,
        },
{
    let n = raw.len();
    if n == 0 {
        return Err(DecryptError);
    }
    let p = *vstd::slice::slice_index_get(raw, n - 1);
    if p < 1 || p > 16 || (p as usize) > n {
        return Err(DecryptError);
    }
    let mut i: usize = n - (p as usize);
    while i < n
        invariant
            raw@.len() == n,
            n >= 1,
            p == raw@.last(),
            1 <= p <= 16,
            p as usize <= n,
            n - (p as usize) <= i <= n,
            forall|j: int| n - (p as usize) <= j < i ==> raw@[j] == raw@.last(),
        decreases n - i,
    {
        if *vstd::slice::slice_index_get(raw, i) != p {
            return Err(DecryptError);
        }
        i += 1;
    }
    let body = vstd::slice::slice_subrange(raw, 0, n - (p as usize));
    let v = vstd::slice::slice_to_vec(body);
    proof {
        assert(v@ =~= raw@.take(raw@.len() - (p as int)));
    }
    Ok(v)
}

/// AES-128-ECB encryption of `text` (padded) under a 16-byte key.
///
/// Decrypting the result under the same key recovers `text` exactly: the
/// round trip through this encryption is lossless.
pub fn aes_128_ecb(text: &[u8], key: &[u8]) -> (r: Vec<u8>)
    requires
        key@.len() == 16,
    ensures
        r@ == spec_ecb_enc(key@, text@),
        spec_ecb_dec(key@, r@) == Some(text@),
        r@.len() == text@.len() + spec_pad_len(text@.len()),
{
    let padded = pad_block(text);
    let n = padded.len() / 16;
    assert(16 * n == padded@.len());
    let mut out: Vec<u8> = Vec::new();
    let mut i: usize = 0;
    assert(padded@.take(0) =~= Seq::<u8>::empty());
    while i < n
        invariant
            key@.len() == 16,
            padded@.len() == 16 * n,
            padded@.len() % 16 == 0,
            16 * n <= usize::MAX,
            i <= n,
            out@.len() == 16 * i,
            out@ == spec_ecb_enc_blocks(key@, padded@.take(16 * i as int)),
            spec_ecb_dec_blocks(key@, out@) == padded@.take(16 * i as int),
        decreases n - i,
    {
        let block = vstd::slice::slice_subrange(padded.as_slice(), 16 * i, 16 * i + 16);
        let c = encrypt_block(key, block);
        proof {
            let pre = padded@.take(16 * i as int);
            lemma_enc_blocks_snoc(key@, pre, block@);
            lemma_dec_blocks_snoc(key@, out@, c@);
            assert(padded@.take(16 * (i + 1) as int) =~= pre + block@);
            assert(out@ + c@ =~= spec_ecb_enc_blocks(key@, pre) + aes_enc_block(key@, block@));
            assert(pre + block@ =~= padded@.take(16 * (i + 1) as int));
        }
        out.extend_from_slice(c.as_slice());
        i += 1;
    }
    proof {
        assert(padded@.take(16 * n as int) =~= padded@);
        lemma_unpad_pad(text@);
    }
    out
}

/// AES-128-ECB decryption under a 16-byte key, failing exactly where
/// `spec_ecb_dec` gives nothing: a length that is not a multiple of 16,
/// or invalid padding after decryption.
pub fn aes_128_ecb_decrypt(ct: &[u8], key: &[u8]) -> (r: Result<Vec<u8>, DecryptError>)
    requires
        key@.len() == 16,
    ensures
        match r {
            Ok(p) => spec_ecb_dec(key@, ct@) == Some(p@),
            Err(_) => spec_ecb_dec(key@, ct@) is None,
        },
{
    if ct.len() % 16 != 0 {
        return Err(DecryptError);
    }
    let n = ct.len() / 16;
    assert(16 * n == ct@.len());
    let mut raw: Vec<u8> = Vec::new();
    let mut i: usize = 0;
    assert(ct@.take(0) =~= Seq::<u8>::empty());
    while i < n
        invariant
            key@.len() == 16,
            ct@.len() == 16 * n,
            ct@.len() % 16 == 0,
            16 * n <= usize::MAX,
            i <= n,
            raw@.len() == 16 * i,
            raw@ == spec_ecb_dec_blocks(key@, ct@.take(16 * i as int)),
        decreases n - i,
    {
        let block = vstd::slice::slice_subrange(ct, 16 * i, 16 * i + 16);
        let d = decrypt_block(key, block);
        proof {
            let pre = ct@.take(16 * i as int);
            lemma_dec_blocks_snoc(key@, pre, block@);
            assert(ct@.take(16 * (i + 1) as int) =~= pre + block@);
            assert(raw@ + d@ =~= spec_ecb_dec_blocks(key@, pre) + aes_dec_block(key@, block@));
        }
        raw.extend_from_slice(d.as_slice());
        i += 1;
    }
    proof {
        assert(ct@.take(16 * n as int) =~= ct@);
    }
    unpad(raw.as_slice())
}

/// One 16-byte block xored into another.
fn xor_block(a: &[u8], b: &[u8]) -> (r: Vec<u8>)
    requires
        a@.len() == 16,
        b@.len() == 16,
    ensures
        r@ == spec_xor16(a@, b@),
        r@.len() == 16,
{
    let mut r: Vec<u8> = Vec::new();
    let mut k: usize = 0;
    while k < 16
        invariant
            a@.len() == 16,
            b@.len() == 16,
            k <= 16,
            r@.len() == k,
            forall|j: int| 0 <= j < k ==> r@[j] == (a@[j] ^ b@[j]),
        decreases 16 - k,
    {
        let x = *vstd::slice::slice_index_get(a, k) ^ *vstd::slice::slice_index_get(b, k);
        r.push(x);
        k += 1;
    }
    proof {
        assert(r@ =~= spec_xor16(a@, b@));
    }
    r
}

/// AES-128-CBC encryption of `text` (padded) under a 16-byte key and a
/// 16-byte initialization vector.
pub fn aes_128_cbc(text: &[u8], key: &[u8], iv: &[u8]) -> (r: Vec<u8>)
    requires
        key@.len() == 16,
        iv@.len() == 16,
    ensures
        r@ == spec_cbc_enc(key@, iv@, text@),
        r@.len() == text@.len() + spec_pad_len(text@.len()),
{
    let padded = pad_block(text);
    let n = padded.len() / 16;
    assert(16 * n == padded@.len());
    let mut out: Vec<u8> = Vec::new();
    let mut prev: Vec<u8> = vstd::slice::slice_to_vec(iv);
    let mut i: usize = 0;
    proof {
        assert(padded@.skip(0) =~= padded@);
        assert(Seq::<u8>::empty() + spec_cbc_enc_blocks(key@, iv@, padded@)
            =~= spec_cbc_enc_blocks(key@, iv@, padded@));
    }
    while i < n
        invariant
            key@.len() == 16,
            padded@.len() == 16 * n,
            padded@.len() % 16 == 0,
            16 * n <= usize::MAX,
            i <= n,
            out@.len() == 16 * i,
            prev@.len() == 16,
            spec_cbc_enc_blocks(key@, iv@, padded@) == out@ + spec_cbc_enc_blocks(
                key@,
                prev@,
                padded@.skip(16 * i as int),
            ),
        decreases n - i,
    {
        let block = vstd::slice::slice_subrange(padded.as_slice(), 16 * i, 16 * i + 16);
        let x = xor_block(prev.as_slice(), block);
        let c = encrypt_block(key, x.as_slice());
        proof {
            let rest = padded@.skip(16 * i as int);
            assert(rest.take(16) =~= block@);
            assert(rest.skip(16) =~= padded@.skip(16 * (i + 1) as int));
            assert(spec_cbc_enc_blocks(key@, prev@, rest) == c@ + spec_cbc_enc_blocks(
                key@,
                c@,
                padded@.skip(16 * (i + 1) as int),
            ));
            assert(out@ + spec_cbc_enc_blocks(key@, prev@, rest) =~= (out@ + c@)
                + spec_cbc_enc_blocks(key@, c@, padded@.skip(16 * (i + 1) as int)));
        }
        out.extend_from_slice(c.as_slice());
        prev = c;
        i += 1;
    }
    proof {
        assert(padded@.skip(16 * n as int) =~= Seq::<u8>::empty());
        assert(out@ + Seq::<u8>::empty() =~= out@);
    }
    out
}

} // verus!
