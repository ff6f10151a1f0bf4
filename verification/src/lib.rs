//! Request-payload obfuscation for a fixed web API protocol.
//!
//! Three encoding schemes (`weapi`, `eapi`, `linuxapi`) turn a plaintext
//! byte buffer into the text form fields the protocol's server expects,
//! and `eapi_decrypt` undoes the `eapi` AES step. The byte-for-byte
//! construction of each pipeline (padding, chaining, separators, digit
//! case) is specified and verified here; the AES block permutation, MD5,
//! base64, hex, modular exponentiation and the random source are called
//! through trusted wrappers around outside crates.
use vstd::prelude::*;

pub mod aes128;
pub mod ascii;
pub mod b64;
pub mod digest;
pub mod hexstr;
pub mod keys;
pub mod rng;
pub mod rsa;

verus! {

use vstd::utf8::is_ascii_chars;
use vstd::arithmetic::power::pow;
use crate::aes128::{
    aes_128_cbc, aes_128_ecb, aes_128_ecb_decrypt, spec_cbc_enc, spec_ecb_dec, spec_ecb_enc,
    DecryptError,
};
use crate::ascii::{ascii_bytes_of, ascii_str_bytes, utf8_lossy_bytes, utf8_lossy_of};
use crate::b64::{b64_bytes_of, b64_chars_of, b64_encode, is_b64_char};
use crate::digest::{md5_hex, md5_of, spec_md5_hex};
use crate::hexstr::{
    hex_encode, hex_encode_upper, is_hex_digit_lower, lemma_hex_lower_digits, spec_hex_lower,
    spec_hex_upper,
};
use crate::keys::{
    base62, eapi_key, iv, linux_api_key, preset_key, rsa_modulus, spec_base62, spec_eapi_key,
    spec_iv, spec_linux_api_key, spec_preset_key, spec_rsa_modulus, RSA_EXPONENT,
};
use crate::rng::random_bytes_16;
use crate::rsa::{
    be_val, is_rsa_cipher_of, lemma_be_val_lower, lemma_minimal_be_len, lemma_pow256_pos,
    mod_exp_be,
};

/// Tag naming which encoding scheme produced or should consume a payload.
#[derive(Debug, PartialEq, Eq, Clone, Copy)]
pub enum Crypto {
    Weapi,
    Eapi,
    Linuxapi,
}

/// The two form fields produced by `weapi`.
pub struct WeapiForm {
    params: String,
    enc_sec_key: String,
}

/// The single form field produced by `eapi`.
pub struct EapiForm {
    params: String,
}

/// The single form field produced by `linuxapi`.
pub struct LinuxapiForm {
    eparams: String,
}

impl WeapiForm {
    /// The characters of the `params` field.
    pub closed spec fn spec_params(self) -> Seq<char> {
        self.params@
    }

    /// The characters of the `enc_sec_key` field.
    pub closed spec fn spec_enc_sec_key(self) -> Seq<char> {
        self.enc_sec_key@
    }

    /// The fields as named key/value pairs, in form order.
    pub fn into_vec(self) -> (r: Vec<(String, String)>)
        ensures
            r@.len() == 2,
            r@[0].0@ == "params"@,
            r@[0].1@ == self.spec_params(),
            r@[1].0@ == "encSecKey"@,
            r@[1].1@ == self.spec_enc_sec_key(),
    {
        vec![
            ("params".to_owned(), self.params),
            ("encSecKey".to_owned(), self.enc_sec_key),
        ]
    }
}

impl EapiForm {
    /// The characters of the `params` field.
    pub closed spec fn spec_params(self) -> Seq<char> {
        self.params@
    }

    /// The field as a named key/value pair.
    pub fn into_vec(self) -> (r: Vec<(String, String)>)
        ensures
            r@.len() == 1,
            r@[0].0@ == "params"@,
            r@[0].1@ == self.spec_params(),
    {
        vec![("params".to_owned(), self.params)]
    }
}

impl LinuxapiForm {
    /// The characters of the `eparams` field.
    pub closed spec fn spec_eparams(self) -> Seq<char> {
        self.eparams@
    }

    /// The field as a named key/value pair.
    pub fn into_vec(self) -> (r: Vec<(String, String)>)
        ensures
            r@.len() == 1,
            r@[0].0@ == "eparams"@,
            r@[0].1@ == self.spec_eparams(),
    {
        vec![("eparams".to_owned(), self.eparams)]
    }
}

/// The separator the `eapi` scheme puts between url, payload and digest.
pub open spec fn spec_eapi_sep() -> Seq<u8> {
    ascii_bytes_of("-36cd479b6b5-"@)
}

/// The fixed-salt message whose MD5 digest goes into an `eapi` payload.
pub open spec fn spec_eapi_msg(url: Seq<u8>, data: Seq<u8>) -> Seq<u8> {
    ascii_bytes_of("nobody"@) + utf8_lossy_of(url) + ascii_bytes_of("use"@) + utf8_lossy_of(data)
        + ascii_bytes_of("md5forencrypt"@)
}

/// The plaintext an `eapi` payload encrypts: url, payload and the hex
/// MD5 digest of the salted message, joined by the fixed separator.
pub open spec fn spec_eapi_text(url: Seq<u8>, data: Seq<u8>) -> Seq<u8> {
    url + spec_eapi_sep() + data + spec_eapi_sep() + ascii_bytes_of(
        spec_md5_hex(spec_eapi_msg(url, data)),
    )
}

/// The `eapi` encoding: AES-128-ECB of the digest-salted text under the
/// scheme's fixed key, as uppercase hex.
///
/// Decrypting the ciphertext under the same key gives the text back,
/// so the encoding round-trips losslessly.
pub fn eapi(url: &[u8], data: &[u8]) -> (r: EapiForm)
    requires
        url@.len() + data@.len() + 100 <= usize::MAX / 2,
    ensures
        r.spec_params() == spec_hex_upper(
            spec_ecb_enc(spec_eapi_key(), spec_eapi_text(url@, data@)),
        ),
        spec_ecb_dec(
            spec_eapi_key(),
            spec_ecb_enc(spec_eapi_key(), spec_eapi_text(url@, data@)),
        ) == Some(spec_eapi_text(url@, data@)),
{
    let nobody = "nobody";
    let use_word = "use";
    let tail = "md5forencrypt";
    let sep = "-36cd479b6b5-";
    proof {
        reveal_strlit("nobody");
        reveal_strlit("use");
        reveal_strlit("md5forencrypt");
        reveal_strlit("-36cd479b6b5-");
        assert(is_ascii_chars(nobody@));
        assert(is_ascii_chars(use_word@));
        assert(is_ascii_chars(tail@));
        assert(is_ascii_chars(sep@));
    }
    let lossy_url = utf8_lossy_bytes(url);
    let lossy_data = utf8_lossy_bytes(data);
    let mut msg: Vec<u8> = Vec::new();
    msg.extend_from_slice(ascii_str_bytes(nobody));
    msg.extend_from_slice(lossy_url.as_slice());
    msg.extend_from_slice(ascii_str_bytes(use_word));
    msg.extend_from_slice(lossy_data.as_slice());
    msg.extend_from_slice(ascii_str_bytes(tail));
    proof {
        assert(msg@ =~= spec_eapi_msg(url@, data@));
    }
    let dg = md5_hex(msg.as_slice());
    proof {
        lemma_hex_lower_digits(md5_of(msg@));
    }
    let dgb = ascii_str_bytes(dg.as_str());
    let mut text: Vec<u8> = Vec::new();
    text.extend_from_slice(url);
    text.extend_from_slice(ascii_str_bytes(sep));
    text.extend_from_slice(data);
    text.extend_from_slice(ascii_str_bytes(sep));
    text.extend_from_slice(dgb);
    proof {
        assert(text@ =~= spec_eapi_text(url@, data@));
    }
    let ct = aes_128_ecb(text.as_slice(), eapi_key());
    proof {
        assert(text@.len() == url@.len() + data@.len() + 58);
        assert(ct@.len() <= text@.len() + 16);
    }
    let params = hex_encode_upper(ct.as_slice());
    EapiForm { params }
}

/// The inverse of the `eapi` AES step: AES-128-ECB decryption under the
/// scheme's fixed key, failing with `DecryptError` exactly on a length
/// that is not a multiple of 16 or on invalid padding after decryption.
pub fn eapi_decrypt(ct: &[u8]) -> (r: Result<Vec<u8>, DecryptError>)
    ensures
        match r {
            Ok(p) => spec_ecb_dec(spec_eapi_key(), ct@) == Some(p@),
            Err(_) => spec_ecb_dec(spec_eapi_key(), ct@) is None,
        },
{
    aes_128_ecb_decrypt(ct, eapi_key())
}

/// The `linuxapi` encoding: AES-128-ECB of the plaintext under the
/// scheme's fixed key, as uppercase hex.
pub fn linuxapi(text: &[u8]) -> (r: LinuxapiForm)
    requires
        text@.len() + 16 <= usize::MAX / 2,
    ensures
        r.spec_eparams() == spec_hex_upper(spec_ecb_enc(spec_linux_api_key(), text@)),
{
    let ct = aes_128_ecb(text, linux_api_key());
    let eparams = hex_encode_upper(ct.as_slice());
    LinuxapiForm { eparams }
}

/// The `params` field `weapi` builds from a plaintext and a secret key:
/// two CBC layers under the shared IV (first the fixed preset key, then
/// the secret key over the base64 text of the first layer), as base64.
pub open spec fn spec_weapi_params(text: Seq<u8>, sk: Seq<u8>) -> Seq<char> {
    b64_chars_of(
        spec_cbc_enc(sk, spec_iv(), b64_bytes_of(spec_cbc_enc(spec_preset_key(), spec_iv(), text))),
    )
}

/// How a `weapi` result relates to the plaintext and the secret key the
/// call drew: the key is 16 bytes of the base62 alphabet, `params` is the
/// double-CBC encoding under it, and `enc_sec_key` is the lowercase hex
/// of the raw RSA ciphertext of the byte-reversed key.
pub open spec fn weapi_rel(text: Seq<u8>, sk: Seq<u8>, params: Seq<char>, esk: Seq<char>) -> bool {
    &&& sk.len() == 16
    &&& (forall|i: int| 0 <= i < 16 ==> spec_base62().contains(#[trigger] sk[i]))
    &&& params == spec_weapi_params(text, sk)
    &&& (exists|rb: Seq<u8>|
        #[trigger] is_rsa_cipher_of(sk.reverse(), spec_rsa_modulus(), RSA_EXPONENT as nat, rb)
            && esk == spec_hex_lower(rb))
}

/// The `weapi` encoding. A fresh 16-byte secret key is drawn from the
/// base62 alphabet on every call; the result stands in `weapi_rel` to the
/// plaintext and that key. Whatever the draw, `params` is padded standard
/// base64 text and `enc_sec_key` is lowercase hex text.
pub fn weapi(text: &[u8]) -> (r: WeapiForm)
    requires
        text@.len() <= usize::MAX / 4,
    ensures
        exists|sk: Seq<u8>| #[trigger] weapi_rel(text@, sk, r.spec_params(), r.spec_enc_sec_key()),
        r.spec_params().len() % 4 == 0,
        forall|i: int|
            0 <= i < r.spec_params().len() ==> is_b64_char(#[trigger] r.spec_params()[i]),
        forall|i: int|
            0 <= i < r.spec_enc_sec_key().len() ==> is_hex_digit_lower(
                #[trigger] r.spec_enc_sec_key()[i],
            ),
{
    let rnd = random_bytes_16();
    let alphabet = base62();
    let mut sk: Vec<u8> = Vec::new();
    let mut k: usize = 0;
    while k < 16
        invariant
            rnd@.len() == 16,
            alphabet@ == spec_base62(),
            alphabet@.len() == 62,
            k <= 16,
            sk@.len() == k,
            forall|j: int| 0 <= j < k ==> spec_base62().contains(#[trigger] sk@[j]),
        decreases 16 - k,
    {
        let idx = (*vstd::slice::slice_index_get(rnd.as_slice(), k) % 62) as usize;
        let c = *vstd::slice::slice_index_get(alphabet, idx);
        proof {
            assert(spec_base62()[idx as int] == c);
            assert(spec_base62().contains(c));
        }
        sk.push(c);
        k += 1;
    }
    let ct1 = aes_128_cbc(text, preset_key(), iv());
    let p1 = b64_encode(ct1.as_slice());
    let p1b = ascii_str_bytes(p1.as_str());
    proof {
        assert(p1b@ == b64_bytes_of(ct1@));
    }
    let ct2 = aes_128_cbc(p1b, sk.as_slice(), iv());
    proof {
        assert(ct1@.len() <= text@.len() + 16);
        assert(p1b@.len() == 4 * ((ct1@.len() + 2) / 3));
        assert(ct2@.len() <= p1b@.len() + 16);
        assert(ct2@.len() <= usize::MAX / 2);
    }
    let params = b64_encode(ct2.as_slice());
    let mut rsk: Vec<u8> = Vec::new();
    let mut j: usize = 0;
    while j < 16
        invariant
            sk@.len() == 16,
            j <= 16,
            rsk@.len() == j,
            forall|t: int| 0 <= t < j ==> rsk@[t] == sk@[15 - t],
        decreases 16 - j,
    {
        rsk.push(*vstd::slice::slice_index_get(sk.as_slice(), 15 - j));
        j += 1;
    }
    proof {
        assert(rsk@ =~= sk@.reverse());
        lemma_be_val_lower(spec_rsa_modulus());
        lemma_pow256_pos(127);
    }
    let modulus = rsa_modulus();
    let rb = mod_exp_be(rsk.as_slice(), RSA_EXPONENT, modulus.as_slice());
    proof {
        vstd::arithmetic::div_mod::lemma_mod_bound(
            pow(be_val(rsk@) as int, RSA_EXPONENT as nat),
            be_val(spec_rsa_modulus()) as int,
        );
        lemma_minimal_be_len(rb@, spec_rsa_modulus());
        lemma_hex_lower_digits(rb@);
    }
    let enc_sec_key = hex_encode(rb.as_slice());
    let r = WeapiForm { params, enc_sec_key };
    proof {
        assert(is_rsa_cipher_of(sk@.reverse(), spec_rsa_modulus(), RSA_EXPONENT as nat, rb@));
        assert(weapi_rel(text@, sk@, r.spec_params(), r.spec_enc_sec_key()));
    }
    r
}

} // verus!
