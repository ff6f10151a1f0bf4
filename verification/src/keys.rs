//! The protocol's fixed keys, IV, RSA public key and base62 alphabet.
//!
//! These are protocol constants, not secrets: the counterpart server holds
//! the same values, and every encoder reads them and never changes them.
use vstd::prelude::*;

verus! {

use vstd::utf8::is_ascii_chars;
use crate::ascii::{ascii_bytes_of, ascii_str_bytes};

/// The AES key of `weapi`'s first (fixed-key) CBC layer.
pub open spec fn spec_preset_key() -> Seq<u8> {
    ascii_bytes_of("0CoJUm6Qyw8W8jud"@)
}

/// The AES initialization vector shared by both CBC layers of `weapi`.
pub open spec fn spec_iv() -> Seq<u8> {
    ascii_bytes_of("0102030405060708"@)
}

/// The AES key of the `eapi` scheme.
pub open spec fn spec_eapi_key() -> Seq<u8> {
    ascii_bytes_of("e82ckenh8dichen8"@)
}

/// The AES key of the `linuxapi` scheme.
pub open spec fn spec_linux_api_key() -> Seq<u8> {
    ascii_bytes_of("rFgB&h#%2?^eDg:Q"@)
}

/// The 62-character alphabet `weapi` draws its random secret key from.
pub open spec fn spec_base62() -> Seq<u8> {
    ascii_bytes_of("abcdefghijklmnopqrstuvwxyzABCDEFGHIJKLMNOPQRSTUVWXYZ0123456789"@)
}

pub fn preset_key() -> (r: &'static [u8])
    ensures
        r@ == spec_preset_key(),
        r@.len() == 16,
{
    let s = "0CoJUm6Qyw8W8jud";
    proof {
        reveal_strlit("0CoJUm6Qyw8W8jud");
        assert(is_ascii_chars(s@));
    }
    ascii_str_bytes(s)
}

pub fn iv() -> (r: &'static [u8])
    ensures
        r@ == spec_iv(),
        r@.len() == 16,
{
    let s = "0102030405060708";
    proof {
        reveal_strlit("0102030405060708");
        assert(is_ascii_chars(s@));
    }
    ascii_str_bytes(s)
}

pub fn eapi_key() -> (r: &'static [u8])
    ensures
        r@ == spec_eapi_key(),
        r@.len() == 16,
{
    let s = "e82ckenh8dichen8";
    proof {
        reveal_strlit("e82ckenh8dichen8");
        assert(is_ascii_chars(s@));
    }
    ascii_str_bytes(s)
}

pub fn linux_api_key() -> (r: &'static [u8])
    ensures
        r@ == spec_linux_api_key(),
        r@.len() == 16,
{
    let s = "rFgB&h#%2?^eDg:Q";
    proof {
        reveal_strlit("rFgB&h#%2?^eDg:Q");
        assert(is_ascii_chars(s@));
    }
    ascii_str_bytes(s)
}

pub fn base62() -> (r: &'static [u8])
    ensures
        r@ == spec_base62(),
        r@.len() == 62,
{
    let s = "abcdefghijklmnopqrstuvwxyzABCDEFGHIJKLMNOPQRSTUVWXYZ0123456789";
    proof {
        reveal_strlit("abcdefghijklmnopqrstuvwxyzABCDEFGHIJKLMNOPQRSTUVWXYZ0123456789");
        assert(is_ascii_chars(s@));
    }
    ascii_str_bytes(s)
}

/// The RSA public modulus, big-endian.
pub open spec fn spec_rsa_modulus() -> Seq<u8> {
    seq![
        0xe0u8, 0xb5, 0x09, 0xf6, 0x25, 0x9d, 0xf8, 0x64, 0x2d, 0xbc, 0x35, 0x66, 0x29, 0x01, 0x47, 0x7d,
        0xf2, 0x26, 0x77, 0xec, 0x15, 0x2b, 0x5f, 0xf6, 0x8a, 0xce, 0x61, 0x5b, 0xb7, 0xb7, 0x25, 0x15,
        0x2b, 0x3a, 0xb1, 0x7a, 0x87, 0x6a, 0xea, 0x8a, 0x5a, 0xa7, 0x6d, 0x2e, 0x41, 0x76, 0x29, 0xec,
        0x4e, 0xe3, 0x41, 0xf5, 0x61, 0x35, 0xfc, 0xcf, 0x69, 0x52, 0x80, 0x10, 0x4e, 0x03, 0x12, 0xec,
        0xbd, 0xa9, 0x25, 0x57, 0xc9, 0x38, 0x70, 0x11, 0x4a, 0xf6, 0xc9, 0xd0, 0x5c, 0x4f, 0x7f, 0x0c,
        0x36, 0x85, 0xb7, 0xa4, 0x6b, 0xee, 0x25, 0x59, 0x32, 0x57, 0x5c, 0xce, 0x10, 0xb4, 0x24, 0xd8,
        0x13, 0xcf, 0xe4, 0x87, 0x5d, 0x3e, 0x82, 0x04, 0x7b, 0x97, 0xdd, 0xef, 0x52, 0x74, 0x1d, 0x54,
        0x6b, 0x8e, 0x28, 0x9d, 0xc6, 0x93, 0x5b, 0x3e, 0xce, 0x04, 0x62, 0xdb, 0x0a, 0x22, 0xb8, 0xe7,
    ]
}

/// The RSA public exponent.
pub const RSA_EXPONENT: u64 = 0x10001;

pub fn rsa_modulus() -> (r: Vec<u8>)
    ensures
        r@ == spec_rsa_modulus(),
        r@.len() == 128,
        r@[0] == 0xe0u8,
{
    let r: Vec<u8> = vec![
        0xe0u8, 0xb5, 0x09, 0xf6, 0x25, 0x9d, 0xf8, 0x64, 0x2d, 0xbc, 0x35, 0x66, 0x29, 0x01, 0x47, 0x7d,
        0xf2, 0x26, 0x77, 0xec, 0x15, 0x2b, 0x5f, 0xf6, 0x8a, 0xce, 0x61, 0x5b, 0xb7, 0xb7, 0x25, 0x15,
        0x2b, 0x3a, 0xb1, 0x7a, 0x87, 0x6a, 0xea, 0x8a, 0x5a, 0xa7, 0x6d, 0x2e, 0x41, 0x76, 0x29, 0xec,
        0x4e, 0xe3, 0x41, 0xf5, 0x61, 0x35, 0xfc, 0xcf, 0x69, 0x52, 0x80, 0x10, 0x4e, 0x03, 0x12, 0xec,
        0xbd, 0xa9, 0x25, 0x57, 0xc9, 0x38, 0x70, 0x11, 0x4a, 0xf6, 0xc9, 0xd0, 0x5c, 0x4f, 0x7f, 0x0c,
        0x36, 0x85, 0xb7, 0xa4, 0x6b, 0xee, 0x25, 0x59, 0x32, 0x57, 0x5c, 0xce, 0x10, 0xb4, 0x24, 0xd8,
        0x13, 0xcf, 0xe4, 0x87, 0x5d, 0x3e, 0x82, 0x04, 0x7b, 0x97, 0xdd, 0xef, 0x52, 0x74, 0x1d, 0x54,
        0x6b, 0x8e, 0x28, 0x9d, 0xc6, 0x93, 0x5b, 0x3e, 0xce, 0x04, 0x62, 0xdb, 0x0a, 0x22, 0xb8, 0xe7,
    ];
    proof {
        assert(r@ =~= spec_rsa_modulus());
    }
    r
}

} // verus!
