use base64::Engine;
use payload_crypto::aes128::{aes_128_cbc, aes_128_ecb, aes_128_ecb_decrypt, DecryptError};
use payload_crypto::digest::md5_hex;
use payload_crypto::keys::{eapi_key, iv, preset_key};
use payload_crypto::{eapi, eapi_decrypt, linuxapi, weapi, Crypto};

#[test]
fn test_weapi() {
    weapi(r#"{"username": "alex"}"#.as_bytes());
}

#[test]
fn test_eapi() {
    let ct = eapi("/url".as_bytes(), "plain text".as_bytes());
    let fields = ct.into_vec();
    assert!(fields[0].1.ends_with("C3F3"));
}

#[test]
fn test_eapi_decrypt() {
    let pt = "plain text";
    let ct = aes_128_ecb(pt.as_bytes(), eapi_key());
    assert_eq!(pt.as_bytes(), eapi_decrypt(&ct).unwrap().as_slice())
}

#[test]
fn test_linuxapi() {
    let ct = linuxapi(r#""plain text""#.as_bytes());
    let fields = ct.into_vec();
    assert!(fields[0].1.ends_with("2250"));
}

#[test]
fn eapi_exact_value() {
    let form = eapi("/url".as_bytes(), "plain text".as_bytes());
    let fields = form.into_vec();
    assert_eq!(fields.len(), 1);
    assert_eq!(fields[0].0, "params");
    assert_eq!(
        fields[0].1,
        "C0753C879A40AFBFADF7EBF3A34CDD36D75561D6A23EB46C414D0D79A6E5D8C63DDDEFC3F71AB0DF1AF6\
         D3395C8DFB4676BEDF184FA50CE11EAED4DC97D11F60A08CECC6970479C9C008E5100957C3F3"
    );
}

#[test]
fn linuxapi_exact_value() {
    let form = linuxapi(r#""plain text""#.as_bytes());
    let fields = form.into_vec();
    assert_eq!(fields.len(), 1);
    assert_eq!(fields[0].0, "eparams");
    assert_eq!(fields[0].1, "4C180466F8F69E32A72F46B6801E2250");
}

#[test]
fn cbc_exact_value() {
    let ct = aes_128_cbc(b"hello", preset_key(), iv());
    let b64 = base64::prelude::BASE64_STANDARD.encode(&ct);
    assert_eq!(b64, "+J9Q3vLzLGFuqlWFQh3T3A==");
}

#[test]
fn md5_hex_exact_values() {
    assert_eq!(md5_hex(b""), "d41d8cd98f00b204e9800998ecf8427e");
    assert_eq!(md5_hex(b"abc"), "900150983cd24fb0d6963f7d28e17f72");
}

#[test]
fn ecb_round_trip_many_lengths() {
    for len in 0..48usize {
        let pt: Vec<u8> = (0..len).map(|i| (i * 7 + 3) as u8).collect();
        let ct = aes_128_ecb(&pt, eapi_key());
        assert_eq!(ct.len() % 16, 0);
        assert_eq!(eapi_decrypt(&ct).unwrap(), pt);
    }
}

#[test]
fn decrypt_rejects_misaligned_length() {
    assert_eq!(eapi_decrypt(&[0u8; 15]).unwrap_err(), DecryptError);
    assert_eq!(eapi_decrypt(&[0u8; 1]).unwrap_err(), DecryptError);
    assert_eq!(
        aes_128_ecb_decrypt(&[0u8; 17], eapi_key()).unwrap_err(),
        DecryptError
    );
}

#[test]
fn decrypt_rejects_bad_padding() {
    // Two blocks of ciphertext for sixteen zero bytes: the first block
    // decrypts to the zero block, whose final byte is no valid pad length.
    let ct = aes_128_ecb(&[0u8; 16], eapi_key());
    assert_eq!(ct.len(), 32);
    assert_eq!(eapi_decrypt(&ct[..16]).unwrap_err(), DecryptError);
    // Swapping the blocks puts the zero block last: also invalid.
    let mut swapped = Vec::new();
    swapped.extend_from_slice(&ct[16..]);
    swapped.extend_from_slice(&ct[..16]);
    assert_eq!(eapi_decrypt(&swapped).unwrap_err(), DecryptError);
}

#[test]
fn weapi_fields_decode() {
    let fields = weapi(b"{}").into_vec();
    assert_eq!(fields.len(), 2);
    assert_eq!(fields[0].0, "params");
    assert_eq!(fields[1].0, "encSecKey");
    base64::prelude::BASE64_STANDARD
        .decode(fields[0].1.as_bytes())
        .unwrap();
    hex::decode(fields[1].1.as_bytes()).unwrap();
}

#[test]
fn weapi_many_trials_stay_well_formed() {
    for trial in 0..64 {
        let pt = format!("{{\"n\": {}}}", trial);
        let fields = weapi(pt.as_bytes()).into_vec();
        let inner = base64::prelude::BASE64_STANDARD
            .decode(fields[0].1.as_bytes())
            .unwrap();
        assert_eq!(inner.len() % 16, 0);
        let esk = hex::decode(fields[1].1.as_bytes()).unwrap();
        assert!(esk.len() <= 128);
    }
}

#[test]
fn crypto_tag_is_plain_data() {
    let t = Crypto::Weapi;
    assert_eq!(t, Crypto::Weapi);
    assert_ne!(Crypto::Eapi, Crypto::Linuxapi);
    let u = t;
    assert_eq!(u, t);
}
