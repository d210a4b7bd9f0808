use aes::Aes128;
use base64::Engine;
use block_modes::block_padding::NoPadding;
use block_modes::{BlockMode, Cfb};
use smart_home_core::boundary::{protect, reveal_payload, CryptoError};

const KEY: &[u8; 16] = b"0123456789abcdef";
const IV: &[u8; 16] = b"fedcba9876543210";

fn b64() -> base64::engine::general_purpose::GeneralPurpose {
    base64::engine::general_purpose::STANDARD
}

#[test]
fn round_trip_empty_payload() {
    let text = protect(b"", KEY, IV).unwrap();
    assert_eq!(reveal_payload(&text, KEY, IV).unwrap(), Vec::<u8>::new());
}

#[test]
fn round_trip_short_payload() {
    let text = protect(b"hello", KEY, IV).unwrap();
    assert_eq!(reveal_payload(&text, KEY, IV).unwrap(), b"hello".to_vec());
}

#[test]
fn round_trip_whole_block_and_more() {
    let plain: Vec<u8> = (0u8..=40).collect();
    let text = protect(&plain, KEY, IV).unwrap();
    assert_eq!(reveal_payload(&text, KEY, IV).unwrap(), plain);
}

#[test]
fn ciphertext_is_padded_to_whole_blocks() {
    let text = protect(b"hello", KEY, IV).unwrap();
    assert_eq!(b64().decode(&text).unwrap().len(), 16);
    let text = protect(&[7u8; 16], KEY, IV).unwrap();
    assert_eq!(b64().decode(&text).unwrap().len(), 32);
}

#[test]
fn output_is_encrypted_not_just_encoded() {
    let text = protect(b"secret message!!", KEY, IV).unwrap();
    assert_ne!(text, b64().encode(b"secret message!!"));
    assert!(b64().decode(&text).is_ok());
}

#[test]
fn different_iv_gives_different_text() {
    let other_iv = [0u8; 16];
    let a = protect(b"payload", KEY, IV).unwrap();
    let b = protect(b"payload", KEY, &other_iv).unwrap();
    assert_ne!(a, b);
}

#[test]
fn tampering_never_yields_the_original() {
    let plain = b"device contract payload".to_vec();
    let text = protect(&plain, KEY, IV).unwrap();
    let bytes = text.as_bytes().to_vec();
    for i in 0..bytes.len() {
        let mut altered = bytes.clone();
        altered[i] = if altered[i] == b'A' { b'B' } else { b'A' };
        let altered = String::from_utf8(altered).unwrap();
        match reveal_payload(&altered, KEY, IV) {
            Ok(p) => assert_ne!(p, plain),
            Err(_) => {}
        }
    }
}

#[test]
fn short_key_is_rejected() {
    assert_eq!(protect(b"x", &KEY[..15], IV), Err(CryptoError::InvalidKeyLength));
    let text = protect(b"x", KEY, IV).unwrap();
    assert_eq!(reveal_payload(&text, &KEY[..15], IV), Err(CryptoError::InvalidKeyLength));
}

#[test]
fn long_key_is_rejected() {
    let long = [1u8; 17];
    assert_eq!(protect(b"x", &long, IV), Err(CryptoError::InvalidKeyLength));
}

#[test]
fn bad_iv_is_rejected() {
    assert_eq!(protect(b"x", KEY, &IV[..8]), Err(CryptoError::InvalidIvLength));
    let text = protect(b"x", KEY, IV).unwrap();
    assert_eq!(reveal_payload(&text, KEY, &[0u8; 32]), Err(CryptoError::InvalidIvLength));
}

#[test]
fn key_is_checked_before_iv() {
    assert_eq!(protect(b"x", &[0u8; 3], &[0u8; 3]), Err(CryptoError::InvalidKeyLength));
}

#[test]
fn invalid_base64_is_rejected() {
    assert_eq!(reveal_payload("not base64!", KEY, IV), Err(CryptoError::InvalidEncoding));
    assert_eq!(reveal_payload("QQ", KEY, IV), Err(CryptoError::InvalidEncoding));
}

#[test]
fn partial_block_is_rejected() {
    let text = b64().encode([5u8; 15]);
    assert_eq!(reveal_payload(&text, KEY, IV), Err(CryptoError::CiphertextLengthInvalid));
}

#[test]
fn empty_ciphertext_is_rejected_as_bad_padding() {
    assert_eq!(reveal_payload("", KEY, IV), Err(CryptoError::PaddingInvalid));
}

#[test]
fn broken_padding_is_rejected() {
    // An empty payload encrypts to one block of padding bytes 0x10; in
    // cipher-feedback mode a flipped ciphertext bit flips the same
    // plaintext bit, which turns the last padding byte into 0x11.
    let text = protect(b"", KEY, IV).unwrap();
    let mut cipher = b64().decode(&text).unwrap();
    cipher[15] ^= 0x01;
    let altered = b64().encode(&cipher);
    assert_eq!(reveal_payload(&altered, KEY, IV), Err(CryptoError::PaddingInvalid));
}

#[test]
fn padding_longer_than_a_block_is_rejected() {
    // Two blocks that decrypt to 15 payload bytes and 17 bytes of value 17:
    // malformed padding is accepted by the unpadding routine, but no
    // payload encrypts to these two blocks.
    let mut raw = vec![b'p'; 15];
    raw.extend_from_slice(&[17u8; 17]);
    let mode = Cfb::<Aes128, NoPadding>::new_from_slices(KEY, IV).unwrap();
    let cipher = mode.encrypt_vec(&raw);
    assert_eq!(cipher.len(), 32);
    let text = b64().encode(&cipher);
    assert_eq!(reveal_payload(&text, KEY, IV), Err(CryptoError::PaddingInvalid));
}

#[test]
fn padding_of_a_whole_block_is_accepted() {
    let plain = [9u8; 32];
    let text = protect(&plain, KEY, IV).unwrap();
    assert_eq!(b64().decode(&text).unwrap().len(), 48);
    assert_eq!(reveal_payload(&text, KEY, IV).unwrap(), plain.to_vec());
}
