use polykit::crypto::{
    decapsulate, decrypt_aes256gcm, encapsulate, encrypt_aes256gcm, hash_sha3_256, sign,
    verify,
};

#[test]
fn signature_has_the_ml_dsa_size() {
    let sig = sign(&[1, 2, 3], b"message").unwrap();
    assert_eq!(sig.bytes.len(), 4627);
    assert!(sig.bytes.iter().all(|b| *b == 0));
}

#[test]
fn verify_accepts_in_core() {
    let sig = sign(&[0], b"m").unwrap();
    assert_eq!(verify(&[0], b"m", &sig), Ok(true));
}

#[test]
fn encapsulated_key_has_the_ml_kem_sizes() {
    let k = encapsulate(&[9; 10]).unwrap();
    assert_eq!(k.ciphertext.len(), 1568);
    assert_eq!(k.shared_secret.len(), 32);
}

#[test]
fn decapsulate_returns_a_32_byte_secret() {
    let s = decapsulate(&[1], &[2]).unwrap();
    assert_eq!(s, vec![0u8; 32]);
}

#[test]
fn encrypt_matches_plaintext_length() {
    let p = encrypt_aes256gcm(&[0u8; 32], b"hello world", b"aad").unwrap();
    assert_eq!(p.ciphertext.len(), 11);
    assert_eq!(p.nonce, [0u8; 12]);
    assert_eq!(p.tag, [0u8; 16]);
    assert_eq!(decrypt_aes256gcm(&[0u8; 32], &p, b"aad").unwrap(), Vec::<u8>::new());
}

#[test]
fn hash_is_the_zeroed_digest_in_core() {
    assert_eq!(hash_sha3_256(b"data"), [0u8; 32]);
}
