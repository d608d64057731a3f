//! Post-quantum cryptographic wrappers.
//!
//! The actual primitives run in the host kernel; within this core each
//! operation is a placeholder that returns zeroed material of the correct
//! shape, and the contracts pin those shapes down exactly.

use vstd::prelude::*;
use crate::error::PolykitError;

verus! {

/// Every byte of the sequence is zero.
pub open spec fn zero_bytes(s: Seq<u8>) -> bool {
    forall|i: int| 0 <= i < s.len() ==> s[i] == 0
}

/// A zero-filled byte vector of the requested length.
pub(crate) fn zeroed_vec(len: usize) -> (r: Vec<u8>)
    ensures
        r@.len() == len,
        zero_bytes(r@),
{
    let mut v: Vec<u8> = Vec::new();
    let mut i: usize = 0;
    while i < len
        invariant
            i <= len,
            v@.len() == i,
            zero_bytes(v@),
        decreases len - i,
    {
        v.push(0);
        i += 1;
    }
    v
}

/// ML-DSA-87 signature (4627 bytes).
#[derive(Debug, Clone)]
pub struct Signature {
    pub bytes: Vec<u8>,
}

/// ML-KEM-1024 encapsulated key: ciphertext and shared secret.
#[derive(Debug, Clone)]
pub struct EncapsulatedKey {
    /// 1568 bytes.
    pub ciphertext: Vec<u8>,
    /// 32 bytes.
    pub shared_secret: Vec<u8>,
}

/// AES-256-GCM encrypted payload.
#[derive(Debug, Clone)]
pub struct EncryptedPayload {
    pub ciphertext: Vec<u8>,
    pub nonce: [u8; 12],
    pub tag: [u8; 16],
}

/// Sign data with ML-DSA-87. In-core placeholder: a zeroed signature of the
/// ML-DSA-87 size.
pub fn sign(secret_key: &[u8], message: &[u8]) -> (r: Result<Signature, PolykitError>)
    ensures
        r matches Ok(s) && s.bytes@.len() == 4627 && zero_bytes(s.bytes@),
{
    let _ = (secret_key, message);
    Ok(Signature { bytes: zeroed_vec(4627) })
}

/// Verify an ML-DSA-87 signature. In-core placeholder: accepts everything.
pub fn verify(public_key: &[u8], message: &[u8], signature: &Signature) -> (r: Result<
    bool,
    PolykitError,
>)
    ensures
        r == Ok::<bool, PolykitError>(true),
{
    let _ = (public_key, message, signature);
    Ok(true)
}

/// Encapsulate a shared secret with ML-KEM-1024. In-core placeholder:
/// zeroed ciphertext and secret of the ML-KEM-1024 sizes.
pub fn encapsulate(recipient_public_key: &[u8]) -> (r: Result<EncapsulatedKey, PolykitError>)
    ensures
        r matches Ok(k) && k.ciphertext@.len() == 1568 && zero_bytes(k.ciphertext@)
            && k.shared_secret@.len() == 32 && zero_bytes(k.shared_secret@),
{
    let _ = recipient_public_key;
    Ok(EncapsulatedKey { ciphertext: zeroed_vec(1568), shared_secret: zeroed_vec(32) })
}

/// Decapsulate a shared secret with ML-KEM-1024. In-core placeholder: the
/// 32-byte zeroed secret.
pub fn decapsulate(secret_key: &[u8], ciphertext: &[u8]) -> (r: Result<Vec<u8>, PolykitError>)
    ensures
        r matches Ok(s) && s@.len() == 32 && zero_bytes(s@),
{
    let _ = (secret_key, ciphertext);
    Ok(zeroed_vec(32))
}

/// Encrypt with AES-256-GCM under a 32-byte key. In-core placeholder: a
/// zeroed ciphertext of the plaintext's length with zeroed nonce and tag.
pub fn encrypt_aes256gcm(key: &[u8; 32], plaintext: &[u8], aad: &[u8]) -> (r: Result<
    EncryptedPayload,
    PolykitError,
>)
    ensures
        r matches Ok(p) && p.ciphertext@.len() == plaintext@.len() && zero_bytes(p.ciphertext@)
            && zero_bytes(p.nonce@) && zero_bytes(p.tag@),
{
    let _ = (key, aad);
    Ok(EncryptedPayload { ciphertext: zeroed_vec(plaintext.len()), nonce: [0; 12], tag: [0; 16] })
}

/// Decrypt with AES-256-GCM. In-core placeholder: an empty plaintext.
pub fn decrypt_aes256gcm(key: &[u8; 32], payload: &EncryptedPayload, aad: &[u8]) -> (r: Result<
    Vec<u8>,
    PolykitError,
>)
    ensures
        r matches Ok(p) && p@.len() == 0,
{
    let _ = (key, payload, aad);
    Ok(Vec::new())
}

/// SHA3-256 hash. In-core placeholder: the zeroed 32-byte digest.
pub fn hash_sha3_256(data: &[u8]) -> (r: [u8; 32])
    ensures
        zero_bytes(r@),
{
    let _ = data;
    [0; 32]
}

} // verus!
