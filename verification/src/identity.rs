//! SPARK identity helpers.
//!
//! Each Poly app derives isolated keys from the SPARK master seed through a
//! per-app derivation context. The key-derivation primitives run in the
//! host kernel; within this core they are placeholders returning zeroed
//! material of the correct shapes, and the derivation logic around them —
//! seed validation, key splitting, user-id truncation, topic formatting —
//! is verified against exact contracts.

use vstd::prelude::*;
use vstd::slice::slice_subrange;
use vstd::string::{StrSliceExecFns, StringExecFns};
use crate::crypto::{zero_bytes, zeroed_vec};
use crate::encoding::{hex_encode, hex_of};
use crate::error::PolykitError;

verus! {

/// Application identity context, created once per app.
#[derive(Debug, Clone)]
pub struct AppContext {
    /// Application identifier (for example "polydata").
    pub app_id: String,
    /// HKDF derivation context string (for example "poly-data-v1").
    pub hkdf_context: String,
    /// Lex namespace for stream topics (for example "polylabs.data").
    pub lex_namespace: String,
}

/// Derived identity of a user within one app; every field is a
/// deterministic function of the master seed and the app context.
#[derive(Debug, Clone)]
pub struct DerivedIdentity {
    /// Truncated hash of the signing public key (16 bytes).
    pub user_id: [u8; 16],
    /// ML-DSA-87 signing key pair.
    pub signing_public_key: Vec<u8>,
    pub signing_secret_key: Vec<u8>,
    /// ML-KEM-1024 encryption key pair.
    pub encryption_public_key: Vec<u8>,
    pub encryption_secret_key: Vec<u8>,
}

/// Create an app context; the entry point for identity in any Poly app.
pub fn create_app_context(app_id: &str, hkdf_context: &str, lex_namespace: &str) -> (r:
    AppContext)
    ensures
        r.app_id@ == app_id@,
        r.hkdf_context@ == hkdf_context@,
        r.lex_namespace@ == lex_namespace@,
{
    AppContext {
        app_id: app_id.to_owned(),
        hkdf_context: hkdf_context.to_owned(),
        lex_namespace: lex_namespace.to_owned(),
    }
}

/// Derive a user identity from the SPARK master seed and an app context.
/// Fails exactly when the seed is shorter than 32 bytes; the key material
/// comes from the in-core placeholder primitives, so it is zeroed and of
/// the ML-DSA-87 / ML-KEM-1024 sizes.
pub fn derive_identity(master_seed: &[u8], ctx: &AppContext) -> (r: Result<
    DerivedIdentity,
    PolykitError,
>)
    ensures
        r is Ok <==> master_seed@.len() >= 32,
        r matches Ok(id) ==> {
            &&& zero_bytes(id.user_id@)
            &&& id.signing_public_key@.len() == 2592 && zero_bytes(id.signing_public_key@)
            &&& id.signing_secret_key@.len() == 4896 && zero_bytes(id.signing_secret_key@)
            &&& id.encryption_public_key@.len() == 1568 && zero_bytes(id.encryption_public_key@)
            &&& id.encryption_secret_key@.len() == 3168 && zero_bytes(id.encryption_secret_key@)
        },
        r matches Err(e) ==> e matches PolykitError::IdentityDerivation(m) && m@
            == "master_seed must be at least 32 bytes"@,
{
    if master_seed.len() < 32 {
        return Err(
            PolykitError::IdentityDerivation("master_seed must be at least 32 bytes".to_owned()),
        );
    }
    // HKDF expand with the app-specific context: 32 bytes of signing seed
    // followed by 32 bytes of encryption seed.
    let derived_key_material = hkdf_sha3_256_expand(
        master_seed,
        ctx.hkdf_context.as_str().as_bytes(),
        64,
    )?;
    let signing_seed = slice_subrange(derived_key_material.as_slice(), 0, 32);
    let encryption_seed = slice_subrange(derived_key_material.as_slice(), 32, 64);
    let (signing_pk, signing_sk) = ml_dsa_87_keygen_from_seed(signing_seed)?;
    let (encryption_pk, encryption_sk) = ml_kem_1024_keygen_from_seed(encryption_seed)?;
    // The user id is the truncated hash of the signing public key.
    let pk_hash = sha3_256(signing_pk.as_slice());
    let mut user_id: [u8; 16] = [0; 16];
    let mut i: usize = 0;
    while i < 16
        invariant
            i <= 16,
            forall|j: int| 0 <= j < i ==> user_id@[j] == pk_hash@[j],
            forall|j: int| i <= j < 16 ==> user_id@[j] == 0,
            zero_bytes(pk_hash@),
        decreases 16 - i,
    {
        user_id[i] = pk_hash[i];
        i += 1;
    }
    Ok(
        DerivedIdentity {
            user_id,
            signing_public_key: signing_pk,
            signing_secret_key: signing_sk,
            encryption_public_key: encryption_pk,
            encryption_secret_key: encryption_sk,
        },
    )
}

/// Format a per-user lex stream topic: `namespace.userhex.suffix`.
pub fn format_user_topic(ctx: &AppContext, user_id: &[u8; 16], suffix: &str) -> (r: String)
    ensures
        r@ == ctx.lex_namespace@ + "."@ + hex_of(user_id@) + "."@ + suffix@,
{
    let user_hex = hex_encode(user_id.as_slice());
    let mut out = ctx.lex_namespace.clone();
    out.append(".");
    out.append(user_hex.as_str());
    out.append(".");
    out.append(suffix);
    out
}

/// Format a global (non-user-specific) lex stream topic.
pub fn format_global_topic(ctx: &AppContext, suffix: &str) -> (r: String)
    ensures
        r@ == "lex://estream/apps/"@ + ctx.lex_namespace@ + "/"@ + suffix@,
{
    let mut out = String::from_str("lex://estream/apps/");
    out.append(ctx.lex_namespace.as_str());
    out.append("/");
    out.append(suffix);
    out
}

/// HKDF-SHA3-256 expand. In-core placeholder for the host kernel primitive:
/// zeroed key material of the requested length.
fn hkdf_sha3_256_expand(ikm: &[u8], info: &[u8], len: usize) -> (r: Result<
    Vec<u8>,
    PolykitError,
>)
    ensures
        r matches Ok(k) && k@.len() == len && zero_bytes(k@),
{
    let _ = (ikm, info);
    Ok(zeroed_vec(len))
}

/// ML-DSA-87 deterministic key generation. In-core placeholder: zeroed
/// public and secret keys of the ML-DSA-87 sizes.
fn ml_dsa_87_keygen_from_seed(seed: &[u8]) -> (r: Result<(Vec<u8>, Vec<u8>), PolykitError>)
    ensures
        r matches Ok(ks) && ks.0@.len() == 2592 && zero_bytes(ks.0@) && ks.1@.len() == 4896
            && zero_bytes(ks.1@),
{
    let _ = seed;
    Ok((zeroed_vec(2592), zeroed_vec(4896)))
}

/// ML-KEM-1024 deterministic key generation. In-core placeholder: zeroed
/// public and secret keys of the ML-KEM-1024 sizes.
fn ml_kem_1024_keygen_from_seed(seed: &[u8]) -> (r: Result<(Vec<u8>, Vec<u8>), PolykitError>)
    ensures
        r matches Ok(ks) && ks.0@.len() == 1568 && zero_bytes(ks.0@) && ks.1@.len() == 3168
            && zero_bytes(ks.1@),
{
    let _ = seed;
    Ok((zeroed_vec(1568), zeroed_vec(3168)))
}

/// SHA3-256. In-core placeholder: the zeroed 32-byte digest.
fn sha3_256(data: &[u8]) -> (r: [u8; 32])
    ensures
        zero_bytes(r@),
{
    let _ = data;
    [0; 32]
}

} // verus!
