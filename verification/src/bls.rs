//! Fixed-size BLS value records and their destroy operations.
//!
//! These records carry only inline byte arrays - no boundary-owned
//! allocation - so destroying one is consuming it: the single "close"
//! operation after which the caller must not read the record again.

use vstd::prelude::*;

verus! {

/// A 96-byte BLS message digest (a curve point in compressed form).
#[derive(Clone, Copy, Debug)]
pub struct cess_BLSDigest {
    pub inner: [u8; 96],
}

/// A 96-byte BLS signature.
#[derive(Clone, Copy, Debug)]
pub struct cess_BLSSignature {
    pub inner: [u8; 96],
}

/// A 32-byte BLS private key.
#[derive(Clone, Copy, Debug)]
pub struct cess_BLSPrivateKey {
    pub inner: [u8; 32],
}

/// A 48-byte BLS public key.
#[derive(Clone, Copy, Debug)]
pub struct cess_BLSPublicKey {
    pub inner: [u8; 48],
}

/// Digest of a hashed message.
pub struct cess_HashResponse {
    pub digest: cess_BLSDigest,
}

/// Consume a hash response.  The record holds no boundary allocation,
/// so giving up ownership is the whole release.
pub fn cess_destroy_hash_response(r: cess_HashResponse) {
    let _ = r;
}

/// Signature aggregated from a set of signatures.
pub struct cess_AggregateResponse {
    pub signature: cess_BLSSignature,
}

/// Consume an aggregate-signature response.
pub fn cess_destroy_aggregate_response(r: cess_AggregateResponse) {
    let _ = r;
}

/// A freshly generated private key.
pub struct cess_PrivateKeyGenerateResponse {
    pub private_key: cess_BLSPrivateKey,
}

/// Consume a private-key-generation response.
pub fn cess_destroy_private_key_generate_response(r: cess_PrivateKeyGenerateResponse) {
    let _ = r;
}

/// Signature produced with a private key.
pub struct cess_PrivateKeySignResponse {
    pub signature: cess_BLSSignature,
}

/// Consume a signing response.
pub fn cess_destroy_private_key_sign_response(r: cess_PrivateKeySignResponse) {
    let _ = r;
}

/// Public key derived from a private key.
pub struct cess_PrivateKeyPublicKeyResponse {
    pub public_key: cess_BLSPublicKey,
}

/// Consume a public-key-derivation response.
pub fn cess_destroy_private_key_public_key_response(r: cess_PrivateKeyPublicKeyResponse) {
    let _ = r;
}

/// The zero signature.
pub struct cess_ZeroSignatureResponse {
    pub signature: cess_BLSSignature,
}

/// Consume a zero-signature response.
pub fn cess_destroy_zero_signature_response(r: cess_ZeroSignatureResponse) {
    let _ = r;
}

} // verus!
