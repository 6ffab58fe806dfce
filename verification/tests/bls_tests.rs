use cess_ffi::bls::{
    cess_destroy_aggregate_response, cess_destroy_hash_response,
    cess_destroy_private_key_generate_response, cess_destroy_private_key_public_key_response,
    cess_destroy_private_key_sign_response, cess_destroy_zero_signature_response,
    cess_AggregateResponse, cess_BLSDigest, cess_BLSPrivateKey, cess_BLSPublicKey,
    cess_BLSSignature, cess_HashResponse, cess_PrivateKeyGenerateResponse,
    cess_PrivateKeyPublicKeyResponse, cess_PrivateKeySignResponse, cess_ZeroSignatureResponse,
};

#[test]
fn hash_response_holds_digest_and_is_destroyable() {
    let r = cess_HashResponse { digest: cess_BLSDigest { inner: [3u8; 96] } };
    assert_eq!(r.digest.inner, [3u8; 96]);
    cess_destroy_hash_response(r);
}

#[test]
fn aggregate_response_holds_signature_and_is_destroyable() {
    let r = cess_AggregateResponse { signature: cess_BLSSignature { inner: [5u8; 96] } };
    assert_eq!(r.signature.inner[0], 5);
    cess_destroy_aggregate_response(r);
}

#[test]
fn private_key_generate_response_is_destroyable() {
    let r = cess_PrivateKeyGenerateResponse {
        private_key: cess_BLSPrivateKey { inner: [9u8; 32] },
    };
    assert_eq!(r.private_key.inner, [9u8; 32]);
    cess_destroy_private_key_generate_response(r);
}

#[test]
fn private_key_sign_response_is_destroyable() {
    let r = cess_PrivateKeySignResponse { signature: cess_BLSSignature { inner: [1u8; 96] } };
    assert_eq!(r.signature.inner[95], 1);
    cess_destroy_private_key_sign_response(r);
}

#[test]
fn private_key_public_key_response_is_destroyable() {
    let r = cess_PrivateKeyPublicKeyResponse {
        public_key: cess_BLSPublicKey { inner: [2u8; 48] },
    };
    assert_eq!(r.public_key.inner, [2u8; 48]);
    cess_destroy_private_key_public_key_response(r);
}

#[test]
fn zero_signature_response_is_destroyable() {
    let r = cess_ZeroSignatureResponse { signature: cess_BLSSignature { inner: [0u8; 96] } };
    assert_eq!(r.signature.inner, [0u8; 96]);
    cess_destroy_zero_signature_response(r);
}
