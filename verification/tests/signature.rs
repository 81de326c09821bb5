use ed25519_dalek::{Signer, SigningKey};
use palaco_la::signature::SignatureRejected;
use palaco_la::{CanonicalBytes, CanonicalSigner, CanonicalVerifier, Signature};
use rand_core::OsRng;

#[test]
fn exact_bytes_are_signed_and_verified() {
    let signer = CanonicalSigner::from_key(SigningKey::generate(&mut OsRng).to_bytes());
    let bytes = CanonicalBytes::new(b"PALACO-PVB-011".to_vec());
    let signature = signer.sign(&bytes);
    let verifier = CanonicalVerifier::from_key(signer.verifying_key());

    assert!(verifier.verify(&bytes, &signature).is_ok());
}

#[test]
fn changed_bytes_fail_verification() {
    let signer = CanonicalSigner::from_key(SigningKey::generate(&mut OsRng).to_bytes());
    let original = CanonicalBytes::new(b"original".to_vec());
    let changed = CanonicalBytes::new(b"changed".to_vec());
    let signature = signer.sign(&original);
    let verifier = CanonicalVerifier::from_key(signer.verifying_key());

    assert!(verifier.verify(&changed, &signature).is_err());
}

#[test]
fn signing_matches_ed25519_dalek() {
    let key = SigningKey::from_bytes(&[7_u8; 32]);
    let signer = CanonicalSigner::from_key(key.to_bytes());
    let bytes = CanonicalBytes::new(b"exact".to_vec());
    assert_eq!(signer.sign(&bytes).to_bytes(), key.sign(b"exact").to_bytes());
    assert_eq!(signer.verifying_key(), key.verifying_key().to_bytes());
}

#[test]
fn invalid_key_or_signature_is_rejected() {
    let signer = CanonicalSigner::from_key([3_u8; 32]);
    let bytes = CanonicalBytes::new(b"bytes".to_vec());
    let forged = Signature::from_bytes([0_u8; 64]);
    let verifier = CanonicalVerifier::from_key(signer.verifying_key());
    assert_eq!(verifier.verify(&bytes, &forged), Err(SignatureRejected));
    let other = CanonicalVerifier::from_key(CanonicalSigner::from_key([4_u8; 32]).verifying_key());
    assert_eq!(other.verify(&bytes, &signer.sign(&bytes)), Err(SignatureRejected));
}
