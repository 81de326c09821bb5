//! PVB-011 signing and verification boundary: what is signed is exactly what
//! is verified. A valid signature proves the integrity and origin of the
//! bytes; it does not grant authority or permission.

use crate::verification::CanonicalBytes;
use ed25519_dalek::{Signer, Verifier};
use vstd::prelude::*;

verus! {

#[verifier::external_type_specification]
#[verifier::external_body]
pub struct ExSignatureError(ed25519_dalek::SignatureError);

/// The Ed25519 verifying (public) key of a secret key, per `ed25519_dalek`.
pub uninterp spec fn ed25519_public_key_of(secret_key: Seq<u8>) -> Seq<u8>;

/// The Ed25519 signature of a message under a secret key, per `ed25519_dalek`.
pub uninterp spec fn ed25519_signature_of(secret_key: Seq<u8>, message: Seq<u8>) -> Seq<u8>;

/// Whether `ed25519_dalek` accepts a signature of a message under the
/// public key bytes: the bytes decode to a key and the signature verifies.
pub uninterp spec fn ed25519_accepts(public_key: Seq<u8>, message: Seq<u8>, signature: Seq<u8>) -> bool;

/// Signs with `SigningKey::from_bytes(secret_key).sign(message)`.
///
/// Trusted: the signature is a function of the secret key and the message
/// alone (Ed25519 signing is deterministic), and, by Ed25519 correctness, the
/// key's own verifying key accepts it for that message.
#[verifier::external_body]
fn ed25519_sign(secret_key: &[u8; 32], message: &[u8]) -> (signature: [u8; 64])
    ensures
        signature@ == ed25519_signature_of(secret_key@, message@),
        ed25519_accepts(ed25519_public_key_of(secret_key@), message@, signature@),
{
    ed25519_dalek::SigningKey::from_bytes(secret_key).sign(message).to_bytes()
}

/// Derives the verifying key with `SigningKey::from_bytes(secret_key).verifying_key()`.
///
/// Trusted: the key bytes are a function of the secret key alone.
#[verifier::external_body]
fn ed25519_public_key(secret_key: &[u8; 32]) -> (public_key: [u8; 32])
    ensures
        public_key@ == ed25519_public_key_of(secret_key@),
{
    ed25519_dalek::SigningKey::from_bytes(secret_key).verifying_key().to_bytes()
}

/// Verifies with `VerifyingKey::from_bytes(public_key)` and `Verifier::verify`.
///
/// Trusted: the outcome is a function of the key, the message and the
/// signature alone. Nothing is said of which signatures are accepted beyond
/// the correctness fact stated by `ed25519_sign`.
#[verifier::external_body]
fn ed25519_verify(public_key: &[u8; 32], message: &[u8], signature: &[u8; 64]) -> (outcome: Result<(), ed25519_dalek::SignatureError>)
    ensures
        outcome is Ok == ed25519_accepts(public_key@, message@, signature@),
{
    match ed25519_dalek::VerifyingKey::from_bytes(public_key) {
        Ok(key) => key.verify(message, &ed25519_dalek::Signature::from_bytes(signature)),
        Err(error) => Err(error),
    }
}

/// An Ed25519 signature: exactly 64 bytes.
#[derive(Debug, Clone, Copy, PartialEq, Eq)]
pub struct Signature([u8; 64]);

impl View for Signature {
    type V = Seq<u8>;

    closed spec fn view(&self) -> Seq<u8> {
        self.0@
    }
}

impl Signature {
    pub fn from_bytes(bytes: [u8; 64]) -> (signature: Self)
        ensures
            signature@ == bytes@,
    {
        Signature(bytes)
    }

    pub fn to_bytes(&self) -> (bytes: [u8; 64])
        ensures
            bytes@ == self@,
    {
        self.0
    }
}

/// The signature did not verify against the bytes.
#[derive(Debug, Clone, Copy, PartialEq, Eq, Structural)]
pub struct SignatureRejected;

/// Signs exact canonical bytes with an Ed25519 secret key.
pub struct CanonicalSigner {
    key: [u8; 32],
}

impl View for CanonicalSigner {
    type V = Seq<u8>;

    /// The secret key bytes.
    closed spec fn view(&self) -> Seq<u8> {
        self.key@
    }
}

impl CanonicalSigner {
    /// A signer for the Ed25519 secret key bytes.
    pub fn from_key(key: [u8; 32]) -> (signer: Self)
        ensures
            signer@ == key@,
    {
        CanonicalSigner { key }
    }

    /// Signs exactly `bytes`; the signer's own verifying key accepts the
    /// signature for exactly those bytes.
    pub fn sign(&self, bytes: &CanonicalBytes) -> (signature: Signature)
        ensures
            signature@ == ed25519_signature_of(self@, bytes@),
            ed25519_accepts(ed25519_public_key_of(self@), bytes@, signature@),
    {
        Signature(ed25519_sign(&self.key, bytes.as_slice()))
    }

    /// The verifying key bytes of the signer.
    pub fn verifying_key(&self) -> (public_key: [u8; 32])
        ensures
            public_key@ == ed25519_public_key_of(self@),
    {
        ed25519_public_key(&self.key)
    }
}

/// Verifies signatures against exact canonical bytes under one public key.
pub struct CanonicalVerifier {
    key: [u8; 32],
}

impl View for CanonicalVerifier {
    type V = Seq<u8>;

    /// The public key bytes.
    closed spec fn view(&self) -> Seq<u8> {
        self.key@
    }
}

impl CanonicalVerifier {
    /// A verifier for the Ed25519 public key bytes.
    pub fn from_key(key: [u8; 32]) -> (verifier: Self)
        ensures
            verifier@ == key@,
    {
        CanonicalVerifier { key }
    }

    /// Verifies `signature` against exactly `bytes`.
    pub fn verify(&self, bytes: &CanonicalBytes, signature: &Signature) -> (outcome: Result<(), SignatureRejected>)
        ensures
            outcome is Ok == ed25519_accepts(self@, bytes@, signature@),
    {
        match ed25519_verify(&self.key, bytes.as_slice(), &signature.0) {
            Ok(()) => Ok(()),
            Err(_) => Err(SignatureRejected),
        }
    }
}

} // verus!
