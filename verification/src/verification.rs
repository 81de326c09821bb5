//! Exact canonical bytes and their SHA-256 digest.

use sha2::Digest;
use vstd::prelude::*;

verus! {

/// The SHA-256 digest of a byte sequence, as computed by the `sha2` crate.
pub uninterp spec fn sha256_of(bytes: Seq<u8>) -> Seq<u8>;

/// Computes SHA-256 over `bytes` with `sha2::Sha256::digest`.
///
/// Trusted: the 32 returned bytes are `sha256_of(bytes@)`, a function of the
/// input bytes alone. Nothing else (in particular no collision resistance) is
/// claimed of the digest.
#[verifier::external_body]
fn sha256(bytes: &[u8]) -> (digest: [u8; 32])
    ensures
        digest@ == sha256_of(bytes@),
{
    sha2::Sha256::digest(bytes).into()
}

/// The exact byte sequence that is hashed, signed and verified.
#[derive(Debug, Clone, PartialEq, Eq)]
pub struct CanonicalBytes(Vec<u8>);

impl View for CanonicalBytes {
    type V = Seq<u8>;

    closed spec fn view(&self) -> Seq<u8> {
        self.0@
    }
}

impl CanonicalBytes {
    pub fn new(bytes: Vec<u8>) -> (result: Self)
        ensures
            result@ == bytes@,
    {
        CanonicalBytes(bytes)
    }

    pub fn as_slice(&self) -> (bytes: &[u8])
        ensures
            bytes@ == self@,
    {
        self.0.as_slice()
    }
}

/// A SHA-256 digest: exactly 32 bytes.
#[derive(Debug, Clone, Copy, PartialEq, Eq)]
pub struct Sha256Digest([u8; 32]);

impl View for Sha256Digest {
    type V = Seq<u8>;

    closed spec fn view(&self) -> Seq<u8> {
        self.0@
    }
}

/// Spec equality of two optional digests, compared by their bytes.
pub open spec fn same_optional_digest(a: Option<Sha256Digest>, b: Option<Sha256Digest>) -> bool {
    match (a, b) {
        (None, None) => true,
        (Some(x), Some(y)) => x@ == y@,
        _ => false,
    }
}

impl Sha256Digest {
    /// The digest of the exact canonical bytes.
    pub fn calculate(bytes: &CanonicalBytes) -> (digest: Self)
        ensures
            digest@ == sha256_of(bytes@),
    {
        Sha256Digest(sha256(bytes.as_slice()))
    }

    pub fn from_bytes(bytes: [u8; 32]) -> (digest: Self)
        ensures
            digest@ == bytes@,
    {
        Sha256Digest(bytes)
    }

    pub fn as_bytes(&self) -> (bytes: &[u8; 32])
        ensures
            bytes@ == self@,
    {
        &self.0
    }

    /// Byte-wise comparison of two digests.
    pub fn same_as(&self, other: &Sha256Digest) -> (same: bool)
        ensures
            same == (self@ == other@),
    {
        let mut i: usize = 0;
        while i < 32
            invariant
                0 <= i <= 32,
                self@.len() == 32,
                other@.len() == 32,
                forall|j: int| 0 <= j < i ==> self@[j] == other@[j],
            decreases 32 - i,
        {
            if self.0[i] != other.0[i] {
                assert(self@[i as int] != other@[i as int]);
                return false;
            }
            i = i + 1;
        }
        assert(self@ =~= other@);
        true
    }
}

/// Compares two optional digests byte-wise.
pub fn same_optional(a: &Option<Sha256Digest>, b: &Option<Sha256Digest>) -> (same: bool)
    ensures
        same == same_optional_digest(*a, *b),
{
    match (a, b) {
        (None, None) => true,
        (Some(x), Some(y)) => x.same_as(y),
        _ => false,
    }
}

/// A digest depends on the exact bytes alone: equal byte sequences give
/// equal digests.
pub proof fn digest_is_deterministic(a: CanonicalBytes, b: CanonicalBytes)
    requires
        a@ == b@,
    ensures
        sha256_of(a@) == sha256_of(b@),
{
}

} // verus!
