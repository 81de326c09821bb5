//! Fresh random identities.

use vstd::prelude::*;

verus! {

/// A fresh version-4 UUID from `uuid::Uuid::new_v4`, as its 128-bit value.
///
/// Trusted only to return; its value is random and nothing is said of it.
#[verifier::external_body]
pub(crate) fn fresh_identity() -> (id: u128) {
    uuid::Uuid::new_v4().as_u128()
}

} // verus!
