//! REVOKE → PROPAGATE → RECEIPT: revocation is a first-class lifecycle
//! event that preserves provenance and does not rewrite history.

use crate::domain::AuthorityId;
use crate::identity::fresh_identity;
use crate::time::Timestamp;
use vstd::prelude::*;

verus! {

#[derive(Debug, Clone, Copy, PartialEq, Eq, Structural)]
pub enum RevocationReason {
    Explicit,
    Expired,
    Superseded,
    AuthorityChanged,
}

#[derive(Debug, Clone, Copy, PartialEq, Eq, Structural)]
pub enum PropagationStatus {
    Pending,
    Propagated,
    Blocked,
}

/// The revocation of an authority.
#[derive(Debug, Clone, PartialEq, Eq, Structural)]
pub struct RevocationReceipt {
    pub revocation_id: u128,
    pub authority_id: AuthorityId,
    pub reason: RevocationReason,
    pub occurred_at: Timestamp,
}

/// The propagation of a revocation to an execution.
#[derive(Debug, Clone, PartialEq, Eq, Structural)]
pub struct PropagationReceipt {
    pub propagation_id: u128,
    pub revocation_id: u128,
    pub target_execution_id: u128,
    pub status: PropagationStatus,
    pub observed_at: Timestamp,
}

/// Propagates a revocation to the execution `target_execution_id` under a
/// fresh propagation identity.
pub fn propagate(revocation: &RevocationReceipt, target_execution_id: u128, observed_at: Timestamp) -> (receipt: PropagationReceipt)
    ensures
        receipt.revocation_id == revocation.revocation_id,
        receipt.target_execution_id == target_execution_id,
        receipt.status == PropagationStatus::Propagated,
        receipt.observed_at == observed_at,
{
    propagate_with_id(revocation, target_execution_id, observed_at, fresh_identity())
}

/// Propagates a revocation under the given propagation identity: the
/// receipt preserves the revocation's identity and records it as propagated.
pub fn propagate_with_id(revocation: &RevocationReceipt, target_execution_id: u128, observed_at: Timestamp, propagation_id: u128) -> (receipt: PropagationReceipt)
    ensures
        receipt == (PropagationReceipt {
            propagation_id,
            revocation_id: revocation.revocation_id,
            target_execution_id,
            status: PropagationStatus::Propagated,
            observed_at,
        }),
{
    PropagationReceipt {
        propagation_id,
        revocation_id: revocation.revocation_id,
        target_execution_id,
        status: PropagationStatus::Propagated,
        observed_at,
    }
}

} // verus!
