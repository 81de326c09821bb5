//! EXECUTION PERMIT → EXECUTION RECEIPT → OBSERVATION.

use crate::domain::AuthorizationId;
use crate::execution::{copy_request, ExecutionPermit, ExecutionRequest};
use crate::text::is_blank;
use crate::time::Timestamp;
use vstd::prelude::*;

verus! {

#[derive(Debug, Clone, Copy, PartialEq, Eq, Structural)]
pub enum ExecutionStatus {
    NotStarted,
    Started,
    Completed,
    Failed,
    Partial,
    Cancelled,
    Unknown,
}

/// What happened to an authorized execution request. It does not create
/// authority and does not prove that the outcome was achieved.
#[derive(Debug, Clone, PartialEq, Eq)]
pub struct ExecutionReceipt {
    pub execution_id: u128,
    pub authorization_id: AuthorizationId,
    pub request: ExecutionRequest,
    pub status: ExecutionStatus,
    pub started_at: Option<Timestamp>,
    pub completed_at: Option<Timestamp>,
    pub outcome: Option<String>,
}

impl ExecutionReceipt {
    /// A receipt bound to the permit's authorization and request, not yet
    /// started.
    pub fn from_permit(execution_id: u128, permit: &ExecutionPermit) -> (receipt: Self)
        ensures
            receipt.execution_id == execution_id,
            receipt.authorization_id == permit@.authorization_id,
            receipt.request@ == permit@.request@,
            receipt.status == ExecutionStatus::NotStarted,
            receipt.started_at is None,
            receipt.completed_at is None,
            receipt.outcome is None,
    {
        ExecutionReceipt {
            execution_id,
            authorization_id: permit.authorization_id(),
            request: copy_request(permit.request()),
            status: ExecutionStatus::NotStarted,
            started_at: None,
            completed_at: None,
            outcome: None,
        }
    }
}

/// An observed post-execution state and its provenance basis.
#[derive(Debug, Clone, PartialEq, Eq)]
pub struct ObservationReceipt {
    pub observation_id: u128,
    pub execution_id: u128,
    pub observed_at: Timestamp,
    pub source: String,
    pub method: String,
    pub before_state: String,
    pub after_state: String,
    pub evidence: Vec<u128>,
    pub contradictions: Vec<String>,
}

impl ObservationReceipt {
    /// Usable only with a source and an observation method.
    pub fn is_usable(&self) -> (usable: bool)
        ensures
            usable == (self.source@.len() > 0 && self.method@.len() > 0),
    {
        !is_blank(&self.source) && !is_blank(&self.method)
    }
}

} // verus!
