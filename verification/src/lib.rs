//! Legal-authority (L.A.) core: the constitutional chain from question and
//! evidence to decision, authority, authorization, execution permit and
//! lifecycle, and the immutable, hash-chained and signed event history that
//! records it.
//!
//! ACCESS != AUTHORIZATION, DECISION != EXECUTION, SIGNATURE != AUTHORITY,
//! PROVENANCE != PERMISSION, UNKNOWN => FAIL CLOSED.

pub mod assessment;
pub mod authorization;
pub mod authorization_replay;
pub mod comet;
pub mod consequence;
pub mod decision;
pub mod domain;
pub mod event;
pub mod event_store;
pub mod execution;
mod identity;
pub mod lifecycle;
pub mod receipt;
pub mod replay;
pub mod revocation;
pub mod signature;
mod text;
pub mod time;
pub mod verification;

pub use authorization::{
    authorize, build_authorization_issued_event, AuthorizationEvaluation,
    AuthorizationEvaluationError, AUTHORIZATION_AGGREGATE_TYPE, AUTHORIZATION_ISSUED_EVENT_TYPE,
};
pub use authorization_replay::{
    replay_authorization_history, AuthorizationInvalidatedPayload, AuthorizationIssuedPayload,
    AuthorizationReplay, AuthorizationReplayError, DecodedAuthorizationPayload,
};
pub use comet::{
    apply_invalidation as apply_comet_invalidation, build_authorization_invalidation_event,
    propagate_revocation as propagate_comet_revocation, AuthorizationInvalidation, CometError,
    CometPropagationStatus, AUTHORIZATION_INVALIDATED_EVENT_TYPE,
};
pub use consequence::{ConsequenceReceipt, Reassessment, ReassessmentTrigger};
pub use domain::{
    AuthorityId, AuthorizationId, AuthorizationStatus, DecisionId, EvidenceId, QuestionId,
};
pub use event::{AggregateId, EventEnvelope, EventId, SchemaVersion, Sequence};
pub use event_store::EventStoreError;
pub use execution::{gate as execution_gate, ExecutionGateError, ExecutionPermit, ExecutionRequest};
pub use lifecycle::{evaluate as evaluate_execution_lifecycle, ExecutionDisposition, LifecycleReason};
pub use receipt::{ExecutionReceipt, ExecutionStatus, ObservationReceipt};
pub use replay::{verify_history, ReplayError};
pub use revocation::{
    propagate as propagate_revocation, PropagationReceipt, PropagationStatus, RevocationReason,
    RevocationReceipt,
};
pub use signature::{CanonicalSigner, CanonicalVerifier, Signature};
pub use time::Timestamp;
pub use verification::{CanonicalBytes, Sha256Digest};
