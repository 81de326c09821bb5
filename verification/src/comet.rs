//! COMET: authority revocation propagates to every authorization bound to
//! that authority. COMET invalidates; it never creates authority or expands
//! scope, and invalidation is new history.

use crate::authorization::AUTHORIZATION_AGGREGATE_TYPE;
use crate::domain::{
    copy_scope, Authority, AuthorityId, Authorization, AuthorizationId, AuthorizationStatus,
    AuthorizationView,
};
use crate::event::{AggregateId, EventEnvelope, EventId, SchemaVersion, Sequence};
use crate::execution::{gate_error, ExecutionRequest};
use crate::identity::fresh_identity;
use crate::lifecycle::{lifecycle_outcome, ExecutionDisposition};
use crate::replay::content_error;
use crate::revocation::RevocationReceipt;
use crate::signature::{ed25519_public_key_of, ed25519_signature_of, CanonicalSigner};
use crate::time::{current_time, is_event_instant, normalized, Timestamp};
use crate::verification::{sha256_of, CanonicalBytes, Sha256Digest};
use vstd::prelude::*;

verus! {

/// The event type of an authorization's invalidation.
pub const AUTHORIZATION_INVALIDATED_EVENT_TYPE: &'static str = "AuthorizationInvalidated";

#[derive(Debug, Clone, Copy, PartialEq, Eq, Structural)]
pub enum CometPropagationStatus {
    Propagated,
    Blocked,
    AlreadyRevoked,
}

/// The invalidation of one authorization by the revocation of its authority.
#[derive(Debug, Clone, PartialEq, Eq, Structural)]
pub struct AuthorizationInvalidation {
    pub propagation_id: u128,
    pub revocation_id: u128,
    pub authority_id: AuthorityId,
    pub authorization_id: AuthorizationId,
    pub status: AuthorizationStatus,
    pub observed_at: Timestamp,
}

#[derive(Debug, Clone, PartialEq, Eq, Structural)]
pub enum CometError {
    AuthorityMismatch,
}

/// The invalidation a revocation owes to an authorization bound to the
/// revoked authority, under the given propagation identity.
pub open spec fn invalidation_of(revocation: RevocationReceipt, authorization: Authorization, observed_at: Timestamp, propagation_id: u128) -> AuthorizationInvalidation {
    AuthorizationInvalidation {
        propagation_id,
        revocation_id: revocation.revocation_id,
        authority_id: revocation.authority_id,
        authorization_id: authorization.id,
        status: AuthorizationStatus::Revoked,
        observed_at,
    }
}

/// Propagates the revocation of an authority to an authorization bound to
/// it, under a fresh propagation identity; an authorization bound to another
/// authority blocks propagation.
pub fn propagate_revocation(revocation: &RevocationReceipt, authorization: &Authorization, observed_at: Timestamp) -> (result: Result<AuthorizationInvalidation, CometError>)
    ensures
        authorization.authority_id != revocation.authority_id
            ==> result == Err::<AuthorizationInvalidation, CometError>(CometError::AuthorityMismatch),
        authorization.authority_id == revocation.authority_id ==> (result matches Ok(invalidation)
            && invalidation == invalidation_of(*revocation, *authorization, observed_at, invalidation.propagation_id)),
        result matches Ok(invalidation) ==> {
            &&& invalidation.revocation_id == revocation.revocation_id
            &&& invalidation.authority_id == revocation.authority_id
            &&& invalidation.authority_id == authorization.authority_id
            &&& invalidation.authorization_id == authorization.id
            &&& invalidation.status == AuthorizationStatus::Revoked
            &&& invalidation.observed_at == observed_at
        },
{
    if authorization.authority_id != revocation.authority_id {
        return Err(CometError::AuthorityMismatch);
    }
    propagate_revocation_with_id(revocation, authorization, observed_at, fresh_identity())
}

/// Propagates the revocation under the given propagation identity.
pub fn propagate_revocation_with_id(revocation: &RevocationReceipt, authorization: &Authorization, observed_at: Timestamp, propagation_id: u128) -> (result: Result<AuthorizationInvalidation, CometError>)
    ensures
        authorization.authority_id != revocation.authority_id
            ==> result == Err::<AuthorizationInvalidation, CometError>(CometError::AuthorityMismatch),
        authorization.authority_id == revocation.authority_id
            ==> result == Ok::<AuthorizationInvalidation, CometError>(invalidation_of(*revocation, *authorization, observed_at, propagation_id)),
        result matches Ok(invalidation) ==> {
            &&& invalidation.revocation_id == revocation.revocation_id
            &&& invalidation.authority_id == revocation.authority_id
            &&& invalidation.authority_id == authorization.authority_id
            &&& invalidation.authorization_id == authorization.id
            &&& invalidation.status == AuthorizationStatus::Revoked
            &&& invalidation.observed_at == observed_at
        },
        result matches Ok(invalidation) ==> invalidation.propagation_id == propagation_id,
{
    if authorization.authority_id != revocation.authority_id {
        return Err(CometError::AuthorityMismatch);
    }

    Ok(AuthorizationInvalidation {
        propagation_id,
        revocation_id: revocation.revocation_id,
        authority_id: revocation.authority_id,
        authorization_id: authorization.id,
        status: AuthorizationStatus::Revoked,
        observed_at,
    })
}

/// An authorization after an invalidation: revoked when the invalidation
/// names it and its authority and carries `Revoked`, unchanged otherwise.
pub open spec fn invalidated(authorization: AuthorizationView, invalidation: AuthorizationInvalidation) -> AuthorizationView {
    if authorization.id == invalidation.authorization_id
        && authorization.authority_id == invalidation.authority_id
        && invalidation.status == AuthorizationStatus::Revoked
    {
        AuthorizationView { status: AuthorizationStatus::Revoked, ..authorization }
    } else {
        authorization
    }
}

/// Applies an invalidation to an authorization, as a new value.
pub fn apply_invalidation(authorization: &Authorization, invalidation: &AuthorizationInvalidation) -> (result: Authorization)
    ensures
        result@ == invalidated(authorization@, *invalidation),
{
    let status = if authorization.id == invalidation.authorization_id
        && authorization.authority_id == invalidation.authority_id
        && invalidation.status == AuthorizationStatus::Revoked
    {
        AuthorizationStatus::Revoked
    } else {
        authorization.status
    };
    Authorization {
        id: authorization.id,
        decision_id: authorization.decision_id,
        authority_id: authorization.authority_id,
        scope: copy_scope(&authorization.scope),
        status,
    }
}

/// Frames an invalidation as a signed event of the authorization's
/// aggregate: the event identity is the propagation identity, the authority
/// reference is the revoked authority, the event occurred when the
/// invalidation was observed, and `payload` (its canonical invalidation
/// payload) is signed exactly as given. It is recorded at the current time.
#[allow(clippy::too_many_arguments)]
pub fn build_authorization_invalidation_event(
    invalidation: &AuthorizationInvalidation,
    payload: CanonicalBytes,
    aggregate_id: AggregateId,
    sequence: Sequence,
    actor_id: u128,
    correlation_id: Option<u128>,
    causation_id: Option<EventId>,
    previous_event_hash: Option<Sha256Digest>,
    provenance: u128,
    signer: &CanonicalSigner,
) -> (event: EventEnvelope)
    ensures
        event.event_id == EventId(invalidation.propagation_id),
        event.event_type@ == AUTHORIZATION_INVALIDATED_EVENT_TYPE@,
        event.aggregate_id == aggregate_id,
        event.aggregate_type@ == AUTHORIZATION_AGGREGATE_TYPE@,
        event.sequence == sequence,
        event.occurred_at == normalized(invalidation.observed_at),
        is_event_instant(event.recorded_at),
        event.actor_id == actor_id,
        event.authority_reference == Some(invalidation.authority_id.0),
        event.correlation_id == correlation_id,
        event.causation_id == causation_id,
        event.payload == payload,
        event.payload_hash@ == sha256_of(payload@),
        event.previous_event_hash == previous_event_hash,
        event.schema_version == SchemaVersion(1),
        event.provenance == provenance,
        event.signature@ == ed25519_signature_of(signer@, payload@),
        content_error(event, ed25519_public_key_of(signer@)) is None,
{
    let signature = signer.sign(&payload);
    let recorded_at = current_time();
    EventEnvelope::new(
        EventId::new(invalidation.propagation_id),
        AUTHORIZATION_INVALIDATED_EVENT_TYPE.to_owned(),
        aggregate_id,
        AUTHORIZATION_AGGREGATE_TYPE.to_owned(),
        sequence,
        invalidation.observed_at,
        recorded_at,
        actor_id,
        Some(invalidation.authority_id.value()),
        correlation_id,
        causation_id,
        payload,
        previous_event_hash,
        SchemaVersion(1),
        provenance,
        signature,
    )
}

/// The invalidation a revocation owes names the revocation, the revoked
/// authority and the authorization, carries `Revoked`, and records the
/// moment it was observed, not the moment the revocation occurred.
pub proof fn invalidation_records_observation_time(revocation: RevocationReceipt, authorization: Authorization, observed_at: Timestamp, propagation_id: u128)
    ensures
        invalidation_of(revocation, authorization, observed_at, propagation_id).propagation_id == propagation_id,
        invalidation_of(revocation, authorization, observed_at, propagation_id).revocation_id == revocation.revocation_id,
        invalidation_of(revocation, authorization, observed_at, propagation_id).authority_id == revocation.authority_id,
        invalidation_of(revocation, authorization, observed_at, propagation_id).authorization_id == authorization.id,
        invalidation_of(revocation, authorization, observed_at, propagation_id).status == AuthorizationStatus::Revoked,
        invalidation_of(revocation, authorization, observed_at, propagation_id).observed_at == observed_at,
{
}

/// COMET never creates authority nor expands scope: an invalidation keeps
/// every identity and the scope of the authorization, and can only leave its
/// status or set it to `Revoked`.
pub proof fn invalidation_preserves_identity_and_scope(authorization: AuthorizationView, invalidation: AuthorizationInvalidation)
    ensures
        invalidated(authorization, invalidation).id == authorization.id,
        invalidated(authorization, invalidation).decision_id == authorization.decision_id,
        invalidated(authorization, invalidation).authority_id == authorization.authority_id,
        invalidated(authorization, invalidation).scope == authorization.scope,
        invalidated(authorization, invalidation).status == authorization.status
            || invalidated(authorization, invalidation).status == AuthorizationStatus::Revoked,
{
}

/// Applying the same invalidation twice is applying it once.
pub proof fn invalidation_is_idempotent(authorization: AuthorizationView, invalidation: AuthorizationInvalidation)
    ensures
        invalidated(invalidated(authorization, invalidation), invalidation) == invalidated(authorization, invalidation),
{
}

/// AUTHORITY REVOCATION => AUTHORIZATION INVALIDATION: the invalidation that
/// a revocation propagates to an authorization bound to the revoked authority
/// revokes that authorization.
pub proof fn revocation_revokes_bound_authorization(revocation: RevocationReceipt, authorization: Authorization, observed_at: Timestamp, propagation_id: u128)
    requires
        authorization.authority_id == revocation.authority_id,
    ensures
        invalidated(authorization@, invalidation_of(revocation, authorization, observed_at, propagation_id)).status
            == AuthorizationStatus::Revoked,
{
}

/// An invalidated authorization cannot create a new execution permit, and an
/// execution that already holds a permit under it is stopped.
pub proof fn invalidated_authorization_cannot_execute(
    revocation: RevocationReceipt,
    authorization: Authorization,
    observed_at: Timestamp,
    propagation_id: u128,
    invalidated_authorization: Authorization,
    request: ExecutionRequest,
    authority: Authority,
    permit_authorization: AuthorizationId,
)
    requires
        authorization.authority_id == revocation.authority_id,
        invalidated_authorization@ == invalidated(authorization@, invalidation_of(revocation, authorization, observed_at, propagation_id)),
    ensures
        gate_error(invalidated_authorization, request) is Some,
        lifecycle_outcome(authority, invalidated_authorization, permit_authorization).0 == ExecutionDisposition::Stop,
{
    assert(invalidated_authorization.status == AuthorizationStatus::Revoked);
}

} // verus!
