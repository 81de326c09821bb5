//! DECISION → AUTHORITY → AUTHORIZATION.

use crate::domain::{
    scope_within, Authority, AuthorityStatus, Authorization, AuthorizationId, AuthorizationStatus,
    Decision, DecisionVerdict, Scope,
};
use crate::event::{AggregateId, EventEnvelope, EventId, SchemaVersion, Sequence};
use crate::replay::content_error;
use crate::signature::{ed25519_public_key_of, ed25519_signature_of, CanonicalSigner};
use crate::time::{current_time, is_event_instant};
use crate::verification::{sha256_of, CanonicalBytes, Sha256Digest};
use vstd::prelude::*;

verus! {

#[derive(Debug, Clone, PartialEq, Eq)]
pub enum AuthorizationEvaluationError {
    DecisionNotAllow,
    AuthorityInactive,
    ScopeExpansion,
}

#[derive(Debug, Clone, PartialEq, Eq)]
pub struct AuthorizationEvaluation {
    pub authorization: Authorization,
    pub authority: Authority,
}

/// Why no authorization may be issued, in the order the checks apply;
/// `None` when one is owed.
pub open spec fn authorization_error(decision: Decision, authority: Authority, requested_scope: Scope) -> Option<AuthorizationEvaluationError> {
    if decision.verdict != DecisionVerdict::Allow {
        Some(AuthorizationEvaluationError::DecisionNotAllow)
    } else if authority.status != AuthorityStatus::Active {
        Some(AuthorizationEvaluationError::AuthorityInactive)
    } else if !scope_within(requested_scope@, authority.scope@) {
        Some(AuthorizationEvaluationError::ScopeExpansion)
    } else {
        None
    }
}

/// Issues an active authorization bound to the decision and the authority.
///
/// Only an `Allow` decision under an `Active` authority may be authorized,
/// and the requested scope must lie within the authority's scope.
pub fn authorize(decision: Decision, authority: Authority, requested_scope: Scope, authorization_id: AuthorizationId) -> (result: Result<AuthorizationEvaluation, AuthorizationEvaluationError>)
    ensures
        authorization_error(decision, authority, requested_scope) matches Some(e)
            ==> result == Err::<AuthorizationEvaluation, AuthorizationEvaluationError>(e),
        authorization_error(decision, authority, requested_scope) is None ==> result == Ok::<AuthorizationEvaluation, AuthorizationEvaluationError>(
            AuthorizationEvaluation {
                authorization: Authorization {
                    id: authorization_id,
                    decision_id: decision.id,
                    authority_id: authority.id,
                    scope: requested_scope,
                    status: AuthorizationStatus::Active,
                },
                authority,
            },
        ),
{
    if !decision.is_allow() {
        return Err(AuthorizationEvaluationError::DecisionNotAllow);
    }

    if authority.status != AuthorityStatus::Active {
        return Err(AuthorizationEvaluationError::AuthorityInactive);
    }

    if !authority.scope.contains(&requested_scope) {
        return Err(AuthorizationEvaluationError::ScopeExpansion);
    }

    let authorization = Authorization {
        id: authorization_id,
        decision_id: decision.id,
        authority_id: authority.id,
        scope: requested_scope,
        status: AuthorizationStatus::Active,
    };

    Ok(AuthorizationEvaluation { authorization, authority })
}

/// An authorization is issued only for an `Allow` decision under an
/// `Active` authority, and its scope never exceeds the authority's scope.
pub proof fn issued_authorization_lies_within_authority(decision: Decision, authority: Authority, requested_scope: Scope)
    requires
        authorization_error(decision, authority, requested_scope) is None,
    ensures
        decision.verdict == DecisionVerdict::Allow,
        authority.status == AuthorityStatus::Active,
        scope_within(requested_scope@, authority.scope@),
{
}

/// The event type of an authorization's issuance.
pub const AUTHORIZATION_ISSUED_EVENT_TYPE: &'static str = "AuthorizationIssued";

/// The aggregate type of authorization histories.
pub const AUTHORIZATION_AGGREGATE_TYPE: &'static str = "Authorization";

/// Frames the issuance of `authorization` as a signed event of its own
/// aggregate: the event and aggregate identities are the authorization's,
/// the authority reference is its authority, and `payload` (its canonical
/// issuance payload) is signed exactly as given. Both instants are the
/// current time at microsecond precision.
#[allow(clippy::too_many_arguments)]
pub fn build_authorization_issued_event(
    authorization: &Authorization,
    payload: CanonicalBytes,
    sequence: Sequence,
    actor_id: u128,
    correlation_id: Option<u128>,
    causation_id: Option<EventId>,
    previous_event_hash: Option<Sha256Digest>,
    provenance: u128,
    signer: &CanonicalSigner,
) -> (event: EventEnvelope)
    ensures
        event.event_id == EventId(authorization.id.0),
        event.event_type@ == AUTHORIZATION_ISSUED_EVENT_TYPE@,
        event.aggregate_id == AggregateId(authorization.id.0),
        event.aggregate_type@ == AUTHORIZATION_AGGREGATE_TYPE@,
        event.sequence == sequence,
        is_event_instant(event.occurred_at),
        is_event_instant(event.recorded_at),
        event.actor_id == actor_id,
        event.authority_reference == Some(authorization.authority_id.0),
        event.correlation_id == correlation_id,
        event.causation_id == causation_id,
        event.payload == payload,
        event.payload_hash@ == sha256_of(payload@),
        event.previous_event_hash == previous_event_hash,
        event.schema_version == SchemaVersion(1),
        event.provenance == provenance,
        event.signature@ == ed25519_signature_of(signer@, payload@),
        content_error(event, ed25519_public_key_of(signer@)) is None,
{
    let signature = signer.sign(&payload);
    let occurred_at = current_time();
    let recorded_at = current_time();
    EventEnvelope::new(
        EventId::new(authorization.id.value()),
        AUTHORIZATION_ISSUED_EVENT_TYPE.to_owned(),
        AggregateId::new(authorization.id.value()),
        AUTHORIZATION_AGGREGATE_TYPE.to_owned(),
        sequence,
        occurred_at,
        recorded_at,
        actor_id,
        Some(authorization.authority_id.value()),
        correlation_id,
        causation_id,
        payload,
        previous_event_hash,
        SchemaVersion(1),
        provenance,
        signature,
    )
}

} // verus!
