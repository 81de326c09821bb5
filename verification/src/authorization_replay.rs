//! Semantic replay: the state of an authorization reconstructed from its
//! verified event history. Reconstruction derives state only; it creates
//! no authority and no execution permit.

use crate::authorization::AUTHORIZATION_ISSUED_EVENT_TYPE;
use crate::comet::AUTHORIZATION_INVALIDATED_EVENT_TYPE;
use crate::domain::{
    copy_scope, AuthorityId, Authorization, AuthorizationId, AuthorizationStatus,
    AuthorizationView, DecisionId, Scope,
};
use crate::event::EventEnvelope;
use crate::execution::{gate_error, ExecutionRequest};
use crate::replay::{replay_error, verify_history, ReplayError};
use crate::signature::CanonicalVerifier;
use vstd::prelude::*;

verus! {

#[derive(Debug, Clone, PartialEq, Eq)]
pub enum AuthorizationReplayError {
    StructuralReplay(ReplayError),
    InvalidPayload,
    AggregateIdentityMismatch,
    UnsupportedEventType,
    InvalidTransition,
}

#[derive(Debug, Clone, PartialEq, Eq)]
pub struct AuthorizationReplay {
    pub authorization: Authorization,
    pub applied_events: usize,
}

/// The content of an `AuthorizationIssued` payload.
#[derive(Debug, Clone, PartialEq, Eq)]
pub struct AuthorizationIssuedPayload {
    pub authorization_id: AuthorizationId,
    pub decision_id: DecisionId,
    pub authority_id: AuthorityId,
    pub scope: Scope,
    pub status: AuthorizationStatus,
}

/// The content of an `AuthorizationInvalidated` payload.
#[derive(Debug, Clone, Copy, PartialEq, Eq, Structural)]
pub struct AuthorizationInvalidatedPayload {
    pub authorization_id: AuthorizationId,
    pub authority_id: AuthorityId,
    pub status: AuthorizationStatus,
}

/// What an event's exact payload bytes decode to, read as an issuance and
/// read as an invalidation (`None` where the bytes are not such a payload).
#[derive(Debug, Clone, PartialEq, Eq)]
pub struct DecodedAuthorizationPayload {
    pub issued: Option<AuthorizationIssuedPayload>,
    pub invalidated: Option<AuthorizationInvalidatedPayload>,
}

/// The status after the lifecycle events from `from` on, starting from
/// `status`, or the first failure: an event of another aggregate, an
/// undecodable invalidation, an invalidation of another authorization or
/// authority, or an event type other than an invalidation.
pub open spec fn replayed_status_from(
    events: Seq<EventEnvelope>,
    decoded: Seq<DecodedAuthorizationPayload>,
    authorization_id: AuthorizationId,
    authority_id: AuthorityId,
    from: int,
    status: AuthorizationStatus,
) -> Result<AuthorizationStatus, AuthorizationReplayError>
    decreases events.len() - from,
{
    if from < 0 || from >= events.len() {
        Ok(status)
    } else if events[from].aggregate_id.0 != authorization_id.0 {
        Err(AuthorizationReplayError::AggregateIdentityMismatch)
    } else if events[from].event_type@ == AUTHORIZATION_INVALIDATED_EVENT_TYPE@ {
        match decoded[from].invalidated {
            None => Err(AuthorizationReplayError::InvalidPayload),
            Some(payload) => if payload.authorization_id != authorization_id || payload.authority_id != authority_id {
                Err(AuthorizationReplayError::AggregateIdentityMismatch)
            } else {
                replayed_status_from(events, decoded, authorization_id, authority_id, from + 1, payload.status)
            },
        }
    } else {
        Err(AuthorizationReplayError::UnsupportedEventType)
    }
}

/// The reconstructed authorization, or the first failure: structural replay
/// first, then the issuance (its type, its payload, its aggregate identity),
/// then every later lifecycle event.
pub open spec fn authorization_replay_outcome(
    events: Seq<EventEnvelope>,
    public_key: Seq<u8>,
    decoded: Seq<DecodedAuthorizationPayload>,
) -> Result<AuthorizationView, AuthorizationReplayError> {
    match replay_error(events, public_key) {
        Some(e) => Err(AuthorizationReplayError::StructuralReplay(e)),
        None => if events[0].event_type@ != AUTHORIZATION_ISSUED_EVENT_TYPE@ {
            Err(AuthorizationReplayError::InvalidTransition)
        } else {
            match decoded[0].issued {
                None => Err(AuthorizationReplayError::InvalidPayload),
                Some(issued) => if events[0].aggregate_id.0 != issued.authorization_id.0 {
                    Err(AuthorizationReplayError::AggregateIdentityMismatch)
                } else {
                    match replayed_status_from(events, decoded, issued.authorization_id, issued.authority_id, 1, issued.status) {
                        Err(e) => Err(e),
                        Ok(status) => Ok(AuthorizationView {
                            id: issued.authorization_id,
                            decision_id: issued.decision_id,
                            authority_id: issued.authority_id,
                            scope: issued.scope@,
                            status,
                        }),
                    }
                }
            }
        },
    }
}

/// Reconstructs an authorization from its history: `AuthorizationIssued`
/// then `AuthorizationInvalidated` events, after the history passes
/// structural replay. Unknown lifecycle events fail closed.
///
/// `decoded[i]` is what the exact payload bytes of `events[i]` decode to.
pub fn replay_authorization_history(
    events: &[EventEnvelope],
    verifier: &CanonicalVerifier,
    decoded: &[DecodedAuthorizationPayload],
) -> (result: Result<AuthorizationReplay, AuthorizationReplayError>)
    requires
        decoded@.len() == events@.len(),
    ensures
        authorization_replay_outcome(events@, verifier@, decoded@) matches Err(e)
            ==> result == Err::<AuthorizationReplay, AuthorizationReplayError>(e),
        authorization_replay_outcome(events@, verifier@, decoded@) matches Ok(authorization) ==> (result matches Ok(replay)
            && replay.authorization@ == authorization && replay.applied_events == events@.len()),
{
    match verify_history(events, verifier) {
        Ok(()) => {},
        Err(e) => return Err(AuthorizationReplayError::StructuralReplay(e)),
    }

    let first = &events[0];
    if !(first.event_type == AUTHORIZATION_ISSUED_EVENT_TYPE.to_owned()) {
        return Err(AuthorizationReplayError::InvalidTransition);
    }

    let issued = match &decoded[0].issued {
        Some(issued) => issued,
        None => return Err(AuthorizationReplayError::InvalidPayload),
    };

    if first.aggregate_id.value() != issued.authorization_id.value() {
        return Err(AuthorizationReplayError::AggregateIdentityMismatch);
    }

    let mut authorization = Authorization {
        id: issued.authorization_id,
        decision_id: issued.decision_id,
        authority_id: issued.authority_id,
        scope: copy_scope(&issued.scope),
        status: issued.status,
    };

    let invalidated_type = AUTHORIZATION_INVALIDATED_EVENT_TYPE.to_owned();
    let mut index: usize = 1;
    while index < events.len()
        invariant
            1 <= index <= events@.len(),
            decoded@.len() == events@.len(),
            replay_error(events@, verifier@) is None,
            events@[0].event_type@ == AUTHORIZATION_ISSUED_EVENT_TYPE@,
            decoded@[0].issued == Some(*issued),
            events@[0].aggregate_id.0 == issued.authorization_id.0,
            invalidated_type@ == AUTHORIZATION_INVALIDATED_EVENT_TYPE@,
            authorization.id == issued.authorization_id,
            authorization.authority_id == issued.authority_id,
            authorization.decision_id == issued.decision_id,
            authorization.scope@ == issued.scope@,
            replayed_status_from(events@, decoded@, issued.authorization_id, issued.authority_id, 1, issued.status)
                == replayed_status_from(events@, decoded@, issued.authorization_id, issued.authority_id, index as int, authorization.status),
        decreases events.len() - index,
    {
        let event = &events[index];
        if event.aggregate_id.value() != authorization.id.value() {
            return Err(AuthorizationReplayError::AggregateIdentityMismatch);
        }

        if event.event_type == invalidated_type {
            let invalidation = match &decoded[index].invalidated {
                Some(invalidation) => invalidation,
                None => return Err(AuthorizationReplayError::InvalidPayload),
            };
            if invalidation.authorization_id != authorization.id || invalidation.authority_id != authorization.authority_id {
                return Err(AuthorizationReplayError::AggregateIdentityMismatch);
            }
            authorization.status = invalidation.status;
        } else {
            return Err(AuthorizationReplayError::UnsupportedEventType);
        }
        index = index + 1;
    }

    Ok(AuthorizationReplay { authorization, applied_events: events.len() })
}

proof fn lemma_replayed_status_is_last(
    events: Seq<EventEnvelope>,
    decoded: Seq<DecodedAuthorizationPayload>,
    authorization_id: AuthorizationId,
    authority_id: AuthorityId,
    from: int,
    status: AuthorizationStatus,
)
    requires
        0 <= from < events.len(),
        decoded.len() == events.len(),
        replayed_status_from(events, decoded, authorization_id, authority_id, from, status) is Ok,
    ensures
        decoded[events.len() - 1].invalidated is Some,
        replayed_status_from(events, decoded, authorization_id, authority_id, from, status)
            == Ok::<AuthorizationStatus, AuthorizationReplayError>(decoded[events.len() - 1].invalidated->0.status),
    decreases events.len() - from,
{
    let next = decoded[from].invalidated->0.status;
    if from + 1 < events.len() {
        lemma_replayed_status_is_last(events, decoded, authorization_id, authority_id, from + 1, next);
    } else {
        assert(replayed_status_from(events, decoded, authorization_id, authority_id, from + 1, next)
            == Ok::<AuthorizationStatus, AuthorizationReplayError>(next));
    }
}

/// A replayed history of one issuance and later invalidations leaves the
/// authorization with the status of its last invalidation; when that status
/// is not `Active`, the reconstructed authorization cannot pass the
/// execution gate.
pub proof fn replayed_invalidation_blocks_execution(
    events: Seq<EventEnvelope>,
    public_key: Seq<u8>,
    decoded: Seq<DecodedAuthorizationPayload>,
    replayed: Authorization,
    request: ExecutionRequest,
)
    requires
        events.len() >= 2,
        decoded.len() == events.len(),
        authorization_replay_outcome(events, public_key, decoded) == Ok::<AuthorizationView, AuthorizationReplayError>(replayed@),
    ensures
        decoded[events.len() - 1].invalidated is Some,
        replayed.status == decoded[events.len() - 1].invalidated->0.status,
        replayed.status != AuthorizationStatus::Active ==> gate_error(replayed, request) is Some,
{
    let issued = decoded[0].issued->0;
    lemma_replayed_status_is_last(events, decoded, issued.authorization_id, issued.authority_id, 1, issued.status);
}

} // verus!
