use palaco_la::comet::{
    apply_invalidation, build_authorization_invalidation_event, propagate_revocation,
    propagate_revocation_with_id, AuthorizationInvalidation, CometError,
    AUTHORIZATION_INVALIDATED_EVENT_TYPE,
};
use palaco_la::domain::{
    AuthorityId, Authorization, AuthorizationId, AuthorizationStatus, DecisionId, Scope,
};
use palaco_la::execution::{gate, ExecutionGateError, ExecutionRequest};
use palaco_la::revocation::{RevocationReason, RevocationReceipt};
use palaco_la::{AggregateId, CanonicalBytes, CanonicalSigner, CanonicalVerifier, Sequence, Sha256Digest, Timestamp};
use uuid::Uuid;

fn now() -> Timestamp {
    let now = chrono::Utc::now();
    Timestamp { seconds: now.timestamp(), nanoseconds: now.timestamp_subsec_nanos() }
}

fn authorization(authority_id: AuthorityId, status: AuthorizationStatus) -> Authorization {
    Authorization {
        id: AuthorizationId::new(Uuid::new_v4().as_u128()),
        decision_id: DecisionId::new(Uuid::new_v4().as_u128()),
        authority_id,
        scope: Scope {
            target: "target".to_owned(),
            operations: vec!["write".to_owned()],
            territory: "territory".to_owned(),
            purpose: "purpose".to_owned(),
        },
        status,
    }
}

fn revocation(authority_id: AuthorityId) -> RevocationReceipt {
    RevocationReceipt {
        revocation_id: Uuid::new_v4().as_u128(),
        authority_id,
        reason: RevocationReason::Explicit,
        occurred_at: now(),
    }
}

#[test]
fn revocation_propagates_only_to_bound_authorization() {
    let authority_id = AuthorityId::new(Uuid::new_v4().as_u128());
    let authorization = authorization(authority_id, AuthorizationStatus::Active);
    let revocation = revocation(authority_id);

    let result = propagate_revocation(&revocation, &authorization, now());
    assert!(result.is_ok());

    let invalidation = match result {
        Ok(value) => value,
        Err(_) => return,
    };
    let invalidated = apply_invalidation(&authorization, &invalidation);
    assert_eq!(invalidated.status, AuthorizationStatus::Revoked);
    assert_eq!(invalidation.revocation_id, revocation.revocation_id);
}

#[test]
fn mismatched_authority_blocks_comet_propagation() {
    let authorization = authorization(AuthorityId::new(Uuid::new_v4().as_u128()), AuthorizationStatus::Active);
    let revocation = revocation(AuthorityId::new(Uuid::new_v4().as_u128()));

    assert_eq!(propagate_revocation(&revocation, &authorization, now()), Err(CometError::AuthorityMismatch));
}

#[test]
fn already_revoked_authorization_remains_revoked() {
    let authority_id = AuthorityId::new(Uuid::new_v4().as_u128());
    let authorization = authorization(authority_id, AuthorizationStatus::Revoked);
    let revocation = revocation(authority_id);

    let result = propagate_revocation(&revocation, &authorization, now());
    assert!(result.is_ok());
    let invalidation = match result {
        Ok(value) => value,
        Err(_) => return,
    };
    assert_eq!(invalidation.status, AuthorizationStatus::Revoked);
}

#[test]
fn invalidation_event_uses_exact_canonical_payload() {
    let authority_id = AuthorityId::new(Uuid::new_v4().as_u128());
    let invalidation = AuthorizationInvalidation {
        propagation_id: Uuid::new_v4().as_u128(),
        revocation_id: Uuid::new_v4().as_u128(),
        authority_id,
        authorization_id: AuthorizationId::new(Uuid::new_v4().as_u128()),
        status: AuthorizationStatus::Revoked,
        observed_at: now(),
    };
    let payload = CanonicalBytes::new(
        format!(
            "{{\"propagation_id\":\"{}\",\"authorization_id\":\"{}\",\"status\":\"Revoked\"}}",
            Uuid::from_u128(invalidation.propagation_id),
            Uuid::from_u128(invalidation.authorization_id.value())
        )
        .into_bytes(),
    );
    let signer = CanonicalSigner::from_key(ed25519_dalek::SigningKey::from_bytes(&[7_u8; 32]).to_bytes());
    let event = build_authorization_invalidation_event(
        &invalidation,
        payload,
        AggregateId::new(invalidation.authorization_id.value()),
        Sequence::genesis(),
        Uuid::new_v4().as_u128(),
        None,
        None,
        None,
        Uuid::new_v4().as_u128(),
        &signer,
    );

    assert_eq!(event.event_type, AUTHORIZATION_INVALIDATED_EVENT_TYPE);
    assert_eq!(event.event_id.value(), invalidation.propagation_id);
    assert_eq!(event.authority_reference, Some(invalidation.authority_id.value()));
    assert_eq!(event.payload_hash, Sha256Digest::calculate(&event.payload));
    assert!(CanonicalVerifier::from_key(signer.verifying_key()).verify(&event.payload, &event.signature).is_ok());
}

#[test]
fn invalidated_authorization_cannot_mint_permit() {
    let authority_id = AuthorityId::new(Uuid::new_v4().as_u128());
    let authorization = authorization(authority_id, AuthorizationStatus::Active);
    let request = ExecutionRequest { operation: "write".to_owned(), scope: authorization.scope.clone() };
    assert!(gate(&authorization, request.clone()).is_ok());

    let invalidation = match propagate_revocation_with_id(&revocation(authority_id), &authorization, now(), 42) {
        Ok(value) => value,
        Err(error) => panic!("propagation failed: {error:?}"),
    };
    assert_eq!(invalidation.propagation_id, 42);
    let invalidated = apply_invalidation(&authorization, &invalidation);
    assert_eq!(invalidated, Authorization { status: AuthorizationStatus::Revoked, ..authorization.clone() });
    assert_eq!(gate(&invalidated, request), Err(ExecutionGateError::AuthorizationInactive));
    assert_eq!(apply_invalidation(&invalidated, &invalidation), invalidated);
}

#[test]
fn invalidation_of_another_authorization_changes_nothing() {
    let authority_id = AuthorityId::new(Uuid::new_v4().as_u128());
    let first = authorization(authority_id, AuthorizationStatus::Active);
    let second = authorization(authority_id, AuthorizationStatus::Active);
    let invalidation = match propagate_revocation(&revocation(authority_id), &first, now()) {
        Ok(value) => value,
        Err(error) => panic!("propagation failed: {error:?}"),
    };
    assert_eq!(apply_invalidation(&second, &invalidation), second);
}
