use palaco_la::domain::{
    Authority, AuthorityId, AuthorityStatus, Authorization, AuthorizationId, AuthorizationStatus,
    DecisionId, Scope,
};
use palaco_la::execution::{gate, ExecutionPermit, ExecutionRequest};
use palaco_la::lifecycle::{evaluate, ExecutionDisposition, LifecycleReason};
use uuid::Uuid;

fn authority(status: AuthorityStatus) -> Authority {
    Authority {
        id: AuthorityId::new(Uuid::new_v4().as_u128()),
        scope: Scope {
            target: "target".to_owned(),
            operations: vec!["write".to_owned()],
            territory: "territory".to_owned(),
            purpose: "purpose".to_owned(),
        },
        status,
    }
}

fn make_authorization(authority_id: AuthorityId, status: AuthorizationStatus) -> Authorization {
    Authorization {
        id: AuthorizationId::new(Uuid::new_v4().as_u128()),
        decision_id: DecisionId::new(Uuid::new_v4().as_u128()),
        authority_id,
        scope: Scope {
            target: "target".to_owned(),
            operations: vec!["write".to_owned()],
            territory: "territory".to_owned(),
            purpose: "purpose".to_owned(),
        },
        status,
    }
}

fn permit(authorization: &Authorization) -> Option<ExecutionPermit> {
    let request = ExecutionRequest { operation: "write".to_owned(), scope: authorization.scope.clone() };
    gate(authorization, request).ok()
}

#[test]
fn revoked_authority_stops_execution_lifecycle() {
    let auth = authority(AuthorityStatus::Revoked);
    let authorization = make_authorization(auth.id, AuthorizationStatus::Active);
    let Some(permit) = permit(&authorization) else {
        panic!("permit expected");
    };
    let (disposition, reason) = evaluate(&auth, &authorization, &permit);
    assert_eq!(disposition, ExecutionDisposition::Stop);
    assert_eq!(reason, LifecycleReason::RevokedAuthority);
}

#[test]
fn suspended_authority_requires_reassessment() {
    let auth = authority(AuthorityStatus::Suspended);
    let authorization = make_authorization(auth.id, AuthorizationStatus::Active);
    let Some(permit) = permit(&authorization) else {
        panic!("permit expected");
    };
    let (disposition, reason) = evaluate(&auth, &authorization, &permit);
    assert_eq!(disposition, ExecutionDisposition::Reassess);
    assert_eq!(reason, LifecycleReason::SuspendedAuthority);
}

#[test]
fn active_authority_allows_lifecycle_continuation() {
    let auth = authority(AuthorityStatus::Active);
    let authorization = make_authorization(auth.id, AuthorizationStatus::Active);
    let Some(permit) = permit(&authorization) else {
        panic!("permit expected");
    };
    let (disposition, reason) = evaluate(&auth, &authorization, &permit);
    assert_eq!(disposition, ExecutionDisposition::Continue);
    assert_eq!(reason, LifecycleReason::ActiveAuthority);
}

#[test]
fn revoked_authorization_stops_execution_lifecycle() {
    let auth = authority(AuthorityStatus::Active);
    let authorization = make_authorization(auth.id, AuthorizationStatus::Revoked);
    let invalidated = authorization.revoked();
    assert_eq!(invalidated.status, AuthorizationStatus::Revoked);
    // The permit was issued while this same authorization was still active.
    let prior_permit = {
        let active = Authorization { status: AuthorizationStatus::Active, ..authorization.clone() };
        permit(&active)
    };
    let Some(prior_permit) = prior_permit else {
        panic!("permit expected");
    };
    let (disposition, reason) = evaluate(&auth, &invalidated, &prior_permit);
    assert_eq!(disposition, ExecutionDisposition::Stop);
    assert_eq!(reason, LifecycleReason::AuthorizationRevoked);
}

#[test]
fn mismatched_authority_stops_execution_lifecycle() {
    let auth = authority(AuthorityStatus::Active);
    let authorization = make_authorization(AuthorityId::new(Uuid::new_v4().as_u128()), AuthorizationStatus::Active);
    let Some(permit) = permit(&authorization) else {
        panic!("permit expected");
    };
    let (disposition, reason) = evaluate(&auth, &authorization, &permit);
    assert_eq!(disposition, ExecutionDisposition::Stop);
    assert_eq!(reason, LifecycleReason::AuthorityMismatch);
}

#[test]
fn mismatched_permit_authorization_stops_execution_lifecycle() {
    let auth = authority(AuthorityStatus::Active);
    let authorization = make_authorization(auth.id, AuthorizationStatus::Active);
    let other = make_authorization(auth.id, AuthorizationStatus::Active);
    let Some(permit) = permit(&other) else {
        panic!("permit expected");
    };
    let (disposition, reason) = evaluate(&auth, &authorization, &permit);
    assert_eq!(disposition, ExecutionDisposition::Stop);
    assert_eq!(reason, LifecycleReason::AuthorityMismatch);
}

#[test]
fn lifecycle_table_covers_every_status() {
    let cases = [
        (AuthorizationStatus::Suspended, AuthorityStatus::Revoked, ExecutionDisposition::Reassess, LifecycleReason::AuthorizationSuspended),
        (AuthorizationStatus::Expired, AuthorityStatus::Active, ExecutionDisposition::Stop, LifecycleReason::AuthorizationExpired),
        (AuthorizationStatus::Superseded, AuthorityStatus::Active, ExecutionDisposition::Stop, LifecycleReason::AuthorizationSuperseded),
        (AuthorizationStatus::Active, AuthorityStatus::Expired, ExecutionDisposition::Stop, LifecycleReason::ExpiredAuthority),
    ];
    for (authorization_status, authority_status, disposition, reason) in cases {
        let auth = authority(authority_status);
        let active = make_authorization(auth.id, AuthorizationStatus::Active);
        let Some(permit) = permit(&active) else {
            panic!("permit expected");
        };
        let current = Authorization { status: authorization_status, ..active };
        assert_eq!(evaluate(&auth, &current, &permit), (disposition, reason));
    }
}
