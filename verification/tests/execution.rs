use palaco_la::authorization::authorize;
use palaco_la::domain::{
    Authority, AuthorityId, AuthorityStatus, Authorization, AuthorizationId, AuthorizationStatus,
    Decision, DecisionId, DecisionVerdict, QuestionId, Scope,
};
use palaco_la::execution::{gate, ExecutionGateError, ExecutionRequest};

fn authorization() -> Authorization {
    Authorization {
        id: AuthorizationId::new(uuid::Uuid::new_v4().as_u128()),
        decision_id: DecisionId::new(uuid::Uuid::new_v4().as_u128()),
        authority_id: AuthorityId::new(uuid::Uuid::new_v4().as_u128()),
        scope: Scope {
            target: "target".to_owned(),
            operations: vec!["read".to_owned()],
            territory: "territory".to_owned(),
            purpose: "purpose".to_owned(),
        },
        status: AuthorizationStatus::Active,
    }
}

fn request(operation: &str) -> ExecutionRequest {
    ExecutionRequest {
        operation: operation.to_owned(),
        scope: Scope {
            target: "target".to_owned(),
            operations: vec!["read".to_owned()],
            territory: "territory".to_owned(),
            purpose: "purpose".to_owned(),
        },
    }
}

#[test]
fn execution_requires_authorized_scope() {
    assert!(gate(&authorization(), request("read")).is_ok());
}

#[test]
fn execution_rejects_operation_outside_authorization() {
    assert_eq!(gate(&authorization(), request("write")), Err(ExecutionGateError::ScopeMismatch));
}

#[test]
fn execution_rejects_empty_operation() {
    assert_eq!(gate(&authorization(), request("")), Err(ExecutionGateError::EmptyOperation));
}

#[test]
fn permit_is_bound_to_authorization() {
    let permit = gate(&authorization(), request("read"));
    assert!(permit.is_ok());
    if let Ok(permit) = permit {
        assert_ne!(permit.authorization_id(), AuthorizationId::new(uuid::Uuid::nil().as_u128()));
    }
}

#[test]
fn revoked_authorization_cannot_create_execution_permit() {
    let mut authorization = authorization();
    authorization.status = AuthorizationStatus::Revoked;
    assert_eq!(gate(&authorization, request("read")), Err(ExecutionGateError::AuthorizationInactive));
}

#[test]
fn permit_carries_the_exact_request() {
    let authorization = authorization();
    let permit = match gate(&authorization, request("read")) {
        Ok(value) => value,
        Err(error) => panic!("gate failed: {error:?}"),
    };
    assert_eq!(permit.authorization_id(), authorization.id);
    assert_eq!(*permit.request(), request("read"));
}

#[test]
fn wider_request_scope_is_a_scope_mismatch() {
    let mut wide = request("read");
    wide.scope.operations.push("delete".to_owned());
    assert_eq!(gate(&authorization(), wide), Err(ExecutionGateError::ScopeMismatch));

    let mut elsewhere = request("read");
    elsewhere.scope.target = "other".to_owned();
    assert_eq!(gate(&authorization(), elsewhere), Err(ExecutionGateError::ScopeMismatch));

    for status in [AuthorizationStatus::Suspended, AuthorizationStatus::Expired, AuthorizationStatus::Superseded] {
        let mut inactive = authorization();
        inactive.status = status;
        assert_eq!(gate(&inactive, request("read")), Err(ExecutionGateError::AuthorizationInactive));
    }
}

#[test]
fn permit_from_issued_authorization_stays_within_authority() {
    let authority = Authority {
        id: AuthorityId::new(1),
        scope: Scope {
            target: "target".to_owned(),
            operations: vec!["read".to_owned(), "write".to_owned()],
            territory: "territory".to_owned(),
            purpose: "purpose".to_owned(),
        },
        status: AuthorityStatus::Active,
    };
    let decision = Decision { id: DecisionId::new(2), question_id: QuestionId::new(3), verdict: DecisionVerdict::Allow };
    let evaluation = match authorize(decision, authority.clone(), request("read").scope, AuthorizationId::new(4)) {
        Ok(value) => value,
        Err(error) => panic!("authorization failed: {error:?}"),
    };
    let permit = match gate(&evaluation.authorization, request("read")) {
        Ok(value) => value,
        Err(error) => panic!("gate failed: {error:?}"),
    };
    assert!(authority.scope.contains(&permit.request().scope));
    assert!(authority.scope.operations.contains(&permit.request().operation));
    assert_eq!(gate(&evaluation.authorization, request("write")), Err(ExecutionGateError::ScopeMismatch));
}
