use palaco_la::domain::{AuthorityId, Authorization, AuthorizationId, AuthorizationStatus, DecisionId, Scope};
use palaco_la::execution::{gate, ExecutionPermit, ExecutionRequest};
use palaco_la::receipt::{ExecutionReceipt, ExecutionStatus, ObservationReceipt};
use palaco_la::Timestamp;
use uuid::Uuid;

fn permit() -> ExecutionPermit {
    let authorization = Authorization {
        id: AuthorizationId::new(Uuid::new_v4().as_u128()),
        decision_id: DecisionId::new(Uuid::new_v4().as_u128()),
        authority_id: AuthorityId::new(Uuid::new_v4().as_u128()),
        scope: Scope {
            target: "target".to_owned(),
            operations: vec!["write".to_owned()],
            territory: "territory".to_owned(),
            purpose: "purpose".to_owned(),
        },
        status: AuthorizationStatus::Active,
    };
    let request = ExecutionRequest { operation: "write".to_owned(), scope: authorization.scope.clone() };
    match gate(&authorization, request) {
        Ok(permit) => permit,
        Err(error) => panic!("gate failed: {error:?}"),
    }
}

#[test]
fn execution_receipt_is_bound_to_permit() {
    let permit = permit();
    let receipt = ExecutionReceipt::from_permit(Uuid::new_v4().as_u128(), &permit);
    assert_eq!(receipt.authorization_id, permit.authorization_id());
    assert_eq!(receipt.request, *permit.request());
    assert_eq!(receipt.status, ExecutionStatus::NotStarted);
}

#[test]
fn fresh_receipt_records_nothing_yet() {
    let receipt = ExecutionReceipt::from_permit(7, &permit());
    assert_eq!(receipt.execution_id, 7);
    assert_eq!(receipt.started_at, None);
    assert_eq!(receipt.completed_at, None);
    assert_eq!(receipt.outcome, None);
}

#[test]
fn observation_requires_source_and_method() {
    let now = chrono::Utc::now();
    let observation = ObservationReceipt {
        observation_id: Uuid::new_v4().as_u128(),
        execution_id: Uuid::new_v4().as_u128(),
        observed_at: Timestamp { seconds: now.timestamp(), nanoseconds: now.timestamp_subsec_nanos() },
        source: String::new(),
        method: "test".to_owned(),
        before_state: "before".to_owned(),
        after_state: "after".to_owned(),
        evidence: Vec::new(),
        contradictions: Vec::new(),
    };
    assert!(!observation.is_usable());
    let sourced = ObservationReceipt { source: "sensor".to_owned(), ..observation.clone() };
    assert!(sourced.is_usable());
    let unmethodical = ObservationReceipt { method: String::new(), ..sourced };
    assert!(!unmethodical.is_usable());
}
