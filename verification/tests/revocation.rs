use palaco_la::domain::AuthorityId;
use palaco_la::revocation::{
    propagate, propagate_with_id, PropagationReceipt, PropagationStatus, RevocationReason,
    RevocationReceipt,
};
use palaco_la::Timestamp;
use uuid::Uuid;

fn now() -> Timestamp {
    let now = chrono::Utc::now();
    Timestamp { seconds: now.timestamp(), nanoseconds: now.timestamp_subsec_nanos() }
}

#[test]
fn propagation_preserves_revocation_identity() {
    let revocation = RevocationReceipt {
        revocation_id: Uuid::new_v4().as_u128(),
        authority_id: AuthorityId::new(Uuid::new_v4().as_u128()),
        reason: RevocationReason::Explicit,
        occurred_at: now(),
    };

    let propagation = propagate(&revocation, Uuid::new_v4().as_u128(), now());

    assert_eq!(propagation.revocation_id, revocation.revocation_id);
    assert_eq!(propagation.status, PropagationStatus::Propagated);
}

#[test]
fn propagation_with_given_identity_is_exact() {
    let observed_at = Timestamp { seconds: 1_000, nanoseconds: 5 };
    let revocation = RevocationReceipt {
        revocation_id: 11,
        authority_id: AuthorityId::new(12),
        reason: RevocationReason::Superseded,
        occurred_at: observed_at,
    };
    assert_eq!(
        propagate_with_id(&revocation, 13, observed_at, 14),
        PropagationReceipt {
            propagation_id: 14,
            revocation_id: 11,
            target_execution_id: 13,
            status: PropagationStatus::Propagated,
            observed_at,
        }
    );
}
