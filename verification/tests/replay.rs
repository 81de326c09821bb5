use palaco_la::replay::{verify_history, ReplayError};
use palaco_la::{
    AggregateId, CanonicalBytes, CanonicalSigner, CanonicalVerifier, EventEnvelope, EventId,
    SchemaVersion, Sequence, Timestamp,
};
use uuid::Uuid;

fn now() -> Timestamp {
    let now = chrono::Utc::now();
    Timestamp { seconds: now.timestamp(), nanoseconds: now.timestamp_subsec_nanos() }
}

fn history() -> (Vec<EventEnvelope>, CanonicalVerifier) {
    let signer = CanonicalSigner::from_key(ed25519_dalek::SigningKey::from_bytes(&[7_u8; 32]).to_bytes());
    let aggregate_id = AggregateId::new(Uuid::new_v4().as_u128());
    let first_payload = CanonicalBytes::new(b"one".to_vec());
    let first_signature = signer.sign(&first_payload);
    let first = EventEnvelope::new(
        EventId::new(Uuid::new_v4().as_u128()),
        "AuthorizationIssued".to_owned(),
        aggregate_id,
        "Authorization".to_owned(),
        Sequence::genesis(),
        now(),
        now(),
        Uuid::new_v4().as_u128(),
        Some(Uuid::new_v4().as_u128()),
        None,
        None,
        first_payload,
        None,
        SchemaVersion(1),
        Uuid::new_v4().as_u128(),
        first_signature,
    );
    let second_payload = CanonicalBytes::new(b"two".to_vec());
    let second_signature = signer.sign(&second_payload);
    let second = EventEnvelope::new(
        EventId::new(Uuid::new_v4().as_u128()),
        "AuthorizationInvalidated".to_owned(),
        aggregate_id,
        "Authorization".to_owned(),
        Sequence(2),
        now(),
        now(),
        Uuid::new_v4().as_u128(),
        first.authority_reference,
        None,
        Some(first.event_id),
        second_payload,
        Some(first.payload_hash),
        SchemaVersion(1),
        first.provenance,
        second_signature,
    );
    (vec![first, second], CanonicalVerifier::from_key(signer.verifying_key()))
}

#[test]
fn valid_history_replays() {
    let (events, verifier) = history();
    assert_eq!(verify_history(&events, &verifier), Ok(()));
}

#[test]
fn tampered_payload_fails_replay() {
    let (mut events, verifier) = history();
    events[1].payload = CanonicalBytes::new(b"tampered".to_vec());
    assert_eq!(verify_history(&events, &verifier), Err(ReplayError::PayloadHashMismatch));
}

#[test]
fn broken_predecessor_fails_replay() {
    let (mut events, verifier) = history();
    events[1].previous_event_hash = None;
    assert_eq!(verify_history(&events, &verifier), Err(ReplayError::PredecessorMismatch));
}

#[test]
fn every_replay_invariant_fails_at_its_own_error() {
    let (events, verifier) = history();
    assert_eq!(verify_history(&[], &verifier), Err(ReplayError::EmptyHistory));

    let mut not_genesis = events.clone();
    not_genesis[0].sequence = Sequence(2);
    assert_eq!(verify_history(&not_genesis, &verifier), Err(ReplayError::PredecessorMismatch));

    let mut other_aggregate = events.clone();
    other_aggregate[1].aggregate_id = AggregateId::new(other_aggregate[0].aggregate_id.value() ^ 1);
    assert_eq!(verify_history(&other_aggregate, &verifier), Err(ReplayError::AggregateMismatch));

    let mut other_type = events.clone();
    other_type[1].aggregate_type = "Authority".to_owned();
    assert_eq!(verify_history(&other_type, &verifier), Err(ReplayError::AggregateMismatch));

    let mut skipped = events.clone();
    skipped[1].sequence = Sequence(3);
    assert_eq!(verify_history(&skipped, &verifier), Err(ReplayError::SequenceMismatch));

    let stranger = CanonicalVerifier::from_key(CanonicalSigner::from_key([8_u8; 32]).verifying_key());
    assert_eq!(verify_history(&events, &stranger), Err(ReplayError::InvalidSignature));
}
