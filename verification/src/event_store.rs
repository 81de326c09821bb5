//! The append-only event store: its errors and the decisions an append and a
//! read make against the aggregate head and the stored bytes.
//!
//! Each aggregate has one head (its type, its current sequence and the hash
//! of its current event), kept for concurrency control only; an append is
//! accepted only as the exact next event of the head, and events are never
//! updated or deleted.

use crate::event::{is_genesis_event, AggregateId, EventEnvelope, Sequence};
use crate::replay::{link_error, replay_error, replay_accepts_exactly_valid_histories, content_error};
use crate::signature::{ed25519_accepts, Signature};
use crate::verification::{same_optional, sha256_of, Sha256Digest};
use vstd::prelude::*;

verus! {

#[derive(Debug, Clone, PartialEq, Eq)]
pub enum EventStoreError {
    SequenceConflict { expected: Sequence, actual: Sequence },
    PredecessorConflict,
    DuplicateEvent,
    Persistence(String),
}

/// The result is a persistence error with exactly this message.
pub open spec fn persistence_error<T>(result: Result<T, EventStoreError>, message: Seq<char>) -> bool {
    result matches Err(EventStoreError::Persistence(text)) && text@ == message
}

/// The stored head of an aggregate.
#[derive(Debug, Clone, PartialEq, Eq)]
pub struct AggregateHead {
    pub aggregate_type: String,
    pub current_sequence: i64,
    pub current_event_hash: Option<Vec<u8>>,
}

/// The head a new aggregate starts from: no event yet.
pub fn new_aggregate_head(aggregate_type: &String) -> (head: AggregateHead)
    ensures
        head.aggregate_type@ == aggregate_type@,
        head.current_sequence == 0,
        head.current_event_hash is None,
{
    AggregateHead { aggregate_type: aggregate_type.clone(), current_sequence: 0, current_event_hash: None }
}

/// The sequence the head expects next.
pub open spec fn head_next_sequence(head: AggregateHead) -> int {
    (head.current_sequence as u64) + 1
}

/// The head's hash decoded as a digest: `None` when stored bytes are not 32
/// long, `Some(None)` when the aggregate has no event yet.
pub open spec fn head_hash(head: AggregateHead) -> Option<Option<Seq<u8>>> {
    match head.current_event_hash {
        None => Some(None),
        Some(bytes) => if bytes@.len() == 32 {
            Some(Some(bytes@))
        } else {
            None
        },
    }
}

/// An optional digest, seen by its bytes.
pub open spec fn digest_bytes(digest: Option<Sha256Digest>) -> Option<Seq<u8>> {
    match digest {
        None => None,
        Some(d) => Some(d@),
    }
}

/// `event` may be appended to the aggregate at `head`: it belongs to the
/// aggregate and its type, carries the hash of its exact payload, is the next
/// sequence and names the head's hash as its predecessor.
pub open spec fn append_accepted(head: AggregateHead, aggregate_id: AggregateId, event: EventEnvelope) -> bool {
    &&& event.aggregate_id == aggregate_id
    &&& event.payload_hash@ == sha256_of(event.payload@)
    &&& head.aggregate_type@ == event.aggregate_type@
    &&& event.sequence.0 == head_next_sequence(head)
    &&& head_hash(head) == Some(digest_bytes(event.previous_event_hash))
}

/// `next` is the head after appending `event` at `head`.
pub open spec fn head_advanced(next: AggregateHead, head: AggregateHead, event: EventEnvelope) -> bool {
    &&& next.aggregate_type@ == head.aggregate_type@
    &&& next.current_sequence == event.sequence.0 as i64
    &&& next.current_event_hash matches Some(bytes) && bytes@ == event.payload_hash@
}

pub const AGGREGATE_MISMATCH_MESSAGE: &'static str = "event aggregate_id does not match append aggregate_id";

pub const PAYLOAD_HASH_MISMATCH_MESSAGE: &'static str = "event payload_hash does not match exact payload bytes";

pub const AGGREGATE_TYPE_CHANGE_MESSAGE: &'static str = "aggregate_type cannot change for an existing aggregate";

pub const DIGEST_LENGTH_MESSAGE: &'static str = "invalid SHA-256 digest length";

pub const SIGNATURE_LENGTH_MESSAGE: &'static str = "invalid Ed25519 signature length";

pub const STORED_PAYLOAD_HASH_MESSAGE: &'static str = "persisted payload_hash does not match exact payload bytes";

/// The checks an append makes before it touches the store: the event
/// belongs to the aggregate appended to and carries the hash of its exact
/// payload.
pub fn check_append_request(aggregate_id: AggregateId, event: &EventEnvelope) -> (result: Result<(), EventStoreError>)
    ensures
        event.aggregate_id != aggregate_id ==> persistence_error(result, AGGREGATE_MISMATCH_MESSAGE@),
        event.aggregate_id == aggregate_id && event.payload_hash@ != sha256_of(event.payload@)
            ==> persistence_error(result, PAYLOAD_HASH_MISMATCH_MESSAGE@),
        event.aggregate_id == aggregate_id && event.payload_hash@ == sha256_of(event.payload@) ==> result is Ok,
{
    if event.aggregate_id != aggregate_id {
        return Err(EventStoreError::Persistence(AGGREGATE_MISMATCH_MESSAGE.to_owned()));
    }
    if !Sha256Digest::calculate(&event.payload).same_as(&event.payload_hash) {
        return Err(EventStoreError::Persistence(PAYLOAD_HASH_MISMATCH_MESSAGE.to_owned()));
    }
    Ok(())
}

/// Reads a stored digest: exactly 32 bytes.
pub fn digest_from_bytes(bytes: &[u8]) -> (result: Result<Sha256Digest, String>)
    ensures
        bytes@.len() == 32 ==> (result matches Ok(digest) && digest@ == bytes@),
        bytes@.len() != 32 ==> (result matches Err(message) && message@ == DIGEST_LENGTH_MESSAGE@),
{
    if bytes.len() != 32 {
        return Err(DIGEST_LENGTH_MESSAGE.to_owned());
    }
    let mut value = [0u8; 32];
    let mut i: usize = 0;
    while i < 32
        invariant
            0 <= i <= 32,
            bytes@.len() == 32,
            value@.len() == 32,
            forall|j: int| 0 <= j < i ==> value@[j] == bytes@[j],
        decreases 32 - i,
    {
        value[i] = bytes[i];
        i = i + 1;
    }
    assert(value@ =~= bytes@);
    Ok(Sha256Digest::from_bytes(value))
}

/// The checks an append makes against the locked head of its aggregate, in
/// order: the aggregate type cannot change, the event must be the expected
/// and actual next sequence, and the expected predecessor hash must be both
/// the head's hash and the event's own predecessor hash.
pub fn check_append_against_head(
    head: &AggregateHead,
    expected_next: Sequence,
    expected_previous_hash: &Option<Sha256Digest>,
    event: &EventEnvelope,
) -> (result: Result<(), EventStoreError>)
    requires
        (head.current_sequence as u64) < u64::MAX,
    ensures
        head.aggregate_type@ != event.aggregate_type@ ==> persistence_error(result, AGGREGATE_TYPE_CHANGE_MESSAGE@),
        head.aggregate_type@ == event.aggregate_type@ && (expected_next.0 != head_next_sequence(*head) || event.sequence != expected_next)
            ==> result == Err::<(), EventStoreError>(EventStoreError::SequenceConflict {
                expected: expected_next,
                actual: Sequence(head_next_sequence(*head) as u64),
            }),
        head.aggregate_type@ == event.aggregate_type@ && expected_next.0 == head_next_sequence(*head) && event.sequence == expected_next
            ==> match head_hash(*head) {
                None => persistence_error(result, DIGEST_LENGTH_MESSAGE@),
                Some(actual) => if actual == digest_bytes(*expected_previous_hash)
                    && digest_bytes(event.previous_event_hash) == digest_bytes(*expected_previous_hash) {
                    result is Ok
                } else {
                    result == Err::<(), EventStoreError>(EventStoreError::PredecessorConflict)
                },
            },
        result is Ok ==> append_accepted_at_head(*head, *event),
{
    if head.aggregate_type != event.aggregate_type {
        return Err(EventStoreError::Persistence(AGGREGATE_TYPE_CHANGE_MESSAGE.to_owned()));
    }

    let actual_next = Sequence((head.current_sequence as u64) + 1);
    if expected_next != actual_next || event.sequence != expected_next {
        return Err(EventStoreError::SequenceConflict { expected: expected_next, actual: actual_next });
    }

    let actual_previous_hash = match &head.current_event_hash {
        None => None,
        Some(bytes) => match digest_from_bytes(bytes.as_slice()) {
            Ok(digest) => Some(digest),
            Err(message) => return Err(EventStoreError::Persistence(message)),
        },
    };
    if !same_optional(&actual_previous_hash, expected_previous_hash) || !same_optional(&event.previous_event_hash, expected_previous_hash) {
        return Err(EventStoreError::PredecessorConflict);
    }
    Ok(())
}

/// The part of `append_accepted` that the head decides.
pub open spec fn append_accepted_at_head(head: AggregateHead, event: EventEnvelope) -> bool {
    &&& head.aggregate_type@ == event.aggregate_type@
    &&& event.sequence.0 == head_next_sequence(head)
    &&& head_hash(head) == Some(digest_bytes(event.previous_event_hash))
}

/// The head after a successful append: the event's sequence and hash.
pub fn head_after_append(head: &AggregateHead, event: &EventEnvelope) -> (next: AggregateHead)
    ensures
        head_advanced(next, *head, *event),
{
    let digest = event.payload_hash.as_bytes();
    let mut bytes: Vec<u8> = Vec::new();
    let mut i: usize = 0;
    while i < 32
        invariant
            0 <= i <= 32,
            digest@.len() == 32,
            digest@ == event.payload_hash@,
            bytes@ == digest@.take(i as int),
        decreases 32 - i,
    {
        bytes.push(digest[i]);
        assert(bytes@ =~= digest@.take(i + 1));
        i = i + 1;
    }
    assert(digest@.take(32) =~= digest@);
    AggregateHead {
        aggregate_type: head.aggregate_type.clone(),
        current_sequence: event.sequence.value() as i64,
        current_event_hash: Some(bytes),
    }
}

/// Reads a stored signature: exactly 64 bytes.
pub fn signature_from_stored(bytes: &[u8]) -> (result: Result<Signature, EventStoreError>)
    ensures
        bytes@.len() == 64 ==> (result matches Ok(signature) && signature@ == bytes@),
        bytes@.len() != 64 ==> persistence_error(result, SIGNATURE_LENGTH_MESSAGE@),
{
    if bytes.len() != 64 {
        return Err(EventStoreError::Persistence(SIGNATURE_LENGTH_MESSAGE.to_owned()));
    }
    let mut value = [0u8; 64];
    let mut i: usize = 0;
    while i < 64
        invariant
            0 <= i <= 64,
            bytes@.len() == 64,
            value@.len() == 64,
            forall|j: int| 0 <= j < i ==> value@[j] == bytes@[j],
        decreases 64 - i,
    {
        value[i] = bytes[i];
        i = i + 1;
    }
    assert(value@ =~= bytes@);
    Ok(Signature::from_bytes(value))
}

/// A loaded event is handed out only when its stored payload hash is the
/// hash of its exact stored payload.
pub fn check_stored_event(event: EventEnvelope) -> (result: Result<EventEnvelope, EventStoreError>)
    ensures
        event.payload_hash@ == sha256_of(event.payload@) ==> result == Ok::<EventEnvelope, EventStoreError>(event),
        event.payload_hash@ != sha256_of(event.payload@) ==> persistence_error(result, STORED_PAYLOAD_HASH_MESSAGE@),
{
    if !Sha256Digest::calculate(&event.payload).same_as(&event.payload_hash) {
        return Err(EventStoreError::Persistence(STORED_PAYLOAD_HASH_MESSAGE.to_owned()));
    }
    Ok(event)
}

/// The heads and events of an aggregate's append history: the first head is
/// a new one, every append was accepted at its head, and each head is the one
/// the previous append left.
pub open spec fn append_history(heads: Seq<AggregateHead>, events: Seq<EventEnvelope>, aggregate_id: AggregateId) -> bool {
    &&& heads.len() == events.len()
    &&& events.len() > 0
    &&& heads[0].current_sequence == 0
    &&& heads[0].current_event_hash is None
    &&& forall|i: int| 0 <= i < events.len() ==> append_accepted(#[trigger] heads[i], aggregate_id, events[i])
    &&& forall|i: int| 0 <= i < events.len() - 1 ==> head_advanced(#[trigger] heads[i + 1], heads[i], events[i])
}

proof fn lemma_append_history_positions(heads: Seq<AggregateHead>, events: Seq<EventEnvelope>, aggregate_id: AggregateId, i: int)
    requires
        append_history(heads, events, aggregate_id),
        events.len() < 0x7fff_ffff_ffff_ffff,
        0 <= i < events.len(),
    ensures
        heads[i].current_sequence == i,
        events[i].sequence.0 == i + 1,
        heads[i].aggregate_type@ == heads[0].aggregate_type@,
    decreases i,
{
    assert(append_accepted(heads[i], aggregate_id, events[i]));
    if i > 0 {
        lemma_append_history_positions(heads, events, aggregate_id, i - 1);
        assert(head_advanced(heads[i], heads[i - 1], events[i - 1]));
        assert(heads[i].current_sequence == i);
    }
    assert(events[i].sequence.0 == (heads[i].current_sequence as u64) + 1) by {
        assert(append_accepted(heads[i], aggregate_id, events[i]));
    }
    assert((heads[i].current_sequence as u64) == i);
}

/// What a read gives back of the writes: a history whose every event the
/// store accepted, each at the head the previous append left, keeps every
/// structural replay invariant (genesis, aggregate continuity, sequence
/// continuity, predecessor hashes, payload digests), so it replays under any
/// key that accepts its signatures.
pub proof fn appended_history_replays(heads: Seq<AggregateHead>, events: Seq<EventEnvelope>, aggregate_id: AggregateId, public_key: Seq<u8>)
    requires
        append_history(heads, events, aggregate_id),
        events.len() < 0x7fff_ffff_ffff_ffff,
    ensures
        is_genesis_event(events[0]),
        forall|i: int| 0 < i < events.len() ==> (#[trigger] link_error(events[i - 1], events[i])) is None,
        forall|i: int| 0 <= i < events.len() ==> (#[trigger] events[i]).payload_hash@ == sha256_of(events[i].payload@),
        (forall|i: int| 0 <= i < events.len() ==> ed25519_accepts(public_key, (#[trigger] events[i]).payload@, events[i].signature@))
            ==> replay_error(events, public_key) is None,
{
    lemma_append_history_positions(heads, events, aggregate_id, 0);
    assert(append_accepted(heads[0], aggregate_id, events[0]));
    assert forall|i: int| 0 < i < events.len() implies (#[trigger] link_error(events[i - 1], events[i])) is None by {
        lemma_append_history_positions(heads, events, aggregate_id, i);
        lemma_append_history_positions(heads, events, aggregate_id, i - 1);
        assert(append_accepted(heads[i], aggregate_id, events[i]));
        assert(append_accepted(heads[i - 1], aggregate_id, events[i - 1]));
        assert(head_advanced(heads[i], heads[i - 1], events[i - 1]));
        let bytes = heads[i].current_event_hash->0;
        assert(bytes@ == events[i - 1].payload_hash@);
        assert(events[i - 1].payload_hash@.len() == 32);
    }
    assert forall|i: int| 0 <= i < events.len() implies (#[trigger] events[i]).payload_hash@ == sha256_of(events[i].payload@) by {
        assert(append_accepted(heads[i], aggregate_id, events[i]));
    }
    if forall|i: int| 0 <= i < events.len() ==> ed25519_accepts(public_key, (#[trigger] events[i]).payload@, events[i].signature@) {
        assert forall|i: int| 0 <= i < events.len() implies (#[trigger] content_error(events[i], public_key)) is None by {
            assert(append_accepted(heads[i], aggregate_id, events[i]));
            assert(ed25519_accepts(public_key, events[i].payload@, events[i].signature@));
        }
        replay_accepts_exactly_valid_histories(events, public_key);
    }
}

} // verus!
