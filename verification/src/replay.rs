//! Structural and cryptographic replay verification of an event history.
//! Replay is verification, not authority.

use crate::event::{is_genesis_event, EventEnvelope};
use crate::signature::{ed25519_accepts, CanonicalVerifier};
use crate::verification::{sha256_of, Sha256Digest};
use vstd::prelude::*;

verus! {

#[derive(Debug, Clone, PartialEq, Eq, Structural)]
pub enum ReplayError {
    EmptyHistory,
    SequenceMismatch,
    AggregateMismatch,
    PredecessorMismatch,
    PayloadHashMismatch,
    InvalidSignature,
}

/// How `event` fails to follow `previous`: another aggregate, a sequence
/// that does not advance by exactly one, or a predecessor hash that is not
/// the previous payload hash; `None` when it follows.
pub open spec fn link_error(previous: EventEnvelope, event: EventEnvelope) -> Option<ReplayError> {
    if event.aggregate_id != previous.aggregate_id || event.aggregate_type@ != previous.aggregate_type@ {
        Some(ReplayError::AggregateMismatch)
    } else if event.sequence.0 != previous.sequence.0 + 1 {
        Some(ReplayError::SequenceMismatch)
    } else if !(event.previous_event_hash matches Some(hash) && hash@ == previous.payload_hash@) {
        Some(ReplayError::PredecessorMismatch)
    } else {
        None
    }
}

/// How an event's own content fails: a payload hash that is not the SHA-256
/// of the exact payload, or a signature the key does not accept.
pub open spec fn content_error(event: EventEnvelope, public_key: Seq<u8>) -> Option<ReplayError> {
    if event.payload_hash@ != sha256_of(event.payload@) {
        Some(ReplayError::PayloadHashMismatch)
    } else if !ed25519_accepts(public_key, event.payload@, event.signature@) {
        Some(ReplayError::InvalidSignature)
    } else {
        None
    }
}

/// The first failure of the event at `index`: its link to the previous
/// event, then its content.
pub open spec fn event_error(events: Seq<EventEnvelope>, index: int, public_key: Seq<u8>) -> Option<ReplayError> {
    if index > 0 && link_error(events[index - 1], events[index]) is Some {
        link_error(events[index - 1], events[index])
    } else {
        content_error(events[index], public_key)
    }
}

/// The failure of the first failing event from `from` on.
pub open spec fn replay_error_from(events: Seq<EventEnvelope>, from: int, public_key: Seq<u8>) -> Option<ReplayError>
    decreases events.len() - from,
{
    if from < 0 || from >= events.len() {
        None
    } else {
        match event_error(events, from, public_key) {
            Some(e) => Some(e),
            None => replay_error_from(events, from + 1, public_key),
        }
    }
}

/// Why a history fails replay under a public key, at its earliest violated
/// invariant; `None` when it replays.
pub open spec fn replay_error(events: Seq<EventEnvelope>, public_key: Seq<u8>) -> Option<ReplayError> {
    if events.len() == 0 {
        Some(ReplayError::EmptyHistory)
    } else if !is_genesis_event(events[0]) {
        Some(ReplayError::PredecessorMismatch)
    } else {
        replay_error_from(events, 0, public_key)
    }
}

/// The replay invariants: a non-empty history that starts at genesis, whose
/// events each follow their predecessor, and whose events each carry the
/// hash of their exact payload and a signature the key accepts.
pub open spec fn valid_history(events: Seq<EventEnvelope>, public_key: Seq<u8>) -> bool {
    &&& events.len() > 0
    &&& is_genesis_event(events[0])
    &&& forall|i: int| 0 < i < events.len() ==> (#[trigger] link_error(events[i - 1], events[i])) is None
    &&& forall|i: int| 0 <= i < events.len() ==> (#[trigger] content_error(events[i], public_key)) is None
}

/// Verifies genesis, aggregate continuity, sequence continuity, predecessor
/// hashes, payload digests and signatures, failing at the earliest violated
/// invariant.
pub fn verify_history(events: &[EventEnvelope], verifier: &CanonicalVerifier) -> (result: Result<(), ReplayError>)
    ensures
        result == (match replay_error(events@, verifier@) {
            Some(e) => Err(e),
            None => Ok::<(), ReplayError>(()),
        }),
        result is Ok ==> forall|i: int| 0 < i < events@.len() ==>
            (#[trigger] events@[i].previous_event_hash matches Some(hash) && hash@ == events@[i - 1].payload_hash@),
{
    if events.len() == 0 {
        return Err(ReplayError::EmptyHistory);
    }
    if !events[0].is_genesis() {
        return Err(ReplayError::PredecessorMismatch);
    }

    let mut index: usize = 0;
    while index < events.len()
        invariant
            0 <= index <= events@.len(),
            events@.len() > 0,
            is_genesis_event(events@[0]),
            replay_error(events@, verifier@) == replay_error_from(events@, index as int, verifier@),
            forall|j: int| 0 <= j < index ==> (#[trigger] events@[j]).sequence.0 == j + 1,
        decreases events.len() - index,
    {
        let event = &events[index];
        if index > 0 {
            let previous = &events[index - 1];
            if event.aggregate_id != previous.aggregate_id || event.aggregate_type != previous.aggregate_type {
                return Err(ReplayError::AggregateMismatch);
            }
            assert(previous.sequence.0 == index);
            if event.sequence != previous.sequence.next() {
                return Err(ReplayError::SequenceMismatch);
            }
            let linked = match &event.previous_event_hash {
                Some(hash) => hash.same_as(&previous.payload_hash),
                None => false,
            };
            if !linked {
                return Err(ReplayError::PredecessorMismatch);
            }
        }

        if !Sha256Digest::calculate(&event.payload).same_as(&event.payload_hash) {
            return Err(ReplayError::PayloadHashMismatch);
        }

        if verifier.verify(&event.payload, &event.signature).is_err() {
            return Err(ReplayError::InvalidSignature);
        }
        index = index + 1;
    }
    proof {
        replay_accepted_history_is_chained(events@, verifier@);
    }
    Ok(())
}

proof fn lemma_no_error_from_means_valid(events: Seq<EventEnvelope>, from: int, public_key: Seq<u8>, i: int)
    requires
        0 <= from <= i < events.len(),
        replay_error_from(events, from, public_key) is None,
    ensures
        event_error(events, i, public_key) is None,
    decreases i - from,
{
    if from < i {
        lemma_no_error_from_means_valid(events, from + 1, public_key, i);
    }
}

proof fn lemma_valid_means_no_error_from(events: Seq<EventEnvelope>, from: int, public_key: Seq<u8>)
    requires
        0 <= from <= events.len(),
        forall|i: int| 0 < i < events.len() ==> (#[trigger] link_error(events[i - 1], events[i])) is None,
        forall|i: int| 0 <= i < events.len() ==> (#[trigger] content_error(events[i], public_key)) is None,
    ensures
        replay_error_from(events, from, public_key) is None,
    decreases events.len() - from,
{
    if from < events.len() {
        if from > 0 {
            assert(link_error(events[from - 1], events[from]) is None);
        }
        assert(content_error(events[from], public_key) is None);
        lemma_valid_means_no_error_from(events, from + 1, public_key);
    }
}

/// Failure of any invariant fails replay, and a history that keeps every
/// invariant replays.
pub proof fn replay_accepts_exactly_valid_histories(events: Seq<EventEnvelope>, public_key: Seq<u8>)
    ensures
        replay_error(events, public_key) is None <==> valid_history(events, public_key),
{
    if replay_error(events, public_key) is None {
        assert forall|i: int| 0 < i < events.len() implies (#[trigger] link_error(events[i - 1], events[i])) is None by {
            lemma_no_error_from_means_valid(events, 0, public_key, i);
        }
        assert forall|i: int| 0 <= i < events.len() implies (#[trigger] content_error(events[i], public_key)) is None by {
            lemma_no_error_from_means_valid(events, 0, public_key, i);
        }
    }
    if valid_history(events, public_key) {
        lemma_valid_means_no_error_from(events, 0, public_key);
    }
}

/// A history that replays starts with its genesis event, stays on one
/// aggregate, advances its sequence by exactly one per event, names as each
/// event's predecessor hash the payload hash of the event before it, and
/// carries for every event the SHA-256 of its exact payload and a signature
/// the key accepts.
pub proof fn replay_accepted_history_is_chained(events: Seq<EventEnvelope>, public_key: Seq<u8>)
    requires
        replay_error(events, public_key) is None,
    ensures
        events.len() > 0,
        events[0].sequence.0 == 1,
        events[0].previous_event_hash is None,
        forall|i: int| 0 < i < events.len() ==> {
            &&& (#[trigger] events[i]).aggregate_id == events[i - 1].aggregate_id
            &&& events[i].aggregate_type@ == events[i - 1].aggregate_type@
            &&& events[i].sequence.0 == events[i - 1].sequence.0 + 1
            &&& events[i].previous_event_hash matches Some(hash) && hash@ == events[i - 1].payload_hash@
        },
        forall|i: int| 0 <= i < events.len() ==> {
            &&& (#[trigger] events[i]).payload_hash@ == sha256_of(events[i].payload@)
            &&& ed25519_accepts(public_key, events[i].payload@, events[i].signature@)
        },
{
    replay_accepts_exactly_valid_histories(events, public_key);
    assert forall|i: int| 0 < i < events.len() implies {
        &&& (#[trigger] events[i]).aggregate_id == events[i - 1].aggregate_id
        &&& events[i].aggregate_type@ == events[i - 1].aggregate_type@
        &&& events[i].sequence.0 == events[i - 1].sequence.0 + 1
        &&& events[i].previous_event_hash matches Some(hash) && hash@ == events[i - 1].payload_hash@
    } by {
        assert(link_error(events[i - 1], events[i]) is None);
    }
    assert forall|i: int| 0 <= i < events.len() implies {
        &&& (#[trigger] events[i]).payload_hash@ == sha256_of(events[i].payload@)
        &&& ed25519_accepts(public_key, events[i].payload@, events[i].signature@)
    } by {
        assert(content_error(events[i], public_key) is None);
    }
}

proof fn lemma_chained_prefix_passes(events: Seq<EventEnvelope>, from: int, index: int, public_key: Seq<u8>)
    requires
        0 <= from <= index < events.len(),
        forall|k: int| 0 <= k < index ==> event_error(events, k, public_key) is None,
    ensures
        replay_error_from(events, from, public_key) == replay_error_from(events, index, public_key),
    decreases index - from,
{
    if from < index {
        assert(event_error(events, from, public_key) is None);
        lemma_chained_prefix_passes(events, from + 1, index, public_key);
    }
}

/// A history whose events up to `index` start at genesis, stay on one
/// aggregate, advance by one and carry valid content, but whose event at
/// `index` (again on the aggregate and one step on) names as predecessor
/// hash anything but the payload hash of the event before it, is refused
/// with `PredecessorMismatch`.
pub proof fn broken_predecessor_is_rejected(events: Seq<EventEnvelope>, public_key: Seq<u8>, index: int)
    requires
        0 < index < events.len(),
        events[0].sequence.0 == 1,
        events[0].previous_event_hash is None,
        forall|k: int| 0 < k < index ==> {
            &&& (#[trigger] events[k]).aggregate_id == events[k - 1].aggregate_id
            &&& events[k].aggregate_type@ == events[k - 1].aggregate_type@
            &&& events[k].sequence.0 == events[k - 1].sequence.0 + 1
            &&& events[k].previous_event_hash matches Some(hash) && hash@ == events[k - 1].payload_hash@
        },
        forall|k: int| 0 <= k < index ==> {
            &&& (#[trigger] events[k]).payload_hash@ == sha256_of(events[k].payload@)
            &&& ed25519_accepts(public_key, events[k].payload@, events[k].signature@)
        },
        events[index].aggregate_id == events[index - 1].aggregate_id,
        events[index].aggregate_type@ == events[index - 1].aggregate_type@,
        events[index].sequence.0 == events[index - 1].sequence.0 + 1,
        !(events[index].previous_event_hash matches Some(hash) && hash@ == events[index - 1].payload_hash@),
    ensures
        replay_error(events, public_key) == Some(ReplayError::PredecessorMismatch),
{
    assert forall|k: int| 0 <= k < index implies event_error(events, k, public_key) is None by {
        assert(content_error(events[k], public_key) is None);
        if k > 0 {
            assert(link_error(events[k - 1], events[k]) is None);
        }
    }
    lemma_chained_prefix_passes(events, 0, index, public_key);
    assert(event_error(events, index, public_key) == Some(ReplayError::PredecessorMismatch));
}

} // verus!
