//! The immutable event envelope: identity, aggregate, sequence, exact
//! payload, payload hash, predecessor hash, provenance and signature.

use crate::signature::Signature;
use crate::time::{normalize_timestamp, normalized, Timestamp};
use crate::verification::{sha256_of, CanonicalBytes, Sha256Digest};
use vstd::prelude::*;

verus! {

#[derive(Debug, Clone, Copy, PartialEq, Eq, Hash, Structural)]
pub struct EventId(pub u128);

impl EventId {
    pub fn new(value: u128) -> (id: Self)
        ensures
            id.0 == value,
    {
        EventId(value)
    }

    pub fn value(self) -> (value: u128)
        ensures
            value == self.0,
    {
        self.0
    }
}

#[derive(Debug, Clone, Copy, PartialEq, Eq, Hash, Structural)]
pub struct AggregateId(pub u128);

impl AggregateId {
    pub fn new(value: u128) -> (id: Self)
        ensures
            id.0 == value,
    {
        AggregateId(value)
    }

    pub fn value(self) -> (value: u128)
        ensures
            value == self.0,
    {
        self.0
    }
}

/// Position of an event in its aggregate's history; the first is 1.
#[derive(Debug, Clone, Copy, PartialEq, Eq, Structural)]
pub struct Sequence(pub u64);

impl Sequence {
    pub fn genesis() -> (sequence: Self)
        ensures
            sequence.0 == 1,
    {
        Sequence(1)
    }

    pub fn next(self) -> (next: Self)
        requires
            self.0 < u64::MAX,
        ensures
            next.0 == self.0 + 1,
    {
        Sequence(self.0 + 1)
    }

    pub fn value(self) -> (value: u64)
        ensures
            value == self.0,
    {
        self.0
    }
}

#[derive(Debug, Clone, Copy, PartialEq, Eq, Structural)]
pub struct SchemaVersion(pub u16);

/// One immutable event of an aggregate's history.
#[derive(Debug, Clone, PartialEq, Eq)]
pub struct EventEnvelope {
    pub event_id: EventId,
    pub event_type: String,
    pub aggregate_id: AggregateId,
    pub aggregate_type: String,
    pub sequence: Sequence,
    pub occurred_at: Timestamp,
    pub recorded_at: Timestamp,
    pub actor_id: u128,
    pub authority_reference: Option<u128>,
    pub correlation_id: Option<u128>,
    pub causation_id: Option<EventId>,
    pub payload: CanonicalBytes,
    pub payload_hash: Sha256Digest,
    pub previous_event_hash: Option<Sha256Digest>,
    pub schema_version: SchemaVersion,
    pub provenance: u128,
    pub signature: Signature,
}

/// The first event of a history: sequence 1 and no predecessor.
pub open spec fn is_genesis_event(event: EventEnvelope) -> bool {
    event.sequence.0 == 1 && event.previous_event_hash is None
}

impl EventEnvelope {
    /// Frames an event: the payload hash is the SHA-256 of the exact payload
    /// bytes and both instants are recorded at microsecond precision.
    #[allow(clippy::too_many_arguments)]
    pub fn new(
        event_id: EventId,
        event_type: String,
        aggregate_id: AggregateId,
        aggregate_type: String,
        sequence: Sequence,
        occurred_at: Timestamp,
        recorded_at: Timestamp,
        actor_id: u128,
        authority_reference: Option<u128>,
        correlation_id: Option<u128>,
        causation_id: Option<EventId>,
        payload: CanonicalBytes,
        previous_event_hash: Option<Sha256Digest>,
        schema_version: SchemaVersion,
        provenance: u128,
        signature: Signature,
    ) -> (event: Self)
        ensures
            event.event_id == event_id,
            event.event_type == event_type,
            event.aggregate_id == aggregate_id,
            event.aggregate_type == aggregate_type,
            event.sequence == sequence,
            event.occurred_at == normalized(occurred_at),
            event.recorded_at == normalized(recorded_at),
            event.actor_id == actor_id,
            event.authority_reference == authority_reference,
            event.correlation_id == correlation_id,
            event.causation_id == causation_id,
            event.payload == payload,
            event.payload_hash@ == sha256_of(payload@),
            event.previous_event_hash == previous_event_hash,
            event.schema_version == schema_version,
            event.provenance == provenance,
            event.signature == signature,
    {
        let payload_hash = Sha256Digest::calculate(&payload);
        EventEnvelope {
            event_id,
            event_type,
            aggregate_id,
            aggregate_type,
            sequence,
            occurred_at: normalize_timestamp(occurred_at),
            recorded_at: normalize_timestamp(recorded_at),
            actor_id,
            authority_reference,
            correlation_id,
            causation_id,
            payload,
            payload_hash,
            previous_event_hash,
            schema_version,
            provenance,
            signature,
        }
    }

    pub fn is_genesis(&self) -> (genesis: bool)
        ensures
            genesis == is_genesis_event(*self),
    {
        self.sequence.0 == 1 && self.previous_event_hash.is_none()
    }
}

} // verus!
