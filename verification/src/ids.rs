//! Identifiers of the RTPS data model: all opaque, totally ordered, copyable
//! values, modelled as fixed-width integers.

use vstd::prelude::*;

verus! {

/// Arrival time of a cache change, in nanoseconds since some fixed origin.
#[derive(Clone, Copy, PartialEq, Eq, Structural, Debug)]
pub struct Timestamp {
    pub nanos: u64,
}

impl Timestamp {
    /// The zero instant; the initial best-effort read pointer.
    pub fn zero() -> (t: Timestamp)
        ensures
            t.nanos == 0,
    {
        Timestamp { nanos: 0 }
    }
}

/// Prefix shared by all entities of one participant.
#[derive(Clone, Copy, PartialEq, Eq, Structural, Debug)]
pub struct GuidPrefix {
    pub value: u64,
}

/// Identifier of an entity within one participant.
#[derive(Clone, Copy, PartialEq, Eq, Structural, Debug)]
pub struct EntityId {
    pub value: u64,
}

/// Globally unique identifier of an RTPS entity, e.g. of a writer.
#[derive(Clone, Copy, PartialEq, Eq, Structural, Debug)]
pub struct Guid {
    pub prefix: GuidPrefix,
    pub entity_id: EntityId,
}

impl Guid {
    pub fn new_with_prefix_and_id(prefix: GuidPrefix, entity_id: EntityId) -> (g: Guid)
        ensures
            g == (Guid { prefix, entity_id }),
    {
        Guid { prefix, entity_id }
    }
}

/// Sequence number of a change, monotonic per writer.
#[derive(Clone, Copy, PartialEq, Eq, Structural, Debug)]
pub struct SequenceNumber {
    pub value: u64,
}

/// Fixed-width digest of a topic key, as carried on the wire by a
/// dispose-by-hash message.
#[derive(Clone, Copy, PartialEq, Eq, Structural, Debug)]
pub struct KeyHash {
    pub value: u64,
}

/// Two-byte wire tag identifying the serialization format of a payload
/// or of a serialized key.
#[derive(Clone, Copy, PartialEq, Eq, Structural, Debug)]
pub struct RepresentationIdentifier {
    pub value: u16,
}

} // verus!
