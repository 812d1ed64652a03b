//! Error taxonomy of the reader pipeline.

use vstd::prelude::*;

use crate::ids::{KeyHash, RepresentationIdentifier};

verus! {

/// Why one cache change could not be decoded.
#[derive(Debug)]
pub enum DecodeErrorReason {
    /// The payload's representation identifier is not among the encodings
    /// the deserializer adapter supports.
    UnknownRepresentationId(RepresentationIdentifier),
    /// The adapter recognized the encoding but could not decode the payload.
    PayloadDecodeFailed,
    /// The serialized key of a dispose-by-key message could not be decoded.
    KeyDecodeFailed,
    /// A dispose-by-hash arrived for a hash no previously delivered key has.
    UnknownKeyHash(KeyHash),
}

/// Error returned by reader construction and by the take operations.
#[derive(Debug)]
pub enum ReadError {
    /// The owning participant was gone at construction time.
    PreconditionNotMet,
    /// The supplied topic cache does not belong to the reader's topic.
    Internal,
    /// A cache change could not be decoded; the read pointers did not
    /// advance, so the caller may retry or skip. Carries the topic name
    /// and the topic's type name for diagnosis.
    Serialization { topic_name: String, data_type: String, reason: DecodeErrorReason },
}

/// The sole end-of-stream signal of the status event stream: all status
/// senders are gone.
#[derive(Debug)]
pub enum StatusRecvError {
    Disconnected,
}

} // verus!
