//! Deserialization dispatch: adapter capabilities, the delivered sample
//! types, and the exact outcome of decoding one cache change against the
//! reader's key memo.

use vstd::prelude::*;

use crate::cache::{CacheChange, DdsData};
use crate::error::DecodeErrorReason;
use crate::ids::{Guid, KeyHash, RepresentationIdentifier, SequenceNumber, Timestamp};
use crate::keys::{Key, Keyed};

verus! {

/// Application-facing value: a decoded payload or a dispose notification
/// carrying a concrete key.
pub enum Sample<D, K> {
    Value(D),
    Dispose(K),
}

/// The delivered unit: arrival timestamp, writer identity and sequence
/// number copied from the source change, and the decoded sample.
pub struct DeserializedCacheChange<D, K> {
    pub receive_instant: Timestamp,
    pub writer_guid: Guid,
    pub sequence_number: SequenceNumber,
    pub sample: Sample<D, K>,
}

impl<D, K> DeserializedCacheChange<D, K> {
    pub fn new(receive_instant: Timestamp, cc: &CacheChange, sample: Sample<D, K>) -> (r:
        DeserializedCacheChange<D, K>)
        ensures
            r == (DeserializedCacheChange {
                receive_instant,
                writer_guid: cc.writer_guid,
                sequence_number: cc.sequence_number,
                sample,
            }),
    {
        DeserializedCacheChange {
            receive_instant,
            writer_guid: cc.writer_guid,
            sequence_number: cc.sequence_number,
            sample,
        }
    }
}

/// Capability to decode a serialized key of the sample type `D`, as
/// carried by dispose-by-key messages. Key decoding is always stateless.
pub trait KeyFromBytes<D: Keyed<K>, K: Key> {
    /// What the key decoder yields on the given bytes and encoding;
    /// `None` means the bytes are rejected.
    spec fn key_decode_spec(bytes: Seq<u8>, enc: RepresentationIdentifier) -> Option<K>;

    /// Decodes a key from serialized bytes tagged with encoding `enc`.
    fn key_from_bytes(bytes: &Vec<u8>, enc: RepresentationIdentifier) -> (r: Option<K>)
        ensures
            r == Self::key_decode_spec(bytes@, enc),
    ;
}

/// Capability to decode payloads of type `D`: a set of supported encodings
/// and a decode operation from tagged bytes.
pub trait DeserializerAdapter<D: Keyed<K>, K: Key>: KeyFromBytes<D, K> {
    /// The encodings this adapter accepts.
    spec fn supported_spec() -> Seq<RepresentationIdentifier>;

    /// What the payload decoder yields on the given bytes and encoding;
    /// `None` means the bytes are rejected.
    spec fn decode_spec(bytes: Seq<u8>, enc: RepresentationIdentifier) -> Option<D>;

    /// Lists the supported encodings.
    fn supported_encodings() -> (v: Vec<RepresentationIdentifier>)
        ensures
            v@ == Self::supported_spec(),
    ;

    /// Decodes a payload from serialized bytes tagged with a supported
    /// encoding `enc`.
    fn from_bytes(bytes: &Vec<u8>, enc: RepresentationIdentifier) -> (r: Option<D>)
        requires
            Self::supported_spec().contains(enc),
        ensures
            r == Self::decode_spec(bytes@, enc),
    ;
}

/// Capability to decode payloads of type `D` with a caller-supplied,
/// stateful deserialization seed of type `S`, consumed by the decode.
pub trait SeedDeserializerAdapter<D: Keyed<K>, K: Key, S>: KeyFromBytes<D, K> {
    /// The encodings this adapter accepts.
    spec fn seed_supported_spec() -> Seq<RepresentationIdentifier>;

    /// What the payload decoder yields on the given seed, bytes and encoding.
    spec fn decode_seed_spec(seed: S, bytes: Seq<u8>, enc: RepresentationIdentifier) -> Option<D>;

    /// Lists the supported encodings.
    fn seed_supported_encodings() -> (v: Vec<RepresentationIdentifier>)
        ensures
            v@ == Self::seed_supported_spec(),
    ;

    /// Decodes a payload from serialized bytes tagged with a supported
    /// encoding `enc`, threading the seed through the decode.
    fn from_bytes_seed(seed: S, bytes: &Vec<u8>, enc: RepresentationIdentifier) -> (r: Option<D>)
        requires
            Self::seed_supported_spec().contains(enc),
        ensures
            r == Self::decode_seed_spec(seed, bytes@, enc),
    ;
}

/// The key an accepted sample carries: the key of the value, or the key the
/// dispose names.
pub open spec fn decoded_sample_key<D: Keyed<K>, K: Key>(s: Sample<D, K>) -> K {
    match s {
        Sample::Value(d) => d.key_spec(),
        Sample::Dispose(k) => k,
    }
}

/// Remembering a key in the hash-to-key memo.
pub open spec fn remember<K: Key>(memo: Map<KeyHash, K>, k: K) -> Map<KeyHash, K> {
    memo.insert(k.hash_spec(), k)
}

/// The exact outcome of decoding one payload variant against the adapter
/// `DA` and the key memo `memo`:
///
/// - data tagged with an unsupported encoding is rejected, otherwise the
///   adapter decides between a value and a payload decode failure;
/// - a dispose-by-key decodes its serialized key, statelessly;
/// - a dispose-by-hash resolves the hash in the memo and never synthesizes
///   a key; an unseen hash is rejected.
pub open spec fn decode_outcome<DA: DeserializerAdapter<D, K>, D: Keyed<K>, K: Key>(
    data: DdsData,
    memo: Map<KeyHash, K>,
) -> Result<Sample<D, K>, DecodeErrorReason> {
    match data {
        DdsData::Data { representation_identifier, payload } => {
            if DA::supported_spec().contains(representation_identifier) {
                match DA::decode_spec(payload@, representation_identifier) {
                    Some(d) => Ok(Sample::Value(d)),
                    None => Err(DecodeErrorReason::PayloadDecodeFailed),
                }
            } else {
                Err(DecodeErrorReason::UnknownRepresentationId(representation_identifier))
            }
        },
        DdsData::DisposeByKey { representation_identifier, key_bytes } => {
            match DA::key_decode_spec(key_bytes@, representation_identifier) {
                Some(k) => Ok(Sample::Dispose(k)),
                None => Err(DecodeErrorReason::KeyDecodeFailed),
            }
        },
        DdsData::DisposeByKeyHash { key_hash } => {
            if memo.contains_key(key_hash) {
                Ok(Sample::Dispose(memo[key_hash]))
            } else {
                Err(DecodeErrorReason::UnknownKeyHash(key_hash))
            }
        },
    }
}

/// The seeded variant of `decode_outcome`: the seed is threaded through the
/// value decode only; key decoding and hash resolution are unchanged.
pub open spec fn decode_outcome_seed<
    DA: SeedDeserializerAdapter<D, K, S>,
    D: Keyed<K>,
    K: Key,
    S,
>(seed: S, data: DdsData, memo: Map<KeyHash, K>) -> Result<Sample<D, K>, DecodeErrorReason> {
    match data {
        DdsData::Data { representation_identifier, payload } => {
            if DA::seed_supported_spec().contains(representation_identifier) {
                match DA::decode_seed_spec(seed, payload@, representation_identifier) {
                    Some(d) => Ok(Sample::Value(d)),
                    None => Err(DecodeErrorReason::PayloadDecodeFailed),
                }
            } else {
                Err(DecodeErrorReason::UnknownRepresentationId(representation_identifier))
            }
        },
        DdsData::DisposeByKey { representation_identifier, key_bytes } => {
            match DA::key_decode_spec(key_bytes@, representation_identifier) {
                Some(k) => Ok(Sample::Dispose(k)),
                None => Err(DecodeErrorReason::KeyDecodeFailed),
            }
        },
        DdsData::DisposeByKeyHash { key_hash } => {
            if memo.contains_key(key_hash) {
                Ok(Sample::Dispose(memo[key_hash]))
            } else {
                Err(DecodeErrorReason::UnknownKeyHash(key_hash))
            }
        },
    }
}

/// How the key memo grows on a successful decode: value and dispose-by-key
/// deliveries remember the key under its hash; dispose-by-hash and every
/// failure leave the memo unchanged.
pub open spec fn memo_after_decode<DA: DeserializerAdapter<D, K>, D: Keyed<K>, K: Key>(
    data: DdsData,
    memo: Map<KeyHash, K>,
) -> Map<KeyHash, K> {
    match decode_outcome::<DA, D, K>(data, memo) {
        Ok(s) => match data {
            DdsData::DisposeByKeyHash { .. } => memo,
            _ => remember(memo, decoded_sample_key(s)),
        },
        Err(_) => memo,
    }
}

/// The seeded variant of `memo_after_decode`.
pub open spec fn memo_after_decode_seed<
    DA: SeedDeserializerAdapter<D, K, S>,
    D: Keyed<K>,
    K: Key,
    S,
>(seed: S, data: DdsData, memo: Map<KeyHash, K>) -> Map<KeyHash, K> {
    match decode_outcome_seed::<DA, D, K, S>(seed, data, memo) {
        Ok(s) => match data {
            DdsData::DisposeByKeyHash { .. } => memo,
            _ => remember(memo, decoded_sample_key(s)),
        },
        Err(_) => memo,
    }
}

} // verus!
