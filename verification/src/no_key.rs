//! The no-key adaptation of the keyed reader: the key type is a unit, and
//! dispose notifications, meaningless on a no-key topic, are silently
//! dropped at this boundary.

use vstd::prelude::*;

use crate::cache::{first_selected, TopicCache};
use crate::dispatch::{
    decode_outcome, decode_outcome_seed, memo_after_decode, memo_after_decode_seed,
    DeserializerAdapter as KeyedDeserializerAdapter, KeyFromBytes, Sample,
    SeedDeserializerAdapter as KeyedSeedDeserializerAdapter,
};
use crate::error::{ReadError, StatusRecvError};
use crate::ids::{Guid, RepresentationIdentifier, SequenceNumber, Timestamp};
use crate::keys::{Key, Keyed};
use crate::participant::{DataReaderStatus, QosPolicies};
use crate::reader::frame_unchanged;
use std::task::Waker;

verus! {

/// The unit key of a no-key topic: every sample is one anonymous instance.
#[derive(Clone, Copy, PartialEq, Eq, Structural, Debug)]
pub struct NoKey {}

impl Key for NoKey {
    /// The one instance has the zero digest.
    open spec fn hash_spec(&self) -> crate::ids::KeyHash {
        crate::ids::KeyHash { value: 0 }
    }

    fn hash_key(&self) -> (h: crate::ids::KeyHash) {
        crate::ids::KeyHash { value: 0 }
    }

    fn clone_key(&self) -> (k: NoKey) {
        NoKey {  }
    }
}

/// Carries a no-key payload through the keyed machinery.
pub struct NoKeyWrapper<D> {
    pub d: D,
}

impl<D> Keyed<NoKey> for NoKeyWrapper<D> {
    open spec fn key_spec(&self) -> NoKey {
        NoKey {  }
    }

    fn key(&self) -> (k: NoKey) {
        NoKey {  }
    }
}

/// Deserializer capability for a no-key payload type: as the keyed one,
/// without key decoding.
pub trait DeserializerAdapter<D> {
    /// The encodings this adapter accepts.
    spec fn supported_spec() -> Seq<RepresentationIdentifier>;

    /// What the payload decoder yields on the given bytes and encoding.
    spec fn decode_spec(bytes: Seq<u8>, enc: RepresentationIdentifier) -> Option<D>;

    /// Lists the supported encodings.
    fn supported_encodings() -> (v: Vec<RepresentationIdentifier>)
        ensures
            v@ == Self::supported_spec(),
    ;

    /// Decodes a payload from serialized bytes tagged with a supported
    /// encoding `enc`.
    fn from_bytes(bytes: &Vec<u8>, enc: RepresentationIdentifier) -> (r: Option<D>)
        requires
            Self::supported_spec().contains(enc),
        ensures
            r == Self::decode_spec(bytes@, enc),
    ;
}

/// The seeded no-key deserializer capability.
pub trait SeedDeserializerAdapter<D, S> {
    /// The encodings this adapter accepts.
    spec fn seed_supported_spec() -> Seq<RepresentationIdentifier>;

    /// What the payload decoder yields on the given seed, bytes and encoding.
    spec fn decode_seed_spec(seed: S, bytes: Seq<u8>, enc: RepresentationIdentifier) -> Option<D>;

    /// Lists the supported encodings.
    fn seed_supported_encodings() -> (v: Vec<RepresentationIdentifier>)
        ensures
            v@ == Self::seed_supported_spec(),
    ;

    /// Decodes a payload, threading the seed through the decode.
    fn from_bytes_seed(seed: S, bytes: &Vec<u8>, enc: RepresentationIdentifier) -> (r: Option<D>)
        requires
            Self::seed_supported_spec().contains(enc),
        ensures
            r == Self::decode_seed_spec(seed, bytes@, enc),
    ;
}

/// Lifts a no-key adapter to the keyed machinery: payloads are wrapped,
/// and key decoding trivially yields the unit key.
pub struct DAWrapper<DA> {
    pub marker: core::marker::PhantomData<DA>,
}

impl<D, DA> KeyFromBytes<NoKeyWrapper<D>, NoKey> for DAWrapper<DA> {
    open spec fn key_decode_spec(bytes: Seq<u8>, enc: RepresentationIdentifier) -> Option<NoKey> {
        Some(NoKey {  })
    }

    fn key_from_bytes(bytes: &Vec<u8>, enc: RepresentationIdentifier) -> (r: Option<NoKey>) {
        Some(NoKey {  })
    }
}

impl<D, DA: DeserializerAdapter<D>> KeyedDeserializerAdapter<NoKeyWrapper<D>, NoKey> for DAWrapper<
    DA,
> {
    open spec fn supported_spec() -> Seq<RepresentationIdentifier> {
        DA::supported_spec()
    }

    open spec fn decode_spec(bytes: Seq<u8>, enc: RepresentationIdentifier) -> Option<
        NoKeyWrapper<D>,
    > {
        match DA::decode_spec(bytes, enc) {
            Some(d) => Some(NoKeyWrapper { d }),
            None => None,
        }
    }

    fn supported_encodings() -> (v: Vec<RepresentationIdentifier>) {
        DA::supported_encodings()
    }

    fn from_bytes(bytes: &Vec<u8>, enc: RepresentationIdentifier) -> (r: Option<NoKeyWrapper<D>>) {
        match DA::from_bytes(bytes, enc) {
            Some(d) => Some(NoKeyWrapper { d }),
            None => None,
        }
    }
}

impl<D, S, DA: SeedDeserializerAdapter<D, S>> KeyedSeedDeserializerAdapter<
    NoKeyWrapper<D>,
    NoKey,
    S,
> for DAWrapper<DA> {
    open spec fn seed_supported_spec() -> Seq<RepresentationIdentifier> {
        DA::seed_supported_spec()
    }

    open spec fn decode_seed_spec(seed: S, bytes: Seq<u8>, enc: RepresentationIdentifier) -> Option<
        NoKeyWrapper<D>,
    > {
        match DA::decode_seed_spec(seed, bytes, enc) {
            Some(d) => Some(NoKeyWrapper { d }),
            None => None,
        }
    }

    fn seed_supported_encodings() -> (v: Vec<RepresentationIdentifier>) {
        DA::seed_supported_encodings()
    }

    fn from_bytes_seed(seed: S, bytes: &Vec<u8>, enc: RepresentationIdentifier) -> (r: Option<
        NoKeyWrapper<D>,
    >) {
        match DA::from_bytes_seed(seed, bytes, enc) {
            Some(d) => Some(NoKeyWrapper { d }),
            None => None,
        }
    }
}

/// The delivered unit of a no-key topic: always a value, never a dispose.
pub struct DeserializedCacheChange<D> {
    pub receive_instant: Timestamp,
    pub writer_guid: Guid,
    pub sequence_number: SequenceNumber,
    pub value: D,
}

impl<D> DeserializedCacheChange<D> {
    /// Projects a keyed delivery: values pass through, disposes are
    /// dropped.
    pub fn from_keyed(
        kdcc: crate::dispatch::DeserializedCacheChange<NoKeyWrapper<D>, NoKey>,
    ) -> (r: Option<DeserializedCacheChange<D>>)
        ensures
            match kdcc.sample {
                Sample::Value(w) => r == Some(
                    DeserializedCacheChange {
                        receive_instant: kdcc.receive_instant,
                        writer_guid: kdcc.writer_guid,
                        sequence_number: kdcc.sequence_number,
                        value: w.d,
                    },
                ),
                Sample::Dispose(_) => r is None,
            },
    {
        match kdcc.sample {
            Sample::Value(w) => Some(
                DeserializedCacheChange {
                    receive_instant: kdcc.receive_instant,
                    writer_guid: kdcc.writer_guid,
                    sequence_number: kdcc.sequence_number,
                    value: w.d,
                },
            ),
            Sample::Dispose(_) => None,
        }
    }
}

/// A take-only reader of a no-key topic, a thin adaptation of the keyed
/// reader with the unit key type.
pub struct SimpleDataReader {
    pub keyed_simpledatareader: crate::reader::SimpleDataReader<NoKey>,
}

impl SimpleDataReader {
    pub open spec fn wf(&self) -> bool {
        self.keyed_simpledatareader.wf()
    }

    pub open spec fn is_reliable_spec(&self) -> bool {
        self.keyed_simpledatareader.is_reliable_spec()
    }

    /// Wraps an already constructed keyed reader.
    pub fn from_keyed(keyed_simpledatareader: crate::reader::SimpleDataReader<NoKey>) -> (r:
        SimpleDataReader)
        ensures
            r.keyed_simpledatareader == keyed_simpledatareader,
    {
        SimpleDataReader { keyed_simpledatareader }
    }

    /// Installs or clears the waker to be signalled when new data arrives.
    pub fn set_waker(&mut self, w: Option<Waker>)
        ensures
            final(self).keyed_simpledatareader.data_reader_waker == w,
            final(self).keyed_simpledatareader.read_state
                == old(self).keyed_simpledatareader.read_state,
            frame_unchanged(
                &old(self).keyed_simpledatareader,
                &final(self).keyed_simpledatareader,
            ),
    {
        self.keyed_simpledatareader.set_waker(w);
    }

    /// Drains every pending wake ping; call immediately before a take.
    pub fn drain_read_notifications(&self) {
        self.keyed_simpledatareader.drain_read_notifications();
    }

    /// Attempts to consume the next undelivered change. A decoded dispose
    /// is dropped here — it is meaningless on a no-key topic — and reported
    /// as nothing available, though the read pointers have advanced past it.
    pub fn try_take_one<DA: DeserializerAdapter<D>, D>(
        &mut self,
        topic_cache: &TopicCache,
        now: Timestamp,
    ) -> (r: Result<Option<DeserializedCacheChange<D>>, ReadError>)
        requires
            old(self).wf(),
        ensures
            final(self).wf(),
            frame_unchanged(
                &old(self).keyed_simpledatareader,
                &final(self).keyed_simpledatareader,
            ),
            match first_selected(
                topic_cache@,
                old(self).is_reliable_spec(),
                old(self).keyed_simpledatareader.read_state.latest_instant,
                old(self).keyed_simpledatareader.read_state.last_read_sn@,
                now,
            ) {
                None => r == Ok::<Option<DeserializedCacheChange<D>>, ReadError>(None) && final(self).keyed_simpledatareader.read_state
                    == old(self).keyed_simpledatareader.read_state,
                Some(entry) => match decode_outcome::<DAWrapper<DA>, NoKeyWrapper<D>, NoKey>(
                    entry.change.data,
                    old(self).keyed_simpledatareader.read_state.hash_to_key_map@,
                ) {
                    Ok(s) => {
                        &&& match s {
                            Sample::Value(w) => r == Ok::<_, ReadError>(
                                Some(
                                    DeserializedCacheChange {
                                        receive_instant: entry.instant,
                                        writer_guid: entry.change.writer_guid,
                                        sequence_number: entry.change.sequence_number,
                                        value: w.d,
                                    },
                                ),
                            ),
                            Sample::Dispose(_) => r == Ok::<
                                Option<DeserializedCacheChange<D>>,
                                ReadError,
                            >(None),
                        }
                        &&& final(self).keyed_simpledatareader.read_state.last_read_sn@
                            == old(self).keyed_simpledatareader.read_state.last_read_sn@.insert(
                            entry.change.writer_guid,
                            entry.change.sequence_number,
                        )
                        &&& final(self).keyed_simpledatareader.read_state.latest_instant == (
                        if entry.instant.nanos > old(
                            self,
                        ).keyed_simpledatareader.read_state.latest_instant.nanos {
                            entry.instant
                        } else {
                            old(self).keyed_simpledatareader.read_state.latest_instant
                        })
                        &&& final(self).keyed_simpledatareader.read_state.hash_to_key_map@
                            == memo_after_decode::<DAWrapper<DA>, NoKeyWrapper<D>, NoKey>(
                            entry.change.data,
                            old(self).keyed_simpledatareader.read_state.hash_to_key_map@,
                        )
                    },
                    Err(reason) => {
                        &&& r == Err::<Option<DeserializedCacheChange<D>>, _>(
                            ReadError::Serialization {
                                topic_name: old(self).keyed_simpledatareader.my_topic.name,
                                data_type: old(self).keyed_simpledatareader.my_topic.data_type,
                                reason,
                            },
                        )
                        &&& final(self).keyed_simpledatareader.read_state
                            == old(self).keyed_simpledatareader.read_state
                    },
                },
            },
    {
        match self.keyed_simpledatareader.try_take_one::<DAWrapper<DA>, NoKeyWrapper<D>>(
            topic_cache,
            now,
        ) {
            Err(e) => Err(e),
            Ok(None) => Ok(None),
            Ok(Some(kdcc)) => match DeserializedCacheChange::<D>::from_keyed(kdcc) {
                Some(dcc) => Ok(Some(dcc)),
                None => Ok(None),
            },
        }
    }

    /// Like `try_take_one`, but threads a caller-supplied stateful
    /// deserialization seed through the value decode.
    pub fn try_take_one_seed<DA: SeedDeserializerAdapter<D, S>, D, S>(
        &mut self,
        topic_cache: &TopicCache,
        now: Timestamp,
        deserialize: S,
    ) -> (r: Result<Option<DeserializedCacheChange<D>>, ReadError>)
        requires
            old(self).wf(),
        ensures
            final(self).wf(),
            frame_unchanged(
                &old(self).keyed_simpledatareader,
                &final(self).keyed_simpledatareader,
            ),
            match first_selected(
                topic_cache@,
                old(self).is_reliable_spec(),
                old(self).keyed_simpledatareader.read_state.latest_instant,
                old(self).keyed_simpledatareader.read_state.last_read_sn@,
                now,
            ) {
                None => r == Ok::<Option<DeserializedCacheChange<D>>, ReadError>(None)
                    && final(self).keyed_simpledatareader.read_state
                    == old(self).keyed_simpledatareader.read_state,
                Some(entry) => match decode_outcome_seed::<
                    DAWrapper<DA>,
                    NoKeyWrapper<D>,
                    NoKey,
                    S,
                >(
                    deserialize,
                    entry.change.data,
                    old(self).keyed_simpledatareader.read_state.hash_to_key_map@,
                ) {
                    Ok(s) => {
                        &&& match s {
                            Sample::Value(w) => r == Ok::<_, ReadError>(
                                Some(
                                    DeserializedCacheChange {
                                        receive_instant: entry.instant,
                                        writer_guid: entry.change.writer_guid,
                                        sequence_number: entry.change.sequence_number,
                                        value: w.d,
                                    },
                                ),
                            ),
                            Sample::Dispose(_) => r == Ok::<
                                Option<DeserializedCacheChange<D>>,
                                ReadError,
                            >(None),
                        }
                        &&& final(self).keyed_simpledatareader.read_state.last_read_sn@
                            == old(self).keyed_simpledatareader.read_state.last_read_sn@.insert(
                            entry.change.writer_guid,
                            entry.change.sequence_number,
                        )
                        &&& final(self).keyed_simpledatareader.read_state.hash_to_key_map@
                            == memo_after_decode_seed::<
                            DAWrapper<DA>,
                            NoKeyWrapper<D>,
                            NoKey,
                            S,
                        >(
                            deserialize,
                            entry.change.data,
                            old(self).keyed_simpledatareader.read_state.hash_to_key_map@,
                        )
                    },
                    Err(reason) => {
                        &&& r == Err::<Option<DeserializedCacheChange<D>>, _>(
                            ReadError::Serialization {
                                topic_name: old(self).keyed_simpledatareader.my_topic.name,
                                data_type: old(self).keyed_simpledatareader.my_topic.data_type,
                                reason,
                            },
                        )
                        &&& final(self).keyed_simpledatareader.read_state
                            == old(self).keyed_simpledatareader.read_state
                    },
                },
            },
    {
        match self.keyed_simpledatareader.try_take_one_seed::<
            DAWrapper<DA>,
            NoKeyWrapper<D>,
            S,
        >(topic_cache, now, deserialize) {
            Err(e) => Err(e),
            Ok(None) => Ok(None),
            Ok(Some(kdcc)) => match DeserializedCacheChange::<D>::from_keyed(kdcc) {
                Some(dcc) => Ok(Some(dcc)),
                None => Ok(None),
            },
        }
    }

    pub fn qos(&self) -> (q: &QosPolicies)
        ensures
            q == &self.keyed_simpledatareader.qos_policy,
    {
        self.keyed_simpledatareader.qos()
    }

    pub fn guid(&self) -> (g: Guid)
        ensures
            g == self.keyed_simpledatareader.my_guid,
    {
        self.keyed_simpledatareader.guid()
    }

    /// The sample stream never terminates; callers stop it by dropping it.
    pub fn is_terminated(&self) -> (b: bool)
        ensures
            b == false,
    {
        self.keyed_simpledatareader.is_terminated()
    }

    /// One non-blocking poll of the status channel.
    pub fn try_recv_status(&self) -> Option<DataReaderStatus> {
        self.keyed_simpledatareader.try_recv_status()
    }

    /// One poll of the status event stream.
    pub fn poll_status_event(&self) -> Option<Result<DataReaderStatus, StatusRecvError>> {
        self.keyed_simpledatareader.poll_status_event()
    }

    /// Dismantles the reader, sending its one removal command to discovery.
    pub fn dismantle(self) -> bool {
        self.keyed_simpledatareader.dismantle()
    }
}

} // verus!
