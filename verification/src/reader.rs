//! The keyed simple data reader: take-only consumption of a topic cache,
//! with reliability-aware read pointers, deserialization dispatch, key-hash
//! tracking, and the poll step of the asynchronous sample stream.

use vstd::prelude::*;

use crate::cache::{first_selected, lemma_first_selected_props, CacheChange, TopicCache};
use crate::channels::{
    pending_notification_count, poll_status_channel, send_discovery_command, try_recv_ping,
    StatusPoll,
};
use crate::dispatch::{
    decode_outcome, decode_outcome_seed, memo_after_decode, memo_after_decode_seed,
    DeserializedCacheChange, DeserializerAdapter, Sample, SeedDeserializerAdapter,
};
use crate::error::{DecodeErrorReason, ReadError, StatusRecvError};
use crate::ids::{EntityId, Guid, GuidPrefix, RepresentationIdentifier, Timestamp};
use crate::keys::{Key, Keyed};
use crate::laws::{best_effort_delivery, reliable_delivery};
use crate::maps::{KeyMemo, SnMap};
use crate::participant::{DataReaderStatus, DiscoveryCommand, QosPolicies, Topic};
use crate::readstate::ReadState;
use std::task::Waker;

verus! {

/// One poll of the sample stream.
pub enum StreamPoll<D, K> {
    /// A sample was ready.
    ReadyItem(DeserializedCacheChange<D, K>),
    /// A change was ready but could not be decoded.
    ReadyError(ReadError),
    /// Nothing undelivered; the waker is parked and will be signalled when
    /// the receive path appends a change.
    Pending,
}

/// A take-only reader of one topic cache. It keeps no sample history and
/// does no deduplication beyond its read pointers.
pub struct SimpleDataReader<K: Key> {
    pub my_topic: Topic,
    pub qos_policy: QosPolicies,
    pub my_guid: Guid,
    /// Edge-triggered wake pings from the receive path; every ping must be
    /// drained before a take, or level state is lost.
    pub notification_receiver: flume::Receiver<()>,
    pub read_state: ReadState<K>,
    /// Where the one teardown command is sent.
    pub discovery_command: flume::Sender<DiscoveryCommand>,
    /// Status events from the receive path.
    pub status_receiver: flume::Receiver<DataReaderStatus>,
    /// The parked task waker, installed by the stream's poll step and read
    /// by the receive path when it wants to wake the consumer.
    pub data_reader_waker: Option<Waker>,
}

/// Everything but the read pointers and the waker is immutable for the
/// reader's whole lifetime.
pub open spec fn frame_unchanged<K: Key>(a: &SimpleDataReader<K>, b: &SimpleDataReader<K>) -> bool {
    &&& a.my_topic == b.my_topic
    &&& a.qos_policy == b.qos_policy
    &&& a.my_guid == b.my_guid
    &&& a.notification_receiver == b.notification_receiver
    &&& a.discovery_command == b.discovery_command
    &&& a.status_receiver == b.status_receiver
}

impl<K: Key> SimpleDataReader<K> {
    pub open spec fn wf(&self) -> bool {
        self.read_state.wf()
    }

    /// Is this reader reliable, by its QoS snapshot?
    pub open spec fn is_reliable_spec(&self) -> bool {
        self.qos_policy.is_reliable_spec()
    }

    /// Constructs a reader, as the internal subscriber factory does.
    ///
    /// Fails with a precondition-not-met error when the owning participant
    /// is gone (no prefix to build the reader's identity from), and with an
    /// internal error when the supplied topic cache does not belong to the
    /// reader's topic.
    pub fn new(
        participant_guid_prefix: Option<GuidPrefix>,
        my_id: EntityId,
        topic: Topic,
        qos_policy: QosPolicies,
        notification_receiver: flume::Receiver<()>,
        topic_cache: &TopicCache,
        discovery_command: flume::Sender<DiscoveryCommand>,
        status_receiver: flume::Receiver<DataReaderStatus>,
    ) -> (r: Result<SimpleDataReader<K>, ReadError>)
        ensures
            match r {
                Ok(reader) => {
                    &&& participant_guid_prefix matches Some(p) && reader.my_guid == (Guid {
                        prefix: p,
                        entity_id: my_id,
                    })
                    &&& topic.name@ == topic_cache.topic_name_spec()
                    &&& reader.my_topic == topic
                    &&& reader.qos_policy == qos_policy
                    &&& reader.read_state.latest_instant.nanos == 0
                    &&& reader.read_state.last_read_sn@ == Map::<
                        Guid,
                        crate::ids::SequenceNumber,
                    >::empty()
                    &&& reader.read_state.hash_to_key_map@ == Map::<
                        crate::ids::KeyHash,
                        K,
                    >::empty()
                    &&& reader.notification_receiver == notification_receiver
                    &&& reader.discovery_command == discovery_command
                    &&& reader.status_receiver == status_receiver
                    &&& reader.data_reader_waker is None
                    &&& reader.wf()
                },
                Err(ReadError::PreconditionNotMet) => participant_guid_prefix is None,
                Err(ReadError::Internal) => participant_guid_prefix is Some && topic.name@
                    != topic_cache.topic_name_spec(),
                Err(_) => false,
            },
    {
        let prefix = match participant_guid_prefix {
            Some(p) => p,
            None => {
                return Err(ReadError::PreconditionNotMet);
            },
        };
        let my_guid = Guid::new_with_prefix_and_id(prefix, my_id);
        if !(*topic.name() == *topic_cache.topic_name()) {
            return Err(ReadError::Internal);
        }
        Ok(
            SimpleDataReader {
                my_topic: topic,
                qos_policy,
                my_guid,
                notification_receiver,
                read_state: ReadState::new(),
                discovery_command,
                status_receiver,
                data_reader_waker: None,
            },
        )
    }

    pub fn qos(&self) -> (q: &QosPolicies)
        ensures
            q == &self.qos_policy,
    {
        &self.qos_policy
    }

    pub fn guid(&self) -> (g: Guid)
        ensures
            g == self.my_guid,
    {
        self.my_guid
    }

    pub fn topic(&self) -> (t: &Topic)
        ensures
            t == &self.my_topic,
    {
        &self.my_topic
    }

    /// Installs or clears the waker to be signalled when new data arrives.
    pub fn set_waker(&mut self, w: Option<Waker>)
        ensures
            final(self).data_reader_waker == w,
            final(self).read_state == old(self).read_state,
            frame_unchanged(old(self), final(self)),
    {
        self.data_reader_waker = w;
    }

    /// Drains every wake ping pending in the notification channel at the
    /// moment of the call. Must be called immediately before a take, so no
    /// level-triggered state is lost.
    pub fn drain_read_notifications(&self) {
        let mut remaining = pending_notification_count(&self.notification_receiver);
        while remaining > 0
            decreases remaining,
        {
            let _got = try_recv_ping(&self.notification_receiver);
            remaining -= 1;
        }
    }

    /// Finds the next undecoded change: the reliable range walks the
    /// per-writer read pointers, the best-effort range is bounded by the
    /// latest delivered instant and the current time.
    pub fn try_take_undecoded(
        is_reliable: bool,
        topic_cache: &TopicCache,
        latest_instant: Timestamp,
        last_read_sn: &SnMap,
        now: Timestamp,
    ) -> (r: Option<usize>)
        requires
            last_read_sn.wf(),
        ensures
            match r {
                Some(i) => i < topic_cache@.len() && Some(topic_cache@[i as int])
                    == first_selected(
                    topic_cache@,
                    is_reliable,
                    latest_instant,
                    last_read_sn@,
                    now,
                ),
                None => first_selected(
                    topic_cache@,
                    is_reliable,
                    latest_instant,
                    last_read_sn@,
                    now,
                ) is None,
            },
    {
        topic_cache.next_undelivered(is_reliable, latest_instant, last_read_sn, now)
    }

    /// Remembers the key of a decoded sample under its hash, so that later
    /// dispose-by-hash messages can be resolved.
    fn update_hash_to_key_map<D: Keyed<K>>(
        hash_to_key_map: &mut KeyMemo<K>,
        deserialized: &Sample<D, K>,
    )
        requires
            old(hash_to_key_map).wf(),
        ensures
            final(hash_to_key_map).wf(),
            final(hash_to_key_map)@ == crate::dispatch::remember(
                old(hash_to_key_map)@,
                crate::dispatch::decoded_sample_key(*deserialized),
            ),
    {
        let instance_key = match deserialized {
            Sample::Value(d) => d.key(),
            Sample::Dispose(k) => k.clone_key(),
        };
        let h = instance_key.hash_key();
        hash_to_key_map.insert(h, instance_key);
    }

    /// Is `enc` among the supported encodings?
    fn encoding_supported(
        supported: &Vec<RepresentationIdentifier>,
        enc: RepresentationIdentifier,
    ) -> (r: bool)
        ensures
            r == supported@.contains(enc),
    {
        let n = supported.len();
        let mut i: usize = 0;
        while i < n
            invariant
                n == supported@.len(),
                0 <= i <= n,
                forall|j: int| 0 <= j < i ==> supported@[j] != enc,
            decreases n - i,
        {
            if supported[i] == enc {
                proof {
                    assert(supported@[i as int] == enc);
                }
                return true;
            }
            i += 1;
        }
        false
    }

    /// Decodes one cache change according to its payload variant, and
    /// updates the hash-to-key memo exactly as a successful value or
    /// dispose-by-key decode requires.
    pub fn deserialize<DA: DeserializerAdapter<D, K>, D: Keyed<K>>(
        timestamp: Timestamp,
        cc: &CacheChange,
        hash_to_key_map: &mut KeyMemo<K>,
    ) -> (r: Result<DeserializedCacheChange<D, K>, DecodeErrorReason>)
        requires
            old(hash_to_key_map).wf(),
        ensures
            final(hash_to_key_map).wf(),
            final(hash_to_key_map)@ == memo_after_decode::<DA, D, K>(
                cc.data,
                old(hash_to_key_map)@,
            ),
            match decode_outcome::<DA, D, K>(cc.data, old(hash_to_key_map)@) {
                Ok(s) => r == Ok::<_, DecodeErrorReason>(
                    DeserializedCacheChange {
                        receive_instant: timestamp,
                        writer_guid: cc.writer_guid,
                        sequence_number: cc.sequence_number,
                        sample: s,
                    },
                ),
                Err(e) => r == Err::<DeserializedCacheChange<D, K>, _>(e) && *final(hash_to_key_map)
                    == *old(hash_to_key_map),
            },
    {
        match &cc.data {
            crate::cache::DdsData::Data { representation_identifier, payload } => {
                let supported = DA::supported_encodings();
                if Self::encoding_supported(&supported, *representation_identifier) {
                    match DA::from_bytes(payload, *representation_identifier) {
                        Some(d) => {
                            let p = Sample::Value(d);
                            Self::update_hash_to_key_map(hash_to_key_map, &p);
                            Ok(DeserializedCacheChange::new(timestamp, cc, p))
                        },
                        None => Err(DecodeErrorReason::PayloadDecodeFailed),
                    }
                } else {
                    Err(DecodeErrorReason::UnknownRepresentationId(*representation_identifier))
                }
            },
            crate::cache::DdsData::DisposeByKey { representation_identifier, key_bytes } => {
                match DA::key_from_bytes(key_bytes, *representation_identifier) {
                    Some(key) => {
                        let k = Sample::Dispose(key);
                        Self::update_hash_to_key_map(hash_to_key_map, &k);
                        Ok(DeserializedCacheChange::new(timestamp, cc, k))
                    },
                    None => Err(DecodeErrorReason::KeyDecodeFailed),
                }
            },
            crate::cache::DdsData::DisposeByKeyHash { key_hash } => {
                match hash_to_key_map.get_key(*key_hash) {
                    Some(key) => Ok(
                        DeserializedCacheChange::new(timestamp, cc, Sample::Dispose(key)),
                    ),
                    None => Err(DecodeErrorReason::UnknownKeyHash(*key_hash)),
                }
            },
        }
    }

    /// The seeded variant of `deserialize`: the seed is threaded through
    /// the value decode only; key decoding is always stateless.
    pub fn deserialize_seed<DA: SeedDeserializerAdapter<D, K, S>, D: Keyed<K>, S>(
        timestamp: Timestamp,
        cc: &CacheChange,
        hash_to_key_map: &mut KeyMemo<K>,
        deserialize: S,
    ) -> (r: Result<DeserializedCacheChange<D, K>, DecodeErrorReason>)
        requires
            old(hash_to_key_map).wf(),
        ensures
            final(hash_to_key_map).wf(),
            final(hash_to_key_map)@ == memo_after_decode_seed::<DA, D, K, S>(
                deserialize,
                cc.data,
                old(hash_to_key_map)@,
            ),
            match decode_outcome_seed::<DA, D, K, S>(deserialize, cc.data, old(hash_to_key_map)@) {
                Ok(s) => r == Ok::<_, DecodeErrorReason>(
                    DeserializedCacheChange {
                        receive_instant: timestamp,
                        writer_guid: cc.writer_guid,
                        sequence_number: cc.sequence_number,
                        sample: s,
                    },
                ),
                Err(e) => r == Err::<DeserializedCacheChange<D, K>, _>(e) && *final(hash_to_key_map)
                    == *old(hash_to_key_map),
            },
    {
        match &cc.data {
            crate::cache::DdsData::Data { representation_identifier, payload } => {
                let supported = DA::seed_supported_encodings();
                if Self::encoding_supported(&supported, *representation_identifier) {
                    match DA::from_bytes_seed(deserialize, payload, *representation_identifier) {
                        Some(d) => {
                            let p = Sample::Value(d);
                            Self::update_hash_to_key_map(hash_to_key_map, &p);
                            Ok(DeserializedCacheChange::new(timestamp, cc, p))
                        },
                        None => Err(DecodeErrorReason::PayloadDecodeFailed),
                    }
                } else {
                    Err(DecodeErrorReason::UnknownRepresentationId(*representation_identifier))
                }
            },
            crate::cache::DdsData::DisposeByKey { representation_identifier, key_bytes } => {
                match DA::key_from_bytes(key_bytes, *representation_identifier) {
                    Some(key) => {
                        let k = Sample::Dispose(key);
                        Self::update_hash_to_key_map(hash_to_key_map, &k);
                        Ok(DeserializedCacheChange::new(timestamp, cc, k))
                    },
                    None => Err(DecodeErrorReason::KeyDecodeFailed),
                }
            },
            crate::cache::DdsData::DisposeByKeyHash { key_hash } => {
                match hash_to_key_map.get_key(*key_hash) {
                    Some(key) => Ok(
                        DeserializedCacheChange::new(timestamp, cc, Sample::Dispose(key)),
                    ),
                    None => Err(DecodeErrorReason::UnknownKeyHash(*key_hash)),
                }
            },
        }
    }

    /// Attempts to consume the next undelivered change, delivering at most
    /// one per call.
    ///
    /// Call `drain_read_notifications` immediately before this, or new
    /// notifications may not appear.
    ///
    /// The read pointers advance exactly on success; a decode failure
    /// returns a serialization error naming the topic and leaves every
    /// pointer where it was, so the caller may retry or skip.
    pub fn try_take_one<DA: DeserializerAdapter<D, K>, D: Keyed<K>>(
        &mut self,
        topic_cache: &TopicCache,
        now: Timestamp,
    ) -> (r: Result<Option<DeserializedCacheChange<D, K>>, ReadError>)
        requires
            old(self).wf(),
        ensures
            final(self).wf(),
            frame_unchanged(old(self), final(self)),
            final(self).data_reader_waker == old(self).data_reader_waker,
            match first_selected(
                topic_cache@,
                old(self).is_reliable_spec(),
                old(self).read_state.latest_instant,
                old(self).read_state.last_read_sn@,
                now,
            ) {
                None => r == Ok::<Option<DeserializedCacheChange<D, K>>, ReadError>(None) && final(self).read_state
                    == old(self).read_state,
                Some(entry) => match decode_outcome::<DA, D, K>(
                    entry.change.data,
                    old(self).read_state.hash_to_key_map@,
                ) {
                    Ok(s) => {
                        &&& r == Ok::<_, ReadError>(
                            Some(
                                DeserializedCacheChange {
                                    receive_instant: entry.instant,
                                    writer_guid: entry.change.writer_guid,
                                    sequence_number: entry.change.sequence_number,
                                    sample: s,
                                },
                            ),
                        )
                        &&& final(self).read_state.latest_instant == (if entry.instant.nanos
                            > old(self).read_state.latest_instant.nanos {
                            entry.instant
                        } else {
                            old(self).read_state.latest_instant
                        })
                        &&& final(self).read_state.last_read_sn@
                            == old(self).read_state.last_read_sn@.insert(
                            entry.change.writer_guid,
                            entry.change.sequence_number,
                        )
                        &&& final(self).read_state.hash_to_key_map@ == memo_after_decode::<
                            DA,
                            D,
                            K,
                        >(entry.change.data, old(self).read_state.hash_to_key_map@)
                    },
                    Err(reason) => {
                        &&& r == Err::<Option<DeserializedCacheChange<D, K>>, _>(
                            ReadError::Serialization {
                                topic_name: old(self).my_topic.name,
                                data_type: old(self).my_topic.data_type,
                                reason,
                            },
                        )
                        &&& final(self).read_state == old(self).read_state
                    },
                },
            },
            old(self).is_reliable_spec() ==> (r matches Ok(Some(d)) ==> reliable_delivery(
                old(self).read_state.last_read_sn@,
                d.writer_guid,
                d.sequence_number,
                final(self).read_state.last_read_sn@,
            )),
            !old(self).is_reliable_spec() ==> (r matches Ok(Some(d)) ==> best_effort_delivery(
                old(self).read_state.latest_instant,
                d.receive_instant,
                final(self).read_state.latest_instant,
            )),
            r matches Ok(Some(d)) ==> exists|i: int|
                0 <= i < topic_cache@.len() && (#[trigger] topic_cache@[i]).instant
                    == d.receive_instant && topic_cache@[i].change.writer_guid == d.writer_guid
                    && topic_cache@[i].change.sequence_number == d.sequence_number,
            r matches Err(_) ==> final(self).read_state == old(self).read_state,
    {
        let is_reliable = self.qos_policy.is_reliable();
        let idx_opt = Self::try_take_undecoded(
            is_reliable,
            topic_cache,
            self.read_state.latest_instant,
            &self.read_state.last_read_sn,
            now,
        );
        proof {
            lemma_first_selected_props(
                topic_cache@,
                is_reliable,
                self.read_state.latest_instant,
                self.read_state.last_read_sn@,
                now,
            );
        }
        let i = match idx_opt {
            None => {
                return Ok(None);
            },
            Some(i) => i,
        };
        let entry = topic_cache.entry_at(i);
        let timestamp = entry.instant;
        match Self::deserialize::<DA, D>(
            timestamp,
            &entry.change,
            &mut self.read_state.hash_to_key_map,
        ) {
            Ok(dcc) => {
                if timestamp.nanos > self.read_state.latest_instant.nanos {
                    self.read_state.latest_instant = timestamp;
                }
                self.read_state.last_read_sn.insert(dcc.writer_guid, dcc.sequence_number);
                proof {
                    assert(topic_cache@[i as int].instant == dcc.receive_instant);
                }
                Ok(Some(dcc))
            },
            Err(reason) => Err(
                ReadError::Serialization {
                    topic_name: self.my_topic.name.clone(),
                    data_type: self.my_topic.data_type.clone(),
                    reason,
                },
            ),
        }
    }

    /// Like `try_take_one`, but threads a caller-supplied stateful
    /// deserialization seed through the value decode.
    pub fn try_take_one_seed<DA: SeedDeserializerAdapter<D, K, S>, D: Keyed<K>, S>(
        &mut self,
        topic_cache: &TopicCache,
        now: Timestamp,
        deserialize: S,
    ) -> (r: Result<Option<DeserializedCacheChange<D, K>>, ReadError>)
        requires
            old(self).wf(),
        ensures
            final(self).wf(),
            frame_unchanged(old(self), final(self)),
            final(self).data_reader_waker == old(self).data_reader_waker,
            match first_selected(
                topic_cache@,
                old(self).is_reliable_spec(),
                old(self).read_state.latest_instant,
                old(self).read_state.last_read_sn@,
                now,
            ) {
                None => r == Ok::<Option<DeserializedCacheChange<D, K>>, ReadError>(None) && final(self).read_state
                    == old(self).read_state,
                Some(entry) => match decode_outcome_seed::<DA, D, K, S>(
                    deserialize,
                    entry.change.data,
                    old(self).read_state.hash_to_key_map@,
                ) {
                    Ok(s) => {
                        &&& r == Ok::<_, ReadError>(
                            Some(
                                DeserializedCacheChange {
                                    receive_instant: entry.instant,
                                    writer_guid: entry.change.writer_guid,
                                    sequence_number: entry.change.sequence_number,
                                    sample: s,
                                },
                            ),
                        )
                        &&& final(self).read_state.latest_instant == (if entry.instant.nanos
                            > old(self).read_state.latest_instant.nanos {
                            entry.instant
                        } else {
                            old(self).read_state.latest_instant
                        })
                        &&& final(self).read_state.last_read_sn@
                            == old(self).read_state.last_read_sn@.insert(
                            entry.change.writer_guid,
                            entry.change.sequence_number,
                        )
                        &&& final(self).read_state.hash_to_key_map@ == memo_after_decode_seed::<
                            DA,
                            D,
                            K,
                            S,
                        >(deserialize, entry.change.data, old(self).read_state.hash_to_key_map@)
                    },
                    Err(reason) => {
                        &&& r == Err::<Option<DeserializedCacheChange<D, K>>, _>(
                            ReadError::Serialization {
                                topic_name: old(self).my_topic.name,
                                data_type: old(self).my_topic.data_type,
                                reason,
                            },
                        )
                        &&& final(self).read_state == old(self).read_state
                    },
                },
            },
            old(self).is_reliable_spec() ==> (r matches Ok(Some(d)) ==> reliable_delivery(
                old(self).read_state.last_read_sn@,
                d.writer_guid,
                d.sequence_number,
                final(self).read_state.last_read_sn@,
            )),
            !old(self).is_reliable_spec() ==> (r matches Ok(Some(d)) ==> best_effort_delivery(
                old(self).read_state.latest_instant,
                d.receive_instant,
                final(self).read_state.latest_instant,
            )),
            r matches Err(_) ==> final(self).read_state == old(self).read_state,
    {
        let is_reliable = self.qos_policy.is_reliable();
        let idx_opt = Self::try_take_undecoded(
            is_reliable,
            topic_cache,
            self.read_state.latest_instant,
            &self.read_state.last_read_sn,
            now,
        );
        proof {
            lemma_first_selected_props(
                topic_cache@,
                is_reliable,
                self.read_state.latest_instant,
                self.read_state.last_read_sn@,
                now,
            );
        }
        let i = match idx_opt {
            None => {
                return Ok(None);
            },
            Some(i) => i,
        };
        let entry = topic_cache.entry_at(i);
        let timestamp = entry.instant;
        match Self::deserialize_seed::<DA, D, S>(
            timestamp,
            &entry.change,
            &mut self.read_state.hash_to_key_map,
            deserialize,
        ) {
            Ok(dcc) => {
                if timestamp.nanos > self.read_state.latest_instant.nanos {
                    self.read_state.latest_instant = timestamp;
                }
                self.read_state.last_read_sn.insert(dcc.writer_guid, dcc.sequence_number);
                Ok(Some(dcc))
            },
            Err(reason) => Err(
                ReadError::Serialization {
                    topic_name: self.my_topic.name.clone(),
                    data_type: self.my_topic.data_type.clone(),
                    reason,
                },
            ),
        }
    }

    /// The poll step of the sample stream: try to take; when nothing is
    /// there, park the waker and try once more, closing the race with a
    /// change that arrived in between; only then report pending.
    ///
    /// When this returns pending, no undelivered change stood in the cache
    /// at return time, and the waker is installed, so an appended change
    /// wakes the task.
    pub fn poll_take<DA: DeserializerAdapter<D, K>, D: Keyed<K>>(
        &mut self,
        topic_cache: &TopicCache,
        now: Timestamp,
        waker: Waker,
    ) -> (r: StreamPoll<D, K>)
        requires
            old(self).wf(),
        ensures
            final(self).wf(),
            frame_unchanged(old(self), final(self)),
            match first_selected(
                topic_cache@,
                old(self).is_reliable_spec(),
                old(self).read_state.latest_instant,
                old(self).read_state.last_read_sn@,
                now,
            ) {
                None => r is Pending && final(self).read_state == old(self).read_state,
                Some(entry) => match decode_outcome::<DA, D, K>(
                    entry.change.data,
                    old(self).read_state.hash_to_key_map@,
                ) {
                    Ok(s) => r == StreamPoll::<D, K>::ReadyItem(
                        DeserializedCacheChange {
                            receive_instant: entry.instant,
                            writer_guid: entry.change.writer_guid,
                            sequence_number: entry.change.sequence_number,
                            sample: s,
                        },
                    ) && final(self).data_reader_waker == old(self).data_reader_waker,
                    Err(reason) => r == StreamPoll::<D, K>::ReadyError(
                        ReadError::Serialization {
                            topic_name: old(self).my_topic.name,
                            data_type: old(self).my_topic.data_type,
                            reason,
                        },
                    ) && final(self).read_state == old(self).read_state && final(self).data_reader_waker
                        == old(self).data_reader_waker,
                },
            },
            r is Pending ==> first_selected(
                topic_cache@,
                final(self).is_reliable_spec(),
                final(self).read_state.latest_instant,
                final(self).read_state.last_read_sn@,
                now,
            ) is None && final(self).data_reader_waker == Some(waker),
    {
        match self.try_take_one::<DA, D>(topic_cache, now) {
            Err(e) => StreamPoll::ReadyError(e),
            Ok(Some(d)) => StreamPoll::ReadyItem(d),
            Ok(None) => {
                self.set_waker(Some(waker));
                match self.try_take_one::<DA, D>(topic_cache, now) {
                    Err(e) => StreamPoll::ReadyError(e),
                    Ok(Some(d)) => StreamPoll::ReadyItem(d),
                    Ok(None) => StreamPoll::Pending,
                }
            },
        }
    }

    /// The sample stream never terminates; it is always valid to poll
    /// again. Callers stop the stream by dropping it.
    pub fn is_terminated(&self) -> (b: bool)
        ensures
            b == false,
    {
        false
    }

    /// One non-blocking poll of the status channel, as the synchronous
    /// status interface reports it: a pending event, or nothing.
    pub fn try_recv_status(&self) -> Option<DataReaderStatus> {
        match poll_status_channel(&self.status_receiver) {
            StatusPoll::Event(s) => Some(s),
            StatusPoll::Empty => None,
            StatusPoll::Disconnected => None,
        }
    }

    /// One poll of the status event stream: a status event, nothing yet
    /// (`None`), or the disconnection sentinel that ends the stream.
    pub fn poll_status_event(&self) -> Option<Result<DataReaderStatus, StatusRecvError>> {
        match poll_status_channel(&self.status_receiver) {
            StatusPoll::Event(s) => Some(Ok(s)),
            StatusPoll::Empty => None,
            StatusPoll::Disconnected => Some(Err(StatusRecvError::Disconnected)),
        }
    }

    /// The one command this reader's teardown addresses to discovery.
    pub fn removal_command(&self) -> (c: DiscoveryCommand)
        ensures
            c == (DiscoveryCommand::RemoveLocalReader { guid: self.my_guid }),
    {
        DiscoveryCommand::RemoveLocalReader { guid: self.my_guid }
    }

    /// Dismantles the reader: sends exactly one remove-local-reader command
    /// for this reader's identity to discovery. Consuming the reader makes
    /// a second send impossible by construction. A `false` result means the
    /// command could not be handed over, e.g. discovery is already shutting
    /// down; that is logged by callers, never propagated.
    pub fn dismantle(self) -> bool {
        let cmd = self.removal_command();
        send_discovery_command(&self.discovery_command, cmd)
    }
}

} // verus!
