//! End-to-end take scenarios on the keyed reader.

use dds_reader_core::cache::{CacheChange, DdsData, TopicCache};
use dds_reader_core::dispatch::Sample;
use dds_reader_core::error::{DecodeErrorReason, ReadError};
use dds_reader_core::ids::{
    EntityId, Guid, GuidPrefix, KeyHash, RepresentationIdentifier, SequenceNumber, Timestamp,
};
use dds_reader_core::participant::{QosPolicies, Reliability, Topic};
use dds_reader_core::reader::SimpleDataReader;
use dds_reader_core::word_sample::{WordKey, WordSample, WordSampleAdapter};

fn guid(prefix: u64, entity: u64) -> Guid {
    Guid {
        prefix: GuidPrefix { value: prefix },
        entity_id: EntityId { value: entity },
    }
}

fn payload(key: u64, value: u64) -> Vec<u8> {
    let mut v = key.to_le_bytes().to_vec();
    v.extend_from_slice(&value.to_le_bytes());
    v
}

fn data_change(writer: Guid, sn: u64, enc: u16, bytes: Vec<u8>) -> CacheChange {
    CacheChange {
        writer_guid: writer,
        sequence_number: SequenceNumber { value: sn },
        data: DdsData::Data {
            representation_identifier: RepresentationIdentifier { value: enc },
            payload: bytes,
        },
    }
}

fn reader(
    reliability: Option<Reliability>,
    cache: &TopicCache,
) -> SimpleDataReader<WordKey> {
    let (_ping_tx, ping_rx) = flume::unbounded::<()>();
    let (disc_tx, _disc_rx) = flume::bounded(8);
    let (_status_tx, status_rx) = flume::unbounded();
    SimpleDataReader::new(
        Some(GuidPrefix { value: 9 }),
        EntityId { value: 1 },
        Topic::new("room".to_string(), "WordSample".to_string()),
        QosPolicies { reliability },
        ping_rx,
        cache,
        disc_tx,
        status_rx,
    )
    .ok()
    .expect("reader construction")
}

fn take(
    r: &mut SimpleDataReader<WordKey>,
    cache: &TopicCache,
    now: u64,
) -> Result<Option<dds_reader_core::dispatch::DeserializedCacheChange<WordSample, WordKey>>, ReadError> {
    r.drain_read_notifications();
    r.try_take_one::<WordSampleAdapter, WordSample>(cache, Timestamp { nanos: now })
}

#[test]
fn reliable_ordered_delivery_across_two_writers() {
    let mut cache = TopicCache::new("room".to_string());
    let w1 = guid(1, 1);
    let w2 = guid(2, 2);
    cache.add_change(Timestamp { nanos: 10 }, data_change(w1, 1, 1, payload(5, 11)));
    cache.add_change(Timestamp { nanos: 11 }, data_change(w2, 7, 1, payload(5, 27)));
    cache.add_change(Timestamp { nanos: 12 }, data_change(w1, 2, 1, payload(5, 12)));
    let mut r = reader(Some(Reliability::Reliable), &cache);

    let d1 = take(&mut r, &cache, 100).unwrap().unwrap();
    assert_eq!(d1.writer_guid, w1);
    assert_eq!(d1.sequence_number.value, 1);
    assert!(matches!(d1.sample, Sample::Value(s) if s.value == 11));

    let d2 = take(&mut r, &cache, 100).unwrap().unwrap();
    assert_eq!(d2.writer_guid, w2);
    assert_eq!(d2.sequence_number.value, 7);
    assert!(matches!(d2.sample, Sample::Value(s) if s.value == 27));

    let d3 = take(&mut r, &cache, 100).unwrap().unwrap();
    assert_eq!(d3.writer_guid, w1);
    assert_eq!(d3.sequence_number.value, 2);
    assert!(matches!(d3.sample, Sample::Value(s) if s.value == 12));

    assert!(take(&mut r, &cache, 100).unwrap().is_none());
}

#[test]
fn best_effort_late_arrival_dropped() {
    let mut cache = TopicCache::new("room".to_string());
    let w1 = guid(1, 1);
    cache.add_change(Timestamp { nanos: 5 }, data_change(w1, 1, 1, payload(4, 100)));
    let mut r = reader(Some(Reliability::BestEffort), &cache);

    let a = take(&mut r, &cache, 50).unwrap().unwrap();
    assert_eq!(a.receive_instant.nanos, 5);

    // A change older than the best-effort pointer arrives late, with a
    // fresher one after it: lateness implies loss.
    cache.add_change(Timestamp { nanos: 3 }, data_change(w1, 2, 1, payload(4, 101)));
    cache.add_change(Timestamp { nanos: 7 }, data_change(w1, 3, 1, payload(4, 102)));

    let c = take(&mut r, &cache, 50).unwrap().unwrap();
    assert_eq!(c.receive_instant.nanos, 7);
    assert_eq!(c.sequence_number.value, 3);
    assert!(matches!(c.sample, Sample::Value(s) if s.value == 102));

    assert!(take(&mut r, &cache, 50).unwrap().is_none());
}

#[test]
fn best_effort_ignores_entries_after_now() {
    let mut cache = TopicCache::new("room".to_string());
    let w1 = guid(1, 1);
    cache.add_change(Timestamp { nanos: 40 }, data_change(w1, 1, 1, payload(4, 1)));
    let mut r = reader(Some(Reliability::BestEffort), &cache);
    // The only entry lies after the current time.
    assert!(take(&mut r, &cache, 30).unwrap().is_none());
    // Once time has passed it, it is delivered.
    let d = take(&mut r, &cache, 40).unwrap().unwrap();
    assert_eq!(d.receive_instant.nanos, 40);
}

#[test]
fn dispose_by_key_hash_after_value() {
    let mut cache = TopicCache::new("room".to_string());
    let w1 = guid(1, 1);
    // The word key digests to itself.
    cache.add_change(Timestamp { nanos: 1 }, data_change(w1, 1, 1, payload(77, 5)));
    cache.add_change(
        Timestamp { nanos: 2 },
        CacheChange {
            writer_guid: w1,
            sequence_number: SequenceNumber { value: 2 },
            data: DdsData::DisposeByKeyHash { key_hash: KeyHash { value: 77 } },
        },
    );
    let mut r = reader(Some(Reliability::Reliable), &cache);

    let d1 = take(&mut r, &cache, 100).unwrap().unwrap();
    assert!(matches!(d1.sample, Sample::Value(s) if s.key == 77));

    let d2 = take(&mut r, &cache, 100).unwrap().unwrap();
    assert!(matches!(d2.sample, Sample::Dispose(WordKey { value: 77 })));
}

#[test]
fn dispose_by_unseen_key_hash_fails() {
    let mut cache = TopicCache::new("room".to_string());
    let w1 = guid(1, 1);
    cache.add_change(
        Timestamp { nanos: 2 },
        CacheChange {
            writer_guid: w1,
            sequence_number: SequenceNumber { value: 1 },
            data: DdsData::DisposeByKeyHash { key_hash: KeyHash { value: 123 } },
        },
    );
    let mut r = reader(Some(Reliability::Reliable), &cache);
    match take(&mut r, &cache, 100) {
        Err(ReadError::Serialization { topic_name, reason, .. }) => {
            assert_eq!(topic_name, "room");
            assert!(matches!(reason, DecodeErrorReason::UnknownKeyHash(KeyHash { value: 123 })));
        }
        other => panic!("expected serialization error, got {:?}", other.is_ok()),
    }
}

#[test]
fn dispose_by_key_resolves_and_remembers() {
    let mut cache = TopicCache::new("room".to_string());
    let w1 = guid(1, 1);
    cache.add_change(
        Timestamp { nanos: 1 },
        CacheChange {
            writer_guid: w1,
            sequence_number: SequenceNumber { value: 1 },
            data: DdsData::DisposeByKey {
                representation_identifier: RepresentationIdentifier { value: 1 },
                key_bytes: 42u64.to_le_bytes().to_vec(),
            },
        },
    );
    // The dispose-by-key remembers the key, so a dispose-by-hash for the
    // same instance then resolves.
    cache.add_change(
        Timestamp { nanos: 2 },
        CacheChange {
            writer_guid: w1,
            sequence_number: SequenceNumber { value: 2 },
            data: DdsData::DisposeByKeyHash { key_hash: KeyHash { value: 42 } },
        },
    );
    let mut r = reader(Some(Reliability::Reliable), &cache);
    let d1 = take(&mut r, &cache, 100).unwrap().unwrap();
    assert!(matches!(d1.sample, Sample::Dispose(WordKey { value: 42 })));
    let d2 = take(&mut r, &cache, 100).unwrap().unwrap();
    assert!(matches!(d2.sample, Sample::Dispose(WordKey { value: 42 })));
}

#[test]
fn malformed_key_bytes_fail() {
    let mut cache = TopicCache::new("room".to_string());
    let w1 = guid(1, 1);
    cache.add_change(
        Timestamp { nanos: 1 },
        CacheChange {
            writer_guid: w1,
            sequence_number: SequenceNumber { value: 1 },
            data: DdsData::DisposeByKey {
                representation_identifier: RepresentationIdentifier { value: 1 },
                key_bytes: vec![1, 2, 3],
            },
        },
    );
    let mut r = reader(Some(Reliability::Reliable), &cache);
    match take(&mut r, &cache, 100) {
        Err(ReadError::Serialization { reason, .. }) => {
            assert!(matches!(reason, DecodeErrorReason::KeyDecodeFailed));
        }
        _ => panic!("expected key decode failure"),
    }
}

#[test]
fn malformed_payload_fails_without_advancing() {
    let mut cache = TopicCache::new("room".to_string());
    let w1 = guid(1, 1);
    cache.add_change(Timestamp { nanos: 1 }, data_change(w1, 1, 1, vec![0, 1, 2]));
    let mut r = reader(Some(Reliability::Reliable), &cache);
    for _ in 0..2 {
        match take(&mut r, &cache, 100) {
            Err(ReadError::Serialization { reason, .. }) => {
                assert!(matches!(reason, DecodeErrorReason::PayloadDecodeFailed));
            }
            _ => panic!("expected payload decode failure"),
        }
    }
}

#[test]
fn unknown_encoding_then_pointers_unmoved() {
    let mut cache = TopicCache::new("room".to_string());
    let w1 = guid(1, 1);
    // Tagged with the big-endian tag, which the adapter does not support.
    cache.add_change(Timestamp { nanos: 10 }, data_change(w1, 1, 0, payload(4, 1)));
    let mut r = reader(Some(Reliability::BestEffort), &cache);

    match take(&mut r, &cache, 100) {
        Err(ReadError::Serialization { reason, .. }) => match reason {
            DecodeErrorReason::UnknownRepresentationId(rep) => assert_eq!(rep.value, 0),
            _ => panic!("expected unknown representation id"),
        },
        _ => panic!("expected serialization error"),
    }

    // The pointers did not advance past the offending change, so an earlier
    // supported change is still delivered.
    cache.add_change(Timestamp { nanos: 9 }, data_change(w1, 2, 1, payload(4, 2)));
    let d = take(&mut r, &cache, 100).unwrap().unwrap();
    assert_eq!(d.receive_instant.nanos, 9);

    // The offending change still stands and still fails.
    assert!(take(&mut r, &cache, 100).is_err());
}

#[test]
fn seeded_take_threads_the_seed() {
    let mut cache = TopicCache::new("room".to_string());
    let w1 = guid(1, 1);
    cache.add_change(Timestamp { nanos: 1 }, data_change(w1, 1, 1, payload(6, 0xF0)));
    let mut r = reader(Some(Reliability::Reliable), &cache);
    r.drain_read_notifications();
    let d = r
        .try_take_one_seed::<WordSampleAdapter, WordSample, u64>(
            &cache,
            Timestamp { nanos: 100 },
            0x0F,
        )
        .unwrap()
        .unwrap();
    // The seed mask is XOR-ed off the value word; the key is untouched.
    assert!(matches!(d.sample, Sample::Value(s) if s.key == 6 && s.value == 0xFF));
}

#[test]
fn construction_requires_participant_and_matching_cache() {
    let cache = TopicCache::new("room".to_string());
    let (_ping_tx, ping_rx) = flume::unbounded::<()>();
    let (disc_tx, _disc_rx) = flume::bounded(8);
    let (_status_tx, status_rx) = flume::unbounded();
    let r: Result<SimpleDataReader<WordKey>, ReadError> = SimpleDataReader::new(
        None,
        EntityId { value: 1 },
        Topic::new("room".to_string(), "WordSample".to_string()),
        QosPolicies { reliability: None },
        ping_rx,
        &cache,
        disc_tx,
        status_rx,
    );
    assert!(matches!(r, Err(ReadError::PreconditionNotMet)));

    let (_ping_tx, ping_rx) = flume::unbounded::<()>();
    let (disc_tx, _disc_rx) = flume::bounded(8);
    let (_status_tx, status_rx) = flume::unbounded();
    let r: Result<SimpleDataReader<WordKey>, ReadError> = SimpleDataReader::new(
        Some(GuidPrefix { value: 9 }),
        EntityId { value: 1 },
        Topic::new("elsewhere".to_string(), "WordSample".to_string()),
        QosPolicies { reliability: None },
        ping_rx,
        &cache,
        disc_tx,
        status_rx,
    );
    assert!(matches!(r, Err(ReadError::Internal)));
}

#[test]
fn reader_accessors_report_its_identity() {
    let cache = TopicCache::new("room".to_string());
    let r = reader(Some(Reliability::Reliable), &cache);
    assert_eq!(r.guid(), guid(9, 1));
    assert_eq!(r.topic().name().as_str(), "room");
    assert_eq!(r.topic().get_type().as_str(), "WordSample");
    assert!(matches!(r.qos().reliability(), Some(Reliability::Reliable)));
}
