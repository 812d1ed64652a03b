//! The no-key reader: values pass through, disposes are dropped.

use dds_reader_core::cache::{CacheChange, DdsData, TopicCache};
use dds_reader_core::ids::{
    EntityId, Guid, GuidPrefix, RepresentationIdentifier, SequenceNumber, Timestamp,
};
use dds_reader_core::no_key::{NoKey, SimpleDataReader};
use dds_reader_core::participant::{QosPolicies, Reliability, Topic};
use dds_reader_core::word_sample::WordValueAdapter;

fn guid(prefix: u64, entity: u64) -> Guid {
    Guid {
        prefix: GuidPrefix { value: prefix },
        entity_id: EntityId { value: entity },
    }
}

fn no_key_reader(cache: &TopicCache) -> SimpleDataReader {
    let (_ping_tx, ping_rx) = flume::unbounded::<()>();
    let (disc_tx, _disc_rx) = flume::bounded(8);
    let (_status_tx, status_rx) = flume::unbounded();
    let keyed: dds_reader_core::reader::SimpleDataReader<NoKey> =
        dds_reader_core::reader::SimpleDataReader::new(
            Some(GuidPrefix { value: 3 }),
            EntityId { value: 2 },
            Topic::new("plain".to_string(), "u64".to_string()),
            QosPolicies { reliability: Some(Reliability::Reliable) },
            ping_rx,
            cache,
            disc_tx,
            status_rx,
        )
        .ok()
        .expect("reader");
    SimpleDataReader::from_keyed(keyed)
}

#[test]
fn no_key_values_pass_through() {
    let mut cache = TopicCache::new("plain".to_string());
    cache.add_change(
        Timestamp { nanos: 1 },
        CacheChange {
            writer_guid: guid(1, 1),
            sequence_number: SequenceNumber { value: 1 },
            data: DdsData::Data {
                representation_identifier: RepresentationIdentifier { value: 1 },
                payload: 5000u64.to_le_bytes().to_vec(),
            },
        },
    );
    let mut r = no_key_reader(&cache);
    r.drain_read_notifications();
    let d = r
        .try_take_one::<WordValueAdapter, u64>(&cache, Timestamp { nanos: 100 })
        .unwrap()
        .unwrap();
    assert_eq!(d.value, 5000);
    assert_eq!(d.sequence_number.value, 1);
    assert_eq!(r.guid(), guid(3, 2));
    assert!(!r.is_terminated());
}

#[test]
fn no_key_disposes_are_dropped_but_consumed() {
    let mut cache = TopicCache::new("plain".to_string());
    // A dispose on a no-key topic: meaningless, silently dropped.
    cache.add_change(
        Timestamp { nanos: 1 },
        CacheChange {
            writer_guid: guid(1, 1),
            sequence_number: SequenceNumber { value: 1 },
            data: DdsData::DisposeByKey {
                representation_identifier: RepresentationIdentifier { value: 1 },
                key_bytes: Vec::new(),
            },
        },
    );
    cache.add_change(
        Timestamp { nanos: 2 },
        CacheChange {
            writer_guid: guid(1, 1),
            sequence_number: SequenceNumber { value: 2 },
            data: DdsData::Data {
                representation_identifier: RepresentationIdentifier { value: 1 },
                payload: 7u64.to_le_bytes().to_vec(),
            },
        },
    );
    let mut r = no_key_reader(&cache);
    r.drain_read_notifications();
    // The dispose is consumed and reported as nothing available.
    let first = r
        .try_take_one::<WordValueAdapter, u64>(&cache, Timestamp { nanos: 100 })
        .unwrap();
    assert!(first.is_none());
    // The following value is delivered: the pointers moved past the dispose.
    let second = r
        .try_take_one::<WordValueAdapter, u64>(&cache, Timestamp { nanos: 100 })
        .unwrap()
        .unwrap();
    assert_eq!(second.value, 7);
}
