//! The stream poll step, the wake protocol, status events, and teardown.

use dds_reader_core::cache::{CacheChange, DdsData, TopicCache};
use dds_reader_core::dispatch::Sample;
use dds_reader_core::ids::{
    EntityId, Guid, GuidPrefix, RepresentationIdentifier, SequenceNumber, Timestamp,
};
use dds_reader_core::participant::{
    DataReaderStatus, DiscoveryCommand, QosPolicies, Reliability, Topic,
};
use dds_reader_core::reader::{SimpleDataReader, StreamPoll};
use dds_reader_core::word_sample::{WordKey, WordSample, WordSampleAdapter};

fn guid(prefix: u64, entity: u64) -> Guid {
    Guid {
        prefix: GuidPrefix { value: prefix },
        entity_id: EntityId { value: entity },
    }
}

fn payload(key: u64, value: u64) -> Vec<u8> {
    let mut v = key.to_le_bytes().to_vec();
    v.extend_from_slice(&value.to_le_bytes());
    v
}

fn data_change(writer: Guid, sn: u64, bytes: Vec<u8>) -> CacheChange {
    CacheChange {
        writer_guid: writer,
        sequence_number: SequenceNumber { value: sn },
        data: DdsData::Data {
            representation_identifier: RepresentationIdentifier { value: 1 },
            payload: bytes,
        },
    }
}

#[test]
fn poll_parks_waker_then_wakes_to_ready() {
    let mut cache = TopicCache::new("room".to_string());
    let (ping_tx, ping_rx) = flume::unbounded::<()>();
    let (disc_tx, _disc_rx) = flume::bounded(8);
    let (_status_tx, status_rx) = flume::unbounded();
    let mut r: SimpleDataReader<WordKey> = SimpleDataReader::new(
        Some(GuidPrefix { value: 9 }),
        EntityId { value: 1 },
        Topic::new("room".to_string(), "WordSample".to_string()),
        QosPolicies { reliability: Some(Reliability::Reliable) },
        ping_rx,
        &cache,
        disc_tx,
        status_rx,
    )
    .ok()
    .expect("reader");

    // Empty cache: the poll parks the waker and reports pending.
    let p = r.poll_take::<WordSampleAdapter, WordSample>(
        &cache,
        Timestamp { nanos: 100 },
        futures::task::noop_waker(),
    );
    assert!(matches!(p, StreamPoll::Pending));
    assert!(r.data_reader_waker.is_some());

    // The receive path appends a change and pings the notification channel.
    cache.add_change(Timestamp { nanos: 10 }, data_change(guid(1, 1), 1, payload(3, 30)));
    ping_tx.send(()).unwrap();

    // The woken task polls again and gets the sample.
    r.drain_read_notifications();
    let p = r.poll_take::<WordSampleAdapter, WordSample>(
        &cache,
        Timestamp { nanos: 100 },
        futures::task::noop_waker(),
    );
    match p {
        StreamPoll::ReadyItem(d) => {
            assert_eq!(d.sequence_number.value, 1);
            assert!(matches!(d.sample, Sample::Value(s) if s.value == 30));
        }
        _ => panic!("expected a ready sample"),
    }
}

#[test]
fn poll_reports_decode_errors_as_ready() {
    let mut cache = TopicCache::new("room".to_string());
    cache.add_change(
        Timestamp { nanos: 10 },
        data_change(guid(1, 1), 1, vec![1, 2, 3]),
    );
    let (_ping_tx, ping_rx) = flume::unbounded::<()>();
    let (disc_tx, _disc_rx) = flume::bounded(8);
    let (_status_tx, status_rx) = flume::unbounded();
    let mut r: SimpleDataReader<WordKey> = SimpleDataReader::new(
        Some(GuidPrefix { value: 9 }),
        EntityId { value: 1 },
        Topic::new("room".to_string(), "WordSample".to_string()),
        QosPolicies { reliability: Some(Reliability::Reliable) },
        ping_rx,
        &cache,
        disc_tx,
        status_rx,
    )
    .ok()
    .expect("reader");
    let p = r.poll_take::<WordSampleAdapter, WordSample>(
        &cache,
        Timestamp { nanos: 100 },
        futures::task::noop_waker(),
    );
    assert!(matches!(p, StreamPoll::ReadyError(_)));
}

#[test]
fn sample_stream_never_terminates() {
    let cache = TopicCache::new("room".to_string());
    let (_ping_tx, ping_rx) = flume::unbounded::<()>();
    let (disc_tx, _disc_rx) = flume::bounded(8);
    let (_status_tx, status_rx) = flume::unbounded();
    let r: SimpleDataReader<WordKey> = SimpleDataReader::new(
        Some(GuidPrefix { value: 9 }),
        EntityId { value: 1 },
        Topic::new("room".to_string(), "WordSample".to_string()),
        QosPolicies { reliability: None },
        ping_rx,
        &cache,
        disc_tx,
        status_rx,
    )
    .ok()
    .expect("reader");
    for _ in 0..3 {
        assert!(!r.is_terminated());
    }
}

#[test]
fn dismantling_sends_exactly_one_removal_command() {
    let cache = TopicCache::new("room".to_string());
    let (_ping_tx, ping_rx) = flume::unbounded::<()>();
    let (disc_tx, disc_rx) = flume::bounded(8);
    let (_status_tx, status_rx) = flume::unbounded();
    let r: SimpleDataReader<WordKey> = SimpleDataReader::new(
        Some(GuidPrefix { value: 9 }),
        EntityId { value: 4 },
        Topic::new("room".to_string(), "WordSample".to_string()),
        QosPolicies { reliability: None },
        ping_rx,
        &cache,
        disc_tx,
        status_rx,
    )
    .ok()
    .expect("reader");
    let expected = r.removal_command();
    assert_eq!(expected, DiscoveryCommand::RemoveLocalReader { guid: guid(9, 4) });

    assert!(r.dismantle());
    assert_eq!(disc_rx.try_recv().unwrap(), expected);
    // Exactly one: the channel holds nothing further, and the reader is
    // consumed, so no second send can happen.
    assert!(disc_rx.try_recv().is_err());
}

#[test]
fn dismantling_with_discovery_gone_reports_failure() {
    let cache = TopicCache::new("room".to_string());
    let (_ping_tx, ping_rx) = flume::unbounded::<()>();
    let (disc_tx, disc_rx) = flume::bounded(8);
    let (_status_tx, status_rx) = flume::unbounded();
    let r: SimpleDataReader<WordKey> = SimpleDataReader::new(
        Some(GuidPrefix { value: 9 }),
        EntityId { value: 4 },
        Topic::new("room".to_string(), "WordSample".to_string()),
        QosPolicies { reliability: None },
        ping_rx,
        &cache,
        disc_tx,
        status_rx,
    )
    .ok()
    .expect("reader");
    drop(disc_rx);
    assert!(!r.dismantle());
}

#[test]
fn status_receiver_hands_out_events_in_order() {
    let cache = TopicCache::new("room".to_string());
    let (_ping_tx, ping_rx) = flume::unbounded::<()>();
    let (disc_tx, _disc_rx) = flume::bounded(8);
    let (status_tx, status_rx) = flume::unbounded();
    let r: SimpleDataReader<WordKey> = SimpleDataReader::new(
        Some(GuidPrefix { value: 9 }),
        EntityId { value: 1 },
        Topic::new("room".to_string(), "WordSample".to_string()),
        QosPolicies { reliability: None },
        ping_rx,
        &cache,
        disc_tx,
        status_rx,
    )
    .ok()
    .expect("reader");

    assert!(r.try_recv_status().is_none());
    status_tx.send(DataReaderStatus::DeadlineMissed).unwrap();
    status_tx.send(DataReaderStatus::SubscriptionMatched).unwrap();
    assert_eq!(r.try_recv_status(), Some(DataReaderStatus::DeadlineMissed));
    assert_eq!(r.try_recv_status(), Some(DataReaderStatus::SubscriptionMatched));
    assert!(r.try_recv_status().is_none());

    // The event stream distinguishes "nothing yet" from disconnection.
    assert!(r.poll_status_event().is_none());
    drop(status_tx);
    match r.poll_status_event() {
        Some(Err(_)) => {}
        _ => panic!("expected the disconnection sentinel"),
    }
}
