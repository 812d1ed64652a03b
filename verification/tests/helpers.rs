//! The path helpers, the operator-host decisions, and the pointer maps.

use dds_reader_core::ids::{EntityId, Guid, GuidPrefix, KeyHash, SequenceNumber};
use dds_reader_core::maps::{KeyMemo, SnMap};
use dds_reader_core::operator_host::{
    frame_output_message, interpret_operator_status, OperatorControl,
};
use dds_reader_core::paths::{adjust_shared_library_path, get_pip_path, get_python_path,
    SharedLibraryPathError};
use dds_reader_core::word_sample::WordKey;

fn adjust(path: &str) -> Result<Vec<u8>, SharedLibraryPathError> {
    adjust_shared_library_path(
        &path.as_bytes().to_vec(),
        &b"lib".to_vec(),
        &b".so".to_vec(),
    )
}

#[test]
fn shared_library_path_is_decorated() {
    let out = adjust("ops/counter").unwrap();
    assert_eq!(out, b"ops/libcounter.so".to_vec());
}

#[test]
fn shared_library_path_without_directory() {
    let out = adjust("counter").unwrap();
    assert_eq!(out, b"libcounter.so".to_vec());
}

#[test]
fn shared_library_path_needs_a_file_name() {
    assert!(matches!(adjust("ops/"), Err(SharedLibraryPathError::NoFileName)));
    assert!(matches!(adjust(""), Err(SharedLibraryPathError::NoFileName)));
}

#[test]
fn shared_library_path_rejects_lib_prefix() {
    assert!(matches!(
        adjust("ops/libcounter"),
        Err(SharedLibraryPathError::HasLibPrefix)
    ));
}

#[test]
fn shared_library_path_rejects_extension() {
    assert!(matches!(
        adjust("ops/counter.so"),
        Err(SharedLibraryPathError::HasExtension)
    ));
    // A hidden file carries no extension.
    assert!(adjust("ops/.counter").is_ok());
}

#[test]
fn interpreter_lookups_are_stubs() {
    assert_eq!(get_python_path().unwrap(), "no python");
    assert_eq!(get_pip_path().unwrap(), "no pip");
}

#[test]
fn operator_status_codes_decide_the_loop() {
    assert_eq!(interpret_operator_status(0), OperatorControl::Continue);
    assert_eq!(interpret_operator_status(1), OperatorControl::Stop);
    assert_eq!(interpret_operator_status(2), OperatorControl::Invalid);
    assert_eq!(interpret_operator_status(-1), OperatorControl::Invalid);
}

#[test]
fn output_messages_are_metadata_then_payload() {
    let framed = frame_output_message(&vec![1, 2], &vec![3, 4, 5]);
    assert_eq!(framed, vec![1, 2, 3, 4, 5]);
    let empty = frame_output_message(&Vec::new(), &Vec::new());
    assert!(empty.is_empty());
}

#[test]
fn sn_map_keeps_the_latest_per_writer() {
    let w1 = Guid { prefix: GuidPrefix { value: 1 }, entity_id: EntityId { value: 1 } };
    let w2 = Guid { prefix: GuidPrefix { value: 2 }, entity_id: EntityId { value: 2 } };
    let mut m = SnMap::new();
    assert!(m.get(w1).is_none());
    m.insert(w1, SequenceNumber { value: 4 });
    m.insert(w2, SequenceNumber { value: 9 });
    m.insert(w1, SequenceNumber { value: 6 });
    assert_eq!(m.get(w1).unwrap().value, 6);
    assert_eq!(m.get(w2).unwrap().value, 9);
}

#[test]
fn key_memo_replaces_on_equal_hash() {
    let mut m: KeyMemo<WordKey> = KeyMemo::new();
    assert!(m.get_key(KeyHash { value: 5 }).is_none());
    m.insert(KeyHash { value: 5 }, WordKey { value: 50 });
    m.insert(KeyHash { value: 5 }, WordKey { value: 51 });
    assert_eq!(m.get_key(KeyHash { value: 5 }).unwrap().value, 51);
}
