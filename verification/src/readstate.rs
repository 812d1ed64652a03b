//! The mutable state a reader keeps between takes: its read pointers and
//! the hash-to-key memo.

use vstd::prelude::*;

use crate::ids::Timestamp;
use crate::keys::Key;
use crate::maps::{KeyMemo, SnMap};

verus! {

/// Per-reader read pointers.
///
/// After a successful delivery of a change at timestamp `t` from writer `w`
/// with sequence number `s`, `latest_instant >= t` and the entry of `w` in
/// `last_read_sn` is at least `s`.
pub struct ReadState<K: Key> {
    /// The greatest timestamp of any change already delivered: the
    /// best-effort read pointer.
    pub latest_instant: Timestamp,
    /// Per-writer greatest delivered sequence number: the reliable read
    /// pointers.
    pub last_read_sn: SnMap,
    /// Decodes received key hashes back to original key values, for
    /// dispose messages that carry only a hash.
    pub hash_to_key_map: KeyMemo<K>,
}

impl<K: Key> ReadState<K> {
    /// Both pointer maps answer lookups unambiguously.
    pub open spec fn wf(&self) -> bool {
        self.last_read_sn.wf() && self.hash_to_key_map.wf()
    }

    /// Fresh state: zero instant, no per-writer pointers, empty memo.
    pub fn new() -> (s: ReadState<K>)
        ensures
            s.wf(),
            s.latest_instant.nanos == 0,
            s.last_read_sn@ == Map::<crate::ids::Guid, crate::ids::SequenceNumber>::empty(),
            s.hash_to_key_map@ == Map::<crate::ids::KeyHash, K>::empty(),
    {
        ReadState {
            latest_instant: Timestamp::zero(),
            last_read_sn: SnMap::new(),
            hash_to_key_map: KeyMemo::new(),
        }
    }

    /// Borrows the two pointer maps side by side.
    pub fn get_sn_map_and_hash_map(&self) -> (r: (&SnMap, &KeyMemo<K>))
        ensures
            r.0 == &self.last_read_sn,
            r.1 == &self.hash_to_key_map,
    {
        (&self.last_read_sn, &self.hash_to_key_map)
    }
}

} // verus!
