//! The topic cache, as the reader consumes it: an ordered, append-only
//! collection of cache changes for one topic, with first-match queries for
//! the best-effort and the reliable delivery policies.

use vstd::prelude::*;

use crate::ids::{Guid, KeyHash, RepresentationIdentifier, SequenceNumber, Timestamp};
use crate::maps::SnMap;

verus! {

/// Payload variant of a cache change.
pub enum DdsData {
    /// Serialized payload bytes tagged with an encoding.
    Data { representation_identifier: RepresentationIdentifier, payload: Vec<u8> },
    /// Serialized key bytes tagged with an encoding: dispose of that instance.
    DisposeByKey { representation_identifier: RepresentationIdentifier, key_bytes: Vec<u8> },
    /// Only the hash of the key: dispose of the instance it digests.
    DisposeByKeyHash { key_hash: KeyHash },
}

/// One record of a publication or dispose, as placed in the topic cache by
/// the receive path.
pub struct CacheChange {
    pub writer_guid: Guid,
    pub sequence_number: SequenceNumber,
    pub data: DdsData,
}

/// A cache change together with its arrival timestamp.
pub struct CacheEntry {
    pub instant: Timestamp,
    pub change: CacheChange,
}

/// Strict order of writer identities: by prefix, then by entity identifier.
pub open spec fn guid_lt(a: Guid, b: Guid) -> bool {
    a.prefix.value < b.prefix.value || (a.prefix.value == b.prefix.value
        && a.entity_id.value < b.entity_id.value)
}

/// Strict total order of cache entries: by timestamp, then writer, then
/// sequence number.
pub open spec fn entry_lt(a: CacheEntry, b: CacheEntry) -> bool {
    a.instant.nanos < b.instant.nanos || (a.instant.nanos == b.instant.nanos && (guid_lt(
        a.change.writer_guid,
        b.change.writer_guid,
    ) || (a.change.writer_guid == b.change.writer_guid && a.change.sequence_number.value
        < b.change.sequence_number.value)))
}

/// Both entries name the same publication: same writer, same sequence number.
pub open spec fn same_publication(a: CacheEntry, b: CacheEntry) -> bool {
    a.change.writer_guid == b.change.writer_guid && a.change.sequence_number
        == b.change.sequence_number
}

/// Does the delivery policy select this entry as undelivered?
///
/// Reliable: the entry's sequence number exceeds the writer's read pointer.
/// Best-effort: the entry arrived strictly after the latest delivered
/// instant and not after the current time; lateness implies loss.
pub open spec fn selects(
    e: CacheEntry,
    is_reliable: bool,
    latest: Timestamp,
    sn_map: Map<Guid, SequenceNumber>,
    now: Timestamp,
) -> bool {
    if is_reliable {
        !sn_map.contains_key(e.change.writer_guid) || e.change.sequence_number.value > sn_map[
            e.change.writer_guid
        ].value
    } else {
        latest.nanos < e.instant.nanos && e.instant.nanos <= now.nanos
    }
}

/// The first entry, in cache order, that the delivery policy selects.
pub open spec fn first_selected(
    entries: Seq<CacheEntry>,
    is_reliable: bool,
    latest: Timestamp,
    sn_map: Map<Guid, SequenceNumber>,
    now: Timestamp,
) -> Option<CacheEntry>
    decreases entries.len(),
{
    if entries.len() == 0 {
        None
    } else if selects(entries[0], is_reliable, latest, sn_map, now) {
        Some(entries[0])
    } else {
        first_selected(entries.drop_first(), is_reliable, latest, sn_map, now)
    }
}

/// What a first-selected entry satisfies: it is selected and stands in the
/// cache; and when nothing is selected, no entry is.
pub proof fn lemma_first_selected_props(
    entries: Seq<CacheEntry>,
    is_reliable: bool,
    latest: Timestamp,
    sn_map: Map<Guid, SequenceNumber>,
    now: Timestamp,
)
    ensures
        match first_selected(entries, is_reliable, latest, sn_map, now) {
            Some(e) => selects(e, is_reliable, latest, sn_map, now) && exists|i: int|
                0 <= i < entries.len() && entries[i] == e,
            None => forall|i: int|
                0 <= i < entries.len() ==> !selects(
                    #[trigger] entries[i],
                    is_reliable,
                    latest,
                    sn_map,
                    now,
                ),
        },
    decreases entries.len(),
{
    if entries.len() == 0 {
    } else if selects(entries[0], is_reliable, latest, sn_map, now) {
        assert(entries[0] == entries[0]);
    } else {
        let rest = entries.drop_first();
        lemma_first_selected_props(rest, is_reliable, latest, sn_map, now);
        match first_selected(rest, is_reliable, latest, sn_map, now) {
            Some(e) => {
                let i = choose|i: int| 0 <= i < rest.len() && rest[i] == e;
                assert(entries[i + 1] == e);
            },
            None => {
                assert forall|i: int| 0 <= i < entries.len() implies !selects(
                    #[trigger] entries[i],
                    is_reliable,
                    latest,
                    sn_map,
                    now,
                ) by {
                    if i > 0 {
                        assert(rest[i - 1] == entries[i]);
                    }
                }
            },
        }
    }
}

/// Two entries that are not the same publication are strictly ordered one
/// way or the other.
pub proof fn lemma_entry_order_total(a: CacheEntry, b: CacheEntry)
    requires
        !same_publication(a, b),
    ensures
        entry_lt(a, b) || entry_lt(b, a),
{
}

/// The entry order is transitive.
pub proof fn lemma_entry_lt_trans(a: CacheEntry, b: CacheEntry, c: CacheEntry)
    requires
        entry_lt(a, b),
        entry_lt(b, c),
    ensures
        entry_lt(a, c),
{
}

/// Transitivity, allowing the middle and last entries to coincide.
proof fn lemma_entry_lt_trans_ok(a: CacheEntry, b: CacheEntry, c: CacheEntry)
    requires
        entry_lt(a, b),
        b == c || entry_lt(b, c),
    ensures
        entry_lt(a, c),
{
    if b != c {
        lemma_entry_lt_trans(a, b, c);
    }
}

/// The cache invariant: entries are totally ordered by (timestamp, writer,
/// sequence number), and no publication occurs twice.
pub open spec fn entries_wf(s: Seq<CacheEntry>) -> bool {
    &&& forall|i: int, j: int| 0 <= i < j < s.len() ==> entry_lt(#[trigger] s[i], #[trigger] s[j])
    &&& forall|i: int, j: int|
        0 <= i < j < s.len() ==> !same_publication(#[trigger] s[i], #[trigger] s[j])
}

/// A shared, ordered, append-only collection of cache changes for one topic.
pub struct TopicCache {
    topic_name: String,
    entries: Vec<CacheEntry>,
}

impl TopicCache {
    /// The entries, oldest first.
    pub closed spec fn view(&self) -> Seq<CacheEntry> {
        self.entries@
    }

    pub closed spec fn topic_name_spec(&self) -> Seq<char> {
        self.topic_name@
    }

    /// Entries are totally ordered by (timestamp, writer, sequence number),
    /// and no publication occurs twice.
    pub open spec fn wf(&self) -> bool {
        entries_wf(self@)
    }

    pub fn new(topic_name: String) -> (c: TopicCache)
        ensures
            c.wf(),
            c@ == Seq::<CacheEntry>::empty(),
            c.topic_name_spec() == topic_name@,
    {
        TopicCache { topic_name, entries: Vec::new() }
    }

    pub fn topic_name(&self) -> (n: &String)
        ensures
            n@ == self.topic_name_spec(),
    {
        &self.topic_name
    }

    /// Adds one change at its place in the order, as the receive path does.
    /// The change must be a new publication; a change that arrives late, with
    /// a timestamp before entries already cached, is placed before them.
    pub fn add_change(&mut self, instant: Timestamp, change: CacheChange)
        requires
            old(self).wf(),
            forall|j: int|
                0 <= j < old(self)@.len() ==> !same_publication(
                    #[trigger] old(self)@[j],
                    CacheEntry { instant, change },
                ),
        ensures
            final(self).wf(),
            exists|pos: int|
                0 <= pos <= old(self)@.len() && final(self)@ == old(self)@.insert(
                    pos,
                    CacheEntry { instant, change },
                ),
            final(self)@.len() == old(self)@.len() + 1,
            final(self).topic_name_spec() == old(self).topic_name_spec(),
    {
        let ghost e = CacheEntry { instant, change };
        let ghost before = self.entries@;
        let n = self.entries.len();
        let mut i: usize = 0;
        while i < n
            invariant
                self == old(self),
                n == self.entries@.len(),
                0 <= i <= n,
                before == self.entries@,
                e == (CacheEntry { instant, change }),
                entries_wf(before),
                forall|j: int| 0 <= j < n ==> !same_publication(#[trigger] before[j], e),
                forall|j: int|
                    0 <= j < i ==> !entry_lt(e, #[trigger] self.entries@[j]),
            decreases n - i,
        {
            let c = &self.entries[i];
            let here = &c.change;
            let lt = instant.nanos < c.instant.nanos || (instant.nanos == c.instant.nanos && (
            (change.writer_guid.prefix.value < here.writer_guid.prefix.value || (
            change.writer_guid.prefix.value == here.writer_guid.prefix.value
                && change.writer_guid.entity_id.value < here.writer_guid.entity_id.value)) || (
            change.writer_guid == here.writer_guid && change.sequence_number.value
                < here.sequence_number.value)));
            proof {
                assert(lt == entry_lt(e, before[i as int]));
            }
            if lt {
                proof {
                    Self::lemma_sorted_insert(before, e, i as int);
                }
                self.entries.insert(i, CacheEntry { instant, change });
                proof {
                    let pos = i as int;
                    assert(before == old(self)@);
                    assert(0 <= pos <= old(self)@.len() && self@ == old(self)@.insert(
                        pos,
                        CacheEntry { instant, change },
                    ));
                }
                return ;
            }
            i += 1;
        }
        proof {
            Self::lemma_sorted_insert(before, e, n as int);
            assert(before.insert(n as int, e) =~= before.push(e));
        }
        self.entries.push(CacheEntry { instant, change });
    }

    /// Inserting at the first position whose entry comes after the new one
    /// keeps the cache ordered.
    proof fn lemma_sorted_insert(s: Seq<CacheEntry>, e: CacheEntry, pos: int)
        requires
            entries_wf(s),
            0 <= pos <= s.len(),
            forall|j: int| 0 <= j < pos ==> !entry_lt(e, #[trigger] s[j]),
            pos < s.len() ==> entry_lt(e, s[pos]),
            forall|j: int| 0 <= j < s.len() ==> !same_publication(#[trigger] s[j], e),
        ensures
            entries_wf(s.insert(pos, e)),
    {
        let t = s.insert(pos, e);
        assert forall|j: int| 0 <= j < pos implies entry_lt(#[trigger] s[j], e) by {
            lemma_entry_order_total(s[j], e);
        }
        assert(forall|q: int| 0 <= q < pos ==> #[trigger] t[q] == s[q]);
        assert(t[pos] == e);
        assert(forall|q: int| pos < q < t.len() ==> #[trigger] t[q] == s[q - 1]);
        assert forall|q1: int, q2: int| 0 <= q1 < q2 < t.len() implies entry_lt(
            #[trigger] t[q1],
            #[trigger] t[q2],
        ) by {
            if q1 == pos {
                if pos < s.len() && q2 > pos {
                    lemma_entry_lt_trans_ok(e, s[pos], s[q2 - 1]);
                }
            } else if q2 == pos {
            } else if q1 < pos && q2 > pos {
                lemma_entry_lt_trans_ok(s[q1], e, s[q2 - 1]);
            }
        }
        assert forall|q1: int, q2: int| 0 <= q1 < q2 < t.len() implies !same_publication(
            #[trigger] t[q1],
            #[trigger] t[q2],
        ) by {
            if q1 == pos {
                assert(t[q2] == s[q2 - 1]);
                assert(!same_publication(s[q2 - 1], e));
            } else if q2 == pos {
                assert(t[q1] == s[q1]);
                assert(!same_publication(s[q1], e));
            } else if q1 < pos && q2 > pos {
                assert(t[q1] == s[q1] && t[q2] == s[q2 - 1]);
            }
        }
    }

    /// The number of entries.
    pub fn len(&self) -> (n: usize)
        ensures
            n == self@.len(),
    {
        self.entries.len()
    }

    /// Borrows the entry at index `i`.
    pub fn entry_at(&self, i: usize) -> (e: &CacheEntry)
        requires
            i < self@.len(),
        ensures
            *e == self@[i as int],
    {
        &self.entries[i]
    }

    /// Finds the first undelivered entry under the given delivery policy and
    /// read pointers: the reliable range walks `last_read_sn`, the
    /// best-effort range is `(latest_instant, now]`.
    pub fn next_undelivered(
        &self,
        is_reliable: bool,
        latest_instant: Timestamp,
        last_read_sn: &SnMap,
        now: Timestamp,
    ) -> (r: Option<usize>)
        requires
            last_read_sn.wf(),
        ensures
            match r {
                Some(i) => i < self@.len() && Some(self@[i as int]) == first_selected(
                    self@,
                    is_reliable,
                    latest_instant,
                    last_read_sn@,
                    now,
                ),
                None => first_selected(
                    self@,
                    is_reliable,
                    latest_instant,
                    last_read_sn@,
                    now,
                ) is None,
            },
    {
        let ghost all = self@;
        proof {
            assert(all.skip(0) =~= all);
        }
        let n = self.entries.len();
        let mut i: usize = 0;
        while i < n
            invariant
                n == self@.len(),
                all == self@,
                0 <= i <= n,
                last_read_sn.wf(),
                first_selected(all, is_reliable, latest_instant, last_read_sn@, now)
                    == first_selected(
                    all.skip(i as int),
                    is_reliable,
                    latest_instant,
                    last_read_sn@,
                    now,
                ),
            decreases n - i,
        {
            let e = &self.entries[i];
            proof {
                assert(all.skip(i as int)[0] == all[i as int]);
            }
            let selected: bool = if is_reliable {
                match last_read_sn.get(e.change.writer_guid) {
                    Some(s) => e.change.sequence_number.value > s.value,
                    None => true,
                }
            } else {
                latest_instant.nanos < e.instant.nanos && e.instant.nanos <= now.nanos
            };
            proof {
                assert(selected == selects(
                    all[i as int],
                    is_reliable,
                    latest_instant,
                    last_read_sn@,
                    now,
                ));
            }
            if selected {
                return Some(i);
            }
            proof {
                assert(all.skip(i as int).drop_first() =~= all.skip(i as int + 1));
            }
            i += 1;
        }
        proof {
            assert(all.skip(n as int).len() == 0);
        }
        None
    }
}

} // verus!
