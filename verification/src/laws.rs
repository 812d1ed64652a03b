//! The delivery laws of the reader, stated over the read-pointer models
//! that the take operations' contracts use.

use vstd::prelude::*;

use crate::cache::{same_publication, CacheEntry, DdsData};
use crate::dispatch::{decode_outcome, memo_after_decode, remember, DeserializerAdapter, Sample};
use crate::error::DecodeErrorReason;
use crate::ids::{Guid, KeyHash, SequenceNumber, Timestamp};
use crate::keys::{Key, Keyed};

verus! {

/// One successful reliable delivery: the delivered sequence number exceeds
/// the writer's old read pointer, and the pointer moves to it.
pub open spec fn reliable_delivery(
    before: Map<Guid, SequenceNumber>,
    writer: Guid,
    sn: SequenceNumber,
    after: Map<Guid, SequenceNumber>,
) -> bool {
    &&& before.contains_key(writer) ==> sn.value > before[writer].value
    &&& after == before.insert(writer, sn)
}

/// One successful best-effort delivery: the delivered timestamp exceeds the
/// old best-effort read pointer, and the pointer moves to it.
pub open spec fn best_effort_delivery(
    before: Timestamp,
    delivered: Timestamp,
    after: Timestamp,
) -> bool {
    before.nanos < delivered.nanos && after == delivered
}

/// The reliable read pointers only ever move forward.
pub open spec fn sn_map_progressed(
    a: Map<Guid, SequenceNumber>,
    b: Map<Guid, SequenceNumber>,
) -> bool {
    forall|w: Guid|
        #[trigger] a.contains_key(w) ==> b.contains_key(w) && b[w].value >= a[w].value
}

/// A reliable delivery is one way the pointers move forward.
pub proof fn lemma_reliable_delivery_progresses(
    m0: Map<Guid, SequenceNumber>,
    writer: Guid,
    sn: SequenceNumber,
    m1: Map<Guid, SequenceNumber>,
)
    requires
        reliable_delivery(m0, writer, sn, m1),
    ensures
        sn_map_progressed(m0, m1),
{
}

/// Moving forward is transitive across any number of deliveries.
pub proof fn lemma_sn_map_progressed_trans(
    m0: Map<Guid, SequenceNumber>,
    m1: Map<Guid, SequenceNumber>,
    m2: Map<Guid, SequenceNumber>,
)
    requires
        sn_map_progressed(m0, m1),
        sn_map_progressed(m1, m2),
    ensures
        sn_map_progressed(m0, m2),
{
    assert forall|w: Guid| #[trigger] m0.contains_key(w) implies m2.contains_key(w)
        && m2[w].value >= m0[w].value by {
        assert(m1.contains_key(w));
    }
}

/// Monotonic read pointers, reliable: across two consecutive successful
/// takes on one reader, the sequence numbers a writer's changes are
/// delivered with strictly increase.
pub proof fn lemma_reliable_sequence_numbers_increase(
    m0: Map<Guid, SequenceNumber>,
    m1: Map<Guid, SequenceNumber>,
    m2: Map<Guid, SequenceNumber>,
    writer: Guid,
    sn1: SequenceNumber,
    sn2: SequenceNumber,
)
    requires
        reliable_delivery(m0, writer, sn1, m1),
        reliable_delivery(m1, writer, sn2, m2),
    ensures
        sn2.value > sn1.value,
{
    assert(m1.contains_key(writer));
    assert(m1[writer] == sn1);
}

/// At-most-once delivery, reliable: however many deliveries lie between,
/// a writer's sequence number is never delivered a second time.
pub proof fn lemma_at_most_once_reliable(
    m0: Map<Guid, SequenceNumber>,
    m1: Map<Guid, SequenceNumber>,
    m2: Map<Guid, SequenceNumber>,
    m3: Map<Guid, SequenceNumber>,
    writer: Guid,
    sn1: SequenceNumber,
    sn2: SequenceNumber,
)
    requires
        reliable_delivery(m0, writer, sn1, m1),
        sn_map_progressed(m1, m2),
        reliable_delivery(m2, writer, sn2, m3),
    ensures
        sn2.value > sn1.value,
        sn2 != sn1,
{
    assert(m1.contains_key(writer));
    assert(m1[writer] == sn1);
    assert(m2.contains_key(writer) && m2[writer].value >= sn1.value);
}

/// Monotonic timestamps, best-effort: across two successful takes, with the
/// best-effort pointer only moving forward in between, delivered timestamps
/// strictly increase; nothing at or before the pointer is ever delivered.
pub proof fn lemma_best_effort_timestamps_increase(
    t0: Timestamp,
    t1: Timestamp,
    t2: Timestamp,
    t3: Timestamp,
    d1: Timestamp,
    d2: Timestamp,
)
    requires
        best_effort_delivery(t0, d1, t1),
        t1.nanos <= t2.nanos,
        best_effort_delivery(t2, d2, t3),
    ensures
        d2.nanos > d1.nanos,
{
}

/// At-most-once delivery, best-effort: two successful takes whose entries
/// both stand in one well-formed cache — the cache only ever grows — never
/// deliver the same publication.
pub proof fn lemma_at_most_once_best_effort(
    c: Seq<CacheEntry>,
    i1: int,
    i2: int,
    t0: Timestamp,
    t1: Timestamp,
    t2: Timestamp,
    t3: Timestamp,
)
    requires
        crate::cache::entries_wf(c),
        0 <= i1 < c.len(),
        0 <= i2 < c.len(),
        best_effort_delivery(t0, c[i1].instant, t1),
        t1.nanos <= t2.nanos,
        best_effort_delivery(t2, c[i2].instant, t3),
    ensures
        !same_publication(c[i1], c[i2]),
{
    lemma_best_effort_timestamps_increase(t0, t1, t2, t3, c[i1].instant, c[i2].instant);
    if same_publication(c[i1], c[i2]) {
        if i1 < i2 {
            assert(!same_publication(c[i1], c[i2]));
        } else if i2 < i1 {
            assert(!same_publication(c[i2], c[i1]));
        } else {
            assert(c[i1].instant == c[i2].instant);
        }
        assert(false);
    }
}

/// Every remembered key sits under its own hash: what a dispose-by-hash
/// resolves to is a key that digests to the requested hash.
pub open spec fn memo_faithful<K: Key>(memo: Map<KeyHash, K>) -> bool {
    forall|h: KeyHash| #[trigger] memo.contains_key(h) ==> memo[h].hash_spec() == h
}

/// Decoding preserves memo faithfulness, whatever the change was: the memo
/// grows only by remembering a key under its own hash.
pub proof fn lemma_memo_faithful_preserved<DA: DeserializerAdapter<D, K>, D: Keyed<K>, K: Key>(
    data: DdsData,
    memo: Map<KeyHash, K>,
)
    requires
        memo_faithful(memo),
    ensures
        memo_faithful(memo_after_decode::<DA, D, K>(data, memo)),
{
    let after = memo_after_decode::<DA, D, K>(data, memo);
    assert forall|h: KeyHash| #[trigger] after.contains_key(h) implies after[h].hash_spec()
        == h by {
        if !memo.contains_key(h) || after[h] != memo[h] {
            assert(memo_after_decode::<DA, D, K>(data, memo) =~= after);
        }
    }
}

/// Dispose-by-hash resolution, the positive direction: once a delivery has
/// remembered key `k`, a dispose-by-hash for `k`'s hash resolves to exactly
/// that key.
pub proof fn lemma_dispose_resolves_remembered_key<
    DA: DeserializerAdapter<D, K>,
    D: Keyed<K>,
    K: Key,
>(memo: Map<KeyHash, K>, k: K)
    ensures
        decode_outcome::<DA, D, K>(
            DdsData::DisposeByKeyHash { key_hash: k.hash_spec() },
            remember(memo, k),
        ) == Ok::<Sample<D, K>, DecodeErrorReason>(Sample::Dispose(k)),
{
}

/// Dispose-by-hash resolution, the negative direction: a hash no prior
/// delivery has remembered is rejected, and the reader never synthesizes a
/// key from a hash.
pub proof fn lemma_dispose_unknown_hash<DA: DeserializerAdapter<D, K>, D: Keyed<K>, K: Key>(
    memo: Map<KeyHash, K>,
    h: KeyHash,
)
    requires
        !memo.contains_key(h),
    ensures
        decode_outcome::<DA, D, K>(DdsData::DisposeByKeyHash { key_hash: h }, memo) == Err::<
            Sample<D, K>,
            DecodeErrorReason,
        >(DecodeErrorReason::UnknownKeyHash(h)),
{
}

} // verus!
