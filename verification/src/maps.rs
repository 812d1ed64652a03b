//! The two read-pointer maps of a reader: per-writer last-read sequence
//! numbers, and the memo from key hashes back to previously seen keys.
//!
//! Both are association vectors with unique keys, viewed as mathematical maps.

use vstd::prelude::*;

use crate::ids::{Guid, KeyHash, SequenceNumber};
use crate::keys::Key;

verus! {

/// No key occurs twice in the association vector, so every lookup has
/// one answer.
pub open spec fn assoc_keys_unique<A, B>(es: Seq<(A, B)>) -> bool {
    forall|i: int, j: int|
        0 <= i < j < es.len() ==> (#[trigger] es[i]).0 != (#[trigger] es[j]).0
}

/// The mathematical map an association vector stands for.
pub open spec fn assoc_view<A, B>(es: Seq<(A, B)>) -> Map<A, B> {
    Map::new(
        |a: A| exists|i: int| 0 <= i < es.len() && (#[trigger] es[i]).0 == a,
        |a: A|
            {
                let i = choose|i: int| 0 <= i < es.len() && (#[trigger] es[i]).0 == a;
                es[i].1
            },
    )
}

/// With unique keys, the entry at index `j` is what the map holds for its key.
proof fn lemma_assoc_at<A, B>(es: Seq<(A, B)>, j: int)
    requires
        assoc_keys_unique(es),
        0 <= j < es.len(),
    ensures
        assoc_view(es).contains_key(es[j].0),
        assoc_view(es)[es[j].0] == es[j].1,
{
    let a = es[j].0;
    assert(0 <= j < es.len() && es[j].0 == a);
    let j2 = choose|i: int| 0 <= i < es.len() && (#[trigger] es[i]).0 == a;
    if j2 != j {
        if j2 < j {
            assert(es[j2].0 != es[j].0);
        } else {
            assert(es[j].0 != es[j2].0);
        }
        assert(false);
    }
}

/// Overwriting the entry that holds key `k` is insertion into the map.
proof fn lemma_assoc_update<A, B>(es: Seq<(A, B)>, i: int, k: A, v: B)
    requires
        assoc_keys_unique(es),
        0 <= i < es.len(),
        es[i].0 == k,
    ensures
        assoc_keys_unique(es.update(i, (k, v))),
        assoc_view(es.update(i, (k, v))) == assoc_view(es).insert(k, v),
{
    let es1 = es.update(i, (k, v));
    assert(forall|q: int| 0 <= q < es1.len() ==> (#[trigger] es1[q]).0 == es[q].0);
    assert forall|x: A| #[trigger] assoc_view(es1).contains_key(x)
        == assoc_view(es).insert(k, v).contains_key(x) by {
        if assoc_view(es1).contains_key(x) {
            let j = choose|q: int| 0 <= q < es1.len() && (#[trigger] es1[q]).0 == x;
            assert(es[j].0 == x);
        }
        if x != k && assoc_view(es).contains_key(x) {
            let j = choose|q: int| 0 <= q < es.len() && (#[trigger] es[q]).0 == x;
            assert(es1[j].0 == x);
        }
        assert(es1[i].0 == k);
    }
    assert forall|x: A| assoc_view(es1).contains_key(x) implies #[trigger] assoc_view(es1)[x]
        == assoc_view(es).insert(k, v)[x] by {
        if x == k {
            lemma_assoc_at(es1, i);
        } else {
            let j = choose|q: int| 0 <= q < es1.len() && (#[trigger] es1[q]).0 == x;
            lemma_assoc_at(es1, j);
            assert(es[j].0 == x);
            lemma_assoc_at(es, j);
            assert(es1[j].1 == es[j].1);
        }
    }
    assert(assoc_view(es1) =~= assoc_view(es).insert(k, v));
}

/// Appending an entry with a fresh key is insertion into the map.
proof fn lemma_assoc_push<A, B>(es: Seq<(A, B)>, k: A, v: B)
    requires
        assoc_keys_unique(es),
        forall|j: int| 0 <= j < es.len() ==> (#[trigger] es[j]).0 != k,
    ensures
        assoc_keys_unique(es.push((k, v))),
        assoc_view(es.push((k, v))) == assoc_view(es).insert(k, v),
{
    let es1 = es.push((k, v));
    let n = es.len() as int;
    assert(forall|q: int| 0 <= q < n ==> #[trigger] es1[q] == es[q]);
    assert(es1[n].0 == k);
    assert forall|x: A| #[trigger] assoc_view(es1).contains_key(x)
        == assoc_view(es).insert(k, v).contains_key(x) by {
        if assoc_view(es1).contains_key(x) {
            let j = choose|q: int| 0 <= q < es1.len() && (#[trigger] es1[q]).0 == x;
            if j < n {
                assert(es[j].0 == x);
            }
        }
        if x != k && assoc_view(es).contains_key(x) {
            let j = choose|q: int| 0 <= q < es.len() && (#[trigger] es[q]).0 == x;
            assert(es1[j].0 == x);
        }
    }
    assert forall|x: A| assoc_view(es1).contains_key(x) implies #[trigger] assoc_view(es1)[x]
        == assoc_view(es).insert(k, v)[x] by {
        if x == k {
            lemma_assoc_at(es1, n);
        } else {
            let j = choose|q: int| 0 <= q < es1.len() && (#[trigger] es1[q]).0 == x;
            lemma_assoc_at(es1, j);
            assert(j < n);
            assert(es[j].0 == x);
            lemma_assoc_at(es, j);
        }
    }
    assert(assoc_view(es1) =~= assoc_view(es).insert(k, v));
}

/// Map from writer identity to the greatest sequence number already
/// delivered for that writer: the reliable read pointers.
pub struct SnMap {
    entries: Vec<(Guid, SequenceNumber)>,
}

impl SnMap {
    /// Keys are unique, so that every lookup has one answer.
    pub closed spec fn wf(&self) -> bool {
        assoc_keys_unique(self.entries@)
    }

    pub closed spec fn view(&self) -> Map<Guid, SequenceNumber> {
        assoc_view(self.entries@)
    }

    pub fn new() -> (m: SnMap)
        ensures
            m.wf(),
            m@ == Map::<Guid, SequenceNumber>::empty(),
    {
        let m = SnMap { entries: Vec::new() };
        proof {
            assert(m@ =~= Map::<Guid, SequenceNumber>::empty());
        }
        m
    }

    /// The last-read sequence number recorded for writer `g`, if any.
    pub fn get(&self, g: Guid) -> (r: Option<SequenceNumber>)
        requires
            self.wf(),
        ensures
            match r {
                Some(s) => self@.contains_key(g) && self@[g] == s,
                None => !self@.contains_key(g),
            },
    {
        let n = self.entries.len();
        let mut i: usize = 0;
        while i < n
            invariant
                n == self.entries@.len(),
                0 <= i <= n,
                self.wf(),
                forall|j: int| 0 <= j < i ==> (#[trigger] self.entries@[j]).0 != g,
            decreases n - i,
        {
            if self.entries[i].0 == g {
                proof {
                    lemma_assoc_at(self.entries@, i as int);
                }
                return Some(self.entries[i].1);
            }
            i += 1;
        }
        None
    }

    /// Records `s` as the last-read sequence number of writer `g`,
    /// replacing any earlier record.
    pub fn insert(&mut self, g: Guid, s: SequenceNumber)
        requires
            old(self).wf(),
        ensures
            final(self).wf(),
            final(self)@ == old(self)@.insert(g, s),
    {
        let n = self.entries.len();
        let mut i: usize = 0;
        while i < n
            invariant
                self == old(self),
                n == self.entries@.len(),
                0 <= i <= n,
                self.wf(),
                forall|j: int| 0 <= j < i ==> (#[trigger] self.entries@[j]).0 != g,
            decreases n - i,
        {
            if self.entries[i].0 == g {
                proof {
                    lemma_assoc_update(self.entries@, i as int, g, s);
                }
                self.entries.set(i, (g, s));
                return ;
            }
            i += 1;
        }
        proof {
            lemma_assoc_push(self.entries@, g, s);
        }
        self.entries.push((g, s));
    }
}

/// Memo from key hash to the original key value, populated every time a
/// value or a dispose-by-key is decoded; it resolves later dispose-by-hash
/// messages. The memo is grow-only within a session.
pub struct KeyMemo<K: Key> {
    entries: Vec<(KeyHash, K)>,
}

impl<K: Key> KeyMemo<K> {
    /// Keys are unique, so that every lookup has one answer.
    pub closed spec fn wf(&self) -> bool {
        assoc_keys_unique(self.entries@)
    }

    pub closed spec fn view(&self) -> Map<KeyHash, K> {
        assoc_view(self.entries@)
    }

    pub fn new() -> (m: KeyMemo<K>)
        ensures
            m.wf(),
            m@ == Map::<KeyHash, K>::empty(),
    {
        let m = KeyMemo { entries: Vec::new() };
        proof {
            assert(m@ =~= Map::<KeyHash, K>::empty());
        }
        m
    }

    /// Hands out a copy of the key remembered for hash `h`, if any.
    pub fn get_key(&self, h: KeyHash) -> (r: Option<K>)
        requires
            self.wf(),
        ensures
            match r {
                Some(k) => self@.contains_key(h) && self@[h] == k,
                None => !self@.contains_key(h),
            },
    {
        let n = self.entries.len();
        let mut i: usize = 0;
        while i < n
            invariant
                n == self.entries@.len(),
                0 <= i <= n,
                self.wf(),
                forall|j: int| 0 <= j < i ==> (#[trigger] self.entries@[j]).0 != h,
            decreases n - i,
        {
            if self.entries[i].0 == h {
                proof {
                    lemma_assoc_at(self.entries@, i as int);
                }
                return Some(self.entries[i].1.clone_key());
            }
            i += 1;
        }
        None
    }

    /// Remembers `k` under hash `h`, replacing any earlier key with that hash.
    pub fn insert(&mut self, h: KeyHash, k: K)
        requires
            old(self).wf(),
        ensures
            final(self).wf(),
            final(self)@ == old(self)@.insert(h, k),
    {
        let n = self.entries.len();
        let mut i: usize = 0;
        while i < n
            invariant
                self == old(self),
                n == self.entries@.len(),
                0 <= i <= n,
                self.wf(),
                forall|j: int| 0 <= j < i ==> (#[trigger] self.entries@[j]).0 != h,
            decreases n - i,
        {
            if self.entries[i].0 == h {
                proof {
                    lemma_assoc_update(self.entries@, i as int, h, k);
                }
                self.entries.set(i, (h, k));
                return ;
            }
            i += 1;
        }
        proof {
            lemma_assoc_push(self.entries@, h, k);
        }
        self.entries.push((h, k));
    }
}

} // verus!
