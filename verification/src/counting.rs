//! A fixed-capacity table from keys to counters.
//!
//! The producer increments one slot at a time; the consumer reads a snapshot
//! of all live entries. A counter never decreases while the table lives.

use crate::schema::{SyscallKey, MAX_MAP_ENTRIES};
use vstd::prelude::*;

verus! {

/// The counter that follows `count`: one more, but never past the largest
/// number that fits.
pub open spec fn next_count(count: u64) -> u64 {
    if count == u64::MAX {
        count
    } else {
        (count + 1) as u64
    }
}

/// The count that `counts` holds for `key`: 0 where it holds none.
pub open spec fn count_of(counts: Map<SyscallKey, u64>, key: SyscallKey) -> u64 {
    if counts.contains_key(key) {
        counts[key]
    } else {
        0
    }
}

/// A table of counters with a fixed number of slots.
#[derive(Debug)]
pub struct CountingTable {
    capacity: usize,
    keys: Vec<SyscallKey>,
    values: Vec<u64>,
    lost: u64,
}

impl CountingTable {
    /// The invariant: each live key has one slot, and the slots keep within
    /// the capacity.
    pub closed spec fn wf(&self) -> bool {
        &&& self.keys@.len() == self.values@.len()
        &&& self.keys@.len() <= self.capacity
        &&& self.keys@.no_duplicates()
    }

    /// The live entries.
    pub closed spec fn counts(&self) -> Map<SyscallKey, u64> {
        Map::new(
            |k: SyscallKey| self.keys@.contains(k),
            |k: SyscallKey| self.values@[self.keys@.index_of(k)],
        )
    }

    /// The number of slots.
    pub closed spec fn bound(&self) -> nat {
        self.capacity as nat
    }

    /// The number of live entries.
    pub closed spec fn used(&self) -> nat {
        self.keys@.len()
    }

    /// How many increments found the table full and were lost.
    pub closed spec fn lost_count(&self) -> nat {
        self.lost as nat
    }

    /// The live entries are as many as the slots in use, and never more than
    /// the table has.
    pub proof fn lemma_used(&self)
        requires
            self.wf(),
        ensures
            self.counts().dom().finite(),
            self.counts().dom().len() == self.used(),
            self.used() <= self.bound(),
    {
        self.keys@.unique_seq_to_set();
        assert(self.counts().dom() =~= self.keys@.to_set());
    }

    proof fn lemma_slot(&self, i: int)
        requires
            self.wf(),
            0 <= i < self.keys@.len(),
        ensures
            self.counts().contains_key(self.keys@[i]),
            self.counts()[self.keys@[i]] == self.values@[i],
            self.keys@.index_of(self.keys@[i]) == i,
    {
        let k = self.keys@[i];
        assert(self.keys@.contains(k));
        let j = self.keys@.index_of(k);
        assert(0 <= j < self.keys@.len() && self.keys@[j] == k);
    }

    /// An empty table of `capacity` slots.
    pub fn new(capacity: usize) -> (t: Self)
        ensures
            t.wf(),
            t.counts() == Map::<SyscallKey, u64>::empty(),
            t.bound() == capacity,
            t.used() == 0,
            t.lost_count() == 0,
    {
        let t = CountingTable { capacity, keys: Vec::new(), values: Vec::new(), lost: 0 };
        assert(t.counts() =~= Map::<SyscallKey, u64>::empty());
        t
    }

    /// An empty table of the default number of slots.
    pub fn with_default_capacity() -> (t: Self)
        ensures
            t.wf(),
            t.counts() == Map::<SyscallKey, u64>::empty(),
            t.bound() == MAX_MAP_ENTRIES,
            t.used() == 0,
            t.lost_count() == 0,
    {
        CountingTable::new(MAX_MAP_ENTRIES as usize)
    }

    fn find(&self, key: &SyscallKey) -> (r: Option<usize>)
        requires
            self.wf(),
        ensures
            r is Some <==> self.counts().contains_key(*key),
            r is Some ==> r->Some_0 < self.keys@.len() && self.keys@[r->Some_0 as int] == *key,
    {
        let mut i: usize = 0;
        while i < self.keys.len()
            invariant
                i <= self.keys@.len(),
                forall|j: int| 0 <= j < i ==> self.keys@[j] != *key,
            decreases self.keys@.len() - i,
        {
            if self.keys[i] == *key {
                assert(self.keys@.contains(*key));
                return Some(i);
            }
            i += 1;
        }
        assert(!self.keys@.contains(*key));
        None
    }

    /// Counts one event for `key`.
    ///
    /// A live key has its counter stepped. A new key takes a free slot and
    /// starts at 1. Where the table is full, a new key is not counted: the
    /// loss is counted instead, and `false` returned. No other entry changes.
    pub fn increment(&mut self, key: SyscallKey) -> (counted: bool)
        requires
            old(self).wf(),
        ensures
            final(self).wf(),
            stepped(*old(self), *final(self), key, counted),
    {
        match self.find(&key) {
            Some(i) => {
                let c = self.values[i];
                let n = if c == u64::MAX {
                    c
                } else {
                    c + 1
                };
                proof {
                    self.lemma_slot(i as int);
                }
                self.values.set(i, n);
                proof {
                    assert(self.keys@ == old(self).keys@);
                    assert(self.counts() =~= old(self).counts().insert(key, n)) by {
                        assert forall|k: SyscallKey| self.keys@.contains(k) implies #[trigger] self.counts()[k]
                            == old(self).counts().insert(key, n)[k] by {
                            let j = self.keys@.index_of(k);
                            assert(0 <= j < self.keys@.len() && self.keys@[j] == k);
                            if k == key {
                                assert(j == i);
                            } else {
                                assert(j != i);
                            }
                        }
                    }
                }
                true
            },
            None => {
                if self.keys.len() < self.capacity {
                    self.keys.push(key);
                    self.values.push(1);
                    proof {
                        let before = old(self).keys@;
                        let after = self.keys@;
                        assert(after == before.push(key));
                        assert(!before.contains(key));
                        assert(after.no_duplicates()) by {
                            assert forall|a: int, b: int|
                                0 <= a < after.len() && 0 <= b < after.len() && a
                                    != b implies after[a] != after[b] by {
                                if a < before.len() {
                                    assert(before[a] == after[a]);
                                    assert(before.contains(after[a]));
                                }
                                if b < before.len() {
                                    assert(before[b] == after[b]);
                                    assert(before.contains(after[b]));
                                }
                            }
                        }
                        assert(self.counts() =~= old(self).counts().insert(key, 1)) by {
                            assert forall|k: SyscallKey|
                                after.contains(k) <==> (before.contains(k) || k == key) by {
                                if after.contains(k) {
                                    let j = choose|j: int| 0 <= j < after.len() && after[j] == k;
                                    if j < before.len() {
                                        assert(before[j] == k);
                                    }
                                }
                                if before.contains(k) {
                                    let j = choose|j: int| 0 <= j < before.len() && before[j] == k;
                                    assert(after[j] == k);
                                }
                                if k == key {
                                    assert(after[before.len() as int] == k);
                                }
                            }
                            assert forall|k: SyscallKey| after.contains(k) implies #[trigger] self.counts()[k]
                                == old(self).counts().insert(key, 1)[k] by {
                                let j = after.index_of(k);
                                assert(0 <= j < after.len() && after[j] == k);
                                if k == key {
                                    assert(after[before.len() as int] == key);
                                    assert(j == before.len());
                                } else {
                                    assert(j < before.len());
                                    assert(before[j] == k);
                                    let j0 = before.index_of(k);
                                    assert(0 <= j0 < before.len() && before[j0] == k);
                                    assert(j0 == j);
                                }
                            }
                        }
                    }
                    true
                } else {
                    self.lost = if self.lost == u64::MAX {
                        self.lost
                    } else {
                        self.lost + 1
                    };
                    assert(self.counts() =~= old(self).counts());
                    false
                }
            },
        }
    }

    /// The count of `key`: 0 where the table holds none.
    pub fn get(&self, key: &SyscallKey) -> (n: u64)
        requires
            self.wf(),
        ensures
            n == count_of(self.counts(), *key),
    {
        match self.find(key) {
            Some(i) => {
                proof {
                    self.lemma_slot(i as int);
                }
                self.values[i]
            },
            None => 0,
        }
    }

    /// The live entries at this moment, each key once, in the order in which
    /// the keys came to the table.
    pub fn snapshot(&self) -> (out: Vec<(SyscallKey, u64)>)
        requires
            self.wf(),
        ensures
            out@.len() == self.counts().dom().len(),
            forall|i: int|
                0 <= i < out@.len() ==> self.counts().contains_key((#[trigger] out@[i]).0)
                    && self.counts()[out@[i].0] == out@[i].1,
            forall|i: int, j: int|
                0 <= i < j < out@.len() ==> (#[trigger] out@[i]).0 != (#[trigger] out@[j]).0,
            forall|k: SyscallKey|
                self.counts().contains_key(k) ==> exists|i: int|
                    0 <= i < out@.len() && #[trigger] out@[i] == (k, self.counts()[k]),
    {
        let mut out: Vec<(SyscallKey, u64)> = Vec::new();
        let mut i: usize = 0;
        while i < self.keys.len()
            invariant
                self.wf(),
                i <= self.keys@.len(),
                out@.len() == i,
                forall|j: int|
                    0 <= j < i ==> #[trigger] out@[j] == (self.keys@[j], self.values@[j]),
            decreases self.keys@.len() - i,
        {
            out.push((self.keys[i], self.values[i]));
            i += 1;
        }
        proof {
            self.lemma_used();
            assert forall|j: int| 0 <= j < out@.len() implies self.counts().contains_key(
                (#[trigger] out@[j]).0,
            ) && self.counts()[out@[j].0] == out@[j].1 by {
                self.lemma_slot(j);
            }
            assert forall|k: SyscallKey| self.counts().contains_key(k) implies exists|j: int|
                0 <= j < out@.len() && #[trigger] out@[j] == (k, self.counts()[k]) by {
                let j = self.keys@.index_of(k);
                assert(0 <= j < self.keys@.len() && self.keys@[j] == k);
                self.lemma_slot(j);
                assert(out@[j] == (k, self.counts()[k]));
            }
        }
        out
    }

    /// Forgets every entry and every loss, as for a new session.
    pub fn clear(&mut self)
        ensures
            final(self).wf(),
            final(self).counts() == Map::<SyscallKey, u64>::empty(),
            final(self).bound() == old(self).bound(),
            final(self).used() == 0,
            final(self).lost_count() == 0,
    {
        self.keys.clear();
        self.values.clear();
        self.lost = 0;
        assert(self.counts() =~= Map::<SyscallKey, u64>::empty());
    }

    /// The number of live entries.
    pub fn len(&self) -> (n: usize)
        ensures
            n == self.used(),
    {
        self.keys.len()
    }

    /// The number of slots.
    pub fn capacity(&self) -> (n: usize)
        ensures
            n == self.bound(),
    {
        self.capacity
    }

    /// How many increments found the table full and were lost.
    pub fn lost(&self) -> (n: u64)
        ensures
            n == self.lost_count(),
    {
        self.lost
    }
}

/// How counting one event for `key` changes a table.
pub open spec fn stepped(
    before: CountingTable,
    after: CountingTable,
    key: SyscallKey,
    counted: bool,
) -> bool {
    &&& after.bound() == before.bound()
    &&& counted <==> (before.counts().contains_key(key) || before.used() < before.bound())
    &&& counted ==> {
        &&& after.counts() == before.counts().insert(
            key,
            next_count(count_of(before.counts(), key)),
        )
        &&& after.lost_count() == before.lost_count()
        &&& after.used() == before.used() + if before.counts().contains_key(key) {
            0nat
        } else {
            1nat
        }
    }
    &&& !counted ==> {
        &&& after.counts() == before.counts()
        &&& after.used() == before.used()
        &&& after.lost_count() == next_count(before.lost_count() as u64)
    }
}

/// Counting an event never lowers a counter.
pub proof fn lemma_counts_never_decrease(before: Map<SyscallKey, u64>, key: SyscallKey, k: SyscallKey)
    ensures
        count_of(before, k) <= count_of(
            before.insert(key, next_count(count_of(before, key))),
            k,
        ),
{
}

} // verus!
