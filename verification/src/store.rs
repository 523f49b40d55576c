//! Durable counters for id allocation: monotonically increasing and
//! namespaced per entity kind, never shared across kinds.

use vstd::prelude::*;

verus! {

/// The counter namespace for proposal ids.
pub const PROPOSAL_ID_COUNTER: u64 = 2;

/// The counter namespace for vote ids.
pub const VOTE_ID_COUNTER: u64 = 4;

/// The counter namespace for audit-entry ids.
pub const AUDIT_ID_COUNTER: u64 = 6;

/// The counter namespace for comment ids.
pub const COMMENT_ID_COUNTER: u64 = 7;

/// Per-entity-kind id counters; a kind not present yet counts as zero.
pub struct IdCounters {
    pub entries: Vec<(u64, u64)>,
}

impl IdCounters {
    /// Well-formed: no counter kind occurs twice.
    pub open spec fn wf(self) -> bool {
        forall|i: int, j: int|
            0 <= i < j < self.entries@.len() ==> (#[trigger] self.entries@[i]).0
                != (#[trigger] self.entries@[j]).0
    }

    /// Whether a counter for `key` has been touched.
    pub open spec fn has_key(self, key: u64) -> bool {
        exists|i: int| 0 <= i < self.entries@.len() && (#[trigger] self.entries@[i]).0 == key
    }

    /// The index of the counter for `key`, when it exists.
    pub open spec fn index_of(self, key: u64) -> int {
        choose|i: int| 0 <= i < self.entries@.len() && (#[trigger] self.entries@[i]).0 == key
    }

    /// The current value of the counter for `key`; zero before its
    /// first use.
    pub open spec fn value_of(self, key: u64) -> u64 {
        if self.has_key(key) {
            self.entries@[self.index_of(key)].1
        } else {
            0
        }
    }

    /// In a well-formed counter table, a key found at `i` occurs only
    /// there.
    pub proof fn lemma_index_unique(self, i: int)
        requires
            self.wf(),
            0 <= i < self.entries@.len(),
        ensures
            self.index_of(self.entries@[i].0) == i,
            self.value_of(self.entries@[i].0) == self.entries@[i].1,
    {
        let k = self.entries@[i].0;
        assert(self.has_key(k));
        let j = self.index_of(k);
        if i < j {
            assert(self.entries@[i].0 != self.entries@[j].0);
        } else if j < i {
            assert(self.entries@[j].0 != self.entries@[i].0);
        }
    }

    /// A fresh counter table: every kind reads zero.
    pub fn new() -> (r: IdCounters)
        ensures
            r.wf(),
            forall|k: u64| r.value_of(k) == 0,
            r.entries@.len() == 0,
    {
        let r = IdCounters { entries: Vec::new() };
        proof {
            assert forall|k: u64| r.value_of(k) == 0 by {
                assert(!r.has_key(k));
            }
        }
        r
    }
}

/// Allocates the next id of the given kind: one past the kind's
/// current counter value, which becomes the new value. Counters of
/// other kinds are untouched.
pub fn get_next_id(counters: &mut IdCounters, counter_key: u64) -> (r: u64)
    requires
        old(counters).wf(),
        old(counters).value_of(counter_key) < u64::MAX,
    ensures
        final(counters).wf(),
        r == old(counters).value_of(counter_key) + 1,
        final(counters).value_of(counter_key) == r,
        forall|k: u64|
            k != counter_key ==> #[trigger] final(counters).value_of(k) == old(
                counters).value_of(k),
{
    let n = counters.entries.len();
    let mut i: usize = 0;
    while i < n
        invariant
            *counters == *old(counters),
            old(counters).value_of(counter_key) < u64::MAX,
            counters.wf(),
            n == counters.entries@.len(),
            0 <= i <= n,
            forall|j: int| 0 <= j < i ==> (#[trigger] counters.entries@[j]).0 != counter_key,
        decreases n - i,
    {
        if counters.entries[i].0 == counter_key {
            let ghost pre = *counters;
            proof {
                pre.lemma_index_unique(i as int);
            }
            let current = counters.entries[i].1;
            let next = current + 1;
            let slot = &mut counters.entries[i];
            slot.1 = next;
            proof {
                assert forall|a: int, b: int|
                    0 <= a < b < counters.entries@.len() implies
                    (#[trigger] counters.entries@[a]).0 != (#[trigger] counters.entries@[b]).0 by {
                    assert(pre.entries@[a].0 != pre.entries@[b].0);
                }
                counters.lemma_index_unique(i as int);
                assert forall|k: u64| k != counter_key implies #[trigger] counters.value_of(k)
                    == pre.value_of(k) by {
                    if counters.has_key(k) {
                        let j = counters.index_of(k);
                        assert(counters.entries@[j].0 == k);
                        assert(pre.entries@[j].0 == k);
                        assert(pre.has_key(k));
                        counters.lemma_index_unique(j);
                        pre.lemma_index_unique(j);
                    } else {
                        if pre.has_key(k) {
                            let j = pre.index_of(k);
                            assert(counters.entries@[j].0 == k);
                        }
                    }
                }
            }
            return next;
        }
        i = i + 1;
    }
    let ghost pre = *counters;
    assert(!pre.has_key(counter_key));
    counters.entries.push((counter_key, 1));
    proof {
        let m = counters.entries@.len() - 1;
        assert forall|a: int, b: int|
            0 <= a < b < counters.entries@.len() implies (#[trigger] counters.entries@[a]).0
                != (#[trigger] counters.entries@[b]).0 by {
            if b < m {
                assert(pre.entries@[a].0 != pre.entries@[b].0);
            } else {
                assert(pre.entries@[a].0 != counter_key);
            }
        }
        counters.lemma_index_unique(m);
        assert forall|k: u64| k != counter_key implies #[trigger] counters.value_of(k)
            == pre.value_of(k) by {
            if counters.has_key(k) {
                let j = counters.index_of(k);
                assert(counters.entries@[j].0 == k);
                assert(j < m);
                assert(pre.entries@[j].0 == k);
                assert(pre.has_key(k));
                counters.lemma_index_unique(j);
                pre.lemma_index_unique(j);
            } else {
                if pre.has_key(k) {
                    let j = pre.index_of(k);
                    assert(counters.entries@[j].0 == k);
                }
            }
        }
    }
    1
}

} // verus!
