//! Keyed map of history buffers, one per sensor.
//!
//! Entries are created lazily on the first push for a sensor id and are never
//! removed. Every buffer is created with the capacity the store was
//! configured with. Pushing for one sensor never disturbs the history kept
//! for any other sensor.

use vstd::prelude::*;

use crate::ring::{push_model, RingBuffer};

verus! {

/// One sensor's slot in the store: its id and its rolling history.
struct Entry<T> {
    key: u64,
    history: RingBuffer<T>,
}

/// Mapping from sensor id to a fixed-capacity history buffer. Keys are kept
/// in first-seen order and are pairwise distinct.
pub struct HistoryStore<T> {
    entries: Vec<Entry<T>>,
    capacity: usize,
}

impl<T> HistoryStore<T> {
    /// Capacity every buffer in the store is created with.
    pub closed spec fn capacity(self) -> nat {
        self.capacity as nat
    }

    /// Sensor ids currently present, in first-seen order.
    pub closed spec fn key_seq(self) -> Seq<u64> {
        self.entries@.map(|i: int, e: Entry<T>| e.key)
    }

    /// Whether a history exists for `key`.
    pub closed spec fn spec_contains(self, key: u64) -> bool {
        exists|i: int| 0 <= i < self.entries@.len() && self.entries@[i].key == key
    }

    /// Index of the entry holding `key`; meaningful only when the key is
    /// present, and unique because keys are distinct.
    closed spec fn index_of(self, key: u64) -> int {
        choose|i: int| 0 <= i < self.entries@.len() && self.entries@[i].key == key
    }

    /// History recorded for `key`, oldest first; empty when the key has
    /// never been seen.
    pub closed spec fn history_of(self, key: u64) -> Seq<T> {
        if self.spec_contains(key) {
            self.entries@[self.index_of(key)].history@
        } else {
            Seq::<T>::empty()
        }
    }

    /// Structural invariant: distinct keys, and every buffer well-formed
    /// with the configured capacity.
    pub closed spec fn wf(self) -> bool {
        &&& (forall|i: int, j: int|
            0 <= i < self.entries@.len() && 0 <= j < self.entries@.len() && i != j
                ==> self.entries@[i].key != self.entries@[j].key)
        &&& (forall|i: int| 0 <= i < self.entries@.len() ==> (#[trigger] self.entries@[i]).history.wf())
        &&& (forall|i: int| 0 <= i < self.entries@.len()
            ==> (#[trigger] self.entries@[i]).history.capacity() == self.capacity)
    }

    /// In a well-formed store the entry at index `i` is found again under
    /// its own key: `index_of` returns exactly `i`.
    proof fn lemma_key_at_index(self, i: int)
        requires
            self.wf(),
            0 <= i < self.entries@.len(),
        ensures
            self.spec_contains(self.entries@[i].key),
            self.index_of(self.entries@[i].key) == i,
    {
        let key = self.entries@[i].key;
        assert(self.spec_contains(key));
        let j = self.index_of(key);
        assert(0 <= j < self.entries@.len() && self.entries@[j].key == key);
    }

    /// Creates an empty store whose buffers will all have capacity
    /// `capacity`.
    pub fn new(capacity: usize) -> (result: Self)
        ensures
            result.wf(),
            result.capacity() == capacity,
            result.key_seq() == Seq::<u64>::empty(),
            forall|k: u64| !result.spec_contains(k),
            forall|k: u64| #[trigger] result.history_of(k) == Seq::<T>::empty(),
    {
        let result = HistoryStore { entries: Vec::new(), capacity };
        proof {
            assert(result.key_seq() =~= Seq::<u64>::empty());
        }
        result
    }

    /// Number of sensors seen so far.
    pub fn len(&self) -> (result: usize)
        ensures
            result == self.key_seq().len(),
    {
        self.entries.len()
    }

    /// Index of the entry for `key`, if one exists.
    fn find(&self, key: u64) -> (result: Option<usize>)
        ensures
            match result {
                Some(i) => i < self.entries@.len() && self.entries@[i as int].key == key,
                None => !self.spec_contains(key),
            },
    {
        let n = self.entries.len();
        let mut i: usize = 0;
        while i < n
            invariant
                i <= n,
                n == self.entries@.len(),
                forall|j: int| 0 <= j < i ==> self.entries@[j].key != key,
            decreases n - i,
        {
            if self.entries[i].key == key {
                return Some(i);
            }
            i = i + 1;
        }
        None
    }

    /// Whether a history exists for `key`.
    pub fn contains(&self, key: u64) -> (result: bool)
        ensures
            result == self.spec_contains(key),
    {
        match self.find(key) {
            Some(_) => true,
            None => false,
        }
    }

    /// Ensures an entry for `key` exists, creating an empty buffer of the
    /// configured capacity on first sight. Existing histories — for `key`
    /// and for every other sensor — are untouched.
    pub fn get_or_create(&mut self, key: u64)
        requires
            old(self).wf(),
        ensures
            final(self).wf(),
            final(self).capacity() == old(self).capacity(),
            final(self).spec_contains(key),
            final(self).history_of(key) == if old(self).spec_contains(key) {
                old(self).history_of(key)
            } else {
                Seq::<T>::empty()
            },
            forall|k: u64| k != key
                ==> final(self).spec_contains(k) == old(self).spec_contains(k),
            forall|k: u64| k != key ==> final(self).history_of(k) == old(self).history_of(k),
            final(self).key_seq() == if old(self).spec_contains(key) {
                old(self).key_seq()
            } else {
                old(self).key_seq().push(key)
            },
    {
        match self.find(key) {
            Some(_) => {
                proof {
                    assert(final(self).key_seq() =~= old(self).key_seq());
                }
            }
            None => {
                let ghost prev = *self;
                let history = RingBuffer::new(self.capacity);
                self.entries.push(Entry { key, history });
                proof {
                    let n = prev.entries@.len();
                    assert(self.entries@[n as int].key == key);
                    assert(self.spec_contains(key));
                    self.lemma_key_at_index(n as int);
                    assert(self.history_of(key) =~= Seq::<T>::empty());
                    assert(self.key_seq() =~= prev.key_seq().push(key));
                    assert forall|k: u64| k != key implies
                        self.spec_contains(k) == prev.spec_contains(k)
                            && self.history_of(k) == prev.history_of(k) by {
                        if prev.spec_contains(k) {
                            let i = prev.index_of(k);
                            assert(self.entries@[i].key == k);
                            assert(self.spec_contains(k));
                            prev.lemma_key_at_index(i);
                            self.lemma_key_at_index(i);
                        } else if self.spec_contains(k) {
                            let i = self.index_of(k);
                            assert(i < n);
                            assert(prev.entries@[i].key == k);
                        }
                    }
                }
            }
        }
    }

    /// Records `item` for sensor `key`: creates the buffer on first sight,
    /// then pushes with overwrite-oldest semantics. Histories of all other
    /// sensors are left exactly as they were.
    pub fn push(&mut self, key: u64, item: T)
        requires
            old(self).wf(),
        ensures
            final(self).wf(),
            final(self).capacity() == old(self).capacity(),
            final(self).spec_contains(key),
            final(self).history_of(key)
                == push_model(old(self).history_of(key), old(self).capacity(), item),
            forall|k: u64| k != key
                ==> final(self).spec_contains(k) == old(self).spec_contains(k),
            forall|k: u64| k != key ==> final(self).history_of(k) == old(self).history_of(k),
            final(self).key_seq() == if old(self).spec_contains(key) {
                old(self).key_seq()
            } else {
                old(self).key_seq().push(key)
            },
    {
        self.get_or_create(key);
        let ghost mid = *self;
        let i = match self.find(key) {
            Some(i) => i,
            None => vstd::pervasive::unreached(),
        };
        proof {
            mid.lemma_key_at_index(i as int);
        }
        let entry = &mut self.entries[i];
        entry.history.push(item);
        proof {
            assert(self.entries@ == mid.entries@.update(i as int, self.entries@[i as int]));
            assert(self.entries@[i as int].key == key);
            assert forall|a: int, b: int|
                0 <= a < self.entries@.len() && 0 <= b < self.entries@.len() && a != b implies
                self.entries@[a].key != self.entries@[b].key by {
                assert(self.entries@[a].key == mid.entries@[a].key);
                assert(self.entries@[b].key == mid.entries@[b].key);
            }
            assert(self.wf());
            self.lemma_key_at_index(i as int);
            assert(self.history_of(key)
                == push_model(mid.history_of(key), mid.capacity(), item));
            assert(self.key_seq() =~= mid.key_seq());
            assert forall|k: u64| k != key implies
                self.spec_contains(k) == mid.spec_contains(k)
                    && self.history_of(k) == mid.history_of(k) by {
                if mid.spec_contains(k) {
                    let j = mid.index_of(k);
                    mid.lemma_key_at_index(j);
                    assert(j != i as int);
                    assert(self.entries@[j].key == k);
                    assert(self.spec_contains(k));
                    self.lemma_key_at_index(j);
                } else if self.spec_contains(k) {
                    let j = self.index_of(k);
                    assert(mid.entries@[j].key == k);
                }
            }
        }
    }

    /// Sensor id of the entry at position `index`, in first-seen order.
    pub fn key_at(&self, index: usize) -> (result: u64)
        requires
            index < self.key_seq().len(),
        ensures
            result == self.key_seq()[index as int],
    {
        self.entries[index].key
    }

    /// Buffer of the entry at position `index`, for snapshot reporting.
    pub fn history_at(&self, index: usize) -> (result: &RingBuffer<T>)
        requires
            self.wf(),
            index < self.key_seq().len(),
        ensures
            result.wf(),
            result.capacity() == self.capacity(),
            result@ == self.history_of(self.key_seq()[index as int]),
    {
        proof {
            self.lemma_key_at_index(index as int);
        }
        &self.entries[index].history
    }

    /// Snapshot for one report cycle: every sensor seen so far, in
    /// first-seen order, each with its full history copied out oldest first.
    /// The store itself is not mutated.
    pub fn snapshot(&self) -> (result: Vec<(u64, Vec<T>)>)
        where T: Copy
        requires
            self.wf(),
        ensures
            result@.len() == self.key_seq().len(),
            forall|i: int| 0 <= i < result@.len()
                ==> (#[trigger] result@[i]).0 == self.key_seq()[i]
                    && result@[i].1@ == self.history_of(self.key_seq()[i]),
    {
        let mut result: Vec<(u64, Vec<T>)> = Vec::new();
        let n = self.len();
        let mut i: usize = 0;
        while i < n
            invariant
                i <= n,
                n == self.key_seq().len(),
                self.wf(),
                result@.len() == i,
                forall|j: int| 0 <= j < i
                    ==> (#[trigger] result@[j]).0 == self.key_seq()[j]
                        && result@[j].1@ == self.history_of(self.key_seq()[j]),
            decreases n - i,
        {
            let key = self.key_at(i);
            let buffer = self.history_at(i);
            let total = buffer.len();
            let mut items: Vec<T> = Vec::new();
            let mut it = buffer.iter();
            let mut j: usize = 0;
            while j < total
                invariant
                    j <= total,
                    total == buffer@.len(),
                    it.wf(),
                    it@ == buffer@.skip(j as int),
                    items@ == buffer@.take(j as int),
                decreases total - j,
            {
                let item = match it.next() {
                    Some(item) => item,
                    None => vstd::pervasive::unreached(),
                };
                items.push(*item);
                j = j + 1;
                proof {
                    assert(it@ =~= buffer@.skip(j as int));
                    assert(items@ =~= buffer@.take(j as int));
                }
            }
            proof {
                assert(items@ =~= buffer@);
            }
            result.push((key, items));
            i = i + 1;
        }
        result
    }

    /// Buffer recorded for `key`, or `None` when the sensor has never been
    /// seen.
    pub fn get(&self, key: u64) -> (result: Option<&RingBuffer<T>>)
        requires
            self.wf(),
        ensures
            match result {
                Some(buffer) => self.spec_contains(key) && buffer.wf()
                    && buffer.capacity() == self.capacity()
                    && buffer@ == self.history_of(key),
                None => !self.spec_contains(key),
            },
    {
        match self.find(key) {
            Some(i) => {
                proof {
                    self.lemma_key_at_index(i as int);
                }
                Some(&self.entries[i].history)
            }
            None => None,
        }
    }
}

} // verus!
