//! Fixed-capacity circular buffer with overwrite-oldest eviction.
//!
//! Occupancy is tracked explicitly in a `count` field, so an empty buffer is
//! never mistaken for a full one even though the head and tail slot indices
//! coincide in both states. A buffer of capacity zero is permanently both
//! empty and full and silently discards every push.

use vstd::prelude::*;

verus! {

/// What one push leaves in a buffer of capacity `cap` that held `s`: the new
/// item is appended, and when the buffer was already full the oldest element
/// is evicted first. A zero-capacity buffer retains nothing.
pub open spec fn push_model<T>(s: Seq<T>, cap: nat, item: T) -> Seq<T> {
    if cap == 0 {
        s
    } else if s.len() < cap {
        s.push(item)
    } else {
        s.drop_first().push(item)
    }
}

/// What a whole sequence of pushes leaves behind: `items` pushed one by one,
/// oldest first, into a buffer of capacity `cap` that held `s`.
pub open spec fn push_all_model<T>(s: Seq<T>, cap: nat, items: Seq<T>) -> Seq<T>
    decreases items.len(),
{
    if items.len() == 0 {
        s
    } else {
        push_all_model(push_model(s, cap, items[0]), cap, items.drop_first())
    }
}

/// A buffer of positive capacity `cap` holding `s` retains, after pushing
/// `items`, exactly the newest `cap` of the combined stream `s + items`.
proof fn lemma_push_all_model_skip<T>(s: Seq<T>, cap: nat, items: Seq<T>)
    requires
        cap > 0,
        s.len() <= cap,
    ensures
        push_all_model(s, cap, items) == (s + items).skip(
            if s.len() + items.len() <= cap { 0 } else { s.len() + items.len() - cap },
        ),
    decreases items.len(),
{
    let over: int = if s.len() + items.len() <= cap { 0 } else { s.len() + items.len() - cap };
    if items.len() == 0 {
        assert((s + items).skip(over) =~= s);
    } else {
        let s1 = push_model(s, cap, items[0]);
        lemma_push_all_model_skip(s1, cap, items.drop_first());
        let over1: int = if s1.len() + items.drop_first().len() <= cap {
            0
        } else {
            s1.len() + items.drop_first().len() - cap
        };
        if s.len() < cap {
            assert(s1 + items.drop_first() =~= s + items);
            assert((s + items).skip(over1) =~= (s + items).skip(over));
        } else {
            assert(s1 + items.drop_first() =~= (s + items).skip(1));
            assert((s + items).skip(1).skip(over1) =~= (s + items).skip(over));
        }
    }
}

/// Capacity invariant: pushing any sequence of items into an initially empty
/// buffer of positive capacity `cap` leaves occupancy `min(pushes, cap)` —
/// never more than the capacity.
pub proof fn lemma_capacity_invariant<T>(cap: nat, items: Seq<T>)
    requires
        cap > 0,
    ensures
        push_all_model(Seq::<T>::empty(), cap, items).len()
            == if items.len() <= cap { items.len() } else { cap },
{
    lemma_push_all_model_skip(Seq::<T>::empty(), cap, items);
}

/// Eviction order: once at least `cap` items have been pushed into an
/// initially empty buffer of positive capacity `cap`, exactly the newest
/// `cap` items remain, oldest first. Pushing `cap + 1` distinct items hence
/// retains all of them but the first.
pub proof fn lemma_eviction_order<T>(cap: nat, items: Seq<T>)
    requires
        cap > 0,
        items.len() >= cap,
    ensures
        push_all_model(Seq::<T>::empty(), cap, items) == items.skip(items.len() - cap),
{
    lemma_push_all_model_skip(Seq::<T>::empty(), cap, items);
    assert(Seq::<T>::empty() + items =~= items);
}

/// A well-formed buffer never holds more elements than its capacity; with
/// `push`'s contract this pins occupancy after a push at
/// `min(occupancy + 1, capacity)`.
pub proof fn lemma_occupancy_bounded<T>(buffer: RingBuffer<T>)
    requires
        buffer.wf(),
    ensures
        buffer@.len() <= buffer.capacity(),
{
}

/// Empty/full disambiguation: a buffer of positive capacity is never empty
/// and full at once; `is_empty` and `is_full` decide the two states from the
/// explicit occupancy, never from coinciding slot indices.
pub proof fn lemma_empty_full_disjoint<T>(buffer: RingBuffer<T>)
    requires
        buffer.capacity() > 0,
    ensures
        !(buffer@.len() == 0 && buffer@.len() == buffer.capacity()),
{
}

/// Iteration purity: two traversals of one buffer, each begun with no
/// mutation in between, yield identical sequences.
pub proof fn lemma_iteration_purity<'a, 'b, T>(
    buffer: RingBuffer<T>,
    first: RingBufferIterator<'a, T>,
    second: RingBufferIterator<'b, T>,
)
    requires
        first@ == buffer@,
        second@ == buffer@,
    ensures
        first@ == second@,
{
}

/// Circular buffer of fixed capacity. The `slots` vector never changes
/// length; `tail` is the slot of the oldest element and `count` the number of
/// elements currently held.
pub struct RingBuffer<T> {
    slots: Vec<Option<T>>,
    tail: usize,
    count: usize,
}

impl<T> RingBuffer<T> {
    /// Fixed capacity of the buffer.
    pub closed spec fn capacity(self) -> nat {
        self.slots@.len()
    }

    /// Slot holding the `i`-th oldest element: `tail + i`, wrapped once
    /// around the end of the slot vector.
    closed spec fn slot_of(self, i: int) -> int {
        if self.tail + i < self.slots@.len() {
            self.tail + i
        } else {
            self.tail + i - self.slots@.len()
        }
    }

    /// Structural invariant: occupancy bounded by capacity, tail in range,
    /// and every occupied slot actually holds an element.
    pub closed spec fn wf(self) -> bool {
        &&& self.count <= self.slots@.len()
        &&& (self.slots@.len() == 0 ==> self.tail == 0)
        &&& (self.slots@.len() > 0 ==> self.tail < self.slots@.len())
        &&& (forall|i: int| 0 <= i < self.count ==> self.slots@[#[trigger] self.slot_of(i)].is_some())
    }

    /// Abstract contents, oldest first.
    pub closed spec fn view(self) -> Seq<T> {
        Seq::new(self.count as nat, |i: int| self.slots@[self.slot_of(i)].unwrap())
    }

    /// Creates an empty buffer that will hold at most `size` elements.
    pub fn new(size: usize) -> (result: Self)
        ensures
            result.wf(),
            result.capacity() == size,
            result@ == Seq::<T>::empty(),
    {
        let mut slots: Vec<Option<T>> = Vec::new();
        let mut i: usize = 0;
        while i < size
            invariant
                i <= size,
                slots@.len() == i,
            decreases size - i,
        {
            slots.push(None);
            i = i + 1;
        }
        let result = RingBuffer { slots, tail: 0, count: 0 };
        proof {
            assert(result@ =~= Seq::<T>::empty());
        }
        result
    }

    /// Distinct logical positions live in distinct slots, as long as both
    /// positions lie within one wrap of the slot vector.
    proof fn lemma_slot_of_injective(self, i: int, j: int)
        requires
            self.wf(),
            0 <= i < self.slots@.len(),
            0 <= j < self.slots@.len(),
            i != j,
        ensures
            self.slot_of(i) != self.slot_of(j),
    {
    }

    /// Appends `item`, evicting the oldest element when the buffer is full.
    /// On a zero-capacity buffer this is a no-op.
    pub fn push(&mut self, item: T)
        requires
            old(self).wf(),
        ensures
            final(self).wf(),
            final(self).capacity() == old(self).capacity(),
            final(self)@ == push_model(old(self)@, old(self).capacity(), item),
    {
        let len = self.slots.len();
        if len == 0 {
            proof {
                assert(final(self)@ =~= push_model(old(self)@, old(self).capacity(), item));
            }
            return;
        }
        if self.count == len {
            // Full: overwrite the oldest slot and advance the logical start.
            let ghost prev = *self;
            self.slots[self.tail] = Some(item);
            self.tail = if self.tail + 1 == len { 0 } else { self.tail + 1 };
            proof {
                assert forall|i: int| 0 <= i < self.count implies
                    self.slots@[#[trigger] self.slot_of(i)].is_some() by {
                    if i < self.count - 1 {
                        assert(self.slot_of(i) == prev.slot_of(i + 1));
                        prev.lemma_slot_of_injective(i + 1, 0);
                        assert(prev.slot_of(0) == prev.tail);
                    } else {
                        assert(self.slot_of(i) == prev.tail);
                    }
                }
                assert(self@ =~= push_model(prev@, prev.capacity(), item)) by {
                    assert forall|i: int| 0 <= i < self.count implies
                        self@[i] == push_model(prev@, prev.capacity(), item)[i] by {
                        if i < self.count - 1 {
                            assert(self.slot_of(i) == prev.slot_of(i + 1));
                            prev.lemma_slot_of_injective(i + 1, 0);
                            assert(prev.slot_of(0) == prev.tail);
                            assert(self@[i] == prev@[i + 1]);
                        } else {
                            assert(self.slot_of(i) == prev.tail);
                        }
                    }
                }
            }
        } else {
            let ghost prev = *self;
            let head = if self.tail >= len - self.count {
                self.tail - (len - self.count)
            } else {
                self.tail + self.count
            };
            self.slots[head] = Some(item);
            self.count = self.count + 1;
            proof {
                assert(head == prev.slot_of(prev.count as int));
                assert forall|i: int| 0 <= i < self.count implies
                    self.slots@[#[trigger] self.slot_of(i)].is_some() by {
                    assert(self.slot_of(i) == prev.slot_of(i));
                    if i < prev.count {
                        prev.lemma_slot_of_injective(i, prev.count as int);
                    }
                }
                assert(self@ =~= push_model(prev@, prev.capacity(), item)) by {
                    assert forall|i: int| 0 <= i < self.count implies
                        self@[i] == push_model(prev@, prev.capacity(), item)[i] by {
                        assert(self.slot_of(i) == prev.slot_of(i));
                        if i < prev.count {
                            prev.lemma_slot_of_injective(i, prev.count as int);
                            assert(self@[i] == prev@[i]);
                        }
                    }
                }
            }
        }
    }

    /// Removes and returns the oldest element, or `None` when the buffer is
    /// empty.
    pub fn pop(&mut self) -> (result: Option<T>)
        requires
            old(self).wf(),
        ensures
            final(self).wf(),
            final(self).capacity() == old(self).capacity(),
            match result {
                Some(item) => old(self)@.len() > 0 && item == old(self)@[0]
                    && final(self)@ == old(self)@.drop_first(),
                None => old(self)@.len() == 0 && final(self)@ == old(self)@,
            },
    {
        if self.count == 0 {
            proof {
                assert(final(self)@ =~= old(self)@);
            }
            return None;
        }
        let ghost prev = *self;
        let len = self.slots.len();
        let item = self.slots[self.tail].take();
        self.tail = if self.tail + 1 == len { 0 } else { self.tail + 1 };
        self.count = self.count - 1;
        proof {
            assert(item == Some(prev@[0]));
            assert forall|i: int| 0 <= i < self.count implies
                self.slots@[#[trigger] self.slot_of(i)].is_some() by {
                assert(self.slot_of(i) == prev.slot_of(i + 1));
                prev.lemma_slot_of_injective(i + 1, 0);
                assert(prev.slot_of(0) == prev.tail);
            }
            assert(self@ =~= prev@.drop_first()) by {
                assert forall|i: int| 0 <= i < self.count implies
                    self@[i] == prev@.drop_first()[i] by {
                    assert(self.slot_of(i) == prev.slot_of(i + 1));
                    prev.lemma_slot_of_injective(i + 1, 0);
                    assert(prev.slot_of(0) == prev.tail);
                    assert(self@[i] == prev@[i + 1]);
                }
            }
        }
        item
    }

    /// Current occupancy: how many elements the buffer holds.
    pub fn len(&self) -> (result: usize)
        requires
            self.wf(),
        ensures
            result == self@.len(),
    {
        self.count
    }

    /// True exactly when the buffer holds no elements.
    pub fn is_empty(&self) -> (result: bool)
        requires
            self.wf(),
        ensures
            result == (self@.len() == 0),
    {
        self.count == 0
    }

    /// True exactly when occupancy has reached capacity. A zero-capacity
    /// buffer is both empty and full.
    pub fn is_full(&self) -> (result: bool)
        requires
            self.wf(),
        ensures
            result == (self@.len() == self.capacity()),
    {
        self.count == self.slots.len()
    }

    /// Starts a read-only traversal of the buffer, oldest to newest. The
    /// elements the traversal will yield are exactly the current contents,
    /// so restarting it always replays the same sequence.
    pub fn iter<'a>(&'a self) -> (result: RingBufferIterator<'a, T>)
        requires
            self.wf(),
        ensures
            result.wf(),
            result@ == self@,
    {
        let result = RingBufferIterator {
            slots: &self.slots,
            current: self.tail,
            remaining: self.count,
        };
        proof {
            assert forall|i: int| 0 <= i < result.remaining implies
                result.slots@[#[trigger] result.slot_of(i)].is_some() by {
                assert(result.slot_of(i) == self.slot_of(i));
            }
            assert(result@ =~= self@) by {
                assert forall|i: int| 0 <= i < result.remaining implies
                    result@[i] == self@[i] by {
                    assert(result.slot_of(i) == self.slot_of(i));
                }
            }
        }
        result
    }
}

/// Cursor over a `RingBuffer`, yielding the elements that remained ahead of
/// it when it was created, oldest first. It borrows the buffer and never
/// mutates it.
pub struct RingBufferIterator<'a, T> {
    slots: &'a Vec<Option<T>>,
    current: usize,
    remaining: usize,
}

impl<'a, T> RingBufferIterator<'a, T> {
    /// Slot holding the `i`-th element yet to be yielded.
    closed spec fn slot_of(self, i: int) -> int {
        if self.current + i < self.slots@.len() {
            self.current + i
        } else {
            self.current + i - self.slots@.len()
        }
    }

    /// Cursor indices in range and every pending slot occupied.
    pub closed spec fn wf(self) -> bool {
        &&& self.remaining <= self.slots@.len()
        &&& (self.slots@.len() == 0 ==> self.current == 0)
        &&& (self.slots@.len() > 0 ==> self.current < self.slots@.len())
        &&& (forall|i: int| 0 <= i < self.remaining
            ==> self.slots@[#[trigger] self.slot_of(i)].is_some())
    }

    /// Elements still to be yielded, in yield order.
    pub closed spec fn view(self) -> Seq<T> {
        Seq::new(self.remaining as nat, |i: int| self.slots@[self.slot_of(i)].unwrap())
    }

    /// Yields the next pending element, or `None` once the traversal is
    /// exhausted.
    pub fn next(&mut self) -> (result: Option<&'a T>)
        requires
            old(self).wf(),
        ensures
            final(self).wf(),
            match result {
                Some(item) => old(self)@.len() > 0 && *item == old(self)@[0]
                    && final(self)@ == old(self)@.drop_first(),
                None => old(self)@.len() == 0 && final(self)@ == old(self)@,
            },
    {
        if self.remaining == 0 {
            proof {
                assert(final(self)@ =~= old(self)@);
            }
            return None;
        }
        let ghost prev = *self;
        let slots: &'a Vec<Option<T>> = self.slots;
        let len = slots.len();
        let slot: &'a Option<T> = &slots[self.current];
        self.current = if self.current + 1 == len { 0 } else { self.current + 1 };
        self.remaining = self.remaining - 1;
        proof {
            assert forall|i: int| 0 <= i < self.remaining implies
                self.slots@[#[trigger] self.slot_of(i)].is_some() by {
                assert(self.slot_of(i) == prev.slot_of(i + 1));
            }
            assert(self@ =~= prev@.drop_first()) by {
                assert forall|i: int| 0 <= i < self.remaining implies
                    self@[i] == prev@.drop_first()[i] by {
                    assert(self.slot_of(i) == prev.slot_of(i + 1));
                    assert(self@[i] == prev@[i + 1]);
                }
            }
            assert(prev.slot_of(0) == prev.current as int);
            assert(*slot == Some(prev@[0]));
        }
        match slot {
            Some(item) => Some(item),
            None => None,
        }
    }
}

} // verus!
