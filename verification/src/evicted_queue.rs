//! A fixed-capacity FIFO queue that evicts its oldest element on overflow.

use std::collections::VecDeque;
use vstd::prelude::*;

verus! {

/// The last `n` elements of `s`, or all of `s` when it has no more than `n`.
pub open spec fn keep_last<T>(s: Seq<T>, n: nat) -> Seq<T> {
    if s.len() <= n {
        s
    } else {
        s.skip(s.len() - n)
    }
}

/// How many elements `keep_last(s, n)` leaves out.
pub open spec fn overflow_of(len: nat, n: nat) -> nat {
    if len <= n {
        0
    } else {
        (len - n) as nat
    }
}

/// A drop counter saturates at the largest value it can hold.
pub open spec fn saturate(n: nat) -> nat {
    if n <= u64::MAX {
        n
    } else {
        u64::MAX as nat
    }
}

/// The contents of a queue of capacity `capacity` that held `start` and was
/// then given the elements of `items` one push at a time.
pub open spec fn push_each<T>(start: Seq<T>, capacity: nat, items: Seq<T>) -> Seq<T>
    decreases items.len(),
{
    if items.len() == 0 {
        start
    } else {
        keep_last(push_each(start, capacity, items.drop_last()).push(items.last()), capacity)
    }
}

/// The number of evictions caused by pushing `count` elements, one at a time,
/// into a queue of capacity `capacity` that held `len` elements.
pub open spec fn evictions_of_each(len: nat, capacity: nat, count: nat) -> nat
    decreases count,
{
    if count == 0 {
        0
    } else {
        let before = evictions_of_each(len, capacity, (count - 1) as nat);
        let held = (len + (count - 1) - before) as nat;
        before + overflow_of(held + 1, capacity)
    }
}

/// Truncating twice is the same as truncating once after the push.
pub proof fn lemma_keep_last_push<T>(s: Seq<T>, n: nat, value: T)
    ensures
        keep_last(keep_last(s, n).push(value), n) =~= keep_last(s.push(value), n),
{
}

/// Pushing a run of elements one by one leaves exactly the last `capacity`
/// elements of everything the queue was ever given, in the order of arrival,
/// and evicts all the others.
pub proof fn lemma_push_each_keeps_last<T>(start: Seq<T>, capacity: nat, items: Seq<T>)
    requires
        start.len() <= capacity,
    ensures
        push_each(start, capacity, items) == keep_last(start + items, capacity),
        push_each(start, capacity, items).len() <= capacity,
        evictions_of_each(start.len(), capacity, items.len()) == overflow_of(
            start.len() + items.len(),
            capacity,
        ),
    decreases items.len(),
{
    if items.len() == 0 {
        assert(start + items =~= start);
    } else {
        let front = items.drop_last();
        lemma_push_each_keeps_last(start, capacity, front);
        lemma_keep_last_push(start + front, capacity, items.last());
        assert((start + front).push(items.last()) =~= start + items);
    }
}

/// Pushing `N > C` elements into an empty queue of capacity `C` leaves `C`
/// elements, namely the last `C` pushed, oldest first, and evicts `N - C`.
pub proof fn lemma_overfull_run<T>(capacity: nat, items: Seq<T>)
    requires
        items.len() > capacity,
    ensures
        push_each(Seq::<T>::empty(), capacity, items).len() == capacity,
        push_each(Seq::<T>::empty(), capacity, items) == items.skip(items.len() - capacity),
        evictions_of_each(0, capacity, items.len()) == items.len() - capacity,
{
    lemma_push_each_keeps_last(Seq::<T>::empty(), capacity, items);
    assert(Seq::<T>::empty() + items =~= items);
}

/// A queue that keeps at most `capacity` elements, evicting the oldest one
/// when a push would exceed the capacity, and counting every eviction.
#[derive(Debug)]
pub struct EvictedQueue<T> {
    queue: VecDeque<T>,
    max_len: usize,
    dropped_count: u64,
}

impl<T> View for EvictedQueue<T> {
    type V = Seq<T>;

    /// The retained elements, oldest first.
    closed spec fn view(&self) -> Seq<T> {
        self.queue@
    }
}

impl<T> EvictedQueue<T> {
    /// The capacity the queue was created with.
    pub closed spec fn capacity(&self) -> nat {
        self.max_len as nat
    }

    /// The number of elements evicted so far, saturating at `u64::MAX`.
    pub closed spec fn dropped(&self) -> nat {
        self.dropped_count as nat
    }

    /// The queue never holds more than its capacity.
    pub closed spec fn wf(&self) -> bool {
        self.queue@.len() <= self.max_len
    }

    /// Create an empty queue with the given capacity.
    pub fn new(max_len: usize) -> (q: Self)
        ensures
            q.wf(),
            q@ == Seq::<T>::empty(),
            q.capacity() == max_len,
            q.dropped() == 0,
    {
        EvictedQueue { queue: VecDeque::new(), max_len, dropped_count: 0 }
    }

    /// Push a new element to the back of the queue. When the queue is full the
    /// oldest element is evicted first; with a capacity of zero the new element
    /// itself is dropped. Every loss is counted.
    pub fn push_back(&mut self, value: T)
        requires
            old(self).wf(),
        ensures
            final(self).wf(),
            final(self).capacity() == old(self).capacity(),
            final(self)@ == keep_last(old(self)@.push(value), old(self).capacity()),
            final(self).dropped() == saturate(
                old(self).dropped() + overflow_of(old(self)@.len() + 1, old(self).capacity()),
            ),
            final(self).dropped() >= old(self).dropped(),
    {
        if self.queue.len() >= self.max_len {
            if self.dropped_count < u64::MAX {
                self.dropped_count = self.dropped_count + 1;
            }
            if self.max_len == 0 {
                assert(self.queue@ =~= keep_last(old(self).queue@.push(value), 0));
                return ;
            }
            let _ = self.queue.pop_front();
        }
        self.queue.push_back(value);
        assert(self.queue@ =~= keep_last(old(self).queue@.push(value), self.max_len as nat));
    }

    /// Move every element of `other` into the queue, in order, as if each had
    /// been pushed on its own. `other` is left empty.
    pub fn append_vec(&mut self, other: &mut Vec<T>)
        requires
            old(self).wf(),
        ensures
            final(self).wf(),
            final(other)@ == Seq::<T>::empty(),
            final(self).capacity() == old(self).capacity(),
            final(self)@ == keep_last(old(self)@ + old(other)@, old(self).capacity()),
            final(self)@ == push_each(old(self)@, old(self).capacity(), old(other)@),
            final(self).dropped() == saturate(
                old(self).dropped() + overflow_of(
                    old(self)@.len() + old(other)@.len(),
                    old(self).capacity(),
                ),
            ),
            final(self).dropped() >= old(self).dropped(),
    {
        let ghost items = other@;
        let ghost start = self@;
        let ghost cap = self.capacity();
        let ghost dropped = self.dropped();
        let ghost total = items.len();
        let mut pending: Vec<T> = Vec::new();
        while other.len() > 0
            invariant
                total == items.len(),
                other@.len() + pending@.len() == total,
                other@ == items.take(other@.len() as int),
                forall|i: int|
                    0 <= i < pending@.len() ==> #[trigger] pending@[i] == items[total - 1 - i],
            decreases other@.len(),
        {
            let item = other.pop();
            pending.push(item.unwrap());
            assert(other@ =~= items.take(other@.len() as int));
        }
        proof {
            assert(start + items.take(0) =~= start);
        }
        while pending.len() > 0
            invariant
                pending@.len() <= total,
                total == items.len(),
                forall|i: int|
                    0 <= i < pending@.len() ==> #[trigger] pending@[i] == items[total - 1 - i],
                self.wf(),
                self.capacity() == cap,
                start.len() <= cap,
                self@ == keep_last(start + items.take(total - pending@.len()), cap),
                self.dropped() == saturate(
                    dropped + overflow_of((start.len() + total - pending@.len()) as nat, cap),
                ),
            decreases pending@.len(),
        {
            let ghost done = total - pending@.len();
            let item = pending.pop().unwrap();
            proof {
                assert(item == items[done]);
                lemma_keep_last_push(start + items.take(done), cap, item);
                assert((start + items.take(done)).push(item) =~= start + items.take(done + 1));
            }
            self.push_back(item);
        }
        proof {
            assert(items.take(total as int) =~= items);
            lemma_push_each_keeps_last(start, cap, items);
        }
    }

    /// The number of elements currently held.
    pub fn len(&self) -> (n: usize)
        requires
            self.wf(),
        ensures
            n == self@.len(),
            n <= self.capacity(),
    {
        self.queue.len()
    }

    /// Whether the queue holds no element.
    pub fn is_empty(&self) -> (b: bool)
        ensures
            b == (self@.len() == 0),
    {
        self.queue.len() == 0
    }

    /// The number of elements that were evicted or refused.
    pub fn dropped_count(&self) -> (n: u64)
        ensures
            n == self.dropped(),
    {
        self.dropped_count
    }

    /// The capacity the queue was created with.
    pub fn max_len(&self) -> (n: usize)
        ensures
            n == self.capacity(),
    {
        self.max_len
    }

    /// The retained elements, oldest first.
    pub fn into_vec(self) -> (items: Vec<T>)
        ensures
            items@ == self@,
    {
        let mut queue = self.queue;
        let ghost all = queue@;
        let mut items: Vec<T> = Vec::new();
        while queue.len() > 0
            invariant
                items@ + queue@ == all,
            decreases queue@.len(),
        {
            let ghost taken = items@;
            let ghost rest = queue@;
            let item = queue.pop_front().unwrap();
            items.push(item);
            assert(items@ + queue@ =~= taken + rest);
        }
        assert(items@ + queue@ =~= items@);
        items
    }

    /// The element at position `index`, counted from the oldest.
    pub fn get(&self, index: usize) -> (item: Option<&T>)
        ensures
            index < self@.len() ==> item == Some(&self@[index as int]),
            index >= self@.len() ==> item is None,
    {
        if index < self.queue.len() {
            Some(&self.queue[index])
        } else {
            None
        }
    }
}

} // verus!
