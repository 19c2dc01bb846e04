//! A fixed-capacity attribute map that refuses new keys once it is full.

use crate::common::{KeyValue, Value};
use crate::evicted_queue::saturate;
use vstd::prelude::*;

verus! {

/// The keys of a run of entries, in the same order.
pub open spec fn keys_of(entries: Seq<KeyValue>) -> Seq<Seq<char>> {
    Seq::new(entries.len(), |i: int| entries[i].key@)
}

/// The map that a run of entries stands for: each key with the value of the
/// entry that carries it.
pub open spec fn map_of(entries: Seq<KeyValue>) -> Map<Seq<char>, Value>
    decreases entries.len(),
{
    if entries.len() == 0 {
        Map::empty()
    } else {
        map_of(entries.drop_last()).insert(entries.last().key@, entries.last().value)
    }
}

/// The map of a run of entries has exactly the entries' keys, is finite, and
/// with no key repeated has as many keys as there are entries.
pub proof fn lemma_map_of_domain(entries: Seq<KeyValue>)
    ensures
        forall|k: Seq<char>|
            (#[trigger] map_of(entries).dom().contains(k)) <==> keys_of(entries).contains(k),
        map_of(entries).dom().finite(),
        keys_of(entries).no_duplicates() ==> map_of(entries).dom().len() == entries.len(),
    decreases entries.len(),
{
    if entries.len() > 0 {
        let front = entries.drop_last();
        let last_key = entries.last().key@;
        lemma_map_of_domain(front);
        assert(keys_of(front) =~= keys_of(entries).drop_last());
        assert forall|k: Seq<char>|
            (#[trigger] map_of(entries).dom().contains(k)) <==> keys_of(entries).contains(k) by {
            if keys_of(entries).contains(k) {
                let i = choose|i: int| 0 <= i < entries.len() && keys_of(entries)[i] == k;
                if i < entries.len() - 1 {
                    assert(keys_of(front)[i] == k);
                }
            }
            if map_of(entries).dom().contains(k) {
                if k == last_key {
                    assert(keys_of(entries)[entries.len() - 1] == k);
                } else {
                    let i = choose|i: int| 0 <= i < front.len() && keys_of(front)[i] == k;
                    assert(keys_of(entries)[i] == k);
                }
            }
        }
        if keys_of(entries).no_duplicates() {
            assert(keys_of(front).no_duplicates());
            if keys_of(front).contains(last_key) {
                let i = choose|i: int| 0 <= i < front.len() && keys_of(front)[i] == last_key;
                assert(keys_of(entries)[i] == keys_of(entries)[entries.len() - 1]);
            }
            assert(!map_of(front).dom().contains(last_key));
        }
    }
}

/// With no key repeated, replacing the value of one entry replaces the value
/// under its key and nothing else.
pub proof fn lemma_map_of_update(entries: Seq<KeyValue>, index: int, item: KeyValue)
    requires
        0 <= index < entries.len(),
        entries[index].key@ == item.key@,
        keys_of(entries).no_duplicates(),
    ensures
        map_of(entries.update(index, item)) == map_of(entries).insert(item.key@, item.value),
        keys_of(entries.update(index, item)) == keys_of(entries),
    decreases entries.len(),
{
    let updated = entries.update(index, item);
    assert(keys_of(updated) =~= keys_of(entries));
    let front = entries.drop_last();
    if index == entries.len() - 1 {
        assert(updated.drop_last() =~= front);
        assert(map_of(updated) =~= map_of(entries).insert(item.key@, item.value));
    } else {
        assert(keys_of(front) =~= keys_of(entries).drop_last());
        lemma_map_of_update(front, index, item);
        assert(updated.drop_last() =~= front.update(index, item));
        assert(keys_of(entries)[index] != keys_of(entries)[entries.len() - 1]);
        assert(map_of(updated) =~= map_of(entries).insert(item.key@, item.value));
    }
}

/// A map of attributes that holds at most `capacity` keys. A new key that
/// arrives when the map is full is refused and counted; a key that is already
/// present always takes its new value.
#[derive(Debug)]
pub struct EvictedHashMap {
    entries: Vec<KeyValue>,
    max_len: usize,
    dropped_count: u64,
}

impl View for EvictedHashMap {
    type V = Map<Seq<char>, Value>;

    /// The attributes held, by key.
    closed spec fn view(&self) -> Map<Seq<char>, Value> {
        map_of(self.entries@)
    }
}

impl EvictedHashMap {
    /// The capacity the map was created with.
    pub closed spec fn capacity(&self) -> nat {
        self.max_len as nat
    }

    /// The number of insertions refused so far, saturating at `u64::MAX`.
    pub closed spec fn dropped(&self) -> nat {
        self.dropped_count as nat
    }

    /// The number of keys held.
    pub closed spec fn spec_len(&self) -> nat {
        self.entries@.len()
    }

    /// No key occurs twice and the capacity is respected.
    pub closed spec fn wf(&self) -> bool {
        &&& keys_of(self.entries@).no_duplicates()
        &&& self.entries@.len() <= self.max_len
    }

    /// The length is the number of distinct keys, and never above the capacity.
    pub proof fn lemma_len(&self)
        requires
            self.wf(),
        ensures
            self@.dom().finite(),
            self.spec_len() == self@.dom().len(),
            self.spec_len() <= self.capacity(),
    {
        lemma_map_of_domain(self.entries@);
    }

    /// Whether the map takes a value for `key`: the key is present, or there is
    /// room for a new one.
    pub open spec fn takes(&self, key: Seq<char>) -> bool {
        self@.dom().contains(key) || self.spec_len() < self.capacity()
    }

    /// Create an empty map that will hold at most `max_len` keys.
    pub fn new(max_len: usize) -> (m: Self)
        ensures
            m.wf(),
            m@ == Map::<Seq<char>, Value>::empty(),
            m.capacity() == max_len,
            m.dropped() == 0,
            m.spec_len() == 0,
    {
        EvictedHashMap { entries: Vec::new(), max_len, dropped_count: 0 }
    }

    /// The position of the entry that carries `key`, if there is one.
    fn position(&self, key: &String) -> (found: Option<usize>)
        ensures
            match found {
                Some(i) => i < self.entries@.len() && self.entries@[i as int].key@ == key@,
                None => !self@.dom().contains(key@),
            },
            found is Some <==> self@.dom().contains(key@),
    {
        let mut i: usize = 0;
        while i < self.entries.len()
            invariant
                i <= self.entries@.len(),
                forall|j: int| 0 <= j < i ==> self.entries@[j].key@ != key@,
            decreases self.entries@.len() - i,
        {
            if self.entries[i].key == *key {
                assert(keys_of(self.entries@)[i as int] == key@);
                proof {
                    lemma_map_of_domain(self.entries@);
                    assert(keys_of(self.entries@).contains(key@));
                }
                return Some(i);
            }
            i = i + 1;
        }
        proof {
            lemma_map_of_domain(self.entries@);
            if keys_of(self.entries@).contains(key@) {
                let j = choose|j: int|
                    0 <= j < self.entries@.len() && keys_of(self.entries@)[j] == key@;
                assert(self.entries@[j].key@ == key@);
            }
        }
        None
    }

    /// Record an attribute. A key that is present takes the new value; a new
    /// key is added while there is room, and is refused and counted otherwise.
    pub fn insert(&mut self, item: KeyValue)
        requires
            old(self).wf(),
        ensures
            final(self).wf(),
            final(self).capacity() == old(self).capacity(),
            final(self)@ == if old(self).takes(item.key@) {
                old(self)@.insert(item.key@, item.value)
            } else {
                old(self)@
            },
            final(self).dropped() == if old(self).takes(item.key@) {
                old(self).dropped()
            } else {
                saturate(old(self).dropped() + 1)
            },
            final(self).dropped() >= old(self).dropped(),
            final(self).spec_len() == if old(self).takes(item.key@) && !old(self)@.dom().contains(
                item.key@,
            ) {
                old(self).spec_len() + 1
            } else {
                old(self).spec_len()
            },
    {
        let found = self.position(&item.key);
        match found {
            Some(i) => {
                proof {
                    lemma_map_of_update(self.entries@, i as int, item);
                }
                self.entries[i] = item;
            },
            None => {
                if self.entries.len() < self.max_len {
                    proof {
                        lemma_map_of_domain(self.entries@);
                        let grown = self.entries@.push(item);
                        assert(grown.drop_last() =~= self.entries@);
                        assert(keys_of(grown) =~= keys_of(self.entries@).push(item.key@));
                        assert forall|a: int, b: int|
                            0 <= a < grown.len() && 0 <= b < grown.len() && a != b implies keys_of(
                            grown,
                        )[a] != keys_of(grown)[b] by {
                            if a < grown.len() - 1 {
                                assert(keys_of(self.entries@)[a] == keys_of(grown)[a]);
                            }
                            if b < grown.len() - 1 {
                                assert(keys_of(self.entries@)[b] == keys_of(grown)[b]);
                            }
                        }
                    }
                    self.entries.push(item);
                } else if self.dropped_count < u64::MAX {
                    self.dropped_count = self.dropped_count + 1;
                }
            },
        }
    }

    /// The value recorded under `key`, if any.
    pub fn get(&self, key: &String) -> (value: Option<&Value>)
        requires
            self.wf(),
        ensures
            match value {
                Some(v) => self@.dom().contains(key@) && *v == self@[key@],
                None => !self@.dom().contains(key@),
            },
    {
        match self.position(key) {
            Some(i) => {
                proof {
                    lemma_map_of_get(self.entries@, i as int);
                }
                Some(&self.entries[i].value)
            },
            None => None,
        }
    }

    /// The number of keys held.
    pub fn len(&self) -> (n: usize)
        requires
            self.wf(),
        ensures
            n == self.spec_len(),
            n == self@.dom().len(),
            n <= self.capacity(),
    {
        proof {
            self.lemma_len();
        }
        self.entries.len()
    }

    /// Whether the map holds no key.
    pub fn is_empty(&self) -> (b: bool)
        ensures
            b == (self.spec_len() == 0),
    {
        self.entries.len() == 0
    }

    /// The number of insertions that were refused.
    pub fn dropped_count(&self) -> (n: u64)
        ensures
            n == self.dropped(),
    {
        self.dropped_count
    }

    /// The entry at position `index`, in the order the keys first arrived.
    pub fn entry(&self, index: usize) -> (item: Option<&KeyValue>)
        requires
            self.wf(),
        ensures
            index >= self.spec_len() ==> item is None,
            index < self.spec_len() ==> item is Some && self@.dom().contains(item.unwrap().key@)
                && self@[item.unwrap().key@] == item.unwrap().value,
    {
        if index < self.entries.len() {
            proof {
                lemma_map_of_get(self.entries@, index as int);
            }
            Some(&self.entries[index])
        } else {
            None
        }
    }
}

/// With no key repeated, every entry's value is the one its key maps to.
pub proof fn lemma_map_of_get(entries: Seq<KeyValue>, index: int)
    requires
        0 <= index < entries.len(),
        keys_of(entries).no_duplicates(),
    ensures
        map_of(entries).dom().contains(entries[index].key@),
        map_of(entries)[entries[index].key@] == entries[index].value,
    decreases entries.len(),
{
    let front = entries.drop_last();
    if index < entries.len() - 1 {
        assert(keys_of(front) =~= keys_of(entries).drop_last());
        lemma_map_of_get(front, index);
        assert(keys_of(entries)[index] != keys_of(entries)[entries.len() - 1]);
    }
}

} // verus!
