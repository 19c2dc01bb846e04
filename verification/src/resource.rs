//! The entity that produces telemetry, described by attributes.

use crate::common::{KeyValue, Value};
use crate::evicted_hash_map::{
    keys_of, lemma_map_of_domain, lemma_map_of_get, lemma_map_of_update, map_of,
};
use vstd::prelude::*;

verus! {

/// Attributes that describe the process, host or service that produces
/// telemetry. Every key occurs once.
#[derive(Debug)]
pub struct Resource {
    attrs: Vec<KeyValue>,
}

impl View for Resource {
    type V = Map<Seq<char>, Value>;

    /// The attributes, by key.
    closed spec fn view(&self) -> Map<Seq<char>, Value> {
        map_of(self.attrs@)
    }
}

impl Clone for Resource {
    /// A resource with the same attributes.
    fn clone(&self) -> (copy: Self)
        ensures
            copy@ == self@,
            copy.wf() == self.wf(),
            copy.spec_len() == self.spec_len(),
    {
        let mut attrs: Vec<KeyValue> = Vec::new();
        let mut i: usize = 0;
        while i < self.attrs.len()
            invariant
                i <= self.attrs@.len(),
                attrs@ == self.attrs@.take(i as int),
            decreases self.attrs@.len() - i,
        {
            attrs.push(self.attrs[i].clone());
            assert(attrs@ =~= self.attrs@.take(i + 1));
            i = i + 1;
        }
        assert(self.attrs@.take(i as int) =~= self.attrs@);
        Resource { attrs }
    }
}

impl Resource {
    /// No key occurs twice.
    pub closed spec fn wf(&self) -> bool {
        keys_of(self.attrs@).no_duplicates()
    }

    /// The number of attributes.
    pub closed spec fn spec_len(&self) -> nat {
        self.attrs@.len()
    }

    /// A resource without attributes.
    pub fn empty() -> (r: Self)
        ensures
            r.wf(),
            r@ == Map::<Seq<char>, Value>::empty(),
            r.spec_len() == 0,
    {
        Resource { attrs: Vec::new() }
    }

    /// A resource with the given attributes. Where a key is given more than
    /// once, the last value given for it is kept.
    pub fn new(kvs: Vec<KeyValue>) -> (r: Self)
        ensures
            r.wf(),
            r@ == map_of(kvs@),
    {
        let mut resource = Resource::empty();
        let mut kvs = kvs;
        let ghost all = kvs@;
        let mut pending: Vec<KeyValue> = Vec::new();
        while kvs.len() > 0
            invariant
                kvs@.len() + pending@.len() == all.len(),
                kvs@ == all.take(kvs@.len() as int),
                forall|i: int|
                    0 <= i < pending@.len() ==> #[trigger] pending@[i] == all[all.len() - 1 - i],
            decreases kvs@.len(),
        {
            let item = kvs.pop().unwrap();
            pending.push(item);
            assert(kvs@ =~= all.take(kvs@.len() as int));
        }
        assert(all.take(0) =~= Seq::<KeyValue>::empty());
        while pending.len() > 0
            invariant
                pending@.len() <= all.len(),
                forall|i: int|
                    0 <= i < pending@.len() ==> #[trigger] pending@[i] == all[all.len() - 1 - i],
                resource.wf(),
                resource@ == map_of(all.take(all.len() - pending@.len())),
            decreases pending@.len(),
        {
            let ghost done = all.len() - pending@.len();
            let item = pending.pop().unwrap();
            proof {
                assert(all.take(done + 1).drop_last() =~= all.take(done));
                assert(all.take(done + 1).last() == item);
            }
            resource.insert(item);
        }
        assert(all.take(all.len() as int) =~= all);
        resource
    }

    /// The position of the attribute with the given key, if there is one.
    fn position(&self, key: &String) -> (found: Option<usize>)
        ensures
            match found {
                Some(i) => i < self.attrs@.len() && self.attrs@[i as int].key@ == key@,
                None => !self@.dom().contains(key@),
            },
            found is Some <==> self@.dom().contains(key@),
    {
        let mut i: usize = 0;
        while i < self.attrs.len()
            invariant
                i <= self.attrs@.len(),
                forall|j: int| 0 <= j < i ==> self.attrs@[j].key@ != key@,
            decreases self.attrs@.len() - i,
        {
            if self.attrs[i].key == *key {
                proof {
                    lemma_map_of_domain(self.attrs@);
                    assert(keys_of(self.attrs@)[i as int] == key@);
                    assert(keys_of(self.attrs@).contains(key@));
                }
                return Some(i);
            }
            i = i + 1;
        }
        proof {
            lemma_map_of_domain(self.attrs@);
            if keys_of(self.attrs@).contains(key@) {
                let j = choose|j: int|
                    0 <= j < self.attrs@.len() && keys_of(self.attrs@)[j] == key@;
                assert(self.attrs@[j].key@ == key@);
            }
        }
        None
    }

    /// Set an attribute, replacing the value of a key that is present.
    pub fn insert(&mut self, item: KeyValue)
        requires
            old(self).wf(),
        ensures
            final(self).wf(),
            final(self)@ == old(self)@.insert(item.key@, item.value),
    {
        match self.position(&item.key) {
            Some(i) => {
                proof {
                    lemma_map_of_update(self.attrs@, i as int, item);
                }
                self.attrs[i] = item;
            },
            None => {
                proof {
                    lemma_map_of_domain(self.attrs@);
                    let grown = self.attrs@.push(item);
                    assert(grown.drop_last() =~= self.attrs@);
                    assert(keys_of(grown) =~= keys_of(self.attrs@).push(item.key@));
                    assert forall|a: int, b: int|
                        0 <= a < grown.len() && 0 <= b < grown.len() && a != b implies keys_of(
                        grown,
                    )[a] != keys_of(grown)[b] by {
                        if a < grown.len() - 1 {
                            assert(keys_of(self.attrs@)[a] == keys_of(grown)[a]);
                        }
                        if b < grown.len() - 1 {
                            assert(keys_of(self.attrs@)[b] == keys_of(grown)[b]);
                        }
                    }
                }
                self.attrs.push(item);
            },
        }
    }

    /// The value recorded under `key`, if any.
    pub fn get(&self, key: &String) -> (value: Option<&Value>)
        requires
            self.wf(),
        ensures
            match value {
                Some(v) => self@.dom().contains(key@) && *v == self@[key@],
                None => !self@.dom().contains(key@),
            },
    {
        match self.position(key) {
            Some(i) => {
                proof {
                    lemma_map_of_get(self.attrs@, i as int);
                }
                Some(&self.attrs[i].value)
            },
            None => None,
        }
    }

    /// Combine two resources. Where both carry a key, the value of `other`
    /// is kept.
    pub fn merge(self, other: Resource) -> (merged: Self)
        requires
            self.wf(),
        ensures
            merged.wf(),
            merged@ == self@.union_prefer_right(other@),
    {
        let mut merged = self;
        let mut other = other;
        let ghost all = other.attrs@;
        let ghost base = self@;
        let mut pending: Vec<KeyValue> = Vec::new();
        while other.attrs.len() > 0
            invariant
                other.attrs@.len() + pending@.len() == all.len(),
                other.attrs@ == all.take(other.attrs@.len() as int),
                forall|i: int|
                    0 <= i < pending@.len() ==> #[trigger] pending@[i] == all[all.len() - 1 - i],
            decreases other.attrs@.len(),
        {
            let item = other.attrs.pop().unwrap();
            pending.push(item);
            assert(other.attrs@ =~= all.take(other.attrs@.len() as int));
        }
        proof {
            assert(all.take(0) =~= Seq::<KeyValue>::empty());
            assert(base.union_prefer_right(map_of(all.take(0))) =~= base);
        }
        while pending.len() > 0
            invariant
                pending@.len() <= all.len(),
                forall|i: int|
                    0 <= i < pending@.len() ==> #[trigger] pending@[i] == all[all.len() - 1 - i],
                merged.wf(),
                merged@ == base.union_prefer_right(map_of(all.take(all.len() - pending@.len()))),
            decreases pending@.len(),
        {
            let ghost done = all.len() - pending@.len();
            let item = pending.pop().unwrap();
            proof {
                assert(all.take(done + 1).drop_last() =~= all.take(done));
                assert(all.take(done + 1).last() == item);
                assert(base.union_prefer_right(map_of(all.take(done))).insert(item.key@, item.value)
                    =~= base.union_prefer_right(map_of(all.take(done + 1))));
            }
            merged.insert(item);
        }
        assert(all.take(all.len() as int) =~= all);
        merged
    }

    /// The number of attributes.
    pub fn len(&self) -> (n: usize)
        ensures
            n == self.spec_len(),
    {
        self.attrs.len()
    }

    /// Whether the resource has no attribute.
    pub fn is_empty(&self) -> (b: bool)
        ensures
            b == (self.spec_len() == 0),
    {
        self.attrs.len() == 0
    }
}

} // verus!
