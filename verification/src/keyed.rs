//! An association list keyed by entity id. It is the storage behind every
//! registry and store of the library: a sequence of entries in which a key is
//! looked up from the front, so that the first entry with a key is the one
//! that counts. Every operation keeps the keys distinct once they are.
//!
//! The stores are keyed by text as well as by number, list their entries in
//! the order in which they came, and change a value in place. A sequence
//! gives all three under one contract, which a hash map does not: what the
//! verifier knows of a hash map covers neither text keys nor the order of its
//! entries.

use vstd::prelude::*;

verus! {

/// What can identify an entity: a value with a mathematical model and an
/// executable test that two values have the same model.
pub trait EntityKey: Sized {
    type Model;

    spec fn model(&self) -> Self::Model;

    fn same(&self, other: &Self) -> (equal: bool)
        ensures
            equal == (self.model() == other.model()),
    ;
}

impl EntityKey for u128 {
    type Model = u128;

    open spec fn model(&self) -> u128 {
        *self
    }

    fn same(&self, other: &u128) -> (equal: bool) {
        *self == *other
    }
}

impl EntityKey for String {
    type Model = Seq<char>;

    open spec fn model(&self) -> Seq<char> {
        self@
    }

    fn same(&self, other: &String) -> (equal: bool) {
        *self == *other
    }
}

/// `i` is the first position of `entries` that holds `key`.
pub open spec fn is_first_at<M, V>(entries: Seq<(M, V)>, key: M, i: int) -> bool {
    &&& 0 <= i < entries.len()
    &&& entries[i].0 == key
    &&& forall|j: int| 0 <= j < i ==> (#[trigger] entries[j]).0 != key
}

/// Whether some entry holds `key`.
pub open spec fn has_key<M, V>(entries: Seq<(M, V)>, key: M) -> bool {
    exists|i: int| 0 <= i < entries.len() && (#[trigger] entries[i]).0 == key
}

/// The first position that holds `key`, if any does.
pub open spec fn first_index<M, V>(entries: Seq<(M, V)>, key: M) -> Option<int> {
    if exists|i: int| is_first_at(entries, key, i) {
        Some(choose|i: int| is_first_at(entries, key, i))
    } else {
        None
    }
}

/// No key occurs in two entries.
pub open spec fn distinct_keys<M, V>(entries: Seq<(M, V)>) -> bool {
    forall|i: int, j: int|
        0 <= i < j < entries.len() ==> (#[trigger] entries[i]).0 != (#[trigger] entries[j]).0
}

/// The entries after storing `value` under `key`: the first entry with the key
/// gets the value, or a new entry is appended.
pub open spec fn after_insert<M, V>(entries: Seq<(M, V)>, key: M, value: V) -> Seq<(M, V)> {
    match first_index(entries, key) {
        Some(i) => entries.update(i, (key, value)),
        None => entries.push((key, value)),
    }
}

/// The entries after taking out the first entry with `key`, if there is one.
pub open spec fn after_remove<M, V>(entries: Seq<(M, V)>, key: M) -> Seq<(M, V)> {
    match first_index(entries, key) {
        Some(i) => entries.remove(i),
        None => entries,
    }
}

/// The value stored under `key`, if any.
pub open spec fn value_of<M, V>(entries: Seq<(M, V)>, key: M) -> Option<V> {
    match first_index(entries, key) {
        Some(i) => Some(entries[i].1),
        None => None,
    }
}

/// The values of the entries, in their order.
pub open spec fn values_of<M, V>(entries: Seq<(M, V)>) -> Seq<V> {
    Seq::new(entries.len(), |i: int| entries[i].1)
}

/// The first position that holds a key is the only one that `is_first_at`
/// accepts, and `first_index` names it.
pub proof fn lemma_first_index_is<M, V>(entries: Seq<(M, V)>, key: M, i: int)
    requires
        is_first_at(entries, key, i),
    ensures
        first_index(entries, key) == Some(i),
        has_key(entries, key),
{
    let c = choose|c: int| is_first_at(entries, key, c);
    if c < i {
        assert(entries[c].0 != key);
    }
    if i < c {
        assert(entries[i].0 != key);
    }
}

/// A key that no entry holds has no first position, and the other way round.
pub proof fn lemma_first_index_none<M, V>(entries: Seq<(M, V)>, key: M)
    ensures
        first_index(entries, key) is None <==> !has_key(entries, key),
        first_index(entries, key) matches Some(i) ==> is_first_at(entries, key, i),
    decreases entries.len(),
{
    if has_key(entries, key) {
        let w = choose|i: int| 0 <= i < entries.len() && (#[trigger] entries[i]).0 == key;
        lemma_least_position(entries, key, w);
    } else {
        if exists|i: int| is_first_at(entries, key, i) {
            let i = choose|i: int| is_first_at(entries, key, i);
            assert(entries[i].0 == key);
        }
    }
}

proof fn lemma_least_position<M, V>(entries: Seq<(M, V)>, key: M, w: int)
    requires
        0 <= w < entries.len(),
        entries[w].0 == key,
    ensures
        exists|i: int| is_first_at(entries, key, i),
    decreases w,
{
    if exists|j: int| 0 <= j < w && (#[trigger] entries[j]).0 == key {
        let j = choose|j: int| 0 <= j < w && (#[trigger] entries[j]).0 == key;
        lemma_least_position(entries, key, j);
    } else {
        assert(is_first_at(entries, key, w));
    }
}

/// Storing a value keeps the keys distinct and makes the key present with that
/// value; every other key keeps what it had.
pub proof fn lemma_insert_keeps_distinct<M, V>(entries: Seq<(M, V)>, key: M, value: V)
    requires
        distinct_keys(entries),
    ensures
        distinct_keys(after_insert(entries, key, value)),
        value_of(after_insert(entries, key, value), key) == Some(value),
        forall|other: M|
            other != key ==> has_key(after_insert(entries, key, value), other) == has_key(
                entries,
                other,
            ),
{
    lemma_first_index_none(entries, key);
    let after = after_insert(entries, key, value);
    match first_index(entries, key) {
        Some(i) => {
            assert forall|a: int, b: int| 0 <= a < b < after.len() implies (#[trigger] after[a]).0
                != (#[trigger] after[b]).0 by {
                assert(after[a].0 == entries[a].0);
                assert(after[b].0 == entries[b].0);
            }
            assert(is_first_at(after, key, i)) by {
                assert forall|j: int| 0 <= j < i implies (#[trigger] after[j]).0 != key by {
                    assert(after[j] == entries[j]);
                }
            }
            lemma_first_index_is(after, key, i);
            assert forall|other: M| other != key implies has_key(after, other) == has_key(
                entries,
                other,
            ) by {
                if has_key(entries, other) {
                    let w = choose|w: int|
                        0 <= w < entries.len() && (#[trigger] entries[w]).0 == other;
                    assert(after[w].0 == other);
                }
                if has_key(after, other) {
                    let w = choose|w: int| 0 <= w < after.len() && (#[trigger] after[w]).0 == other;
                    assert(entries[w].0 == other);
                }
            }
        },
        None => {
            let n = entries.len() as int;
            assert forall|a: int, b: int| 0 <= a < b < after.len() implies (#[trigger] after[a]).0
                != (#[trigger] after[b]).0 by {
                assert(after[a] == entries[a]);
                if b < n {
                    assert(after[b] == entries[b]);
                } else {
                    assert(entries[a].0 != key);
                }
            }
            assert(is_first_at(after, key, n)) by {
                assert forall|j: int| 0 <= j < n implies (#[trigger] after[j]).0 != key by {
                    assert(after[j] == entries[j]);
                    assert(entries[j].0 != key);
                }
            }
            lemma_first_index_is(after, key, n);
            assert forall|other: M| other != key implies has_key(after, other) == has_key(
                entries,
                other,
            ) by {
                if has_key(entries, other) {
                    let w = choose|w: int|
                        0 <= w < entries.len() && (#[trigger] entries[w]).0 == other;
                    assert(after[w].0 == other);
                }
                if has_key(after, other) {
                    let w = choose|w: int| 0 <= w < after.len() && (#[trigger] after[w]).0 == other;
                    assert(w < n);
                    assert(entries[w].0 == other);
                }
            }
        },
    }
}

/// Taking a key out keeps the keys distinct and, once they are distinct,
/// leaves no entry with that key; every other key stays.
pub proof fn lemma_remove_keeps_distinct<M, V>(entries: Seq<(M, V)>, key: M)
    requires
        distinct_keys(entries),
    ensures
        distinct_keys(after_remove(entries, key)),
        !has_key(after_remove(entries, key), key),
        forall|other: M|
            other != key ==> has_key(after_remove(entries, key), other) == has_key(entries, other),
{
    lemma_first_index_none(entries, key);
    let after = after_remove(entries, key);
    match first_index(entries, key) {
        Some(i) => {
            assert forall|a: int| 0 <= a < after.len() implies (#[trigger] after[a]) == entries[if a
                < i {
                a
            } else {
                a + 1
            }] by {}
            assert forall|a: int, b: int| 0 <= a < b < after.len() implies (#[trigger] after[a]).0
                != (#[trigger] after[b]).0 by {
                let a0 = if a < i { a } else { a + 1 };
                let b0 = if b < i { b } else { b + 1 };
                assert(after[a] == entries[a0]);
                assert(after[b] == entries[b0]);
            }
            if has_key(after, key) {
                let w = choose|w: int| 0 <= w < after.len() && (#[trigger] after[w]).0 == key;
                let w0 = if w < i { w } else { w + 1 };
                assert(after[w] == entries[w0]);
                assert(entries[w0].0 == entries[i].0);
            }
            assert forall|other: M| other != key implies has_key(after, other) == has_key(
                entries,
                other,
            ) by {
                if has_key(entries, other) {
                    let w = choose|w: int|
                        0 <= w < entries.len() && (#[trigger] entries[w]).0 == other;
                    let w1 = if w < i { w } else { w - 1 };
                    assert(after[w1] == entries[w]);
                }
                if has_key(after, other) {
                    let w = choose|w: int| 0 <= w < after.len() && (#[trigger] after[w]).0 == other;
                    let w0 = if w < i { w } else { w + 1 };
                    assert(after[w] == entries[w0]);
                }
            }
        },
        None => {},
    }
}

/// One entry of the list.
pub struct Entry<K, V> {
    pub key: K,
    pub value: V,
}

/// An association list from entity keys to values.
pub struct Keyed<K, V> {
    entries: Vec<Entry<K, V>>,
}

impl<K: EntityKey, V> View for Keyed<K, V> {
    type V = Seq<(K::Model, V)>;

    closed spec fn view(&self) -> Seq<(K::Model, V)> {
        Seq::new(self.entries@.len(), |i: int| (self.entries@[i].key.model(), self.entries@[i].value))
    }
}

impl<K: EntityKey, V> Keyed<K, V> {
    /// An empty list.
    pub fn new() -> (list: Keyed<K, V>)
        ensures
            list@ == Seq::<(K::Model, V)>::empty(),
            distinct_keys(list@),
    {
        let list = Keyed { entries: Vec::new() };
        assert(list@ =~= Seq::<(K::Model, V)>::empty());
        list
    }

    /// Number of entries.
    pub fn len(&self) -> (n: usize)
        ensures
            n == self@.len(),
    {
        self.entries.len()
    }

    /// The key of the entry at position `i`.
    pub fn key_at(&self, i: usize) -> (key: &K)
        requires
            i < self@.len(),
        ensures
            key.model() == self@[i as int].0,
    {
        &self.entries[i].key
    }

    /// The value of the entry at position `i`.
    pub fn value_at(&self, i: usize) -> (value: &V)
        requires
            i < self@.len(),
        ensures
            *value == self@[i as int].1,
    {
        &self.entries[i].value
    }

    fn find(&self, key: &K) -> (found: Option<usize>)
        ensures
            match found {
                Some(i) => is_first_at(self@, key.model(), i as int) && first_index(
                    self@,
                    key.model(),
                ) == Some(i as int),
                None => !has_key(self@, key.model()) && first_index(self@, key.model()) is None,
            },
    {
        let mut i: usize = 0;
        while i < self.entries.len()
            invariant
                i <= self.entries.len(),
                forall|j: int| 0 <= j < i ==> (#[trigger] self@[j]).0 != key.model(),
            decreases self.entries.len() - i,
        {
            if self.entries[i].key.same(key) {
                proof {
                    assert(self@[i as int].0 == key.model());
                    lemma_first_index_is(self@, key.model(), i as int);
                }
                return Some(i);
            }
            i += 1;
        }
        proof {
            lemma_first_index_none(self@, key.model());
        }
        None
    }

    /// Whether an entry holds `key`.
    pub fn contains_key(&self, key: &K) -> (present: bool)
        ensures
            present == has_key(self@, key.model()),
    {
        self.find(key).is_some()
    }

    /// The value stored under `key`, if any.
    pub fn get(&self, key: &K) -> (value: Option<&V>)
        ensures
            match value {
                Some(v) => value_of(self@, key.model()) == Some(*v),
                None => value_of(self@, key.model()) is None,
            },
    {
        match self.find(key) {
            Some(i) => Some(&self.entries[i].value),
            None => None,
        }
    }

    /// The value stored under `key`, for changing it in place.
    pub fn get_mut(&mut self, key: &K) -> (value: Option<&mut V>)
        ensures
            match value {
                Some(v) => first_index(old(self)@, key.model()) matches Some(i) && *v == old(self)@[i].1 && final(self)@ == old(self)@.update(i, (key.model(), *final(v))),
                None => first_index(old(self)@, key.model()) is None && final(self)@ == old(self)@,
            },
    {
        match self.find(key) {
            Some(i) => Some(&mut self.entries[i].value),
            None => None,
        }
    }

    /// Stores `value` under `key` and returns what the key held before.
    pub fn insert(&mut self, key: K, value: V) -> (previous: Option<V>)
        ensures
            previous == value_of(old(self)@, key.model()),
            final(self)@ == after_insert(old(self)@, key.model(), value),
            distinct_keys(old(self)@) ==> distinct_keys(final(self)@),
    {
        proof {
            if distinct_keys(self@) {
                lemma_insert_keeps_distinct(self@, key.model(), value);
            }
        }
        let ghost before = self@;
        match self.find(&key) {
            Some(i) => {
                let replaced = self.entries.remove(i);
                self.entries.insert(i, Entry { key, value });
                assert(self@ =~= before.update(i as int, (key.model(), value)));
                assert(replaced.value == before[i as int].1);
                Some(replaced.value)
            },
            None => {
                self.entries.push(Entry { key, value });
                assert(self@ =~= before.push((key.model(), value)));
                None
            },
        }
    }

    /// Takes out the entry with `key` and returns its value.
    pub fn remove(&mut self, key: &K) -> (removed: Option<V>)
        ensures
            removed == value_of(old(self)@, key.model()),
            final(self)@ == after_remove(old(self)@, key.model()),
            distinct_keys(old(self)@) ==> distinct_keys(final(self)@) && !has_key(
                final(self)@,
                key.model(),
            ),
    {
        proof {
            if distinct_keys(self@) {
                lemma_remove_keeps_distinct(self@, key.model());
            }
        }
        let ghost before = self@;
        match self.find(key) {
            Some(i) => {
                let taken = self.entries.remove(i);
                assert(self@ =~= before.remove(i as int));
                assert(taken.value == before[i as int].1);
                Some(taken.value)
            },
            None => None,
        }
    }

    /// Takes out every entry and returns the values in their order.
    pub fn drain(&mut self) -> (values: Vec<V>)
        ensures
            final(self)@ == Seq::<(K::Model, V)>::empty(),
            values@.len() == old(self)@.len(),
            forall|i: int| 0 <= i < values@.len() ==> values@[i] == (#[trigger] old(self)@[i]).1,
    {
        let ghost before = self@;
        let mut values: Vec<V> = Vec::new();
        while self.entries.len() > 0
            invariant
                values@.len() + self@.len() == before.len(),
                forall|i: int| 0 <= i < values@.len() ==> values@[i] == (#[trigger] before[i]).1,
                forall|i: int|
                    0 <= i < self@.len() ==> (#[trigger] self@[i]) == before[values@.len() + i],
            decreases self.entries.len(),
        {
            let ghost rest = self@;
            let taken = self.entries.remove(0);
            assert(self@ =~= rest.remove(0));
            assert(taken.value == rest[0].1);
            values.push(taken.value);
        }
        assert(self@ =~= Seq::<(K::Model, V)>::empty());
        values
    }
}

} // verus!
