//! A small key-value table with a `Map` view.
//!
//! The protocol keeps every record in a table of this kind: commitments by
//! employee, nullifiers by value, view keys by identifier, balances by holder.
//! Entries live in two parallel vectors; no key occurs twice.  A table can be
//! duplicated, so that a run of changes is tried on the copy and taken over
//! only when all of it went well.

use vstd::prelude::*;

verus! {

/// Keys of a [`Table`]: plain values that can be compared in executable code.
pub trait TableKey: Copy {
    /// Whether the two keys are the same value.
    fn same(&self, other: &Self) -> (eq: bool)
        ensures
            eq == (*self == *other),
    ;
}

impl TableKey for u64 {
    fn same(&self, other: &Self) -> (eq: bool) {
        *self == *other
    }
}

impl TableKey for [u8; 32] {
    fn same(&self, other: &Self) -> (eq: bool) {
        let mut i: usize = 0;
        while i < 32
            invariant
                i <= 32,
                forall|j: int| 0 <= j < i ==> self@[j] == other@[j],
            decreases 32 - i,
        {
            if self[i] != other[i] {
                return false;
            }
            i = i + 1;
        }
        proof {
            assert(self@ =~= other@);
            vstd::array::axiom_array_ext_equal(*self, *other);
        }
        true
    }
}

/// The position of `key` among `keys`, meaningful when it occurs there.
pub open spec fn slot_of<K>(keys: Seq<K>, key: K) -> int {
    choose|i: int| 0 <= i < keys.len() && keys[i] == key
}

/// No key stands at two positions.
pub open spec fn distinct<K>(keys: Seq<K>) -> bool {
    forall|i: int, j: int| 0 <= i < keys.len() && 0 <= j < keys.len() && keys[i] == keys[j] ==> i == j
}

/// A new vector with the items of `items`, in the same order.
pub fn copy_items<T: Copy>(items: &Vec<T>) -> (copy: Vec<T>)
    ensures
        copy@ == items@,
{
    let mut copy: Vec<T> = Vec::new();
    let mut i: usize = 0;
    while i < items.len()
        invariant
            i <= items@.len(),
            copy@ == items@.take(i as int),
        decreases items@.len() - i,
    {
        copy.push(items[i]);
        assert(copy@ =~= items@.take(i + 1));
        i = i + 1;
    }
    assert(copy@ =~= items@);
    copy
}

/// A finite map from `K` to `V`.
pub struct Table<K, V> {
    keys: Vec<K>,
    vals: Vec<V>,
}

impl<K: TableKey, V: Copy> Table<K, V> {
    /// The representation invariant: one value per key, each key once.
    pub closed spec fn wf(&self) -> bool {
        &&& self.keys@.len() == self.vals@.len()
        &&& distinct(self.keys@)
    }

    /// The map this table stands for.
    pub closed spec fn view(&self) -> Map<K, V> {
        Map::new(
            |k: K| self.keys@.contains(k),
            |k: K| self.vals@[slot_of(self.keys@, k)],
        )
    }

    proof fn lemma_slot(&self, i: int)
        requires
            self.wf(),
            0 <= i < self.keys@.len(),
        ensures
            slot_of(self.keys@, self.keys@[i]) == i,
            self@.contains_key(self.keys@[i]),
            self@[self.keys@[i]] == self.vals@[i],
    {
        let k = self.keys@[i];
        assert(self.keys@.contains(k));
        let j = slot_of(self.keys@, k);
        assert(0 <= j < self.keys@.len() && self.keys@[j] == k);
    }

    proof fn lemma_finite(&self)
        requires
            self.wf(),
        ensures
            self@.dom().finite(),
            self@.dom().len() == self.keys@.len(),
    {
        let keys = self.keys@;
        assert(self@.dom() =~= keys.to_set());
        keys.unique_seq_to_set();
    }

    /// An empty table.
    pub fn new() -> (t: Self)
        ensures
            t.wf(),
            t@ == Map::<K, V>::empty(),
    {
        let t = Table { keys: Vec::new(), vals: Vec::new() };
        assert(t@ =~= Map::<K, V>::empty());
        t
    }

    /// A second table with the same contents.  What is done to the one
    /// leaves the other as it is.
    pub fn duplicate(&self) -> (copy: Self)
        requires
            self.wf(),
        ensures
            copy.wf(),
            copy@ == self@,
    {
        Table { keys: copy_items(&self.keys), vals: copy_items(&self.vals) }
    }

    /// How many keys the table holds.
    pub fn len(&self) -> (n: usize)
        requires
            self.wf(),
        ensures
            n == self@.dom().len(),
    {
        proof {
            self.lemma_finite();
        }
        self.keys.len()
    }

    fn find(&self, key: &K) -> (at: Option<usize>)
        requires
            self.wf(),
        ensures
            match at {
                Some(i) => i < self.keys@.len() && self.keys@[i as int] == *key,
                None => !self.keys@.contains(*key),
            },
    {
        let mut i: usize = 0;
        while i < self.keys.len()
            invariant
                i <= self.keys@.len(),
                forall|j: int| 0 <= j < i ==> self.keys@[j] != *key,
            decreases self.keys@.len() - i,
        {
            if self.keys[i].same(key) {
                return Some(i);
            }
            i = i + 1;
        }
        None
    }

    /// Whether `key` has a value.
    pub fn contains(&self, key: &K) -> (found: bool)
        requires
            self.wf(),
        ensures
            found == self@.contains_key(*key),
    {
        self.find(key).is_some()
    }

    /// The value stored under `key`, if any.
    pub fn get(&self, key: &K) -> (value: Option<V>)
        requires
            self.wf(),
        ensures
            value == (if self@.contains_key(*key) {
                Some(self@[*key])
            } else {
                None
            }),
    {
        match self.find(key) {
            Some(i) => {
                proof {
                    self.lemma_slot(i as int);
                }
                Some(self.vals[i])
            },
            None => None,
        }
    }

    /// Stores `value` under `key`, replacing what was there.
    pub fn insert(&mut self, key: K, value: V)
        requires
            old(self).wf(),
        ensures
            final(self).wf(),
            final(self)@ == old(self)@.insert(key, value),
    {
        match self.find(&key) {
            Some(i) => {
                let ghost before = *self;
                self.vals.set(i, value);
                proof {
                    assert forall|k: K| self@.contains_key(k) implies #[trigger] self@[k]
                        == before@.insert(key, value)[k] by {
                        let j = slot_of(self.keys@, k);
                        assert(0 <= j < self.keys@.len() && self.keys@[j] == k);
                    }
                    assert(self@ =~= before@.insert(key, value));
                }
            },
            None => {
                let ghost before = *self;
                self.keys.push(key);
                self.vals.push(value);
                proof {
                    assert(self.keys@[before.keys@.len() as int] == key);
                    let target = before@.insert(key, value);
                    assert forall|k: K| #[trigger] target.contains_key(k) implies self@.contains_key(
                        k,
                    ) && self@[k] == target[k] by {
                        if k == key {
                            assert(self.keys@[before.keys@.len() as int] == k);
                        } else {
                            let j0 = slot_of(before.keys@, k);
                            assert(0 <= j0 < before.keys@.len() && before.keys@[j0] == k);
                            assert(self.keys@[j0] == k);
                        }
                        let j = slot_of(self.keys@, k);
                        assert(0 <= j < self.keys@.len() && self.keys@[j] == k);
                    }
                    assert forall|k: K| #[trigger] self@.contains_key(k) implies target.contains_key(
                        k,
                    ) by {
                        let j = slot_of(self.keys@, k);
                        assert(0 <= j < self.keys@.len() && self.keys@[j] == k);
                        if j < before.keys@.len() {
                            assert(before.keys@[j] == k);
                        }
                    }
                    assert(self@.dom() =~= target.dom());
                    assert(self@ =~= before@.insert(key, value));
                }
            },
        }
    }

    /// Deletes `key` and its value; says whether there was one.
    pub fn remove(&mut self, key: &K) -> (removed: bool)
        requires
            old(self).wf(),
        ensures
            final(self).wf(),
            removed == old(self)@.contains_key(*key),
            final(self)@ == old(self)@.remove(*key),
    {
        match self.find(key) {
            Some(i) => {
                let ghost before = *self;
                self.keys.remove(i);
                self.vals.remove(i);
                proof {
                    let n = before.keys@.len() as int;
                    assert forall|a: int, b: int|
                        0 <= a < self.keys@.len() && 0 <= b < self.keys@.len() && self.keys@[a]
                            == self.keys@[b] implies a == b by {
                        let a0 = if a < i { a } else { a + 1 };
                        let b0 = if b < i { b } else { b + 1 };
                        assert(before.keys@[a0] == before.keys@[b0]);
                    }
                    let target = before@.remove(*key);
                    assert forall|k: K| #[trigger] target.contains_key(k) implies self@.contains_key(
                        k,
                    ) && self@[k] == target[k] by {
                        let j0 = slot_of(before.keys@, k);
                        assert(0 <= j0 < n && before.keys@[j0] == k);
                        assert(j0 != i);
                        let j1 = if j0 < i { j0 } else { j0 - 1 };
                        assert(self.keys@[j1] == k);
                        let j = slot_of(self.keys@, k);
                        assert(0 <= j < self.keys@.len() && self.keys@[j] == k);
                        assert(j == j1);
                    }
                    assert forall|k: K| #[trigger] self@.contains_key(k) implies target.contains_key(
                        k,
                    ) by {
                        let j = slot_of(self.keys@, k);
                        assert(0 <= j < self.keys@.len() && self.keys@[j] == k);
                        let j0 = if j < i { j } else { j + 1 };
                        assert(before.keys@[j0] == k);
                        assert(j0 != i);
                    }
                    assert(self@.dom() =~= target.dom());
                    assert(self@ =~= before@.remove(*key));
                }
                true
            },
            None => {
                assert(self@ =~= self@.remove(*key));
                false
            },
        }
    }
}

} // verus!
