//! A keyed table: a vector of entries with unique keys, viewed as a map.

use vstd::prelude::*;

verus! {

/// A key that can be compared at run time exactly as its view is compared.
pub trait TableKey: View + Sized {
    fn same_key(&self, other: &Self) -> (r: bool)
        ensures
            r == (self@ == other@),
    ;
}

impl TableKey for String {
    fn same_key(&self, other: &Self) -> (r: bool) {
        *self == *other
    }
}

/// Entries in insertion order, at most one per key.
pub struct Table<K: TableKey, V> {
    entries: Vec<(K, V)>,
    model: Ghost<Map<<K as View>::V, V>>,
}

impl<K: TableKey, V> View for Table<K, V> {
    type V = Map<<K as View>::V, V>;

    closed spec fn view(&self) -> Map<<K as View>::V, V> {
        self.model@
    }
}

impl<K: TableKey, V> Table<K, V> {
    /// The entries and the map agree, and no key occurs twice.
    pub closed spec fn wf(&self) -> bool {
        &&& forall|i: int|
            0 <= i < self.entries@.len() ==> #[trigger] self.model@.contains_key(
                self.entries@[i].0@,
            ) && self.model@[self.entries@[i].0@] == self.entries@[i].1
        &&& forall|k: <K as View>::V|
            #[trigger] self.model@.contains_key(k) ==> exists|i: int|
                0 <= i < self.entries@.len() && #[trigger] self.entries@[i].0@ == k
        &&& forall|i: int, j: int|
            0 <= i < self.entries@.len() && 0 <= j < self.entries@.len() && i != j
                ==> #[trigger] self.entries@[i].0@ != #[trigger] self.entries@[j].0@
    }

    pub fn new() -> (t: Self)
        ensures
            t.wf(),
            t@ == Map::<<K as View>::V, V>::empty(),
    {
        Table { entries: Vec::new(), model: Ghost(Map::empty()) }
    }

    /// The entries, in insertion order: exactly the pairs of the map.
    pub fn entries(&self) -> (r: &Vec<(K, V)>)
        requires
            self.wf(),
        ensures
            forall|i: int|
                0 <= i < r@.len() ==> #[trigger] self@.contains_key(r@[i].0@) && self@[r@[i].0@]
                    == r@[i].1,
            forall|k: <K as View>::V| #[trigger]
                self@.contains_key(k) ==> exists|i: int| 0 <= i < r@.len() && #[trigger] r@[i].0@ == k,
    {
        assert forall|i: int| 0 <= i < self.entries@.len() implies #[trigger] self@.contains_key(
            self.entries@[i].0@,
        ) && self@[self.entries@[i].0@] == self.entries@[i].1 by {
            assert(self.model@.contains_key(self.entries@[i].0@));
        }
        &self.entries
    }

    /// Position of the entry with key `k`, if any.
    fn find(&self, k: &K) -> (r: Option<usize>)
        requires
            self.wf(),
        ensures
            match r {
                Some(i) => i < self.entries@.len() && self.entries@[i as int].0@ == k@,
                None => !self@.contains_key(k@),
            },
    {
        let mut i: usize = 0;
        while i < self.entries.len()
            invariant
                self.wf(),
                i <= self.entries@.len(),
                forall|j: int| 0 <= j < i ==> #[trigger] self.entries@[j].0@ != k@,
            decreases self.entries@.len() - i,
        {
            if self.entries[i].0.same_key(k) {
                return Some(i);
            }
            i = i + 1;
        }
        None
    }

    pub fn contains_key(&self, k: &K) -> (r: bool)
        requires
            self.wf(),
        ensures
            r == self@.contains_key(k@),
    {
        self.find(k).is_some()
    }

    pub fn get(&self, k: &K) -> (r: Option<&V>)
        requires
            self.wf(),
        ensures
            match r {
                Some(v) => self@.contains_key(k@) && *v == self@[k@],
                None => !self@.contains_key(k@),
            },
    {
        match self.find(k) {
            Some(i) => {
                assert(self.model@.contains_key(self.entries@[i as int].0@));
                Some(&self.entries[i].1)
            },
            None => None,
        }
    }

    /// Sets the value under `k`, replacing any earlier one.
    pub fn insert(&mut self, k: K, v: V)
        requires
            old(self).wf(),
        ensures
            final(self).wf(),
            final(self)@ == old(self)@.insert(k@, v),
    {
        let ghost kv = k@;
        let ghost old_entries = self.entries@;
        let ghost new_model = self.model@.insert(kv, v);
        match self.find(&k) {
            Some(i) => {
                self.entries.set(i, (k, v));
                proof {
                    assert(self.entries@[i as int].0@ == kv);
                    assert forall|j: int|
                        0 <= j < self.entries@.len() && j != i implies self.entries@[j]
                        == old_entries[j] && old_entries[j].0@ != kv by {
                        assert(old_entries[j].0@ != old_entries[i as int].0@);
                    }
                }
            },
            None => {
                self.entries.push((k, v));
                proof {
                    let n = old_entries.len() as int;
                    assert(self.entries@[n].0@ == kv);
                    assert forall|j: int| 0 <= j < n implies self.entries@[j] == old_entries[j]
                        && old_entries[j].0@ != kv by {
                        assert(old(self).model@.contains_key(old_entries[j].0@));
                    }
                }
            },
        }
        self.model = Ghost(new_model);
        proof {
            assert forall|key: <K as View>::V| #[trigger]
                self.model@.contains_key(key) implies exists|j: int|
                0 <= j < self.entries@.len() && #[trigger] self.entries@[j].0@ == key by {
                if key == kv {
                    if self.entries@.len() == old_entries.len() {
                        let i = choose|i: int|
                            0 <= i < self.entries@.len() && self.entries@[i].0@ == kv;
                        assert(self.entries@[i].0@ == key);
                    } else {
                        assert(self.entries@[old_entries.len() as int].0@ == key);
                    }
                } else {
                    let j0 = choose|j: int|
                        0 <= j < old_entries.len() && #[trigger] old_entries[j].0@ == key;
                    assert(self.entries@[j0].0@ == key);
                }
            }
        }
    }

    /// Removes the entry under `k`; says whether there was one.
    pub fn remove(&mut self, k: &K) -> (r: bool)
        requires
            old(self).wf(),
        ensures
            final(self).wf(),
            final(self)@ == old(self)@.remove(k@),
            r == old(self)@.contains_key(k@),
    {
        match self.find(k) {
            Some(i) => {
                let ghost old_entries = self.entries@;
                self.entries.remove(i);
                self.model = Ghost(self.model@.remove(k@));
                proof {
                    old_entries.remove_ensures(i as int);
                    assert forall|j: int| 0 <= j < self.entries@.len() implies {
                        let o = if j < i { j } else { j + 1 };
                        #[trigger] self.entries@[j] == old_entries[o] && old_entries[o].0@ != k@
                            && old(self).model@.contains_key(old_entries[o].0@)
                    } by {
                        let o = if j < i { j } else { j + 1 };
                        assert(old_entries[o].0@ != old_entries[i as int].0@);
                    }
                    assert forall|a: int, b: int|
                        0 <= a < self.entries@.len() && 0 <= b < self.entries@.len() && a != b
                        implies #[trigger] self.entries@[a].0@ != #[trigger] self.entries@[b].0@ by {
                        let oa = if a < i { a } else { a + 1 };
                        let ob = if b < i { b } else { b + 1 };
                        assert(old_entries[oa].0@ != old_entries[ob].0@);
                    }
                    assert forall|key: <K as View>::V| #[trigger]
                        self.model@.contains_key(key) implies exists|j: int|
                        0 <= j < self.entries@.len() && #[trigger] self.entries@[j].0@ == key by {
                        let j0 = choose|j: int|
                            0 <= j < old_entries.len() && #[trigger] old_entries[j].0@ == key;
                        if j0 < i {
                            assert(self.entries@[j0].0@ == key);
                        } else {
                            assert(j0 != i);
                            assert(self.entries@[j0 - 1].0@ == key);
                        }
                    }
                }
                true
            },
            None => {
                assert(self.model@.remove(k@) =~= self.model@);
                false
            },
        }
    }
}

} // verus!
