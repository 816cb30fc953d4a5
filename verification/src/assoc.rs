//! A map held as a list of entries with distinct keys, for keys that are
//! compared by their views.

use vstd::prelude::*;

verus! {

/// Keys whose equality is the equality of their views.
pub trait ViewEq: View + Sized {
    fn view_eq(&self, other: &Self) -> (r: bool)
        ensures
            r == (self@ == other@);
}

impl ViewEq for String {
    fn view_eq(&self, other: &Self) -> (r: bool) {
        crate::text::str_equal(self.as_str(), other.as_str())
    }
}

/// A finite map from `K` to `V`, looked up by the keys' views.
#[derive(Debug)]
pub struct AssocList<K, V> {
    entries: Vec<(K, V)>,
}

impl<K: ViewEq, V: View> AssocList<K, V> {
    /// The mapping from key views to value views.
    pub closed spec fn map(&self) -> Map<K::V, V::V> {
        Map::new(
            |k: K::V| exists|i: int| 0 <= i < self.entries@.len() && self.entries@[i].0@ == k,
            |k: K::V| self.entries@[choose|i: int| 0 <= i < self.entries@.len() && self.entries@[i].0@ == k].1@,
        )
    }

    /// No key occurs twice.
    pub closed spec fn well_formed(&self) -> bool {
        forall|i: int, j: int| 0 <= i < self.entries@.len() && 0 <= j < self.entries@.len() && i != j
            ==> self.entries@[i].0@ != self.entries@[j].0@
    }

    proof fn lemma_entry(&self, i: int)
        requires
            self.well_formed(),
            0 <= i < self.entries@.len(),
        ensures
            self.map().contains_key(self.entries@[i].0@),
            self.map()[self.entries@[i].0@] == self.entries@[i].1@,
    {
        let k = self.entries@[i].0@;
        let j = choose|j: int| 0 <= j < self.entries@.len() && self.entries@[j].0@ == k;
    }

    /// The empty map.
    pub fn new() -> (r: Self)
        ensures
            r.well_formed(),
            r.map() == Map::<K::V, V::V>::empty(),
    {
        let r = AssocList { entries: Vec::new() };
        assert(r.map() =~= Map::<K::V, V::V>::empty());
        r
    }

    fn find(&self, key: &K) -> (r: Option<usize>)
        requires
            self.well_formed(),
        ensures
            match r {
                Some(i) => i < self.entries@.len() && self.entries@[i as int].0@ == key@,
                None => !self.map().contains_key(key@),
            },
    {
        let mut i: usize = 0;
        while i < self.entries.len()
            invariant
                i <= self.entries@.len(),
                forall|j: int| 0 <= j < i ==> self.entries@[j].0@ != key@,
            decreases self.entries@.len() - i,
        {
            if self.entries[i].0.view_eq(key) {
                return Some(i);
            }
            i = i + 1;
        }
        None
    }

    /// The value of `key`, if it has one.
    pub fn get(&self, key: &K) -> (r: Option<&V>)
        requires
            self.well_formed(),
        ensures
            match r {
                Some(v) => self.map().contains_key(key@) && self.map()[key@] == v@,
                None => !self.map().contains_key(key@),
            },
    {
        match self.find(key) {
            Some(i) => {
                proof {
                    self.lemma_entry(i as int);
                }
                Some(&self.entries[i].1)
            },
            None => None,
        }
    }

    /// Removes the entry of `key`, returning its value.
    pub fn remove(&mut self, key: &K) -> (r: Option<V>)
        requires
            old(self).well_formed(),
        ensures
            final(self).well_formed(),
            final(self).map() == old(self).map().remove(key@),
            match r {
                Some(v) => old(self).map().contains_key(key@) && old(self).map()[key@] == v@,
                None => !old(self).map().contains_key(key@),
            },
    {
        let ghost before = self.map();
        match self.find(key) {
            None => {
                assert(self.map() =~= before.remove(key@));
                None
            },
            Some(i) => {
                proof {
                    self.lemma_entry(i as int);
                }
                let ghost old_entries = self.entries@;
                let (_k, v) = self.entries.remove(i);
                proof {
                    let entries = self.entries@;
                    assert forall|a: int, b: int| 0 <= a < entries.len() && 0 <= b < entries.len() && a != b
                        implies entries[a].0@ != entries[b].0@ by {
                        let oa = if a < i { a } else { a + 1 };
                        let ob = if b < i { b } else { b + 1 };
                        assert(entries[a] == old_entries[oa]);
                        assert(entries[b] == old_entries[ob]);
                    }
                    assert forall|k: K::V| #[trigger] self.map().contains_key(k) <==> before.remove(key@).contains_key(k) by {
                        if self.map().contains_key(k) {
                            let j = choose|j: int| 0 <= j < entries.len() && entries[j].0@ == k;
                            let oj = if j < i { j } else { j + 1 };
                            assert(entries[j] == old_entries[oj]);
                            assert(oj != i);
                        }
                        if before.contains_key(k) && k != key@ {
                            let j = choose|j: int| 0 <= j < old_entries.len() && old_entries[j].0@ == k;
                            let nj = if j < i { j } else { j - 1 };
                            assert(j != i);
                            assert(entries[nj] == old_entries[j]);
                        }
                    }
                    assert forall|k: K::V| self.map().contains_key(k) implies
                        #[trigger] self.map()[k] == before.remove(key@)[k] by {
                        let j = choose|j: int| 0 <= j < entries.len() && entries[j].0@ == k;
                        self.lemma_entry(j);
                        let oj = if j < i { j } else { j + 1 };
                        assert(entries[j] == old_entries[oj]);
                        let jj = choose|jj: int| 0 <= jj < old_entries.len() && old_entries[jj].0@ == k;
                        if jj != oj {
                            assert(old_entries[jj].0@ == old_entries[oj].0@);
                        }
                    }
                    assert(self.map() =~= before.remove(key@));
                }
                Some(v)
            },
        }
    }

    /// Sets the value of `key`, returning the value it replaced.
    pub fn insert(&mut self, key: K, value: V) -> (r: Option<V>)
        requires
            old(self).well_formed(),
        ensures
            final(self).well_formed(),
            final(self).map() == old(self).map().insert(key@, value@),
            match r {
                Some(v) => old(self).map().contains_key(key@) && old(self).map()[key@] == v@,
                None => !old(self).map().contains_key(key@),
            },
    {
        let ghost kv = key@;
        let ghost vv = value@;
        let ghost before = self.map();
        let previous = self.remove(&key);
        let ghost removed = self.map();
        let ghost old_entries = self.entries@;
        self.entries.push((key, value));
        proof {
            let entries = self.entries@;
            let n = old_entries.len() as int;
            assert(!removed.contains_key(kv));
            assert forall|a: int, b: int| 0 <= a < entries.len() && 0 <= b < entries.len() && a != b
                implies entries[a].0@ != entries[b].0@ by {
                if a == n {
                    assert(entries[b] == old_entries[b]);
                } else if b == n {
                    assert(entries[a] == old_entries[a]);
                } else {
                    assert(entries[a] == old_entries[a]);
                    assert(entries[b] == old_entries[b]);
                }
            }
            assert forall|k: K::V| #[trigger] self.map().contains_key(k) <==> removed.insert(kv, vv).contains_key(k) by {
                if self.map().contains_key(k) {
                    let j = choose|j: int| 0 <= j < entries.len() && entries[j].0@ == k;
                    if j != n { assert(old_entries[j].0@ == k); }
                }
                if removed.contains_key(k) {
                    let j = choose|j: int| 0 <= j < old_entries.len() && old_entries[j].0@ == k;
                    assert(entries[j].0@ == k);
                }
                if k == kv {
                    assert(entries[n].0@ == k);
                }
            }
            assert forall|k: K::V| self.map().contains_key(k) implies
                #[trigger] self.map()[k] == removed.insert(kv, vv)[k] by {
                let j = choose|j: int| 0 <= j < entries.len() && entries[j].0@ == k;
                self.lemma_entry(j);
                if j != n {
                    let jj = choose|jj: int| 0 <= jj < old_entries.len() && old_entries[jj].0@ == k;
                    if jj != j {
                        assert(old_entries[jj].0@ == old_entries[j].0@);
                    }
                }
            }
            assert(self.map() =~= removed.insert(kv, vv));
            assert(removed.insert(kv, vv) =~= before.insert(kv, vv));
        }
        previous
    }
}

} // verus!
