//! A map keyed by textual identifiers, kept as an association list.
//!
//! Matrix identifiers are strings, and the verified standard hash map is of
//! little use with string keys, so rooms and members are kept in this small
//! map instead.  Its model is a mathematical `Map` from the characters of the
//! key to the model of the value; the order in which entries were inserted is
//! an implementation detail that no contract mentions.

use crate::snapshot::Snapshot;
use vstd::prelude::*;

verus! {

/// A map from identifiers to values.
#[derive(Clone, Debug)]
pub struct IdMap<V> {
    keys: Vec<String>,
    values: Vec<V>,
}

impl<V: Snapshot> IdMap<V> {
    spec fn has(&self, k: Seq<char>) -> bool {
        exists|i: int| 0 <= i < self.keys.len() && #[trigger] self.keys[i]@ == k
    }

    spec fn at(&self, k: Seq<char>) -> int {
        choose|i: int| 0 <= i < self.keys.len() && #[trigger] self.keys[i]@ == k
    }

    /// Every key occurs once, and every value is valid.
    pub closed spec fn well_formed(&self) -> bool {
        &&& self.keys.len() == self.values.len()
        &&& forall|i: int, j: int|
            0 <= i < j < self.keys.len() ==> self.keys[i]@ != self.keys[j]@
        &&& forall|i: int| 0 <= i < self.values.len() ==> (#[trigger] self.values[i]).wf()
    }

    /// The mapping that this value stands for.
    pub closed spec fn model(&self) -> Map<Seq<char>, V::V> {
        Map::new(|k: Seq<char>| self.has(k), |k: Seq<char>| self.values[self.at(k)].deep_view())
    }

    proof fn lemma_entry(&self, i: int)
        requires
            self.well_formed(),
            0 <= i < self.keys.len(),
        ensures
            self.has(self.keys[i]@),
            self.at(self.keys[i]@) == i,
            self.model().contains_key(self.keys[i]@),
            self.model()[self.keys[i]@] == self.values[i].deep_view(),
    {
        assert(self.has(self.keys[i]@));
    }

    /// An empty map.
    pub fn new() -> (m: Self)
        ensures
            m.well_formed(),
            m.model() == Map::<Seq<char>, V::V>::empty(),
    {
        let m = IdMap { keys: Vec::new(), values: Vec::new() };
        assert(m.model() =~= Map::<Seq<char>, V::V>::empty());
        m
    }

    fn position(&self, key: &String) -> (r: Option<usize>)
        requires
            self.well_formed(),
        ensures
            match r {
                Some(i) => i < self.keys.len() && self.keys[i as int]@ == key@ && self.has(key@)
                    && self.at(key@) == i,
                None => !self.has(key@),
            },
    {
        let mut i: usize = 0;
        while i < self.keys.len()
            invariant
                self.well_formed(),
                i <= self.keys.len(),
                forall|j: int| 0 <= j < i ==> self.keys[j]@ != key@,
            decreases self.keys.len() - i,
        {
            if self.keys[i] == *key {
                proof {
                    self.lemma_entry(i as int);
                }
                return Some(i);
            }
            i = i + 1;
        }
        None
    }

    /// Whether the map holds no entry.
    pub fn is_empty(&self) -> (b: bool)
        requires
            self.well_formed(),
        ensures
            b == (self.model() == Map::<Seq<char>, V::V>::empty()),
    {
        let b = self.keys.len() == 0;
        proof {
            if b {
                assert(self.model() =~= Map::<Seq<char>, V::V>::empty());
            } else {
                self.lemma_entry(0);
            }
        }
        b
    }

    /// Whether `key` has an entry.
    pub fn contains_key(&self, key: &String) -> (b: bool)
        requires
            self.well_formed(),
        ensures
            b == self.model().contains_key(key@),
    {
        self.position(key).is_some()
    }

    /// The value stored under `key`.
    pub fn get(&self, key: &String) -> (r: Option<&V>)
        requires
            self.well_formed(),
        ensures
            match r {
                Some(v) => self.model().contains_key(key@) && v.deep_view() == self.model()[key@]
                    && v.wf(),
                None => !self.model().contains_key(key@),
            },
    {
        match self.position(key) {
            Some(i) => Some(&self.values[i]),
            None => None,
        }
    }

    /// Stores `value` under `key`, replacing what was there.
    pub fn insert(&mut self, key: String, value: V)
        requires
            old(self).well_formed(),
            value.wf(),
        ensures
            final(self).well_formed(),
            final(self).model() == old(self).model().insert(key@, value.deep_view()),
    {
        let ghost before = *self;
        match self.position(&key) {
            Some(i) => {
                self.values[i] = value;
                proof {
                    assert forall|k: Seq<char>| #[trigger] self.has(k) <==> before.has(k) by {
                        if self.has(k) {
                            assert(before.keys[self.at(k)]@ == k);
                        }
                        if before.has(k) {
                            assert(self.keys[before.at(k)]@ == k);
                        }
                    }
                    assert(self.model() =~= before.model().insert(key@, value.deep_view()));
                }
            },
            None => {
                self.keys.push(key);
                self.values.push(value);
                proof {
                    let n = before.keys.len() as int;
                    assert(self.keys[n]@ == key@);
                    assert forall|k: Seq<char>| #[trigger]
                        self.has(k) <==> (before.has(k) || k == key@) by {
                        if self.has(k) {
                            let j = self.at(k);
                            if j < n {
                                assert(before.keys[j]@ == k);
                            }
                        }
                        if before.has(k) {
                            assert(self.keys[before.at(k)]@ == k);
                        }
                    }
                    assert forall|k: Seq<char>| before.has(k) implies self.values[self.at(k)]
                        == before.values[before.at(k)] by {
                        assert(self.keys[before.at(k)]@ == k);
                    }
                    assert(self.model() =~= before.model().insert(key@, value.deep_view()));
                }
            },
        }
    }

    /// Takes the entry of `key` out of the map.
    pub fn remove(&mut self, key: &String) -> (r: Option<V>)
        requires
            old(self).well_formed(),
        ensures
            final(self).well_formed(),
            final(self).model() == old(self).model().remove(key@),
            match r {
                Some(v) => old(self).model().contains_key(key@)
                    && v.deep_view() == old(self).model()[key@] && v.wf(),
                None => !old(self).model().contains_key(key@),
            },
    {
        let ghost before = *self;
        match self.position(key) {
            Some(i) => {
                self.keys.swap_remove(i);
                let v = self.values.swap_remove(i);
                proof {
                    let n = before.keys.len() as int;
                    assert forall|k: Seq<char>| #[trigger]
                        self.has(k) <==> (before.has(k) && k != key@) by {
                        if self.has(k) {
                            let j = self.at(k);
                            if j == i {
                                assert(before.keys[n - 1]@ == k);
                            } else {
                                assert(before.keys[j]@ == k);
                            }
                        }
                        if before.has(k) && k != key@ {
                            let j = before.at(k);
                            if j == n - 1 {
                                assert(self.keys[i as int]@ == k);
                            } else {
                                assert(self.keys[j]@ == k);
                            }
                        }
                    }
                    assert forall|k: Seq<char>| #[trigger] self.has(k) implies self.values[self.at(
                        k,
                    )] == before.values[before.at(k)] by {
                        let j = self.at(k);
                        if j == i {
                            assert(before.keys[n - 1]@ == k);
                        } else {
                            assert(before.keys[j]@ == k);
                        }
                    }
                    assert(self.model() =~= before.model().remove(key@));
                }
                Some(v)
            },
            None => {
                assert(self.model() =~= before.model().remove(key@));
                None
            },
        }
    }

    /// The keys of the map, each once, in no particular order.
    pub fn keys(&self) -> (r: Vec<String>)
        requires
            self.well_formed(),
        ensures
            r.deep_view().no_duplicates(),
            r.deep_view().to_set() == self.model().dom(),
    {
        let r = self.keys.clone();
        proof {
            let s = r.deep_view();
            assert(s.len() == self.keys.len());
            assert forall|i: int| 0 <= i < s.len() implies s[i] == self.keys[i]@ by {}
            assert forall|k: Seq<char>| s.to_set().contains(k) <==> self.model().dom().contains(
                k,
            ) by {
                if s.to_set().contains(k) {
                    let i = choose|i: int| 0 <= i < s.len() && s[i] == k;
                    assert(self.keys[i]@ == k);
                }
                if self.has(k) {
                    assert(s[self.at(k)] == k);
                }
            }
            assert(s.to_set() =~= self.model().dom());
        }
        r
    }
}

impl<V: Snapshot> View for IdMap<V> {
    type V = Map<Seq<char>, V::V>;

    open spec fn view(&self) -> Map<Seq<char>, V::V> {
        self.model()
    }
}

impl<V: Snapshot> DeepView for IdMap<V> {
    type V = Map<Seq<char>, V::V>;

    open spec fn deep_view(&self) -> Map<Seq<char>, V::V> {
        self.model()
    }
}

impl<V: Snapshot> Snapshot for IdMap<V> {
    open spec fn wf(&self) -> bool {
        self.well_formed()
    }

    fn snapshot(&self) -> (copy: Self) {
        let keys = self.keys.clone();
        let mut values: Vec<V> = Vec::new();
        let mut i: usize = 0;
        while i < self.values.len()
            invariant
                self.well_formed(),
                i <= self.values.len(),
                values.len() == i,
                forall|j: int| 0 <= j < i ==> (#[trigger] values[j]).wf(),
                forall|j: int|
                    0 <= j < i ==> (#[trigger] values[j]).deep_view()
                        == self.values[j].deep_view(),
            decreases self.values.len() - i,
        {
            values.push(self.values[i].snapshot());
            i = i + 1;
        }
        let copy = IdMap { keys, values };
        proof {
            assert(copy.keys.len() == self.keys.len());
            assert forall|j: int| 0 <= j < self.keys.len() implies copy.keys[j]@ == self.keys[j]@ by {
                assert(copy.keys.deep_view()[j] == self.keys.deep_view()[j]);
            }
            assert forall|k: Seq<char>| #[trigger] copy.has(k) <==> self.has(k) by {
                if copy.has(k) {
                    assert(self.keys[copy.at(k)]@ == k);
                }
                if self.has(k) {
                    assert(copy.keys[self.at(k)]@ == k);
                }
            }
            assert forall|k: Seq<char>| self.has(k) implies copy.at(k) == self.at(k) by {
                assert(copy.keys[self.at(k)]@ == k);
                assert(self.keys[copy.at(k)]@ == k);
            }
            assert(copy.model() =~= self.model());
        }
        copy
    }
}

} // verus!
