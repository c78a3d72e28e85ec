//! A map from names to values that keeps its entries in the order in which
//! their names first came.
//!
//! No name occurs twice. A value stored under a name that is already there
//! takes the place of the earlier value and keeps that value's position.
//!
//! The map stands where a hash map keyed by strings would. Of such a hash map
//! nothing can be proved: what vstd says of `HashMap` holds only for keys
//! whose hashing it models, and strings are not among them. vstd's own
//! `StringHashMap` can be neither walked nor copied, which the tree needs.

use vstd::prelude::*;

verus! {

/// A finite map keyed by name.
///
/// Its view is the mathematical map from each name, as a sequence of
/// characters, to its value. [`NameMap::order`] lists the names as stored.
#[derive(Debug)]
pub struct NameMap<V> {
    entries: Vec<(String, V)>,
}

impl<V> View for NameMap<V> {
    type V = Map<Seq<char>, V>;

    closed spec fn view(&self) -> Map<Seq<char>, V> {
        Map::new(
            |k: Seq<char>| self.order().contains(k),
            |k: Seq<char>| self.entries@[self.order().index_of(k)].1,
        )
    }
}

impl<V> NameMap<V> {
    #[verifier::type_invariant]
    spec fn names_differ(self) -> bool {
        self.order().no_duplicates()
    }

    /// The names, in stored order.
    pub closed spec fn order(self) -> Seq<Seq<char>> {
        self.entries@.map_values(|e: (String, V)| e.0@)
    }

    /// What holds between the stored order and the view: the order lists each
    /// name of the map once.
    pub open spec fn listed(self) -> bool {
        &&& self.order().no_duplicates()
        &&& self@.dom().finite()
        &&& self@.dom() == self.order().to_set()
        &&& self@.len() == self.order().len()
    }

    proof fn lemma_listed(self)
        requires
            self.names_differ(),
        ensures
            self.listed(),
            forall|i: int|
                0 <= i < self.order().len() ==> self@.contains_key(#[trigger] self.order()[i])
                    && self@[self.order()[i]] == self.entries@[i].1,
    {
        let names = self.order();
        assert(self@.dom() =~= names.to_set());
        vstd::seq_lib::seq_to_set_is_finite(names);
        names.unique_seq_to_set();
        assert forall|i: int| 0 <= i < names.len() implies self@.contains_key(#[trigger] names[i])
            && self@[names[i]] == self.entries@[i].1 by {
            assert(names.contains(names[i]));
            let j = names.index_of(names[i]);
            assert(names[j] == names[i]);
        }
    }

    /// An empty map.
    pub fn new() -> (m: Self)
        ensures
            m@ == Map::<Seq<char>, V>::empty(),
            m.order() == Seq::<Seq<char>>::empty(),
    {
        let m = NameMap { entries: Vec::new() };
        assert(m.order() =~= Seq::<Seq<char>>::empty());
        assert(m@ =~= Map::<Seq<char>, V>::empty());
        m
    }

    /// The number of entries.
    pub fn len(&self) -> (n: usize)
        ensures
            n == self@.len(),
            n == self.order().len(),
            self.listed(),
    {
        proof {
            use_type_invariant(self);
            self.lemma_listed();
        }
        self.entries.len()
    }

    /// Whether the map holds nothing.
    pub fn is_empty(&self) -> (b: bool)
        ensures
            b == (self@.len() == 0),
            b == (self.order().len() == 0),
            self.listed(),
    {
        proof {
            use_type_invariant(self);
            self.lemma_listed();
        }
        self.entries.len() == 0
    }

    /// The position at which `name` is stored, if it is.
    fn position(&self, name: &str) -> (r: Option<usize>)
        ensures
            match r {
                Some(i) => i < self.order().len() && self.order()[i as int] == name@,
                None => !self.order().contains(name@),
            },
    {
        let mut i: usize = 0;
        while i < self.entries.len()
            invariant
                i <= self.entries.len(),
                forall|j: int| 0 <= j < i ==> self.order()[j] != name@,
            decreases self.entries.len() - i,
        {
            if crate::text::str_eq(self.entries[i].0.as_str(), name) {
                return Some(i);
            }
            i += 1;
        }
        None
    }

    /// Whether `name` has a value.
    pub fn contains_key(&self, name: &str) -> (b: bool)
        ensures
            b == self@.contains_key(name@),
    {
        self.position(name).is_some()
    }

    /// The value stored under `name`.
    pub fn get(&self, name: &str) -> (r: Option<&V>)
        ensures
            match r {
                Some(v) => self@.contains_key(name@) && *v == self@[name@],
                None => !self@.contains_key(name@),
            },
    {
        proof {
            use_type_invariant(self);
            self.lemma_listed();
        }
        match self.position(name) {
            Some(i) => Some(&self.entries[i].1),
            None => None,
        }
    }

    /// The name stored at position `i`.
    pub fn name_at(&self, i: usize) -> (r: &String)
        requires
            i < self.order().len(),
        ensures
            r@ == self.order()[i as int],
            self@.contains_key(r@),
    {
        proof {
            use_type_invariant(self);
            self.lemma_listed();
        }
        &self.entries[i].0
    }

    /// The value stored at position `i`.
    pub fn value_at(&self, i: usize) -> (r: &V)
        requires
            i < self.order().len(),
        ensures
            self@.contains_key(self.order()[i as int]),
            *r == self@[self.order()[i as int]],
    {
        proof {
            use_type_invariant(self);
            self.lemma_listed();
        }
        &self.entries[i].1
    }

    /// The names, in stored order.
    pub fn keys(&self) -> (names: Vec<String>)
        ensures
            crate::text::texts(names@) == self.order(),
            self.listed(),
    {
        proof {
            use_type_invariant(self);
            self.lemma_listed();
        }
        let mut names: Vec<String> = Vec::new();
        let mut i: usize = 0;
        while i < self.entries.len()
            invariant
                i <= self.entries.len(),
                names@.len() == i,
                forall|j: int| 0 <= j < i ==> (#[trigger] names@[j])@ == self.entries@[j].0@,
            decreases self.entries.len() - i,
        {
            names.push(self.entries[i].0.clone());
            i += 1;
        }
        assert(crate::text::texts(names@) =~= self.order());
        names
    }

    /// Stores `value` under `name` and hands back the value that was there.
    ///
    /// A new name goes to the end of the order; a name that is already there
    /// keeps its position.
    pub fn insert(&mut self, name: String, value: V) -> (previous: Option<V>)
        ensures
            final(self)@ == old(self)@.insert(name@, value),
            previous == if old(self)@.contains_key(name@) {
                Some(old(self)@[name@])
            } else {
                None::<V>
            },
            final(self).order() == if old(self)@.contains_key(name@) {
                old(self).order()
            } else {
                old(self).order().push(name@)
            },
    {
        proof {
            use_type_invariant(&*self);
            self.lemma_listed();
        }
        let ghost before = *self;
        let found = self.position(name.as_str());
        let mut entries = Vec::new();
        std::mem::swap(&mut entries, &mut self.entries);
        let ghost key = name@;
        let previous = match found {
            Some(i) => {
                entries.push((name, value));
                let old_entry = entries.swap_remove(i);
                Some(old_entry.1)
            },
            None => {
                entries.push((name, value));
                None
            },
        };
        proof {
            let names = before.order();
            let after = entries@.map_values(|e: (String, V)| e.0@);
            match found {
                Some(i) => {
                    assert(after =~= names);
                },
                None => {
                    assert(after =~= names.push(key));
                },
            }
        }
        self.entries = entries;
        proof {
            let names = before.order();
            let after = self.order();
            match found {
                Some(i) => {
                    assert(after =~= names);
                    assert(self@ =~= before@.insert(key, value)) by {
                        assert forall|k: Seq<char>| self@.contains_key(k) implies #[trigger] self@[k]
                            == before@.insert(key, value)[k] by {
                            let j = names.index_of(k);
                            assert(names[j] == k);
                            if k == key {
                                assert(j == i);
                            } else {
                                assert(j != i);
                            }
                        }
                    }
                },
                None => {
                    assert(after =~= names.push(key));
                    assert(self@ =~= before@.insert(key, value)) by {
                        assert forall|k: Seq<char>| self@.contains_key(k) implies k == key
                            || before@.contains_key(k) by {
                            let j = after.index_of(k);
                            assert(after[j] == k);
                            if j < names.len() {
                                assert(names[j] == k);
                            }
                        }
                        assert forall|k: Seq<char>| before@.contains_key(k) implies self@.contains_key(
                            k,
                        ) by {
                            let j = names.index_of(k);
                            assert(after[j] == k);
                        }
                        assert(after[names.len() as int] == key);
                        assert forall|k: Seq<char>| self@.contains_key(k) implies #[trigger] self@[k]
                            == before@.insert(key, value)[k] by {
                            let j = after.index_of(k);
                            assert(after[j] == k);
                            if k == key {
                                assert(j == names.len());
                            } else {
                                assert(j < names.len());
                                assert(names[j] == k);
                                let j0 = names.index_of(k);
                                assert(names[j0] == k);
                                assert(j0 == j);
                            }
                        }
                    }
                },
            }
        }
        previous
    }
}

impl<V> Default for NameMap<V> {
    fn default() -> (m: Self)
        ensures
            m@ == Map::<Seq<char>, V>::empty(),
    {
        NameMap::new()
    }
}

impl<V: Clone> Clone for NameMap<V> {
    /// Copies the map entry by entry: the names and their order are kept, and
    /// each value is what its own `clone` gives.
    fn clone(&self) -> (r: Self)
        ensures
            r.order() == self.order(),
            r@.dom() == self@.dom(),
            forall|k: Seq<char>| #[trigger] self@.contains_key(k) ==> cloned::<V>(self@[k], r@[k]),
    {
        proof {
            use_type_invariant(self);
            self.lemma_listed();
        }
        let mut entries: Vec<(String, V)> = Vec::new();
        let mut i: usize = 0;
        while i < self.entries.len()
            invariant
                i <= self.entries.len(),
                entries@.len() == i,
                forall|j: int|
                    0 <= j < i ==> (#[trigger] entries@[j]).0@ == self.entries@[j].0@ && cloned::<V>(
                        self.entries@[j].1,
                        entries@[j].1,
                    ),
            decreases self.entries.len() - i,
        {
            let name = self.entries[i].0.clone();
            let value = self.entries[i].1.clone();
            entries.push((name, value));
            i += 1;
        }
        assert(entries@.map_values(|e: (String, V)| e.0@) =~= self.order());
        let r = NameMap { entries };
        proof {
            r.lemma_listed();
            assert(r@.dom() =~= self@.dom());
            assert forall|k: Seq<char>| #[trigger] self@.contains_key(k) implies cloned::<V>(
                self@[k],
                r@[k],
            ) by {
                let j = self.order().index_of(k);
                assert(self.order()[j] == k);
                assert(r.order()[j] == k);
            }
        }
        r
    }
}

} // verus!
