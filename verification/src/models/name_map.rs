//! A map keyed by name, kept as a list of entries in insertion order.

use vstd::prelude::*;
use crate::text::same_text;

verus! {

/// A finite map from names to values. No name occurs twice; entries keep the order in
/// which their names were first inserted.
#[derive(Debug)]
pub struct NameMap<V> {
    entries: Vec<(String, V)>,
}

/// The names of a list of entries.
pub open spec fn entry_names<V>(entries: Seq<(String, V)>) -> Seq<Seq<char>> {
    entries.map_values(|e: (String, V)| e.0@)
}

impl<V> NameMap<V> {
    /// The names of the entries, in storage order.
    pub closed spec fn names(&self) -> Seq<Seq<char>> {
        entry_names(self.entries@)
    }

    /// The values of the entries, in storage order.
    pub closed spec fn values(&self) -> Seq<V> {
        self.entries@.map_values(|e: (String, V)| e.1)
    }

    #[verifier::type_invariant]
    closed spec fn distinct(&self) -> bool {
        self.names().no_duplicates()
    }

    /// Whether no name occurs twice. Every value built by this module's functions is
    /// well formed.
    pub closed spec fn wf(&self) -> bool {
        self.names().no_duplicates()
    }

    /// The map from each name to its value.
    pub closed spec fn view(&self) -> Map<Seq<char>, V> {
        Map::new(
            |k: Seq<char>| self.names().contains(k),
            |k: Seq<char>| self.values()[self.names().index_of(k)],
        )
    }

    /// How the entry list and the map relate.
    pub proof fn lemma_entries(&self)
        requires
            self.wf(),
        ensures
            self.names().len() == self.values().len(),
            self.names().no_duplicates(),
            forall|k: Seq<char>| self@.dom().contains(k) <==> self.names().contains(k),
            forall|i: int|
                0 <= i < self.names().len() ==> self@.dom().contains(#[trigger] self.names()[i])
                    && self@[self.names()[i]] == self.values()[i],
    {
        assert forall|i: int| 0 <= i < self.names().len() implies self@.dom().contains(
            #[trigger] self.names()[i],
        ) && self@[self.names()[i]] == self.values()[i] by {
            let k = self.names()[i];
            assert(self.names().contains(k));
            let j = self.names().index_of(k);
            assert(self.names()[j] == k);
        }
    }

    /// How the names and the map relate, for every map of this type.
    pub proof fn lemma_names(&self)
        ensures
            self.names().len() == self.values().len(),
            forall|k: Seq<char>| self@.dom().contains(k) <==> self.names().contains(k),
    {
        assert(self.names().len() == self.values().len());
    }

    /// An empty map.
    pub fn new() -> (r: Self)
        ensures
            r@ == Map::<Seq<char>, V>::empty(),
            r.names() == Seq::<Seq<char>>::empty(),
            r.wf(),
    {
        let r = NameMap { entries: Vec::new() };
        assert(r.names() =~= Seq::<Seq<char>>::empty());
        assert(r@ =~= Map::<Seq<char>, V>::empty());
        r
    }

    /// The number of entries.
    pub fn len(&self) -> (r: usize)
        ensures
            r == self.names().len(),
            r == self.values().len(),
            self.wf(),
    {
        proof {
            use_type_invariant(self);
        }
        self.entries.len()
    }

    /// Whether the map has no entry.
    pub fn is_empty(&self) -> (r: bool)
        ensures
            r == (self.names().len() == 0),
            r == (self@ == Map::<Seq<char>, V>::empty()),
    {
        proof {
            use_type_invariant(self);
            self.lemma_entries();
            if self.names().len() == 0 {
                assert(self@ =~= Map::<Seq<char>, V>::empty());
            } else {
                assert(self@.dom().contains(self.names()[0]));
            }
        }
        self.entries.len() == 0
    }

    fn position(&self, key: &str) -> (r: Option<usize>)
        ensures
            match r {
                Some(i) => i < self.names().len() && self.names()[i as int] == key@,
                None => !self.names().contains(key@),
            },
    {
        let mut i: usize = 0;
        while i < self.entries.len()
            invariant
                i <= self.entries.len(),
                forall|j: int| 0 <= j < i ==> self.names()[j] != key@,
            decreases self.entries.len() - i,
        {
            if same_text(self.entries[i].0.as_str(), key) {
                return Some(i);
            }
            i += 1;
        }
        None
    }

    /// The place of `key` in the entry list, if it has an entry.
    pub fn index_of(&self, key: &str) -> (r: Option<usize>)
        ensures
            match r {
                Some(i) => i < self.names().len() && self.names()[i as int] == key@,
                None => !self.names().contains(key@) && !self@.dom().contains(key@),
            },
    {
        self.position(key)
    }

    /// Whether `key` has an entry.
    pub fn contains_key(&self, key: &str) -> (r: bool)
        ensures
            r == self@.dom().contains(key@),
    {
        self.position(key).is_some()
    }

    /// The value stored under `key`, if any.
    pub fn get(&self, key: &str) -> (r: Option<&V>)
        ensures
            match r {
                Some(v) => self@.dom().contains(key@) && *v == self@[key@],
                None => !self@.dom().contains(key@),
            },
    {
        proof {
            use_type_invariant(self);
            self.lemma_entries();
        }
        match self.position(key) {
            Some(i) => Some(&self.entries[i].1),
            None => None,
        }
    }

    /// The name of the `i`-th entry.
    pub fn key_at(&self, i: usize) -> (r: &String)
        requires
            i < self.names().len(),
        ensures
            r@ == self.names()[i as int],
    {
        &self.entries[i].0
    }

    /// The value of the `i`-th entry.
    pub fn value_at(&self, i: usize) -> (r: &V)
        requires
            i < self.names().len(),
        ensures
            *r == self.values()[i as int],
            self@.dom().contains(self.names()[i as int]),
            *r == self@[self.names()[i as int]],
    {
        proof {
            use_type_invariant(self);
            self.lemma_entries();
        }
        &self.entries[i].1
    }

    /// Stores `value` under `key`, replacing what was stored there. A new name goes to the
    /// end of the entry list; a known name keeps its place.
    pub fn insert(&mut self, key: String, value: V)
        ensures
            final(self)@ == old(self)@.insert(key@, value),
            final(self).wf(),
            old(self).names().contains(key@) ==> final(self).names() == old(self).names(),
            !old(self).names().contains(key@) ==> final(self).names() == old(self).names().push(
                key@,
            ),
    {
        proof {
            use_type_invariant(&*self);
            self.lemma_entries();
        }
        let ghost before = *self;
        let found = self.position(key.as_str());
        let mut taken = NameMap { entries: Vec::new() };
        proof {
            assert(taken.names() =~= Seq::<Seq<char>>::empty());
        }
        std::mem::swap(self, &mut taken);
        let NameMap { entries } = taken;
        let mut entries = entries;
        match found {
            Some(i) => {
                entries.set(i, (key, value));
                proof {
                    assert(entry_names(entries@) =~= before.names());
                }
                let mut rebuilt = NameMap { entries };
                std::mem::swap(self, &mut rebuilt);
                proof {
                    assert(self.names() =~= before.names());
                    assert(self.values() =~= before.values().update(i as int, value));
                    self.lemma_entries();
                    assert forall|k: Seq<char>| self@.dom().contains(k) implies #[trigger] self@[k]
                        == before@.insert(key@, value)[k] by {
                        let j = self.names().index_of(k);
                        assert(self.names().contains(k));
                        assert(self.names()[j] == k);
                    }
                    assert(self@ =~= before@.insert(key@, value));
                }
            },
            None => {
                entries.push((key, value));
                proof {
                    let now = entry_names(entries@);
                    assert(now =~= before.names().push(key@));
                    assert forall|a: int, b: int|
                        0 <= a < now.len() && 0 <= b < now.len() && a != b implies now[a]
                        != now[b] by {
                        if a < before.names().len() {
                            assert(before.names().contains(now[a]));
                        }
                        if b < before.names().len() {
                            assert(before.names().contains(now[b]));
                        }
                    }
                }
                let mut rebuilt = NameMap { entries };
                std::mem::swap(self, &mut rebuilt);
                proof {
                    assert(self.names() =~= before.names().push(key@));
                    assert(self.values() =~= before.values().push(value));
                    self.lemma_entries();
                    assert forall|k: Seq<char>| self@.dom().contains(k) implies #[trigger] self@[k]
                        == before@.insert(key@, value)[k] by {
                        let j = self.names().index_of(k);
                        assert(self.names().contains(k));
                        assert(self.names()[j] == k);
                        if j < before.names().len() {
                            assert(before.names()[j] == k);
                        }
                    }
                    assert forall|k: Seq<char>|
                        before@.insert(key@, value).dom().contains(
                            k,
                        ) implies self@.dom().contains(k) by {
                        if k != key@ {
                            let j = before.names().index_of(k);
                            assert(before.names().contains(k));
                            assert(self.names()[j] == k);
                        } else {
                            assert(self.names()[before.names().len() as int] == k);
                        }
                    }
                    assert(self@ =~= before@.insert(key@, value));
                }
            },
        }
    }

    /// Removes the entry of `key` and hands back its value, if there was one. The other
    /// entries keep their order.
    pub fn remove(&mut self, key: &str) -> (r: Option<V>)
        ensures
            final(self)@ == old(self)@.remove(key@),
            final(self).wf(),
            match r {
                Some(v) => old(self)@.dom().contains(key@) && v == old(self)@[key@],
                None => !old(self)@.dom().contains(key@),
            },
            !old(self).names().contains(key@) ==> final(self).names() == old(self).names(),
            old(self).names().contains(key@) ==> final(self).names() == old(self).names().remove(
                old(self).names().index_of(key@),
            ),
    {
        proof {
            use_type_invariant(&*self);
            self.lemma_entries();
        }
        let ghost before = *self;
        match self.position(key) {
            Some(i) => {
                let mut taken = NameMap { entries: Vec::new() };
                proof {
                    assert(taken.names() =~= Seq::<Seq<char>>::empty());
                }
                std::mem::swap(self, &mut taken);
                let NameMap { entries } = taken;
                let mut entries = entries;
                let e = entries.remove(i);
                proof {
                    let now = entry_names(entries@);
                    assert(before.names()[i as int] == key@);
                    assert(before.names().index_of(key@) == i);
                    assert(now =~= before.names().remove(i as int));
                    assert forall|a: int, b: int|
                        0 <= a < now.len() && 0 <= b < now.len() && a != b implies now[a]
                        != now[b] by {
                        let a0 = if a < i { a } else { a + 1 };
                        let b0 = if b < i { b } else { b + 1 };
                        assert(now[a] == before.names()[a0]);
                        assert(now[b] == before.names()[b0]);
                    }
                }
                let mut rebuilt = NameMap { entries };
                std::mem::swap(self, &mut rebuilt);
                proof {
                    assert(self.names() =~= before.names().remove(i as int));
                    assert(self.values() =~= before.values().remove(i as int));
                    self.lemma_entries();
                    assert forall|k: Seq<char>| self@.dom().contains(k) implies before@.remove(
                        key@,
                    ).dom().contains(k) && #[trigger] self@[k] == before@.remove(key@)[k] by {
                        let j = self.names().index_of(k);
                        assert(self.names().contains(k));
                        assert(self.names()[j] == k);
                        let j0 = if j < i { j } else { j + 1 };
                        assert(before.names()[j0] == k);
                    }
                    assert forall|k: Seq<char>| before@.remove(key@).dom().contains(k) implies self@.dom().contains(k) by {
                        let j0 = before.names().index_of(k);
                        assert(before.names().contains(k));
                        assert(before.names()[j0] == k);
                        let j = if j0 < i { j0 } else { j0 - 1 };
                        assert(self.names()[j] == k);
                    }
                    assert(self@ =~= before@.remove(key@));
                }
                Some(e.1)
            },
            None => {
                proof {
                    assert(self@ =~= before@.remove(key@));
                }
                None
            },
        }
    }
}

impl<V> Default for NameMap<V> {
    fn default() -> (r: Self)
        ensures
            r@ == Map::<Seq<char>, V>::empty(),
            r.names() == Seq::<Seq<char>>::empty(),
    {
        NameMap::new()
    }
}

} // verus!
