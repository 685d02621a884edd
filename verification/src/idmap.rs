//! Maps keyed by a 64-bit id, which hand their entries out in ascending
//! order of id.

use vstd::prelude::*;

verus! {

/// Whether each id of `ids` is smaller than all that follow it.
pub open spec fn is_ascending(ids: Seq<u64>) -> bool {
    forall|i: int, j: int| 0 <= i < j < ids.len() ==> ids[i] < ids[j]
}

/// Whether `ids` lists the keys of `map`, each once, in ascending order.
pub open spec fn lists_keys<T>(ids: Seq<u64>, map: Map<u64, T>) -> bool {
    is_ascending(ids) && ids.to_set() == map.dom()
}

/// The keys of `map` in ascending order. A map with finitely many keys has
/// exactly one such sequence (`lemma_ascending_unique`).
pub open spec fn ascending_ids<T>(map: Map<u64, T>) -> Seq<u64> {
    choose|ids: Seq<u64>| lists_keys(ids, map)
}

/// Two ascending sequences with the same elements are the same sequence.
pub proof fn lemma_ascending_unique(a: Seq<u64>, b: Seq<u64>)
    requires
        is_ascending(a),
        is_ascending(b),
        a.to_set() == b.to_set(),
    ensures
        a == b,
    decreases a.len(),
{
    if a.len() == 0 {
        if b.len() > 0 {
            assert(b.contains(b[0]));
            assert(b.to_set().contains(b[0]));
            assert(a.contains(b[0]));
        }
        assert(a =~= b);
    } else {
        let top = a.last();
        assert(a.contains(top));
        assert(a.to_set().contains(top));
        assert(b.contains(top));
        assert(b.len() > 0);
        let other = b.last();
        assert(b.contains(other));
        assert(b.to_set().contains(other));
        assert(a.contains(other));
        assert(top == other);
        let a0 = a.drop_last();
        let b0 = b.drop_last();
        assert(a0.to_set() =~= b0.to_set()) by {
            assert forall|x: u64| a0.to_set().contains(x) implies b0.to_set().contains(x) by {
                let i = choose|i: int| 0 <= i < a0.len() && a0[i] == x;
                assert(a[i] == x);
                assert(a.contains(x));
                assert(a.to_set().contains(x));
                assert(b.contains(x));
                let j = choose|j: int| 0 <= j < b.len() && b[j] == x;
                assert(j < b.len() - 1);
                assert(b0[j] == x);
            }
            assert forall|x: u64| b0.to_set().contains(x) implies a0.to_set().contains(x) by {
                let i = choose|i: int| 0 <= i < b0.len() && b0[i] == x;
                assert(b[i] == x);
                assert(b.contains(x));
                assert(b.to_set().contains(x));
                assert(a.contains(x));
                let j = choose|j: int| 0 <= j < a.len() && a[j] == x;
                assert(j < a.len() - 1);
                assert(a0[j] == x);
            }
        }
        lemma_ascending_unique(a0, b0);
        assert(a =~= a0.push(top));
        assert(b =~= b0.push(other));
    }
}

/// One entry of an `IdMap`.
pub struct Entry<V> {
    pub id: u64,
    pub value: V,
}

/// A finite map from ids to values.
pub struct IdMap<V: View> {
    entries: Vec<Entry<V>>,
}

impl<V: View> View for IdMap<V> {
    type V = Map<u64, V::V>;

    closed spec fn view(&self) -> Map<u64, V::V> {
        Map::new(
            |id: u64| exists|i: int| 0 <= i < self.entries.len() && self.entries[i].id == id,
            |id: u64| self.entries[self.place_of(id)].value@,
        )
    }
}

impl<V: View> IdMap<V> {
    #[verifier::type_invariant]
    spec fn sorted(self) -> bool {
        forall|i: int, j: int|
            0 <= i < j < self.entries.len() ==> self.entries[i].id < self.entries[j].id
    }

    spec fn place_of(self, id: u64) -> int {
        choose|i: int| 0 <= i < self.entries.len() && self.entries[i].id == id
    }

    spec fn ids(self) -> Seq<u64> {
        Seq::new(self.entries.len() as nat, |i: int| self.entries[i].id)
    }

    proof fn lemma_place(self, i: int)
        requires
            self.sorted(),
            0 <= i < self.entries.len(),
        ensures
            self@.contains_key(self.entries[i].id),
            self.place_of(self.entries[i].id) == i,
            self@[self.entries[i].id] == self.entries[i].value@,
    {
        let j = self.place_of(self.entries[i].id);
        assert(0 <= j < self.entries.len() && self.entries[j].id == self.entries[i].id);
        if j < i {
            assert(self.entries[j].id < self.entries[i].id);
        } else if i < j {
            assert(self.entries[i].id < self.entries[j].id);
        }
    }

    proof fn lemma_ids(self)
        requires
            self.sorted(),
        ensures
            lists_keys(self.ids(), self@),
            ascending_ids(self@) == self.ids(),
            self@.dom().finite(),
            self@.dom().len() == self.entries.len(),
    {
        let ids = self.ids();
        assert(ids.to_set() =~= self@.dom()) by {
            assert forall|id: u64| ids.to_set().contains(id) implies self@.dom().contains(id) by {
                let i = choose|i: int| 0 <= i < ids.len() && ids[i] == id;
                assert(self.entries[i].id == id);
            }
            assert forall|id: u64| self@.dom().contains(id) implies ids.to_set().contains(id) by {
                let i = choose|i: int| 0 <= i < self.entries.len() && self.entries[i].id == id;
                assert(ids[i] == id);
                assert(ids.contains(id));
            }
        }
        assert(lists_keys(ids, self@));
        let chosen = ascending_ids(self@);
        assert(lists_keys(chosen, self@));
        lemma_ascending_unique(chosen, ids);
        assert(ids.no_duplicates());
        ids.unique_seq_to_set();
    }

    /// The empty map.
    pub fn new() -> (map: Self)
        ensures
            map@ == Map::<u64, V::V>::empty(),
    {
        let map = IdMap { entries: Vec::new() };
        assert(map@ =~= Map::<u64, V::V>::empty());
        map
    }

    /// The first place whose id is not below `id`.
    fn lower_bound(&self, id: u64) -> (place: usize)
        ensures
            place <= self.entries.len(),
            forall|k: int| 0 <= k < place ==> self.entries[k].id < id,
            forall|k: int| place <= k < self.entries.len() ==> self.entries[k].id >= id,
    {
        proof {
            use_type_invariant(self);
        }
        let mut i: usize = 0;
        while i < self.entries.len() && self.entries[i].id < id
            invariant
                i <= self.entries.len(),
                forall|k: int| 0 <= k < i ==> self.entries[k].id < id,
            decreases self.entries.len() - i,
        {
            i += 1;
        }
        i
    }

    /// The number of entries.
    pub fn len(&self) -> (count: usize)
        ensures
            self@.dom().finite(),
            lists_keys(ascending_ids(self@), self@),
            count == self@.dom().len(),
            count == ascending_ids(self@).len(),
    {
        proof {
            use_type_invariant(self);
            self.lemma_ids();
        }
        self.entries.len()
    }

    /// Whether the map has an entry for `id`.
    pub fn contains_key(&self, id: u64) -> (found: bool)
        ensures
            found == self@.contains_key(id),
    {
        proof {
            use_type_invariant(self);
        }
        let place = self.lower_bound(id);
        let found = place < self.entries.len() && self.entries[place].id == id;
        proof {
            if !found && self@.contains_key(id) {
                let i = self.place_of(id);
                assert(place <= i);
                assert(self.entries[place as int].id <= self.entries[i].id);
            }
        }
        found
    }

    /// The value that the map holds for `id`.
    pub fn get(&self, id: u64) -> (found: Option<&V>)
        ensures
            found is Some <==> self@.contains_key(id),
            found matches Some(value) ==> value@ == self@[id],
    {
        proof {
            use_type_invariant(self);
        }
        let place = self.lower_bound(id);
        if place < self.entries.len() && self.entries[place].id == id {
            proof {
                self.lemma_place(place as int);
            }
            Some(&self.entries[place].value)
        } else {
            None
        }
    }

    /// The entry at `rank` when the entries are counted in ascending order of
    /// id, from zero.
    pub fn nth(&self, rank: usize) -> (found: Option<(u64, &V)>)
        ensures
            found is Some <==> rank < ascending_ids(self@).len(),
            found matches Some(entry) ==> entry.0 == ascending_ids(self@)[rank as int]
                && self@.contains_key(entry.0) && entry.1@ == self@[entry.0],
    {
        proof {
            use_type_invariant(self);
            self.lemma_ids();
        }
        if rank < self.entries.len() {
            proof {
                self.lemma_place(rank as int);
            }
            Some((self.entries[rank].id, &self.entries[rank].value))
        } else {
            None
        }
    }

    /// Sets the value for `id`, in place of the one that the map held for it,
    /// if any.
    pub fn insert(&mut self, id: u64, value: V)
        ensures
            final(self)@ == old(self)@.insert(id, value@),
    {
        proof {
            use_type_invariant(&*self);
        }
        let place = self.lower_bound(id);
        let replace = place < self.entries.len() && self.entries[place].id == id;
        let ghost before = *self;
        let mut entries: Vec<Entry<V>> = Vec::new();
        core::mem::swap(&mut self.entries, &mut entries);
        if replace {
            entries.remove(place);
        }
        entries.insert(place, Entry { id, value });
        core::mem::swap(&mut self.entries, &mut entries);
        proof {
            self.lemma_place(place as int);
            assert forall|k: u64| #[trigger] self@.contains_key(k) implies (k == id || before@.contains_key(k)) by {
                let i = self.place_of(k);
                if i < place {
                    assert(before.entries[i].id == k);
                } else if i > place {
                    if replace {
                        assert(before.entries[i].id == k);
                    } else {
                        assert(before.entries[i - 1].id == k);
                    }
                }
            }
            assert forall|k: u64| k != id && #[trigger] before@.contains_key(k) implies self@.contains_key(k)
                && self@[k] == before@[k] by {
                let i = before.place_of(k);
                before.lemma_place(i);
                if i < place {
                    self.lemma_place(i);
                } else if replace {
                    self.lemma_place(i);
                } else {
                    self.lemma_place(i + 1);
                }
            }
            assert(self@ =~= old(self)@.insert(id, value@));
        }
    }

    /// Takes the entry for `id` out of the map and returns its value.
    pub fn remove(&mut self, id: u64) -> (taken: Option<V>)
        ensures
            taken is Some <==> old(self)@.contains_key(id),
            taken matches Some(value) ==> value@ == old(self)@[id],
            final(self)@ == old(self)@.remove(id),
    {
        proof {
            use_type_invariant(&*self);
        }
        let place = self.lower_bound(id);
        if place < self.entries.len() && self.entries[place].id == id {
            let ghost before = *self;
            let mut entries: Vec<Entry<V>> = Vec::new();
            core::mem::swap(&mut self.entries, &mut entries);
            let entry = entries.remove(place);
            core::mem::swap(&mut self.entries, &mut entries);
            proof {
                before.lemma_place(place as int);
                assert forall|k: u64| #[trigger] self@.contains_key(k) implies (k != id && before@.contains_key(k)) by {
                    let i = self.place_of(k);
                    if i < place {
                        assert(before.entries[i].id == k);
                    } else {
                        assert(before.entries[i + 1].id == k);
                    }
                }
                assert forall|k: u64| k != id && #[trigger] before@.contains_key(k) implies self@.contains_key(k)
                    && self@[k] == before@[k] by {
                    let i = before.place_of(k);
                    before.lemma_place(i);
                    if i < place {
                        self.lemma_place(i);
                    } else {
                        self.lemma_place(i - 1);
                    }
                }
                assert(self@ =~= old(self)@.remove(id));
            }
            Some(entry.value)
        } else {
            assert(self@ =~= old(self)@.remove(id));
            None
        }
    }
}

} // verus!
