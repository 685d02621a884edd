//! Allow-lists: finite sets in which membership is all that counts.

use vstd::prelude::*;
use crate::member::Member;

verus! {

/// The set of the views of the items of a sequence.
pub open spec fn views_of<T: View>(items: Seq<T>) -> Set<T::V> {
    Set::new(|m: T::V| exists|i: int| 0 <= i < items.len() && items[i]@ == m)
}

/// A finite set of members. Adding a value that is in the set and removing
/// one that is not leave the set as it is.
pub struct Whitelist<T: Member> {
    items: Vec<T>,
}

impl<T: Member> View for Whitelist<T> {
    type V = Set<T::V>;

    closed spec fn view(&self) -> Set<T::V> {
        Set::new(|m: T::V| exists|i: int| 0 <= i < self.items.len() && self.items[i]@ == m)
    }
}

impl<T: Member> Whitelist<T> {
    #[verifier::type_invariant]
    spec fn distinct(self) -> bool {
        forall|i: int, j: int|
            0 <= i < j < self.items.len() ==> self.items[i]@ != self.items[j]@
    }

    /// The empty whitelist.
    pub fn new() -> (list: Self)
        ensures
            list@ == Set::<T::V>::empty(),
    {
        let list = Whitelist { items: Vec::new() };
        assert(list@ =~= Set::<T::V>::empty());
        list
    }

    /// The place of `member` among the items, if it is one of them.
    fn position(&self, member: &T) -> (place: Option<usize>)
        ensures
            place matches Some(i) ==> i < self.items.len() && self.items[i as int]@ == member@,
            place is None ==> forall|k: int| 0 <= k < self.items.len() ==> self.items[k]@ != member@,
    {
        let mut i: usize = 0;
        while i < self.items.len()
            invariant
                i <= self.items.len(),
                forall|k: int| 0 <= k < i ==> self.items[k]@ != member@,
            decreases self.items.len() - i,
        {
            if self.items[i].same(member) {
                return Some(i);
            }
            i += 1;
        }
        None
    }

    /// Whether `member` is on the list.
    pub fn contains(&self, member: &T) -> (found: bool)
        ensures
            found == self@.contains(member@),
    {
        self.position(member).is_some()
    }

    /// Puts `member` on the list.
    pub fn insert(&mut self, member: T)
        ensures
            final(self)@ == old(self)@.insert(member@),
    {
        proof {
            use_type_invariant(&*self);
        }
        if self.position(&member).is_none() {
            let ghost before = self.items@;
            let mut items: Vec<T> = Vec::new();
            core::mem::swap(&mut self.items, &mut items);
            items.push(member);
            core::mem::swap(&mut self.items, &mut items);
            assert(forall|k: int| 0 <= k < before.len() ==> self.items[k] == before[k]);
            assert(self.items[before.len() as int] == member);
            assert(self@ =~= old(self)@.insert(member@)) by {
                assert forall|m: T::V| old(self)@.insert(member@).contains(m) implies self@.contains(m) by {
                    if m == member@ {
                        assert(self.items[before.len() as int]@ == m);
                    } else {
                        let i = choose|i: int| 0 <= i < before.len() && before[i]@ == m;
                        assert(self.items[i]@ == m);
                    }
                }
            }
        } else {
            assert(self@ =~= old(self)@.insert(member@));
        }
    }

    /// Takes `member` off the list.
    pub fn remove(&mut self, member: &T)
        ensures
            final(self)@ == old(self)@.remove(member@),
    {
        proof {
            use_type_invariant(&*self);
        }
        match self.position(member) {
            Some(i) => {
                let ghost before = self.items@;
                let mut items: Vec<T> = Vec::new();
                core::mem::swap(&mut self.items, &mut items);
                items.remove(i);
                core::mem::swap(&mut self.items, &mut items);
                assert(self.items@ == before.remove(i as int));
                assert(self@ =~= old(self)@.remove(member@)) by {
                    assert forall|m: T::V| old(self)@.remove(member@).contains(m) implies self@.contains(m) by {
                        let k = choose|k: int| 0 <= k < before.len() && before[k]@ == m;
                        if k < i {
                            assert(self.items[k]@ == m);
                        } else {
                            assert(self.items[k - 1]@ == m);
                        }
                    }
                    assert forall|m: T::V| self@.contains(m) implies old(self)@.remove(member@).contains(m) by {
                        let k = choose|k: int| 0 <= k < self.items.len() && self.items[k]@ == m;
                        if k < i {
                            assert(before[k]@ == m);
                        } else {
                            assert(before[k + 1]@ == m);
                        }
                    }
                }
            },
            None => {
                assert(self@ =~= old(self)@.remove(member@));
            },
        }
    }

    /// Puts every one of `members` on the list.
    pub fn insert_all(&mut self, members: Vec<T>)
        ensures
            final(self)@ == old(self)@.union(views_of(members@)),
    {
        let mut rest = members;
        assert(self@ =~= old(self)@.union(views_of(members@.subrange(rest.len() as int, members.len() as int))));
        while rest.len() > 0
            invariant
                rest@ == members@.subrange(0, rest.len() as int),
                rest.len() <= members.len(),
                self@ == old(self)@.union(
                    views_of(members@.subrange(rest.len() as int, members.len() as int)),
                ),
            decreases rest.len(),
        {
            let ghost done = members@.subrange(rest.len() as int, members.len() as int);
            let ghost before = self@;
            let member = rest.pop().unwrap();
            self.insert(member);
            proof {
                let now = members@.subrange(rest.len() as int, members.len() as int);
                assert(now[0] == member);
                assert forall|m: T::V| views_of(now).contains(m) implies m == member@ || views_of(done).contains(m) by {
                    let i = choose|i: int| 0 <= i < now.len() && now[i]@ == m;
                    if i > 0 {
                        assert(done[i - 1]@ == m);
                    }
                }
                assert forall|m: T::V| views_of(done).contains(m) implies views_of(now).contains(m) by {
                    let i = choose|i: int| 0 <= i < done.len() && done[i]@ == m;
                    assert(now[i + 1]@ == m);
                }
                assert(views_of(now).contains(member@));
                assert(self@ =~= old(self)@.union(views_of(now)));
            }
        }
        assert(members@.subrange(0, members.len() as int) =~= members@);
    }

    /// Takes every one of `members` off the list.
    pub fn remove_all(&mut self, members: &Vec<T>)
        ensures
            final(self)@ == old(self)@.difference(views_of(members@)),
    {
        let mut i: usize = 0;
        assert(self@ =~= old(self)@.difference(views_of(members@.subrange(0, 0))));
        while i < members.len()
            invariant
                i <= members.len(),
                self@ == old(self)@.difference(views_of(members@.subrange(0, i as int))),
            decreases members.len() - i,
        {
            let ghost done = members@.subrange(0, i as int);
            self.remove(&members[i]);
            proof {
                let now = members@.subrange(0, i + 1);
                assert(now[i as int] == members[i as int]);
                assert forall|m: T::V| views_of(now).contains(m) implies m == members[i as int]@
                    || views_of(done).contains(m) by {
                    let k = choose|k: int| 0 <= k < now.len() && now[k]@ == m;
                    if k < i {
                        assert(done[k]@ == m);
                    }
                }
                assert forall|m: T::V| views_of(done).contains(m) implies views_of(now).contains(m) by {
                    let k = choose|k: int| 0 <= k < done.len() && done[k]@ == m;
                    assert(now[k]@ == m);
                }
                assert(views_of(now).contains(members[i as int]@));
                assert(self@ =~= old(self)@.difference(views_of(now)));
            }
            i += 1;
        }
        assert(members@.subrange(0, members.len() as int) =~= members@);
    }

    /// Takes every member off the list.
    pub fn clear(&mut self)
        ensures
            final(self)@ == Set::<T::V>::empty(),
    {
        let mut items: Vec<T> = Vec::new();
        core::mem::swap(&mut self.items, &mut items);
        assert(self@ =~= Set::<T::V>::empty());
    }

    /// The number of members.
    pub fn len(&self) -> (count: usize)
        ensures
            count == self@.len(),
            self@.finite(),
    {
        proof {
            use_type_invariant(self);
            self.lemma_size();
        }
        self.items.len()
    }

    /// The members among the first `n` items.
    spec fn upto(self, n: int) -> Set<T::V> {
        Set::new(|m: T::V| exists|i: int| 0 <= i < n && self.items[i]@ == m)
    }

    proof fn lemma_size(self)
        requires
            self.distinct(),
        ensures
            self@.finite(),
            self@.len() == self.items.len(),
    {
        self.lemma_counts(self.items.len() as int);
        assert(self.upto(self.items.len() as int) =~= self@);
    }

    proof fn lemma_counts(self, n: int)
        requires
            self.distinct(),
            0 <= n <= self.items.len(),
        ensures
            self.upto(n).finite(),
            self.upto(n).len() == n,
        decreases n,
    {
        if n == 0 {
            assert(self.upto(0) =~= Set::<T::V>::empty());
        } else {
            self.lemma_counts(n - 1);
            assert(self.upto(n) =~= self.upto(n - 1).insert(self.items[n - 1]@)) by {
                assert forall|m: T::V| self.upto(n).contains(m) implies self.upto(n - 1).insert(self.items[n - 1]@).contains(m) by {
                    let i = choose|i: int| 0 <= i < n && self.items[i]@ == m;
                    if i < n - 1 {
                        assert(self.upto(n - 1).contains(m));
                    }
                }
            }
            assert(!self.upto(n - 1).contains(self.items[n - 1]@));
        }
    }

    /// The members, each once, in no particular order.
    pub fn members(&self) -> (all: Vec<&T>)
        ensures
            all@.len() == self@.len(),
            self@.finite(),
            forall|i: int| 0 <= i < all.len() ==> self@.contains(#[trigger] all[i]@),
            forall|m: T::V| self@.contains(m) ==> exists|i: int| 0 <= i < all.len() && #[trigger] all[i]@ == m,
            forall|i: int, j: int| 0 <= i < j < all.len() ==> all[i]@ != all[j]@,
    {
        proof {
            use_type_invariant(self);
        }
        let mut all: Vec<&T> = Vec::new();
        let mut i: usize = 0;
        while i < self.items.len()
            invariant
                i <= self.items.len(),
                all.len() == i,
                forall|k: int| 0 <= k < i ==> *all[k] == self.items[k],
            decreases self.items.len() - i,
        {
            all.push(&self.items[i]);
            i += 1;
        }
        proof {
            self.lemma_size();
        }
        assert forall|m: T::V| self@.contains(m) implies exists|i: int| 0 <= i < all.len() && #[trigger] all[i]@ == m by {
            let k = choose|k: int| 0 <= k < self.items.len() && self.items[k]@ == m;
            assert(all[k]@ == m);
        }
        all
    }
}

} // verus!
