//! A set of ids, and lists of ids compared without regard to order.

use vstd::prelude::*;

use crate::text;

verus! {

/// A set of ids. Nothing in it occurs twice.
#[derive(Debug)]
pub struct IdSet {
    ids: Vec<String>,
}

impl View for IdSet {
    type V = Set<Seq<char>>;

    closed spec fn view(&self) -> Set<Seq<char>> {
        text::texts(self.ids@).to_set()
    }
}

/// Whether an id is in a list.
pub fn lists(list: &[String], id: &str) -> (r: bool)
    ensures
        r == text::texts(list@).contains(id@),
{
    position_of(list, id).is_some()
}

/// The first place an id has in a list.
pub open spec fn first_place(list: Seq<Seq<char>>, id: Seq<char>) -> Option<int>
    decreases list.len(),
{
    if list.len() == 0 {
        None
    } else {
        match first_place(list.drop_last(), id) {
            Some(i) => Some(i),
            None => if list.last() == id {
                Some(list.len() - 1)
            } else {
                None
            },
        }
    }
}

/// The first place of an id is a place it has, and none before it is.
pub proof fn first_place_is_first(list: Seq<Seq<char>>, id: Seq<char>)
    ensures
        match first_place(list, id) {
            Some(i) => 0 <= i < list.len() && list[i] == id && forall|j: int|
                0 <= j < i ==> list[j] != id,
            None => !list.contains(id),
        },
    decreases list.len(),
{
    if list.len() > 0 {
        first_place_is_first(list.drop_last(), id);
        let shorter = list.drop_last();
        assert forall|j: int| 0 <= j < shorter.len() && shorter[j] != id implies list[j] != id by {}
        if !shorter.contains(id) {
            assert forall|j: int| 0 <= j < list.len() - 1 implies list[j] != id by {
                assert(shorter[j] == list[j]);
                assert(shorter[j] != id);
            }
        }
    }
}

/// Where an id first stands in a list.
pub fn position_of(list: &[String], id: &str) -> (r: Option<usize>)
    ensures
        match r {
            Some(i) => first_place(text::texts(list@), id@) == Some(i as int) && i < list@.len(),
            None => first_place(text::texts(list@), id@) is None,
        },
        r is Some == text::texts(list@).contains(id@),
{
    let ghost all = text::texts(list@);
    let mut i: usize = 0;
    while i < list.len()
        invariant
            i <= list@.len(),
            all == text::texts(list@),
            first_place(all.take(i as int), id@) is None,
        decreases list@.len() - i,
    {
        proof {
            assert(all.take(i + 1).drop_last() =~= all.take(i as int));
        }
        if text::same(list[i].as_str(), id) {
            proof {
                still_first(all, id@, i + 1);
                first_place_is_first(all, id@);
            }
            return Some(i);
        }
        i += 1;
    }
    proof {
        assert(all.take(i as int) =~= all);
        first_place_is_first(all, id@);
    }
    None
}

/// What a prefix settles, the whole list settles alike.
proof fn still_first(list: Seq<Seq<char>>, id: Seq<char>, n: int)
    requires
        0 <= n <= list.len(),
        first_place(list.take(n), id) is Some,
    ensures
        first_place(list, id) == first_place(list.take(n), id),
    decreases list.len(),
{
    if n == list.len() {
        assert(list.take(n) =~= list);
    } else {
        assert(list.drop_last().take(n) =~= list.take(n));
        still_first(list.drop_last(), id, n);
    }
}

impl IdSet {
    #[verifier::type_invariant]
    spec fn nothing_twice(&self) -> bool {
        text::texts(self.ids@).no_duplicates()
    }

    pub fn new() -> (r: Self)
        ensures
            r@ == Set::<Seq<char>>::empty(),
    {
        let r = IdSet { ids: Vec::new() };
        proof {
            assert(r@ =~= Set::<Seq<char>>::empty());
        }
        r
    }

    pub fn contains(&self, id: &str) -> (r: bool)
        ensures
            r == self@.contains(id@),
    {
        lists(&self.ids, id)
    }

    /// Add an id, and say whether it is new.
    pub fn insert(&mut self, id: String) -> (r: bool)
        ensures
            r == !old(self)@.contains(id@),
            final(self)@ == old(self)@.insert(id@),
    {
        proof {
            use_type_invariant(&*self);
        }
        if lists(&self.ids, id.as_str()) {
            proof {
                assert(self@ =~= old(self)@.insert(id@));
            }
            return false;
        }
        let mut ids: Vec<String> = Vec::new();
        let ghost before = text::texts(self.ids@);
        std::mem::swap(&mut ids, &mut self.ids);
        ids.push(id);
        proof {
            let after = text::texts(ids@);
            assert(after =~= before.push(id@));
            assert forall|x: Seq<char>| after.to_set().contains(x) == before.to_set().insert(
                id@,
            ).contains(x) by {
                if before.contains(x) {
                    let k = choose|k: int| 0 <= k < before.len() && before[k] == x;
                    assert(after[k] == x);
                }
                if x == id@ {
                    assert(after[before.len() as int] == x);
                }
            }
            assert(after.to_set() =~= before.to_set().insert(id@));
        }
        self.ids = ids;
        true
    }

    /// Add every id of a list.
    pub fn extend(&mut self, more: &[String])
        ensures
            final(self)@ == old(self)@.union(text::texts(more@).to_set()),
    {
        let ghost all = text::texts(more@);
        let ghost start = self@;
        let mut i: usize = 0;
        proof {
            assert(start.union(all.take(0).to_set()) =~= start);
        }
        while i < more.len()
            invariant
                i <= more@.len(),
                all == text::texts(more@),
                self@ == start.union(all.take(i as int).to_set()),
            decreases more@.len() - i,
        {
            self.insert(more[i].clone());
            proof {
                let now = all.take(i + 1);
                assert(now =~= all.take(i as int).push(more@[i as int]@));
                assert forall|x: Seq<char>| now.to_set().contains(x) == all.take(
                    i as int,
                ).to_set().insert(more@[i as int]@).contains(x) by {
                    if all.take(i as int).contains(x) {
                        let k = choose|k: int| 0 <= k < i && all.take(i as int)[k] == x;
                        assert(now[k] == x);
                    }
                    if x == more@[i as int]@ {
                        assert(now[i as int] == x);
                    }
                }
                assert(self@ =~= start.union(now.to_set()));
            }
            i += 1;
        }
        proof {
            assert(all.take(i as int) =~= all);
        }
    }

    /// The set that holds what a list holds.
    pub fn of(list: &[String]) -> (r: Self)
        ensures
            r@ == text::texts(list@).to_set(),
    {
        let mut r = IdSet::new();
        r.extend(list);
        proof {
            assert(r@ =~= text::texts(list@).to_set());
        }
        r
    }

    /// Each id once.
    pub fn list(&self) -> (r: Vec<String>)
        ensures
            text::texts(r@).no_duplicates(),
            text::texts(r@).to_set() == self@,
    {
        proof {
            use_type_invariant(self);
        }
        text::copy_texts(&self.ids)
    }
}

impl Clone for IdSet {
    fn clone(&self) -> (r: Self)
        ensures
            r@ == self@,
    {
        proof {
            use_type_invariant(self);
        }
        IdSet { ids: text::copy_texts(&self.ids) }
    }
}

/// Whether two lists hold the same ids equally often, in whatever order.
pub fn same_ids(ours: &[String], theirs: &[String]) -> (r: bool)
    ensures
        r == (text::texts(ours@).to_multiset() == text::texts(theirs@).to_multiset()),
{
    broadcast use vstd::multiset::group_multiset_axioms;
    broadcast use vstd::seq_lib::group_to_multiset_ensures;

    let ghost a = text::texts(ours@);
    let ghost b = text::texts(theirs@);
    let mut rest: Vec<String> = text::copy_texts(theirs);
    let mut i: usize = 0;
    proof {
        assert(a.take(0).to_multiset() =~= vstd::multiset::Multiset::empty());
        assert(a.take(0).to_multiset().add(b.to_multiset()) =~= b.to_multiset());
    }
    while i < ours.len()
        invariant
            i <= ours@.len(),
            a == text::texts(ours@),
            b == text::texts(theirs@),
            a.take(i as int).to_multiset().add(text::texts(rest@).to_multiset())
                == b.to_multiset(),
        decreases ours@.len() - i,
    {
        let ghost x = a[i as int];
        let ghost seen = a.take(i as int);
        let ghost left = text::texts(rest@);
        proof {
            assert(a.take(i + 1) =~= seen.push(x));
            assert(x == ours@[i as int]@);
            vstd::seq_lib::to_multiset_build(seen, x);
            vstd::seq_lib::to_multiset_contains(left, x);
        }
        match position_of(&rest, ours[i].as_str()) {
            Some(j) => {
                proof {
                    first_place_is_first(left, x);
                }
                let _ = rest.remove(j);
                proof {
                    assert(text::texts(rest@) =~= left.remove(j as int));
                    vstd::seq_lib::to_multiset_remove(left, j as int);
                    assert(a.take(i + 1).to_multiset().add(text::texts(rest@).to_multiset())
                        =~= seen.to_multiset().add(left.to_multiset()));
                }
            },
            None => {
                proof {
                    assert(left.to_multiset().count(x) == 0);
                    counts_grow(a, i + 1, x);
                    assert(a.to_multiset().count(x) > b.to_multiset().count(x));
                }
                return false;
            },
        }
        i += 1;
    }
    proof {
        assert(a.take(i as int) =~= a);
    }
    if rest.len() == 0 {
        proof {
            assert(text::texts(rest@) =~= Seq::empty());
            assert(a.to_multiset() =~= b.to_multiset());
        }
        true
    } else {
        proof {
            let x = text::texts(rest@)[0];
            assert(text::texts(rest@).contains(x));
            assert(b.to_multiset().count(x) > a.to_multiset().count(x));
        }
        false
    }
}

/// A list holds an id at least as often as any prefix of it does.
proof fn counts_grow(list: Seq<Seq<char>>, n: int, id: Seq<char>)
    requires
        0 <= n <= list.len(),
    ensures
        list.take(n).to_multiset().count(id) <= list.to_multiset().count(id),
    decreases list.len() - n,
{
    broadcast use vstd::multiset::group_multiset_axioms;
    broadcast use vstd::seq_lib::group_to_multiset_ensures;

    if n == list.len() {
        assert(list.take(n) =~= list);
    } else {
        assert(list.take(n + 1) =~= list.take(n).push(list[n]));
        counts_grow(list, n + 1, id);
    }
}

} // verus!
