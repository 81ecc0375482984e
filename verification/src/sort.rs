//! Sorting a list, so that what ties keeps its place.

use vstd::prelude::*;

use crate::music::{Album, Artist, Playlist, Track};
use crate::order;
use crate::order::{Order, Rank};
use crate::text;
use crate::view::SortBy;

verus! {

/// Something a list can be sorted by a key of.
pub trait Ranked: Sized {
    /// What places it.
    spec fn rank(self, by: SortBy) -> Rank;

    /// How it stands to another.
    fn rank_order(&self, other: &Self, by: SortBy) -> (r: Order)
        ensures
            r == self.rank(by).order(other.rank(by)),
    ;

    fn copy(&self) -> (r: Self)
        ensures
            r == *self,
    ;
}

/// A name, without regard to case.
pub open spec fn fold(name: String) -> Seq<char> {
    text::lowercase(name@)
}

/// Placed by a text first, and by the name where that ties.
pub open spec fn by_text(first: Seq<char>, name: String) -> Rank {
    Rank { first, number: 0, second: fold(name) }
}

/// Placed by the name alone.
pub open spec fn by_name(name: String) -> Rank {
    by_text(Seq::empty(), name)
}

fn or(first: Order, next: Order) -> (r: Order)
    ensures
        r == first.or(next),
{
    match first {
        Order::Same => next,
        _ => first,
    }
}

fn order_folded(a: &str, b: &str) -> (r: Order)
    ensures
        r == order::text_order(text::lowercase(a@), text::lowercase(b@)),
{
    let x = a.to_lowercase();
    let y = b.to_lowercase();
    order::order_texts(x.as_str(), y.as_str())
}

proof fn ties_with_itself(a: Seq<char>)
    ensures
        order::text_order(a, a) == Order::Same,
{
    order::text_order_is_total(a, a);
}

impl Ranked for Track {
    /// Every key falls back to the title, so two tracks that tie cannot swap
    /// places. Within an album, track order beats alphabetical.
    open spec fn rank(self, by: SortBy) -> Rank {
        match by {
            SortBy::Artist => by_text(fold(self.artist), self.title),
            SortBy::Album => Rank {
                first: fold(self.album),
                number: self.track_number as int,
                second: fold(self.title),
            },
            SortBy::Year => by_text(self.year@, self.title),
            SortBy::Title => by_name(self.title),
            SortBy::Added => by_name(self.title),
            SortBy::Updated => by_name(self.title),
        }
    }

    fn rank_order(&self, other: &Self, by: SortBy) -> (r: Order) {
        proof {
            ties_with_itself(Seq::<char>::empty());
        }
        let by_title = order_folded(self.title.as_str(), other.title.as_str());
        match by {
            SortBy::Artist => or(
                order_folded(self.artist.as_str(), other.artist.as_str()),
                by_title,
            ),
            SortBy::Album => or(
                or(
                    order_folded(self.album.as_str(), other.album.as_str()),
                    order::order_numbers(self.track_number, other.track_number),
                ),
                by_title,
            ),
            SortBy::Year => or(
                order::order_texts(self.year.as_str(), other.year.as_str()),
                by_title,
            ),
            SortBy::Title | SortBy::Added | SortBy::Updated => by_title,
        }
    }

    fn copy(&self) -> (r: Self) {
        self.clone()
    }
}

impl Ranked for Album {
    open spec fn rank(self, by: SortBy) -> Rank {
        match by {
            SortBy::Artist => by_text(fold(self.artist), self.name),
            SortBy::Year => by_text(self.year@, self.name),
            SortBy::Added => by_text(self.date_added@, self.name),
            _ => by_name(self.name),
        }
    }

    fn rank_order(&self, other: &Self, by: SortBy) -> (r: Order) {
        proof {
            ties_with_itself(Seq::<char>::empty());
        }
        let by_title = order_folded(self.name.as_str(), other.name.as_str());
        match by {
            SortBy::Artist => or(
                order_folded(self.artist.as_str(), other.artist.as_str()),
                by_title,
            ),
            SortBy::Year => or(
                order::order_texts(self.year.as_str(), other.year.as_str()),
                by_title,
            ),
            SortBy::Added => or(
                order::order_texts(self.date_added.as_str(), other.date_added.as_str()),
                by_title,
            ),
            _ => by_title,
        }
    }

    fn copy(&self) -> (r: Self) {
        self.clone()
    }
}

impl Ranked for Playlist {
    open spec fn rank(self, by: SortBy) -> Rank {
        match by {
            SortBy::Added => by_text(self.date_added@, self.name),
            SortBy::Updated => by_text(self.last_modified@, self.name),
            _ => by_name(self.name),
        }
    }

    fn rank_order(&self, other: &Self, by: SortBy) -> (r: Order) {
        proof {
            ties_with_itself(Seq::<char>::empty());
        }
        let by_title = order_folded(self.name.as_str(), other.name.as_str());
        match by {
            SortBy::Added => or(
                order::order_texts(self.date_added.as_str(), other.date_added.as_str()),
                by_title,
            ),
            SortBy::Updated => or(
                order::order_texts(self.last_modified.as_str(), other.last_modified.as_str()),
                by_title,
            ),
            _ => by_title,
        }
    }

    fn copy(&self) -> (r: Self) {
        self.clone()
    }
}

impl Ranked for Artist {
    /// Only ever by name, because that is all a library artist has.
    open spec fn rank(self, by: SortBy) -> Rank {
        by_name(self.name)
    }

    fn rank_order(&self, other: &Self, by: SortBy) -> (r: Order) {
        proof {
            ties_with_itself(Seq::<char>::empty());
        }
        order_folded(self.name.as_str(), other.name.as_str())
    }

    fn copy(&self) -> (r: Self) {
        self.clone()
    }
}

/// Whether one item belongs before another, in a list that runs up or down.
pub open spec fn precedes<T: Ranked>(a: T, b: T, by: SortBy, down: bool) -> bool {
    if down {
        b.rank(by).below(a.rank(by))
    } else {
        a.rank(by).below(b.rank(by))
    }
}

/// Where a newcomer goes in a sorted list: after everything it ties with.
pub open spec fn place<T: Ranked>(sorted: Seq<T>, item: T, by: SortBy, down: bool, from: int) -> int
    decreases sorted.len() - from,
{
    if from < 0 || from >= sorted.len() {
        sorted.len() as int
    } else if precedes(item, sorted[from], by, down) {
        from
    } else {
        place(sorted, item, by, down, from + 1)
    }
}

/// A list in order, up or down: each item in turn goes after everything it ties
/// with.
pub open spec fn in_order<T: Ranked>(list: Seq<T>, by: SortBy, down: bool) -> Seq<T>
    decreases list.len(),
{
    if list.len() == 0 {
        list
    } else {
        let sorted = in_order(list.drop_last(), by, down);
        sorted.insert(place(sorted, list.last(), by, down, 0), list.last())
    }
}

/// A list as it is shown: in order, and the other way round where the key reads
/// so or the user flipped it, but not both. Either way, what ties stays in the
/// order it came in.
pub open spec fn displayed<T: Ranked>(list: Seq<T>, by: SortBy, reversed: bool) -> Seq<T> {
    in_order(list, by, by.descends() != reversed)
}

proof fn place_is_within<T: Ranked>(sorted: Seq<T>, item: T, by: SortBy, down: bool, from: int)
    requires
        0 <= from <= sorted.len(),
    ensures
        from <= place(sorted, item, by, down, from) <= sorted.len(),
    decreases sorted.len() - from,
{
    if from < sorted.len() && !precedes(item, sorted[from], by, down) {
        place_is_within(sorted, item, by, down, from + 1);
    }
}

fn comes_first<T: Ranked>(a: &T, b: &T, by: SortBy, down: bool) -> (r: bool)
    ensures
        r == precedes(*a, *b, by, down),
{
    if down {
        b.rank_order(a, by) == Order::Less
    } else {
        a.rank_order(b, by) == Order::Less
    }
}

/// Sort a list, up or down, keeping what ties in place.
pub fn sort_list<T: Ranked>(list: &[T], by: SortBy, down: bool) -> (r: Vec<T>)
    ensures
        r@ == in_order(list@, by, down),
{
    let mut sorted: Vec<T> = Vec::new();
    let mut i: usize = 0;
    while i < list.len()
        invariant
            i <= list@.len(),
            sorted@ == in_order(list@.take(i as int), by, down),
        decreases list@.len() - i,
    {
        let ghost so_far = sorted@;
        let mut at: usize = 0;
        proof {
            place_is_within(so_far, list@[i as int], by, down, 0);
        }
        while at < sorted.len() && !comes_first(&list[i], &sorted[at], by, down)
            invariant
                i < list@.len(),
                sorted@ == so_far,
                at <= place(so_far, list@[i as int], by, down, 0) <= so_far.len(),
                place(so_far, list@[i as int], by, down, 0) == place(
                    so_far,
                    list@[i as int],
                    by,
                    down,
                    at as int,
                ),
            decreases so_far.len() - at,
        {
            proof {
                place_is_within(so_far, list@[i as int], by, down, at + 1);
            }
            at += 1;
        }
        sorted.insert(at, list[i].copy());
        proof {
            assert(list@.take(i + 1).drop_last() =~= list@.take(i as int));
        }
        i += 1;
    }
    proof {
        assert(list@.take(i as int) =~= list@);
    }
    sorted
}

/// A list as it is shown.
pub fn display<T: Ranked>(list: &[T], by: SortBy, reversed: bool) -> (r: Vec<T>)
    ensures
        r@ == displayed(list@, by, reversed),
{
    sort_list(list, by, by.descends_by_default() != reversed)
}

} // verus!
