//! The orders a list is sorted by, as the standard library states one.

use vstd::prelude::*;

use std::cmp::Ordering;

use crate::music::{Album, Artist, Playlist, Track};
use crate::order::{Order, Rank};
use crate::sort::Ranked;
use crate::view::SortBy;

verus! {

/// Whether an answer agrees with how one rank stands to another.
pub open spec fn agrees(stated: Ordering, a: Rank, b: Rank) -> bool {
    match stated {
        Ordering::Less => a.order(b) == Order::Less,
        Ordering::Equal => a.order(b) == Order::Same,
        Ordering::Greater => a.order(b) == Order::More,
    }
}

fn std_order(order: Order) -> (r: Ordering)
    ensures
        match order {
            Order::Less => r == Ordering::Less,
            Order::Same => r == Ordering::Equal,
            Order::More => r == Ordering::Greater,
        },
{
    match order {
        Order::Less => Ordering::Less,
        Order::Same => Ordering::Equal,
        Order::More => Ordering::Greater,
    }
}

impl SortBy {
    /// Order two tracks.
    pub fn compare(self, a: &Track, b: &Track) -> (r: Ordering)
        ensures
            agrees(r, a.rank(self), b.rank(self)),
    {
        std_order(a.rank_order(b, self))
    }

    /// Order two albums.
    pub fn compare_album(self, a: &Album, b: &Album) -> (r: Ordering)
        ensures
            agrees(r, a.rank(self), b.rank(self)),
    {
        std_order(a.rank_order(b, self))
    }

    /// Order two playlists.
    pub fn compare_playlist(self, a: &Playlist, b: &Playlist) -> (r: Ordering)
        ensures
            agrees(r, a.rank(self), b.rank(self)),
    {
        std_order(a.rank_order(b, self))
    }

    /// Order two artists.
    pub fn compare_artist(a: &Artist, b: &Artist) -> (r: Ordering)
        ensures
            agrees(r, a.rank(SortBy::Title), b.rank(SortBy::Title)),
    {
        std_order(a.rank_order(b, SortBy::Title))
    }
}

} // verus!
