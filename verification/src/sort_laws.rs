//! What holds of every sorted list.

use vstd::prelude::*;

use crate::music::{Album, Artist, Playlist, Track};
use crate::order;
use crate::order::Rank;
use crate::sort;
use crate::sort::Ranked;
use crate::text;
use crate::view::SortBy;

verus! {

/// Whether no item of a list belongs before one that stands ahead of it.
pub open spec fn ordered<T: Ranked>(list: Seq<T>, by: SortBy, down: bool) -> bool {
    forall|i: int, j: int|
        0 <= i < j < list.len() ==> !sort::precedes(
            #[trigger] list[j],
            #[trigger] list[i],
            by,
            down,
        )
}

/// Of two items, one belongs before the other or they tie, and only one of these.
proof fn precedence_is_total<T: Ranked>(a: T, b: T, by: SortBy, down: bool)
    ensures
        sort::precedes(a, b, by, down) || a.rank(by) == b.rank(by) || sort::precedes(
            b,
            a,
            by,
            down,
        ),
        !(sort::precedes(a, b, by, down) && sort::precedes(b, a, by, down)),
        sort::precedes(a, b, by, down) ==> a.rank(by) != b.rank(by),
{
    order::rank_order_is_total(a.rank(by), b.rank(by));
    order::rank_order_is_total(b.rank(by), a.rank(by));
}

proof fn precedence_chains<T: Ranked>(a: T, b: T, c: T, by: SortBy, down: bool)
    requires
        sort::precedes(a, b, by, down),
        sort::precedes(b, c, by, down),
    ensures
        sort::precedes(a, c, by, down),
{
    if down {
        order::rank_order_is_transitive(c.rank(by), b.rank(by), a.rank(by));
    } else {
        order::rank_order_is_transitive(a.rank(by), b.rank(by), c.rank(by));
    }
}

/// The items of a list that a rank places.
pub open spec fn tied<T: Ranked>(list: Seq<T>, by: SortBy, rank: Rank) -> Seq<T> {
    list.filter(|item: T| item.rank(by) == rank)
}

proof fn the_place_parts_a_list<T: Ranked>(
    sorted: Seq<T>,
    item: T,
    by: SortBy,
    down: bool,
    from: int,
)
    requires
        0 <= from <= sorted.len(),
        ordered(sorted, by, down),
    ensures
        ({
            let p = sort::place(sorted, item, by, down, from);
            &&& from <= p <= sorted.len()
            &&& forall|k: int|
                from <= k < p ==> !sort::precedes(item, #[trigger] sorted[k], by, down)
            &&& forall|k: int|
                p <= k < sorted.len() ==> sort::precedes(item, #[trigger] sorted[k], by, down)
        }),
    decreases sorted.len() - from,
{
    let p = sort::place(sorted, item, by, down, from);
    if from < sorted.len() && !sort::precedes(item, sorted[from], by, down) {
        the_place_parts_a_list(sorted, item, by, down, from + 1);
    } else if from < sorted.len() {
        assert forall|k: int| p <= k < sorted.len() implies sort::precedes(
            item,
            #[trigger] sorted[k],
            by,
            down,
        ) by {
            let first = sorted[from];
            let here = sorted[k];
            precedence_is_total(here, first, by, down);
            if sort::precedes(first, here, by, down) {
                precedence_chains(item, first, here, by, down);
            }
        }
    }
}

/// A sorted list is in order: nothing in it belongs before what stands ahead of
/// it.
pub proof fn a_sorted_list_is_in_order<T: Ranked>(list: Seq<T>, by: SortBy, down: bool)
    ensures
        ordered(sort::in_order(list, by, down), by, down),
    decreases list.len(),
{
    if list.len() > 0 {
        let sorted = sort::in_order(list.drop_last(), by, down);
        let item = list.last();
        a_sorted_list_is_in_order(list.drop_last(), by, down);
        the_place_parts_a_list(sorted, item, by, down, 0);
        let p = sort::place(sorted, item, by, down, 0);
        let after = sorted.insert(p, item);
        assert forall|i: int, j: int| 0 <= i < j < after.len() implies !sort::precedes(
            #[trigger] after[j],
            #[trigger] after[i],
            by,
            down,
        ) by {
            let x = if i < p {
                sorted[i]
            } else {
                sorted[i - 1]
            };
            let y = if j < p {
                sorted[j]
            } else {
                sorted[j - 1]
            };
            if i != p && j != p {
                assert(after[i] == x && after[j] == y);
                assert(!sort::precedes(y, x, by, down));
            } else if i == p {
                assert(after[j] == sorted[j - 1]);
                precedence_is_total(item, sorted[j - 1], by, down);
            } else {
                assert(after[i] == sorted[i]);
                assert(!sort::precedes(item, sorted[i], by, down));
            }
        }
    }
}

/// Sorting loses nothing and adds nothing.
pub proof fn a_sorted_list_holds_the_same_items<T: Ranked>(list: Seq<T>, by: SortBy, down: bool)
    ensures
        sort::in_order(list, by, down).to_multiset() == list.to_multiset(),
        sort::in_order(list, by, down).len() == list.len(),
    decreases list.len(),
{
    broadcast use vstd::seq_lib::group_to_multiset_ensures;

    if list.len() > 0 {
        let shorter = list.drop_last();
        let sorted = sort::in_order(shorter, by, down);
        a_sorted_list_is_in_order(shorter, by, down);
        a_sorted_list_holds_the_same_items(shorter, by, down);
        the_place_parts_a_list(sorted, list.last(), by, down, 0);
        vstd::seq_lib::to_multiset_insert(
            sorted,
            sort::place(sorted, list.last(), by, down, 0),
            list.last(),
        );
        vstd::seq_lib::to_multiset_build(shorter, list.last());
        assert(list =~= shorter.push(list.last()));
    }
}

proof fn nothing_tied<T: Ranked>(list: Seq<T>, by: SortBy, rank: Rank)
    requires
        forall|k: int| 0 <= k < list.len() ==> (#[trigger] list[k].rank(by)) != rank,
    ensures
        tied(list, by, rank) == Seq::<T>::empty(),
    decreases list.len(),
{
    reveal(Seq::filter);
    if list.len() > 0 {
        let shorter = list.drop_last();
        assert forall|k: int| 0 <= k < shorter.len() implies (#[trigger] shorter[k].rank(by))
            != rank by {
            assert(shorter[k] == list[k]);
        }
        nothing_tied(shorter, by, rank);
        assert(list[list.len() - 1].rank(by) != rank);
    } else {
        assert(tied(list, by, rank) =~= Seq::<T>::empty());
    }
}

/// What ties keeps its place: the items that any one rank places come out in
/// the order they went in, so they cannot swap between two rebuilds.
pub proof fn what_ties_keeps_its_place<T: Ranked>(
    list: Seq<T>,
    by: SortBy,
    down: bool,
    rank: Rank,
)
    ensures
        tied(sort::in_order(list, by, down), by, rank) == tied(list, by, rank),
    decreases list.len(),
{
    reveal(Seq::filter);
    if list.len() > 0 {
        let shorter = list.drop_last();
        let item = list.last();
        let sorted = sort::in_order(shorter, by, down);
        let p = sort::place(sorted, item, by, down, 0);
        let f = |x: T| x.rank(by) == rank;
        a_sorted_list_is_in_order(shorter, by, down);
        the_place_parts_a_list(sorted, item, by, down, 0);
        what_ties_keeps_its_place(shorter, by, down, rank);
        let head = sorted.take(p);
        let rest = sorted.skip(p);
        assert(sorted =~= head + rest);
        assert(sorted.insert(p, item) =~= head.push(item) + rest);
        Seq::filter_distributes_over_add(head, rest, f);
        Seq::filter_distributes_over_add(head.push(item), rest, f);
        assert(head.push(item).drop_last() =~= head);
        if item.rank(by) == rank {
            assert forall|k: int| 0 <= k < rest.len() implies (#[trigger] rest[k].rank(by))
                != rank by {
                assert(rest[k] == sorted[p + k]);
                precedence_is_total(item, sorted[p + k], by, down);
            }
            nothing_tied(rest, by, rank);
            assert(tied(sort::in_order(list, by, down), by, rank) =~= tied(sorted, by, rank).push(item));
        } else {
            assert(tied(sort::in_order(list, by, down), by, rank) =~= tied(sorted, by, rank));
        }
    }
}

/// Turning a list round swaps nothing that ties: both ways it holds the same
/// items, runs in the direction it is shown in, and keeps what any one rank
/// places in the order it came in.
pub proof fn flipping_keeps_ties<T: Ranked>(list: Seq<T>, by: SortBy, reversed: bool, rank: Rank)
    ensures
        tied(sort::displayed(list, by, reversed), by, rank) == tied(list, by, rank),
        ordered(sort::displayed(list, by, reversed), by, by.descends() != reversed),
        sort::displayed(list, by, reversed).to_multiset() == list.to_multiset(),
{
    let down = by.descends() != reversed;
    what_ties_keeps_its_place(list, by, down, rank);
    a_sorted_list_is_in_order(list, by, down);
    a_sorted_list_holds_the_same_items(list, by, down);
}

/// Whether two texts part after `k` characters, the first one ending there or
/// going on with the smaller character.
pub open spec fn parts_at(a: Seq<char>, b: Seq<char>, k: int) -> bool {
    &&& 0 <= k <= a.len()
    &&& k < b.len()
    &&& a.take(k) == b.take(k)
    &&& k == a.len() || a[k] < b[k]
}

/// Texts come in the order of a dictionary: one comes before another where they
/// first differ by a smaller character, or where it ends and the other goes on.
pub proof fn texts_come_in_dictionary_order(a: Seq<char>, b: Seq<char>)
    ensures
        order::before(a, b) <==> exists|k: int| parts_at(a, b, k),
    decreases a.len(),
{
    if a.len() > 0 && b.len() > 0 && a[0] == b[0] {
        let x = a.drop_first();
        let y = b.drop_first();
        texts_come_in_dictionary_order(x, y);
        if order::before(a, b) {
            let k = choose|k: int| parts_at(x, y, k);
            assert(a.take(k + 1) =~= seq![a[0]] + x.take(k));
            assert(b.take(k + 1) =~= seq![b[0]] + y.take(k));
            assert(parts_at(a, b, k + 1));
        }
        if exists|k: int| parts_at(a, b, k) {
            let k = choose|k: int| parts_at(a, b, k);
            assert(k > 0);
            assert(x.take(k - 1) =~= a.take(k).drop_first());
            assert(y.take(k - 1) =~= b.take(k).drop_first());
            assert(parts_at(x, y, k - 1));
        }
    } else if b.len() > 0 && order::before(a, b) {
        assert(a.take(0) =~= b.take(0));
        assert(parts_at(a, b, 0));
    } else if exists|k: int| parts_at(a, b, k) {
        let k = choose|k: int| parts_at(a, b, k);
        if k > 0 {
            assert(a.take(k)[0] == b.take(k)[0]);
        }
    }
}

/// Whether one text comes before another, in a list that runs up or down.
pub open spec fn ahead(a: Seq<char>, b: Seq<char>, down: bool) -> bool {
    if down {
        order::before(b, a)
    } else {
        order::before(a, b)
    }
}

/// Whether two rows stand in turn by one text, and by another where that ties.
pub open spec fn in_turn(
    a: Seq<char>,
    b: Seq<char>,
    then_a: Seq<char>,
    then_b: Seq<char>,
    down: bool,
) -> bool {
    ahead(a, b, down) || a == b && (then_a == then_b || ahead(then_a, then_b, down))
}

proof fn ranks_come_in_turn<T: Ranked>(list: Seq<T>, by: SortBy, reversed: bool, i: int, j: int)
    requires
        0 <= i < j < list.len(),
    ensures
        ({
            let shown = sort::displayed(list, by, reversed);
            let a = shown[i].rank(by);
            let b = shown[j].rank(by);
            let down = by.descends() != reversed;
            ahead(a.first, b.first, down) || a.first == b.first && (a.number == b.number && (
            a.second == b.second || ahead(a.second, b.second, down)) || (if down {
                b.number < a.number
            } else {
                a.number < b.number
            }))
        }),
{
    let down = by.descends() != reversed;
    a_sorted_list_is_in_order(list, by, down);
    a_sorted_list_holds_the_same_items(list, by, down);
    let shown = sort::displayed(list, by, reversed);
    let a = shown[i];
    let b = shown[j];
    assert(!sort::precedes(b, a, by, down));
    order::text_order_is_total(a.rank(by).first, b.rank(by).first);
    order::text_order_is_total(a.rank(by).second, b.rank(by).second);
    order::text_order_is_total(b.rank(by).first, a.rank(by).first);
    order::text_order_is_total(b.rank(by).second, a.rank(by).second);
}

/// Whether one song stands ahead of another as the key asks, or ties with it.
pub open spec fn songs_in_turn(a: Track, b: Track, by: SortBy, reversed: bool) -> bool {
    let title_a = text::lowercase(a.title@);
    let title_b = text::lowercase(b.title@);
    match by {
        SortBy::Title => title_a == title_b || ahead(title_a, title_b, reversed),
        SortBy::Artist => in_turn(
            text::lowercase(a.artist@),
            text::lowercase(b.artist@),
            title_a,
            title_b,
            reversed,
        ),
        SortBy::Album => {
            let album_a = text::lowercase(a.album@);
            let album_b = text::lowercase(b.album@);
            ||| ahead(album_a, album_b, reversed)
            ||| album_a == album_b && !reversed && a.track_number < b.track_number
            ||| album_a == album_b && reversed && b.track_number < a.track_number
            ||| album_a == album_b && a.track_number == b.track_number && (title_a
                == title_b || ahead(title_a, title_b, reversed))
        },
        SortBy::Year => in_turn(a.year@, b.year@, title_a, title_b, !reversed),
        SortBy::Added => title_a == title_b || ahead(title_a, title_b, !reversed),
        SortBy::Updated => title_a == title_b || ahead(title_a, title_b, !reversed),
    }
}

/// Songs stand by what the key is called after: by title, by artist, by album or
/// by year, without regard to case. What ties stands by title, and within an album
/// by track number first. Years run down, the others up, unless turned round.
pub proof fn songs_stand_by_what_the_key_names(
    list: Seq<Track>,
    by: SortBy,
    reversed: bool,
    i: int,
    j: int,
)
    requires
        0 <= i < j < list.len(),
    ensures
        sort::displayed(list, by, reversed).len() == list.len(),
        songs_in_turn(
            sort::displayed(list, by, reversed)[i],
            sort::displayed(list, by, reversed)[j],
            by,
            reversed,
        ),
{
    ranks_come_in_turn(list, by, reversed, i, j);
    a_sorted_list_holds_the_same_items(list, by, by.descends() != reversed);
    order::text_order_is_total(Seq::empty(), Seq::empty());
}

/// Whether one album stands ahead of another as the key asks, or ties with it.
pub open spec fn albums_in_turn(a: Album, b: Album, by: SortBy, reversed: bool) -> bool {
    let name_a = text::lowercase(a.name@);
    let name_b = text::lowercase(b.name@);
    match by {
        SortBy::Artist => in_turn(
            text::lowercase(a.artist@),
            text::lowercase(b.artist@),
            name_a,
            name_b,
            reversed,
        ),
        SortBy::Year => in_turn(a.year@, b.year@, name_a, name_b, !reversed),
        SortBy::Added => in_turn(a.date_added@, b.date_added@, name_a, name_b, !reversed),
        SortBy::Updated => name_a == name_b || ahead(name_a, name_b, !reversed),
        _ => name_a == name_b || ahead(name_a, name_b, reversed),
    }
}

/// Albums stand by what the key is called after: by name, by artist, by year or by
/// when they were added. What ties stands by name. Dates run down, the others up,
/// unless turned round.
pub proof fn albums_stand_by_what_the_key_names(
    list: Seq<Album>,
    by: SortBy,
    reversed: bool,
    i: int,
    j: int,
)
    requires
        0 <= i < j < list.len(),
    ensures
        sort::displayed(list, by, reversed).len() == list.len(),
        albums_in_turn(
            sort::displayed(list, by, reversed)[i],
            sort::displayed(list, by, reversed)[j],
            by,
            reversed,
        ),
{
    ranks_come_in_turn(list, by, reversed, i, j);
    a_sorted_list_holds_the_same_items(list, by, by.descends() != reversed);
    order::text_order_is_total(Seq::empty(), Seq::empty());
}

/// Whether one playlist stands ahead of another as the key asks, or ties with it.
pub open spec fn playlists_in_turn(a: Playlist, b: Playlist, by: SortBy, reversed: bool) -> bool {
    let name_a = text::lowercase(a.name@);
    let name_b = text::lowercase(b.name@);
    match by {
        SortBy::Added => in_turn(a.date_added@, b.date_added@, name_a, name_b, !reversed),
        SortBy::Updated => in_turn(
            a.last_modified@,
            b.last_modified@,
            name_a,
            name_b,
            !reversed,
        ),
        SortBy::Year => name_a == name_b || ahead(name_a, name_b, !reversed),
        _ => name_a == name_b || ahead(name_a, name_b, reversed),
    }
}

/// Playlists stand by what the key is called after: by name, by when they were
/// added or by when they were last changed. What ties stands by name. Dates run
/// down, names up, unless turned round.
pub proof fn playlists_stand_by_what_the_key_names(
    list: Seq<Playlist>,
    by: SortBy,
    reversed: bool,
    i: int,
    j: int,
)
    requires
        0 <= i < j < list.len(),
    ensures
        sort::displayed(list, by, reversed).len() == list.len(),
        playlists_in_turn(
            sort::displayed(list, by, reversed)[i],
            sort::displayed(list, by, reversed)[j],
            by,
            reversed,
        ),
{
    ranks_come_in_turn(list, by, reversed, i, j);
    a_sorted_list_holds_the_same_items(list, by, by.descends() != reversed);
    order::text_order_is_total(Seq::empty(), Seq::empty());
}

/// Artists stand by name, up unless turned round.
pub proof fn artists_stand_by_name(list: Seq<Artist>, reversed: bool, i: int, j: int)
    requires
        0 <= i < j < list.len(),
    ensures
        sort::displayed(list, SortBy::Title, reversed).len() == list.len(),
        ({
            let a = text::lowercase(sort::displayed(list, SortBy::Title, reversed)[i].name@);
            let b = text::lowercase(sort::displayed(list, SortBy::Title, reversed)[j].name@);
            a == b || ahead(a, b, reversed)
        }),
{
    ranks_come_in_turn(list, SortBy::Title, reversed, i, j);
    a_sorted_list_holds_the_same_items(list, SortBy::Title, SortBy::Title.descends() != reversed);
    order::text_order_is_total(Seq::empty(), Seq::empty());
}

} // verus!
