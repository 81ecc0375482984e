//! What holds of every queue a click makes.

use vstd::prelude::*;

use crate::ids;
use crate::protocol::Item;
use crate::queue;
use crate::queue::Start;
use crate::text;

verus! {

/// Leaving repeats out leaves each id in once, and no id out.
pub proof fn a_queue_holds_each_id_once(list: Seq<Seq<char>>)
    ensures
        queue::firsts(list).no_duplicates(),
        forall|id: Seq<char>| #[trigger] queue::firsts(list).contains(id) == list.contains(id),
    decreases list.len(),
{
    if list.len() > 0 {
        let shorter = list.drop_last();
        let before = queue::firsts(shorter);
        let after = queue::firsts(list);
        a_queue_holds_each_id_once(shorter);
        assert forall|id: Seq<char>| after.contains(id) == list.contains(id) by {
            assert(before.contains(id) == shorter.contains(id));
            if shorter.contains(id) {
                let i = choose|i: int| 0 <= i < shorter.len() && shorter[i] == id;
                assert(list[i] == id);
                let k = choose|k: int| 0 <= k < before.len() && before[k] == id;
                assert(after[k] == id);
            }
            if id == list.last() {
                assert(list[list.len() - 1] == id);
                if !before.contains(id) {
                    assert(after[before.len() as int] == id);
                }
            }
            if list.contains(id) && id != list.last() {
                let i = choose|i: int| 0 <= i < list.len() && list[i] == id;
                assert(shorter[i] == id);
            }
        }
    }
}

/// The streamable ids of a list are those of its streamable rows.
proof fn live_ids_are_rows(slots: Seq<Option<Seq<char>>>, dead: Set<Seq<char>>)
    ensures
        forall|id: Seq<char>|
            #[trigger] queue::live(slots, dead).contains(id) <==> slots.contains(Some(id)) && !dead.contains(
                id,
            ),
    decreases slots.len(),
{
    if slots.len() > 0 {
        let shorter = slots.drop_last();
        let before = queue::live(shorter, dead);
        let after = queue::live(slots, dead);
        live_ids_are_rows(shorter, dead);
        assert forall|id: Seq<char>|
            after.contains(id) <==> slots.contains(Some(id)) && !dead.contains(id) by {
            assert(before.contains(id) <==> shorter.contains(Some(id)) && !dead.contains(id));
            if before.contains(id) {
                let k = choose|k: int| 0 <= k < before.len() && before[k] == id;
                assert(after[k] == id);
            }
            if shorter.contains(Some(id)) {
                let i = choose|i: int| 0 <= i < shorter.len() && shorter[i] == Some(id);
                assert(slots[i] == Some(id));
            }
            if slots.last() == Some(id) {
                assert(slots[slots.len() - 1] == Some(id));
                if !dead.contains(id) {
                    assert(after[before.len() as int] == id);
                }
            } else if slots.contains(Some(id)) {
                let i = choose|i: int| 0 <= i < slots.len() && slots[i] == Some(id);
                assert(shorter[i] == Some(id));
            }
            if after.contains(id) && !before.contains(id) {
                let k = choose|k: int| 0 <= k < after.len() && after[k] == id;
                assert(k < before.len() ==> before[k] == id);
            }
        }
    }
}

/// The whole visible list is enqueued, and nothing else: an id is in the queue
/// exactly when some row holds it and it is not known to be dead.
pub proof fn the_whole_list_is_enqueued(slots: Seq<Option<Seq<char>>>, dead: Set<Seq<char>>)
    ensures
        queue::queued(slots, dead).no_duplicates(),
        forall|id: Seq<char>|
            #[trigger] queue::queued(slots, dead).contains(id) <==> slots.contains(Some(id))
                && !dead.contains(id),
{
    a_queue_holds_each_id_once(queue::live(slots, dead));
    live_ids_are_rows(slots, dead);
    assert forall|id: Seq<char>|
        queue::queued(slots, dead).contains(id) <==> slots.contains(Some(id)) && !dead.contains(
            id,
        ) by {
        assert(queue::queued(slots, dead).contains(id) == queue::live(slots, dead).contains(id));
    }
}

/// A queue keeps the list's order: of two ids in it, the one that comes first
/// came first in the list.
pub proof fn a_queue_keeps_the_order_of_its_list(list: Seq<Seq<char>>, i: int, j: int)
    requires
        0 <= i < j < queue::firsts(list).len(),
    ensures
        ids::first_place(list, queue::firsts(list)[i]) is Some,
        ids::first_place(list, queue::firsts(list)[j]) is Some,
        ids::first_place(list, queue::firsts(list)[i])->0 < ids::first_place(
            list,
            queue::firsts(list)[j],
        )->0,
    decreases list.len(),
{
    let shorter = list.drop_last();
    let before = queue::firsts(shorter);
    let after = queue::firsts(list);
    a_queue_holds_each_id_once(shorter);
    if j < before.len() {
        assert(after[i] == before[i] && after[j] == before[j]);
        a_queue_keeps_the_order_of_its_list(shorter, i, j);
    } else {
        assert(after[i] == before[i]);
        assert(after[j] == list.last());
        assert(before.contains(before[i]));
        assert(!before.contains(list.last()));
        assert(shorter.contains(before[i]) && !shorter.contains(list.last()));
        ids::first_place_is_first(shorter, before[i]);
        ids::first_place_is_first(shorter, list.last());
    }
}

/// What a click starts on is the first streamable row from the clicked one on:
/// no streamable row lies between.
pub proof fn a_click_starts_on_the_next_streamable_row(
    slots: Seq<Option<Seq<char>>>,
    row: int,
    dead: Set<Seq<char>>,
) -> (at: int)
    requires
        0 <= row,
    ensures
        match queue::first_live(slots, row, dead) {
            Some(id) => row <= at < slots.len() && slots[at] == Some(id) && !dead.contains(id) && (
            forall|k: int| row <= k < at ==> !queue::streamable(slots[k], dead)),
            None => forall|k: int| row <= k < slots.len() ==> !queue::streamable(slots[k], dead),
        },
    decreases slots.len() - row,
{
    if row >= slots.len() || queue::streamable(slots[row], dead) {
        row
    } else {
        a_click_starts_on_the_next_streamable_row(slots, row + 1, dead)
    }
}

/// The track a click names is in the queue the click makes, and the position
/// sent with the queue is where it stands. No filter on the way shifts it.
pub proof fn a_start_stands_where_it_is_said_to(
    slots: Seq<Option<Seq<char>>>,
    row: int,
    dead: Set<Seq<char>>,
)
    requires
        0 <= row,
        queue::first_live(slots, row, dead) is Some,
    ensures
        ({
            let songs = queue::queued(slots, dead);
            let start = queue::first_live(slots, row, dead);
            let place = queue::start_place(songs, start);
            0 <= place < songs.len() && start == Some(songs[place])
        }),
{
    let at = a_click_starts_on_the_next_streamable_row(slots, row, dead);
    let songs = queue::queued(slots, dead);
    let id = queue::first_live(slots, row, dead)->0;
    the_whole_list_is_enqueued(slots, dead);
    assert(slots[at] == Some(id));
    assert(songs.contains(id));
    ids::first_place_is_first(songs, id);
}

/// A shuffle can open on any streamable row, and only on those.
pub proof fn playable_rows_are_the_streamable_ones(
    slots: Seq<Option<Seq<char>>>,
    dead: Set<Seq<char>>,
    row: int,
)
    ensures
        queue::live_rows(slots, dead).contains(row) <==> 0 <= row < slots.len()
            && queue::streamable(slots[row], dead),
    decreases slots.len(),
{
    if slots.len() > 0 {
        let shorter = slots.drop_last();
        let before = queue::live_rows(shorter, dead);
        let after = queue::live_rows(slots, dead);
        playable_rows_are_the_streamable_ones(shorter, dead, row);
        if before.contains(row) {
            let k = choose|k: int| 0 <= k < before.len() && before[k] == row;
            assert(after[k] == row);
            assert(shorter[row] == slots[row]);
        }
        if row == slots.len() - 1 && queue::streamable(slots[row], dead) {
            assert(after[before.len() as int] == row);
        }
        if 0 <= row < slots.len() - 1 {
            assert(shorter[row] == slots[row]);
        }
        if after.contains(row) && !before.contains(row) {
            let k = choose|k: int| 0 <= k < after.len() && after[k] == row;
            assert(k < before.len() ==> before[k] == row);
        }
    }
}

/// A shuffle never starts on a row that would fall back to the top: a queue
/// built from a playable row opens on that row's own track.
pub proof fn a_playable_row_opens_on_itself(
    slots: Seq<Option<Seq<char>>>,
    dead: Set<Seq<char>>,
    row: int,
)
    requires
        queue::live_rows(slots, dead).contains(row),
    ensures
        0 <= row < slots.len(),
        queue::first_live(slots, row, dead) == slots[row],
        queue::first_live(slots, row, dead) is Some,
{
    playable_rows_are_the_streamable_ones(slots, dead, row);
}

/// A queue in another order is still the same queue.
pub proof fn a_shuffled_queue_is_the_same_queue(
    queue: Seq<Item>,
    shuffled: Seq<Item>,
    songs: Seq<Seq<char>>,
)
    requires
        queue::item_ids(queue).to_multiset() == queue::item_ids(shuffled).to_multiset(),
    ensures
        queue::same_songs(queue, songs) == queue::same_songs(shuffled, songs),
{
}

proof fn first_called_is_first(queue: Seq<Item>, id: Seq<char>, from: int)
    requires
        0 <= from,
    ensures
        match queue::first_called(queue, id, from) {
            Some(i) => from <= i < queue.len() && queue[i].answers_to(id) && (forall|k: int|
                from <= k < i ==> !queue[k].answers_to(id)),
            None => forall|k: int| from <= k < queue.len() ==> !queue[k].answers_to(id),
        },
    decreases queue.len() - from,
{
    if from < queue.len() && !queue[from].answers_to(id) {
        first_called_is_first(queue, id, from + 1);
    }
}

/// A clicked row is found if the queue still holds its track anywhere, and what
/// is found answers to its id. Where the click's own position still answers, it
/// is that copy and no other.
pub proof fn a_click_finds_its_own_copy(queue: Seq<Item>, at: int, id: Seq<char>)
    ensures
        match queue::place_at(queue, at, id) {
            Some(i) => 0 <= i < queue.len() && queue[i].answers_to(id),
            None => forall|k: int| 0 <= k < queue.len() ==> !queue[k].answers_to(id),
        },
        0 <= at < queue.len() && queue[at].answers_to(id) ==> queue::place_at(queue, at, id)
            == Some(at),
{
    first_called_is_first(queue, id, 0);
}

/// A queue runs in the order of its rows: whatever row holds a later track, one
/// further up holds an earlier one.
pub proof fn a_queue_runs_in_the_order_of_its_rows(
    slots: Seq<Option<Seq<char>>>,
    dead: Set<Seq<char>>,
    i: int,
    j: int,
    row: int,
) -> (above: int)
    requires
        0 <= i < j < queue::queued(slots, dead).len(),
        0 <= row < slots.len(),
        slots[row] == Some(queue::queued(slots, dead)[j]),
    ensures
        0 <= above < row,
        slots[above] == Some(queue::queued(slots, dead)[i]),
    decreases slots.len(),
{
    let shorter = slots.drop_last();
    let before = queue::queued(shorter, dead);
    let after = queue::queued(slots, dead);
    let lived = queue::live(shorter, dead);
    the_whole_list_is_enqueued(shorter, dead);
    if queue::streamable(slots.last(), dead) {
        assert(lived.push(slots.last()->0).drop_last() =~= lived);
    }
    if j < before.len() {
        assert(after[i] == before[i] && after[j] == before[j]);
        if row < shorter.len() {
            assert(shorter[row] == slots[row]);
            let above = a_queue_runs_in_the_order_of_its_rows(shorter, dead, i, j, row);
            assert(shorter[above] == slots[above]);
            above
        } else {
            assert(before.contains(before[j]));
            assert(shorter.contains(Some(before[j])));
            let k = choose|k: int| 0 <= k < shorter.len() && shorter[k] == Some(before[j]);
            let above = a_queue_runs_in_the_order_of_its_rows(shorter, dead, i, j, k);
            assert(shorter[above] == slots[above]);
            above
        }
    } else {
        assert(after[i] == before[i]);
        assert(before.contains(before[i]));
        assert(shorter.contains(Some(before[i])));
        let above = choose|k: int| 0 <= k < shorter.len() && shorter[k] == Some(before[i]);
        assert(slots[above] == shorter[above]);
        if row < shorter.len() {
            assert(shorter[row] == Some(after[j]));
            assert(shorter.contains(Some(after[j])));
            the_whole_list_is_enqueued(slots, dead);
            assert(after.contains(after[j]));
            assert(before.contains(after[j]));
        }
        above
    }
}

/// What a song is asked for by, of those that have anything to be asked for by.
pub open spec fn asked_for(queue: Seq<Item>) -> Seq<Seq<char>> {
    queue.filter(|item: Item| item.catalog_id is Some || item.id is Some).map_values(
        |item: Item|
            if item.catalog_id is Some {
                item.catalog_id->0@
            } else {
                item.id->0@
            },
    )
}

/// The ids of a queue are its items' own, in order: the catalog id, or failing
/// that the other, and none for an item that has neither.
pub proof fn the_ids_of_a_queue_are_its_items_own(queue: Seq<Item>)
    ensures
        queue::item_ids(queue) == asked_for(queue),
    decreases queue.len(),
{
    reveal(Seq::filter);
    if queue.len() > 0 {
        the_ids_of_a_queue_are_its_items_own(queue.drop_last());
        assert(queue::item_ids(queue) =~= asked_for(queue));
    } else {
        assert(queue::item_ids(queue) =~= asked_for(queue));
    }
}

/// Whether a character is a digit.
#[verifier::opaque]
pub open spec fn is_digit(c: char) -> bool {
    c == '0' || c == '1' || c == '2' || c == '3' || c == '4' || c == '5' || c == '6' || c == '7'
        || c == '8' || c == '9'
}

/// Whether a text has, at or after `from`, a run of digits from `i` up to `j` with
/// none right before it and none right after it.
pub open spec fn is_run(words: Seq<char>, from: int, i: int, j: int) -> bool {
    &&& from <= i < j <= words.len()
    &&& forall|k: int| i <= k < j ==> is_digit(#[trigger] words[k])
    &&& i == from || !is_digit(words[i - 1])
    &&& j == words.len() || !is_digit(words[j])
}

/// Whether a text has a run of digits that something else follows.
spec fn has_ended(tail: Seq<char>, run: Seq<char>) -> bool {
    exists|i: int, j: int|
        #[trigger] is_run(tail, 0, i, j) && j < tail.len() && tail.subrange(i, j) == run
}

proof fn a_digit_ends_no_run(tail: Seq<char>, run: Seq<char>)
    requires
        tail.len() > 0,
        is_digit(tail.last()),
    ensures
        has_ended(tail, run) <==> has_ended(tail.drop_last(), run),
{
    let shorter = tail.drop_last();
    if has_ended(shorter, run) {
        let (i, j) = choose|i: int, j: int|
            #[trigger] is_run(shorter, 0, i, j) && j < shorter.len() && shorter.subrange(i, j)
                == run;
        run_grows(tail, i, j);
    }
    if has_ended(tail, run) {
        let (i, j) = choose|i: int, j: int|
            #[trigger] is_run(tail, 0, i, j) && j < tail.len() && tail.subrange(i, j) == run;
        assert(j < tail.len() - 1);
        run_shrinks(tail, i, j);
    }
}

proof fn run_grows(tail: Seq<char>, i: int, j: int)
    requires
        tail.len() > 0,
        is_run(tail.drop_last(), 0, i, j),
        j < tail.len() - 1,
    ensures
        is_run(tail, 0, i, j),
        tail.subrange(i, j) == tail.drop_last().subrange(i, j),
{
    let shorter = tail.drop_last();
    assert forall|k: int| i <= k < j implies is_digit(#[trigger] tail[k]) by {
        assert(shorter[k] == tail[k]);
    }
    assert(tail.subrange(i, j) =~= shorter.subrange(i, j));
}

proof fn run_shrinks(tail: Seq<char>, i: int, j: int)
    requires
        tail.len() > 0,
        is_run(tail, 0, i, j),
        j < tail.len() - 1,
    ensures
        is_run(tail.drop_last(), 0, i, j),
        tail.subrange(i, j) == tail.drop_last().subrange(i, j),
{
    let shorter = tail.drop_last();
    assert forall|k: int| i <= k < j implies is_digit(#[trigger] shorter[k]) by {
        assert(shorter[k] == tail[k]);
    }
    assert(tail.subrange(i, j) =~= shorter.subrange(i, j));
}

proof fn another_character_ends_a_run(tail: Seq<char>, open: int, run: Seq<char>)
    requires
        tail.len() > 0,
        !is_digit(tail.last()),
        run.len() > 0,
        0 <= open < tail.len(),
        forall|k: int| open <= k < tail.len() - 1 ==> is_digit(#[trigger] tail[k]),
        open == 0 || !is_digit(tail[open - 1]),
    ensures
        has_ended(tail, run) <==> has_ended(tail.drop_last(), run) || run
            == tail.drop_last().skip(open),
{
    let shorter = tail.drop_last();
    let n = tail.len() as int;
    if has_ended(shorter, run) {
        let (i, j) = choose|i: int, j: int|
            #[trigger] is_run(shorter, 0, i, j) && j < shorter.len() && shorter.subrange(i, j)
                == run;
        run_grows(tail, i, j);
    }
    if run == shorter.skip(open) {
        assert(tail.subrange(open, n - 1) =~= run);
        assert(is_run(tail, 0, open, n - 1));
    }
    if has_ended(tail, run) {
        let (i, j) = choose|i: int, j: int|
            #[trigger] is_run(tail, 0, i, j) && j < tail.len() && tail.subrange(i, j) == run;
        if j < n - 1 {
            run_shrinks(tail, i, j);
        } else {
            if i < open {
                assert(is_digit(tail[open - 1]));
            }
            if open < i {
                assert(is_digit(tail[i - 1]));
            }
            assert(run =~= shorter.skip(open));
        }
    }
}

proof fn runs_are_cut_out(tail: Seq<char>) -> (open: int)
    ensures
        ({
            let runs = queue::digit_runs(tail);
            &&& runs.len() > 0
            &&& 0 <= open <= tail.len()
            &&& runs.last() == tail.skip(open)
            &&& forall|k: int| open <= k < tail.len() ==> is_digit(#[trigger] tail[k])
            &&& open == 0 || !is_digit(tail[open - 1])
            &&& forall|run: Seq<char>|
                run.len() > 0 ==> (#[trigger] runs.drop_last().contains(run) <==> has_ended(
                    tail,
                    run,
                ))
        }),
    decreases tail.len(),
{
    let runs = queue::digit_runs(tail);
    if tail.len() == 0 {
        assert(tail.skip(0) =~= Seq::empty());
        assert(runs.drop_last().len() == 0);
        0
    } else {
        let shorter = tail.drop_last();
        let before = queue::digit_runs(shorter);
        let open = runs_are_cut_out(shorter);
        let c = tail.last();
        assert(('0' <= c <= '9') == is_digit(c)) by {
            reveal(is_digit);
        }
        let n = tail.len() as int;
        assert forall|k: int| open <= k < n - 1 implies is_digit(#[trigger] tail[k]) by {
            assert(shorter[k] == tail[k]);
        }
        if is_digit(c) {
            assert(runs.drop_last() =~= before.drop_last());
            assert(runs.last() =~= tail.skip(open));
            assert forall|run: Seq<char>| run.len() > 0 implies (
            #[trigger] runs.drop_last().contains(run) <==> has_ended(tail, run)) by {
                assert(before.drop_last().contains(run) <==> has_ended(shorter, run));
                a_digit_ends_no_run(tail, run);
            }
            open
        } else {
            assert(runs.drop_last() =~= before);
            assert(runs.last() =~= tail.skip(n));
            assert forall|run: Seq<char>| run.len() > 0 implies (
            #[trigger] runs.drop_last().contains(run) <==> has_ended(tail, run)) by {
                assert(before.drop_last().contains(run) <==> has_ended(shorter, run));
                another_character_ends_a_run(tail, open, run);
                if before.contains(run) {
                    let k = choose|k: int| 0 <= k < before.len() && before[k] == run;
                    if k < before.len() - 1 {
                        assert(before.drop_last()[k] == run);
                    }
                }
                if before.drop_last().contains(run) {
                    let k = choose|k: int|
                        0 <= k < before.drop_last().len() && before.drop_last()[k] == run;
                    assert(before[k] == run);
                }
                if run == before.last() {
                    assert(before[before.len() - 1] == run);
                }
            }
            n
        }
    }
}

proof fn long_runs_are_the_long_ones(runs: Seq<Seq<char>>)
    ensures
        forall|run: Seq<char>| #[trigger]
            queue::long_runs(runs).contains(run) <==> runs.contains(run) && run.len() >= 6,
    decreases runs.len(),
{
    if runs.len() > 0 {
        let shorter = runs.drop_last();
        let before = queue::long_runs(shorter);
        let after = queue::long_runs(runs);
        long_runs_are_the_long_ones(shorter);
        assert forall|run: Seq<char>| #[trigger]
            after.contains(run) <==> runs.contains(run) && run.len() >= 6 by {
            assert(before.contains(run) <==> shorter.contains(run) && run.len() >= 6);
            if before.contains(run) {
                let k = choose|k: int| 0 <= k < before.len() && before[k] == run;
                assert(after[k] == run);
            }
            if shorter.contains(run) {
                let k = choose|k: int| 0 <= k < shorter.len() && shorter[k] == run;
                assert(runs[k] == run);
            }
            if runs.last() == run {
                assert(runs[runs.len() - 1] == run);
                if run.len() >= 6 {
                    assert(after[before.len() as int] == run);
                }
            } else if runs.contains(run) {
                let k = choose|k: int| 0 <= k < runs.len() && runs[k] == run;
                assert(shorter[k] == run);
            }
            if after.contains(run) && !before.contains(run) {
                let k = choose|k: int| 0 <= k < after.len() && after[k] == run;
                assert(k < before.len() ==> before[k] == run);
            }
        }
    }
}

/// A refusal names the numbers of six digits or more that come after its first
/// words of refusal, each whole, and no others.
pub proof fn a_refusal_names_its_ids(detail: Seq<char>, at: int, id: Seq<char>)
    requires
        text::occurs_at(detail, "could not be resolved"@, at),
        forall|k: int| 0 <= k < at ==> !text::occurs_at(detail, "could not be resolved"@, k),
    ensures
        queue::named_dead(detail).contains(id) <==> id.len() >= 6 && exists|i: int, j: int|
            #[trigger] is_run(detail, at + "could not be resolved"@.len(), i, j) && detail.subrange(
                i,
                j,
            ) == id,
{
    let from = at + "could not be resolved"@.len();
    let tail = detail.skip(from);
    queue::found_is_first(detail, "could not be resolved"@, at);
    assert(queue::named_dead(detail) == queue::long_runs(queue::digit_runs(tail)));
    let runs = queue::digit_runs(tail);
    long_runs_are_the_long_ones(runs);
    let open = runs_are_cut_out(tail);
    assert(runs =~= runs.drop_last().push(runs.last()));
    let n = tail.len() as int;
    if id.len() >= 6 {
        assert(runs.drop_last().contains(id) <==> has_ended(tail, id));
        if runs.contains(id) {
            let k = choose|k: int| 0 <= k < runs.len() && runs[k] == id;
            if k < runs.len() - 1 {
                assert(runs.drop_last()[k] == id);
                let (i, j) = choose|i: int, j: int|
                    #[trigger] is_run(tail, 0, i, j) && j < tail.len() && tail.subrange(i, j) == id;
                run_shifts(detail, from, i, j);
            } else {
                assert(tail.subrange(open, n) =~= id);
                assert(is_run(tail, 0, open, n));
                run_shifts(detail, from, open, n);
            }
        }
        if exists|i: int, j: int|
            #[trigger] is_run(detail, from, i, j) && detail.subrange(i, j) == id {
            let (i, j) = choose|i: int, j: int|
                #[trigger] is_run(detail, from, i, j) && detail.subrange(i, j) == id;
            run_shifts_back(detail, from, i, j);
            if j - from < n {
                let k = choose|k: int|
                    0 <= k < runs.drop_last().len() && runs.drop_last()[k] == id;
                assert(runs[k] == id);
            } else {
                assert(i - from == open) by {
                    if i - from < open {
                        assert(is_digit(tail[open - 1]));
                    }
                    if open < i - from {
                        assert(is_digit(tail[i - from - 1]));
                    }
                }
                assert(id =~= tail.skip(open));
                assert(runs[runs.len() - 1] == id);
            }
        }
    }
}

proof fn run_shifts(words: Seq<char>, from: int, i: int, j: int)
    requires
        0 <= from <= words.len(),
        is_run(words.skip(from), 0, i, j),
    ensures
        is_run(words, from, from + i, from + j),
        words.subrange(from + i, from + j) == words.skip(from).subrange(i, j),
{
    let tail = words.skip(from);
    assert forall|k: int| from + i <= k < from + j implies is_digit(#[trigger] words[k]) by {
        assert(tail[k - from] == words[k]);
    }
    assert(words.subrange(from + i, from + j) =~= tail.subrange(i, j));
}

proof fn run_shifts_back(words: Seq<char>, from: int, i: int, j: int)
    requires
        0 <= from <= words.len(),
        is_run(words, from, i, j),
    ensures
        is_run(words.skip(from), 0, i - from, j - from),
        words.subrange(i, j) == words.skip(from).subrange(i - from, j - from),
{
    let tail = words.skip(from);
    assert forall|k: int| i - from <= k < j - from implies is_digit(#[trigger] tail[k]) by {
        assert(tail[k] == words[k + from]);
    }
    assert(words.subrange(i, j) =~= tail.subrange(i - from, j - from));
}

/// A message that does not say that something could not be resolved names nothing,
/// whatever numbers it holds.
pub proof fn another_message_names_nothing(detail: Seq<char>)
    requires
        forall|k: int| !text::occurs_at(detail, "could not be resolved"@, k),
    ensures
        queue::named_dead(detail).len() == 0,
{
    queue::absent_is_none(detail, "could not be resolved"@);
}

/// The Play button states that the queue is in order, the Shuffle button that it is
/// shuffled, whatever is loaded. A click states that a new queue is in order, and
/// leaves the mode of one that is loaded alone.
pub proof fn each_button_states_its_mode(creating: bool)
    ensures
        Start::InOrder.stated(creating) == Some(false),
        Start::Shuffled.stated(creating) == Some(true),
        Start::Clicked.stated(true) == Some(false),
        Start::Clicked.stated(false) is None,
{
}

/// A start stands at the first place that holds its id, and at the top where none
/// does.
pub proof fn a_start_is_the_first_of_its_id(songs: Seq<Seq<char>>, start: Option<Seq<char>>)
    ensures
        ({
            let place = queue::start_place(songs, start);
            &&& start is Some && songs.contains(start->0) ==> 0 <= place < songs.len()
                && songs[place] == start->0 && forall|k: int|
                0 <= k < place ==> songs[k] != start->0
            &&& start is None || !songs.contains(start->0) ==> place == 0
        }),
{
    if start is Some {
        ids::first_place_is_first(songs, start->0);
    }
}

/// A queue holds a list of songs exactly when each id stands in both equally often.
pub proof fn the_same_songs_are_each_as_often(queue: Seq<Item>, songs: Seq<Seq<char>>)
    ensures
        queue::same_songs(queue, songs) <==> forall|id: Seq<char>|
            #[trigger] asked_for(queue).to_multiset().count(id) == songs.to_multiset().count(id),
{
    the_ids_of_a_queue_are_its_items_own(queue);
    if forall|id: Seq<char>|
        #[trigger] asked_for(queue).to_multiset().count(id) == songs.to_multiset().count(id) {
        assert(asked_for(queue).to_multiset() =~= songs.to_multiset());
    }
}

/// The rows a shuffle may open on come from the top down, each once.
pub proof fn playable_rows_come_from_the_top(
    slots: Seq<Option<Seq<char>>>,
    dead: Set<Seq<char>>,
    i: int,
    j: int,
)
    requires
        0 <= i < j < queue::live_rows(slots, dead).len(),
    ensures
        queue::live_rows(slots, dead)[i] < queue::live_rows(slots, dead)[j],
    decreases slots.len(),
{
    let shorter = slots.drop_last();
    let before = queue::live_rows(shorter, dead);
    if j < before.len() {
        playable_rows_come_from_the_top(shorter, dead, i, j);
    } else {
        assert(before.contains(before[i]));
        playable_rows_are_the_streamable_ones(shorter, dead, before[i]);
    }
}

/// A row can be streamed when it holds an id that is not known to be dead.
pub proof fn a_row_streams_unless_it_is_dead(slot: Option<Seq<char>>, dead: Set<Seq<char>>)
    ensures
        queue::streamable(slot, dead) <==> slot is Some && !dead.contains(slot->0),
{
}

} // verus!
