//! Turning a click into a queue, and keeping ours honest against the player's.
//!
//! The player owns the queue and this side mirrors it, so a click sends the
//! **whole** visible list in one go and names its starting track **by id**. An
//! index carried across a filter, a round trip or a user action starts the
//! wrong song.

use vstd::prelude::*;

use crate::ids;
use crate::ids::IdSet;
use crate::music::Entry;
use crate::protocol::Item;
use crate::text;

verus! {

/// What the player says of a queue it will not take.
pub open spec fn refusal() -> Seq<char> {
    "could not be resolved"@
}

/// What follows the first `needle` in a text, if there is one.
pub open spec fn after_first(detail: Seq<char>, needle: Seq<char>) -> Option<Seq<char>>
    decreases detail.len(),
{
    if needle.is_prefix_of(detail) {
        Some(detail.skip(needle.len() as int))
    } else if detail.len() == 0 {
        None
    } else {
        after_first(detail.drop_first(), needle)
    }
}

/// A text cut at every character that is not a digit.
pub open spec fn digit_runs(tail: Seq<char>) -> Seq<Seq<char>>
    decreases tail.len(),
{
    if tail.len() == 0 {
        seq![Seq::empty()]
    } else {
        let before = digit_runs(tail.drop_last());
        if '0' <= tail.last() <= '9' {
            before.drop_last().push(before.last().push(tail.last()))
        } else {
            before.push(Seq::empty())
        }
    }
}

/// The runs long enough to be an id.
pub open spec fn long_runs(runs: Seq<Seq<char>>) -> Seq<Seq<char>>
    decreases runs.len(),
{
    if runs.len() == 0 {
        Seq::empty()
    } else if runs.last().len() >= 6 {
        long_runs(runs.drop_last()).push(runs.last())
    } else {
        long_runs(runs.drop_last())
    }
}

/// The ids a refusal names.
pub open spec fn named_dead(detail: Seq<char>) -> Seq<Seq<char>> {
    match after_first(detail, refusal()) {
        Some(tail) => long_runs(digit_runs(tail)),
        None => Seq::empty(),
    }
}

/// What follows the first needle in a text is what comes after it.
pub proof fn found_is_first(detail: Seq<char>, needle: Seq<char>, i: int)
    requires
        text::occurs_at(detail, needle, i),
        forall|j: int| 0 <= j < i ==> !text::occurs_at(detail, needle, j),
    ensures
        after_first(detail, needle) == Some(detail.skip(i + needle.len())),
    decreases detail.len(),
{
    if i == 0 {
        assert(detail.subrange(0, needle.len() as int) =~= needle);
        assert(needle.is_prefix_of(detail));
    } else {
        assert(!text::occurs_at(detail, needle, 0));
        if needle.is_prefix_of(detail) {
            assert(detail.subrange(0, needle.len() as int) =~= needle);
        }
        let rest = detail.drop_first();
        assert(rest.subrange(i - 1, i - 1 + needle.len()) =~= detail.subrange(
            i,
            i + needle.len(),
        ));
        assert forall|j: int| 0 <= j < i - 1 implies !text::occurs_at(rest, needle, j) by {
            assert(!text::occurs_at(detail, needle, j + 1));
            if j + needle.len() <= rest.len() {
                assert(rest.subrange(j, j + needle.len()) =~= detail.subrange(
                    j + 1,
                    j + 1 + needle.len(),
                ));
            }
        }
        found_is_first(rest, needle, i - 1);
        assert(rest.skip(i - 1 + needle.len()) =~= detail.skip(i + needle.len()));
    }
}

/// Nothing follows a needle that a text does not hold.
pub proof fn absent_is_none(detail: Seq<char>, needle: Seq<char>)
    requires
        !text::occurs(detail, needle),
    ensures
        after_first(detail, needle) is None,
    decreases detail.len(),
{
    if needle.is_prefix_of(detail) {
        assert(detail.subrange(0, needle.len() as int) =~= needle);
        assert(text::occurs_at(detail, needle, 0));
    } else if detail.len() > 0 {
        let rest = detail.drop_first();
        assert forall|j: int| !text::occurs_at(rest, needle, j) by {
            if text::occurs_at(rest, needle, j) {
                assert(rest.subrange(j, j + needle.len()) =~= detail.subrange(
                    j + 1,
                    j + 1 + needle.len(),
                ));
                assert(text::occurs_at(detail, needle, j + 1));
            }
        }
        absent_is_none(rest, needle);
    }
}

/// Pull the ids out of the player's refusal of a queue.
///
/// A queue is taken whole or not at all: if a single id cannot be resolved all
/// of it is refused, and the error names the offenders:
///
/// ```text
/// NOT_FOUND; One or more items could not be resolved: 1550626760, 1526511025
/// ```
///
/// Deliberately loose: find the marker, then take digit runs, skipping stray
/// numbers too short to be ids. A reworded message yields no ids at all.
pub fn unresolvable_ids(detail: &str) -> (r: Vec<String>)
    ensures
        text::texts(r@) == named_dead(detail@),
{
    let marker = "could not be resolved";
    let whole: Vec<char> = text::chars_of(detail);
    let needle: Vec<char> = text::chars_of(marker);
    let from: usize = match text::find_in(&whole, &needle) {
        Some(i) => {
            proof {
                found_is_first(detail@, marker@, i as int);
            }
            i + needle.len()
        },
        None => {
            proof {
                absent_is_none(detail@, marker@);
            }
            let none: Vec<String> = Vec::new();
            proof {
                assert(text::texts(none@) =~= Seq::empty());
            }
            return none;
        },
    };
    let ghost tail = whole@.skip(from as int);
    let mut out: Vec<String> = Vec::new();
    let mut run = String::new();
    let ghost mut done: Seq<Seq<char>> = Seq::empty();
    let mut i: usize = from;
    proof {
        assert(tail.take(0) =~= Seq::empty());
        assert(digit_runs(tail.take(0)) =~= done.push(run@));
        assert(text::texts(out@) =~= long_runs(done));
    }
    while i < whole.len()
        invariant
            from <= i <= whole@.len(),
            tail == whole@.skip(from as int),
            digit_runs(tail.take(i - from)) == done.push(run@),
            text::texts(out@) == long_runs(done),
        decreases whole@.len() - i,
    {
        let c = whole[i];
        proof {
            assert(tail.take(i - from + 1).drop_last() =~= tail.take(i - from));
            assert(done.push(run@).drop_last() =~= done);
        }
        if '0' <= c && c <= '9' {
            run.push(c);
        } else {
            let full = run;
            run = String::new();
            let ghost before = text::texts(out@);
            let ghost piece = full@;
            if full.as_str().unicode_len() >= 6 {
                out.push(full);
                proof {
                    assert(text::texts(out@) =~= before.push(piece));
                }
            }
            proof {
                assert(done.push(piece).drop_last() =~= done);
                done = done.push(piece);
                assert(run@ =~= Seq::empty());
            }
        }
        i += 1;
    }
    proof {
        assert(tail.take(i - from) =~= tail);
        assert(done.push(run@).drop_last() =~= done);
    }
    let ghost before = text::texts(out@);
    let ghost piece = run@;
    if run.as_str().unicode_len() >= 6 {
        out.push(run);
        proof {
            assert(text::texts(out@) =~= before.push(piece));
        }
    }
    out
}

/// A list of ids, some rows having none.
pub open spec fn slots(visible: Seq<Entry>) -> Seq<Option<Seq<char>>> {
    visible.map_values(|e: Entry| e.catalog())
}

/// The same of a list of optional texts.
pub open spec fn slots_of(visible: Seq<Option<String>>) -> Seq<Option<Seq<char>>> {
    visible.map_values(|id: Option<String>| text::text_view(id))
}

/// Whether a row holds a track that can be streamed.
pub open spec fn streamable(slot: Option<Seq<char>>, dead: Set<Seq<char>>) -> bool {
    match slot {
        Some(id) => !dead.contains(id),
        None => false,
    }
}

/// The ids of the streamable rows, in order.
pub open spec fn live(slots: Seq<Option<Seq<char>>>, dead: Set<Seq<char>>) -> Seq<Seq<char>>
    decreases slots.len(),
{
    if slots.len() == 0 {
        Seq::empty()
    } else if streamable(slots.last(), dead) {
        live(slots.drop_last(), dead).push(slots.last()->0)
    } else {
        live(slots.drop_last(), dead)
    }
}

/// A list with every repeat left out, so that each id stands where it first
/// came.
pub open spec fn firsts(list: Seq<Seq<char>>) -> Seq<Seq<char>>
    decreases list.len(),
{
    if list.len() == 0 {
        Seq::empty()
    } else {
        let before = firsts(list.drop_last());
        if before.contains(list.last()) {
            before
        } else {
            before.push(list.last())
        }
    }
}

/// The queue a list makes: its streamable ids in order, each once.
pub open spec fn queued(slots: Seq<Option<Seq<char>>>, dead: Set<Seq<char>>) -> Seq<Seq<char>> {
    firsts(live(slots, dead))
}

/// The id of the first streamable row at `from` or after it.
pub open spec fn first_live(
    slots: Seq<Option<Seq<char>>>,
    from: int,
    dead: Set<Seq<char>>,
) -> Option<Seq<char>>
    decreases slots.len() - from,
{
    if from < 0 || from >= slots.len() {
        None
    } else if streamable(slots[from], dead) {
        slots[from]
    } else {
        first_live(slots, from + 1, dead)
    }
}

/// The rows of a list, from the top, that hold something streamable.
pub open spec fn live_rows(slots: Seq<Option<Seq<char>>>, dead: Set<Seq<char>>) -> Seq<int>
    decreases slots.len(),
{
    if slots.len() == 0 {
        Seq::empty()
    } else if streamable(slots.last(), dead) {
        live_rows(slots.drop_last(), dead).push(slots.len() - 1)
    } else {
        live_rows(slots.drop_last(), dead)
    }
}

/// Build a queue from a list of ids, plus **the id to start on**.
///
/// This returns an *id*, not an index: rows are filtered on the way to a queue,
/// and a retry filters again. An id cannot drift. If the chosen row cannot be
/// streamed, this starts on the first one after it that can.
///
/// Repeats are dropped, because the player collapses them when it builds its
/// queue, and every position after a repeat would then name another track.
pub fn queue_from_ids(visible: &[Option<String>], row: usize, dead: &IdSet) -> (r: (
    Vec<String>,
    Option<String>,
))
    ensures
        text::texts(r.0@) == queued(slots_of(visible@), dead@),
        text::text_view(r.1) == first_live(slots_of(visible@), row as int, dead@),
{
    let ghost all = slots_of(visible@);
    let mut songs: Vec<String> = Vec::new();
    let mut i: usize = 0;
    while i < visible.len()
        invariant
            i <= visible@.len(),
            all == slots_of(visible@),
            text::texts(songs@) == queued(all.take(i as int), dead@),
        decreases visible@.len() - i,
    {
        proof {
            assert(all.take(i + 1).drop_last() =~= all.take(i as int));
            assert(all.take(i + 1).last() == text::text_view(visible@[i as int]));
            let kept = live(all.take(i as int), dead@);
            if streamable(all[i as int], dead@) {
                assert(kept.push(all[i as int]->0).drop_last() =~= kept);
            }
        }
        if let Some(id) = &visible[i] {
            if !dead.contains(id.as_str()) && !ids::lists(songs.as_slice(), id.as_str()) {
                let ghost before = text::texts(songs@);
                songs.push(id.clone());
                proof {
                    assert(text::texts(songs@) =~= before.push(id@));
                }
            }
        }
        i += 1;
    }
    proof {
        assert(all.take(i as int) =~= all);
    }
    (songs, start_from(visible, row, dead))
}

fn start_from(visible: &[Option<String>], row: usize, dead: &IdSet) -> (r: Option<String>)
    ensures
        text::text_view(r) == first_live(slots_of(visible@), row as int, dead@),
{
    let mut i: usize = row;
    while i < visible.len()
        invariant
            first_live(slots_of(visible@), row as int, dead@) == first_live(
                slots_of(visible@),
                i as int,
                dead@,
            ),
        decreases visible@.len() - i,
    {
        if let Some(id) = &visible[i] {
            if !dead.contains(id.as_str()) {
                return Some(id.clone());
            }
        }
        i += 1;
    }
    None
}

/// Build a queue from the visible rows, plus **the id to start on**.
///
/// The whole visible list is enqueued, never just the clicked track: the player
/// can only go from one item to the next without a gap if it already holds
/// both. Rows that are doors rather than tracks have no id, and drop out.
pub fn queue_from(visible: &[Entry], row: usize, dead: &IdSet) -> (r: (Vec<String>, Option<String>))
    ensures
        text::texts(r.0@) == queued(slots(visible@), dead@),
        text::text_view(r.1) == first_live(slots(visible@), row as int, dead@),
{
    let mut rows: Vec<Option<String>> = Vec::new();
    let mut i: usize = 0;
    while i < visible.len()
        invariant
            i <= visible@.len(),
            slots_of(rows@) == slots(visible@).take(i as int),
        decreases visible@.len() - i,
    {
        let ghost before = slots_of(rows@);
        let id: Option<String> = match visible[i].catalog_id() {
            Some(id) => Some(id.clone()),
            None => None,
        };
        rows.push(id);
        proof {
            assert(slots_of(rows@) =~= before.push(visible@[i as int].catalog()));
            assert(slots(visible@).take(i + 1) =~= before.push(visible@[i as int].catalog()));
        }
        i += 1;
    }
    proof {
        assert(slots(visible@).take(i as int) =~= slots(visible@));
    }
    queue_from_ids(rows.as_slice(), row, dead)
}

/// The rows a shuffled queue could open on: those holding a track that can
/// actually be streamed.
///
/// Chosen among these rather than over the whole list: a queue built from a row
/// past the last streamable one names no start, and falls back to the top.
pub fn playable_rows(visible: &[Entry], dead: &IdSet) -> (r: Vec<usize>)
    ensures
        r@.map_values(|row: usize| row as int) == live_rows(slots(visible@), dead@),
{
    let ghost all = slots(visible@);
    let mut rows: Vec<usize> = Vec::new();
    let mut i: usize = 0;
    while i < visible.len()
        invariant
            i <= visible@.len(),
            all == slots(visible@),
            rows@.map_values(|row: usize| row as int) == live_rows(all.take(i as int), dead@),
        decreases visible@.len() - i,
    {
        proof {
            assert(all.take(i + 1).drop_last() =~= all.take(i as int));
        }
        if let Some(id) = visible[i].catalog_id() {
            if !dead.contains(id.as_str()) {
                let ghost before = rows@.map_values(|row: usize| row as int);
                rows.push(i);
                proof {
                    assert(rows@.map_values(|row: usize| row as int) =~= before.push(i as int));
                }
            }
        }
        i += 1;
    }
    proof {
        assert(all.take(i as int) =~= all);
    }
    rows
}

/// The ids of a queue's items, leaving out those that have none.
pub open spec fn item_ids(queue: Seq<Item>) -> Seq<Seq<char>>
    decreases queue.len(),
{
    if queue.len() == 0 {
        Seq::empty()
    } else {
        match queue.last().key() {
            Some(id) => item_ids(queue.drop_last()).push(id),
            None => item_ids(queue.drop_last()),
        }
    }
}

/// The ids of a queue's items, leaving out those that have none.
pub fn ids_of(queue: &[Item]) -> (r: Vec<String>)
    ensures
        text::texts(r@) == item_ids(queue@),
{
    let mut out: Vec<String> = Vec::new();
    let mut i: usize = 0;
    while i < queue.len()
        invariant
            i <= queue@.len(),
            text::texts(out@) == item_ids(queue@.take(i as int)),
        decreases queue@.len() - i,
    {
        proof {
            assert(queue@.take(i + 1).drop_last() =~= queue@.take(i as int));
        }
        if let Some(id) = queue[i].song_id() {
            let ghost before = text::texts(out@);
            out.push(id.clone());
            proof {
                assert(text::texts(out@) =~= before.push(id@));
            }
        }
        i += 1;
    }
    proof {
        assert(queue@.take(i as int) =~= queue@);
    }
    out
}

/// Whether a queue's items are these songs, each as often, in whatever order.
pub open spec fn same_songs(queue: Seq<Item>, songs: Seq<Seq<char>>) -> bool {
    item_ids(queue).to_multiset() == songs.to_multiset()
}

/// Whether the player is already holding exactly this set of songs.
///
/// Compared **unordered**: with shuffle on, the player's order is deliberately
/// not ours, and it is still the same queue.
pub fn holds(queue: &[Item], songs: &[String]) -> (r: bool)
    ensures
        r == (queue@.len() == songs@.len() && same_songs(queue@, text::texts(songs@))),
{
    if queue.len() != songs.len() {
        return false;
    }
    ids::same_ids(ids_of(queue).as_slice(), songs)
}

/// Where a start stands in a queue: at its place, or at the top.
pub open spec fn start_place(songs: Seq<Seq<char>>, start: Option<Seq<char>>) -> int {
    match start {
        Some(id) => match ids::first_place(songs, id) {
            Some(i) => i,
            None => 0,
        },
        None => 0,
    }
}

/// Where `start_id` sits in `songs`. Falls back to the top rather than failing:
/// playing from the start beats not playing.
pub fn start_index(songs: &[String], start_id: Option<&String>) -> (r: usize)
    ensures
        r == start_place(
            text::texts(songs@),
            match start_id {
                Some(id) => Some(id@),
                None => None,
            },
        ),
{
    match start_id {
        Some(id) => match ids::position_of(songs, id.as_str()) {
            Some(i) => i,
            None => 0,
        },
        None => 0,
    }
}

/// What a queue is **created** in, stated by whoever asked for it.
///
/// Shuffle is a mode of the *player*, not a property of the queue it was turned
/// on for, so the mode is a parameter rather than ambient state.
#[derive(Debug, Clone, Copy, PartialEq, Eq, Structural)]
pub enum Start {
    /// A **row click**: this list, from here. Sequential when it creates a
    /// queue; on a queue already loaded it is a move within it.
    Clicked,
    /// The **Play** button: this list, in order, whatever was on before.
    InOrder,
    /// The **Shuffle** button. A mode request either way.
    Shuffled,
}

impl Start {
    /// The mode to state, or `None` to leave the player's alone.
    pub open spec fn stated(self, creating: bool) -> Option<bool> {
        match self {
            Start::Clicked => if creating {
                Some(false)
            } else {
                None
            },
            Start::InOrder => Some(false),
            Start::Shuffled => Some(true),
        }
    }

    /// The mode to state, or `None` to leave the player's alone.
    ///
    /// `creating` is whether this is a new queue rather than a move within the
    /// one the player already holds.
    pub fn mode(self, creating: bool) -> (r: Option<bool>)
        ensures
            r == self.stated(creating),
    {
        match self {
            Start::Clicked => if creating {
                Some(false)
            } else {
                None
            },
            Start::InOrder => Some(false),
            Start::Shuffled => Some(true),
        }
    }

    /// Whether the player will put the queue in an order of its own.
    pub fn reorders(self) -> (r: bool)
        ensures
            r == (self == Start::Shuffled),
    {
        match self {
            Start::Shuffled => true,
            _ => false,
        }
    }
}

/// The first item that answers to an id, at `from` or after it.
pub open spec fn first_called(queue: Seq<Item>, id: Seq<char>, from: int) -> Option<int>
    decreases queue.len() - from,
{
    if from < 0 || from >= queue.len() {
        None
    } else if queue[from].answers_to(id) {
        Some(from)
    } else {
        first_called(queue, id, from + 1)
    }
}

/// Where a clicked row is: where it sat, if it is still there, and else
/// wherever its id is found first.
pub open spec fn place_at(queue: Seq<Item>, at: int, id: Seq<char>) -> Option<int> {
    if 0 <= at < queue.len() && queue[at].answers_to(id) {
        Some(at)
    } else {
        first_called(queue, id, 0)
    }
}

/// Where a clicked row is, from where it sat and what it was.
///
/// **The position is the key, the id is the check.** A queue may hold the same
/// track twice, so an id alone finds the first copy. If the queue moved since
/// the click the position is wrong, and searching by id is the better answer.
pub fn index_at(queue: &[Item], at: usize, id: &str) -> (r: Option<usize>)
    ensures
        match r {
            Some(i) => place_at(queue@, at as int, id@) == Some(i as int) && i < queue@.len(),
            None => place_at(queue@, at as int, id@) is None,
        },
{
    if at < queue.len() && queue[at].is_called(id) {
        return Some(at);
    }
    let mut i: usize = 0;
    while i < queue.len()
        invariant
            first_called(queue@, id@, 0) == first_called(queue@, id@, i as int),
            !(0 <= at < queue@.len() && queue@[at as int].answers_to(id@)),
        decreases queue@.len() - i,
    {
        if queue[i].is_called(id) {
            return Some(i);
        }
        i += 1;
    }
    None
}

} // verus!
