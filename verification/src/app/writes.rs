//! What a library write does to the rows on screen.
//!
//! Adding, removing, favouriting and un-favouriting are all **optimistic**: the
//! row changes the moment the command goes out. That is only honest if the
//! change can be taken back, so settling a write is as much a part of this as
//! sending one.

use vstd::prelude::*;

use crate::app::pages;
use crate::app::pages::{Page, PageView, Pages, PagesView};
use crate::app::shelf::{Shelf, ShelfView};
use crate::library;
use crate::music::{Entry, Track};
use crate::text;
use crate::view::SearchScope;

verus! {

/// A change to a track.
#[derive(Debug, Clone, Copy, PartialEq, Eq, Structural)]
pub enum Patch {
    InLibrary(bool),
    Favorite(bool),
}

/// A track, changed.
pub open spec fn patched(track: Track, patch: Patch) -> Track {
    match patch {
        Patch::InLibrary(on) => Track { in_library: on, ..track },
        Patch::Favorite(on) => Track { favorite: on, ..track },
    }
}

/// A track, changed if it is the one.
pub open spec fn patched_track(track: Track, id: Seq<char>, patch: Patch) -> Track {
    if text::text_view(track.catalog_id) == Some(id) {
        patched(track, patch)
    } else {
        track
    }
}

/// A row, changed if it is that song.
pub open spec fn patched_row(entry: Entry, id: Seq<char>, patch: Patch) -> Entry {
    match entry {
        Entry::Song(track) => Entry::Song(patched_track(track, id, patch)),
        _ => entry,
    }
}

/// Every track of a list that is the one, changed.
pub open spec fn patched_tracks(tracks: Seq<Track>, id: Seq<char>, patch: Patch) -> Seq<Track> {
    tracks.map_values(|t: Track| patched_track(t, id, patch))
}

/// Every row of a list that is that song, changed.
pub open spec fn patched_rows(rows: Seq<Entry>, id: Seq<char>, patch: Patch) -> Seq<Entry> {
    rows.map_values(|e: Entry| patched_row(e, id, patch))
}

/// Where a song first stands in a list, from `from` on.
pub open spec fn row_of(rows: Seq<Entry>, id: Seq<char>, from: int) -> Option<int>
    decreases rows.len() - from,
{
    if from < 0 || from >= rows.len() {
        None
    } else if rows[from].catalog() == Some(id) {
        Some(from)
    } else {
        row_of(rows, id, from + 1)
    }
}

/// The first row of a list that is that song, changed.
pub open spec fn patched_first(rows: Seq<Entry>, id: Seq<char>, patch: Patch) -> Seq<Entry> {
    match row_of(rows, id, 0) {
        Some(at) => rows.update(at, patched_row(rows[at], id, patch)),
        None => rows,
    }
}

fn patch_track(track: &Track, id: &str, patch: Patch) -> (r: Track)
    ensures
        r == patched_track(*track, id@, patch),
{
    let mut copy = track.clone();
    let found = match &track.catalog_id {
        Some(own) => text::same(own.as_str(), id),
        None => false,
    };
    if found {
        match patch {
            Patch::InLibrary(on) => {
                copy.in_library = on;
            },
            Patch::Favorite(on) => {
                copy.favorite = on;
            },
        }
    }
    copy
}

fn patch_row(entry: &Entry, id: &str, patch: Patch) -> (r: Entry)
    ensures
        r == patched_row(*entry, id@, patch),
{
    match entry {
        Entry::Song(track) => Entry::Song(patch_track(track, id, patch)),
        _ => entry.clone(),
    }
}

fn patch_tracks(tracks: &Vec<Track>, id: &str, patch: Patch) -> (r: Vec<Track>)
    ensures
        r@ == patched_tracks(tracks@, id@, patch),
{
    let mut out: Vec<Track> = Vec::new();
    let mut i: usize = 0;
    while i < tracks.len()
        invariant
            i <= tracks@.len(),
            out@ == patched_tracks(tracks@, id@, patch).take(i as int),
        decreases tracks@.len() - i,
    {
        out.push(patch_track(&tracks[i], id, patch));
        proof {
            assert(out@ =~= patched_tracks(tracks@, id@, patch).take(i + 1));
        }
        i += 1;
    }
    proof {
        assert(patched_tracks(tracks@, id@, patch).take(i as int) =~= patched_tracks(
            tracks@,
            id@,
            patch,
        ));
    }
    out
}

fn patch_rows(rows: &Vec<Entry>, id: &str, patch: Patch) -> (r: Vec<Entry>)
    ensures
        r@ == patched_rows(rows@, id@, patch),
{
    let mut out: Vec<Entry> = Vec::new();
    let mut i: usize = 0;
    while i < rows.len()
        invariant
            i <= rows@.len(),
            out@ == patched_rows(rows@, id@, patch).take(i as int),
        decreases rows@.len() - i,
    {
        out.push(patch_row(&rows[i], id, patch));
        proof {
            assert(out@ =~= patched_rows(rows@, id@, patch).take(i + 1));
        }
        i += 1;
    }
    proof {
        assert(patched_rows(rows@, id@, patch).take(i as int) =~= patched_rows(
            rows@,
            id@,
            patch,
        ));
    }
    out
}

fn find_row(rows: &Vec<Entry>, id: &str) -> (r: Option<usize>)
    ensures
        match r {
            Some(i) => row_of(rows@, id@, 0) == Some(i as int) && i < rows@.len(),
            None => row_of(rows@, id@, 0) is None,
        },
{
    let mut i: usize = 0;
    while i < rows.len()
        invariant
            row_of(rows@, id@, 0) == row_of(rows@, id@, i as int),
        decreases rows@.len() - i,
    {
        let found = match rows[i].catalog_id() {
            Some(own) => text::same(own.as_str(), id),
            None => false,
        };
        if found {
            return Some(i);
        }
        i += 1;
    }
    None
}

/// The tracks of a list that are not that one.
pub open spec fn without_track(tracks: Seq<Track>, id: Seq<char>) -> Seq<Track> {
    tracks.filter(|t: Track| text::text_view(t.catalog_id) != Some(id))
}

impl ShelfView {
    /// The shelf with a track changed wherever it is held: in the library, in
    /// the row on screen, and, for membership, among the catalog's results.
    pub open spec fn patched(self, id: Seq<char>, patch: Patch) -> ShelfView {
        ShelfView {
            rows: patched_first(self.rows, id, patch),
            tracks: patched_tracks(self.tracks, id, patch),
            catalog: match patch {
                Patch::InLibrary(_) => patched_rows(self.catalog, id, patch),
                Patch::Favorite(_) => self.catalog,
            },
            ..self
        }
    }

    /// The shelf without a track the library no longer holds. Its row leaves
    /// with it where the list mirrors the library.
    pub open spec fn without(self, id: Seq<char>) -> ShelfView {
        let left = without_track(self.tracks, id);
        if left.len() == self.tracks.len() {
            self
        } else {
            let place = if self.view.searches() == SearchScope::Library {
                row_of(self.visible(), id, 0)
            } else {
                None
            };
            ShelfView {
                tracks: left,
                rows: match place {
                    Some(at) => if at < self.rows.len() {
                        self.rows.remove(at)
                    } else {
                        self.rows
                    },
                    None => self.rows,
                },
                ..self
            }
        }
    }
}

impl Shelf {
    /// Change a track wherever it is held.
    pub fn patch(&mut self, id: &str, patch: Patch)
        ensures
            final(self)@ == old(self)@.patched(id@, patch),
    {
        if let Some(at) = find_row(&self.rows, id) {
            let row = patch_row(&self.rows[at], id, patch);
            self.rows.set(at, row);
        }
        self.tracks = patch_tracks(&self.tracks, id, patch);
        if let Patch::InLibrary(_) = patch {
            self.catalog = patch_rows(&self.catalog, id, patch);
        }
    }

    /// Drop a track the library no longer holds, without rebuilding the list.
    ///
    /// Where its row is has to be asked *before* it goes: what is visible is
    /// derived from the library.
    pub fn drop_removed_track(&mut self, id: &str)
        ensures
            final(self)@ == old(self)@.without(id@),
    {
        let place: Option<usize> = match self.view.scope() {
            SearchScope::Library => find_row(&self.visible_entries(), id),
            SearchScope::Catalog => None,
        };
        let ghost keep = |t: Track| text::text_view(t.catalog_id) != Some(id@);
        let mut left: Vec<Track> = Vec::new();
        let mut i: usize = 0;
        proof {
            reveal(Seq::filter);
            assert(self.tracks@.take(0).filter(keep) =~= Seq::empty());
        }
        while i < self.tracks.len()
            invariant
                i <= self.tracks@.len(),
                *self == *old(self),
                keep == |t: Track| text::text_view(t.catalog_id) != Some(id@),
                left@ == self.tracks@.take(i as int).filter(keep),
            decreases self.tracks@.len() - i,
        {
            proof {
                library::filter_grows(self.tracks@, keep, i as int);
            }
            let found = match &self.tracks[i].catalog_id {
                Some(own) => text::same(own.as_str(), id),
                None => false,
            };
            if !found {
                left.push(self.tracks[i].clone());
            }
            i += 1;
        }
        proof {
            assert(self.tracks@.take(i as int) =~= self.tracks@);
        }
        if left.len() == self.tracks.len() {
            return ;
        }
        self.tracks = left;
        if let Some(at) = place {
            if at < self.rows.len() {
                let _ = self.rows.remove(at);
            }
        }
    }
}

impl PagesView {
    /// The stack with a track changed on every page.
    pub open spec fn patched(self, id: Seq<char>, patch: Patch) -> PagesView {
        PagesView {
            stack: self.stack.map_values(
                |p: PageView| PageView { entries: patched_rows(p.entries, id, patch), ..p },
            ),
            ..self
        }
    }
}

impl Pages {
    /// Change a track on every page.
    pub fn patch(&mut self, id: &str, patch: Patch)
        ensures
            final(self)@ == old(self)@.patched(id@, patch),
    {
        let ghost want = old(self)@.patched(id@, patch).stack;
        let mut i: usize = 0;
        let n: usize = self.stack.len();
        while i < n
            invariant
                i <= n,
                n == self.stack@.len(),
                n == old(self).stack@.len(),
                want == old(self)@.patched(id@, patch).stack,
                self.next_id == old(self).next_id,
                self.todo == old(self).todo,
                forall|j: int| 0 <= j < i ==> (#[trigger] self.stack@[j])@ == want[j],
                forall|j: int| i <= j < n ==> #[trigger] self.stack@[j] == old(self).stack@[j],
            decreases n - i,
        {
            let entries = patch_rows(&self.stack[i].entries, id, patch);
            let page = Page {
                id: self.stack[i].id,
                entries,
                loaded: self.stack[i].loaded,
                failure: self.stack[i].failure.clone(),
                art: self.stack[i].art.clone(),
            };
            proof {
                assert(self.stack@[i as int] == old(self).stack@[i as int]);
                assert(old(self)@.stack[i as int] == old(self).stack@[i as int]@);
                assert(page@ =~= want[i as int]);
            }
            self.stack.set(i, page);
            i += 1;
        }
        proof {
            assert(pages::page_views(self.stack@) =~= want);
        }
    }
}

/// A write that was sent and is not yet confirmed.
///
/// Keyed by the id the command carried, so that two in flight cannot be taken
/// for each other. The row to correct goes by another id at times.
#[derive(Debug, PartialEq, Eq)]
pub struct PendingWrite {
    pub sent: String,
    pub catalog_id: String,
    /// What to put back if it is refused.
    pub undo: Patch,
}

/// A [`PendingWrite`] with its texts as sequences.
#[verifier::ext_equal]
pub struct PendingView {
    pub sent: Seq<char>,
    pub catalog_id: Seq<char>,
    pub undo: Patch,
}

impl View for PendingWrite {
    type V = PendingView;

    open spec fn view(&self) -> PendingView {
        PendingView { sent: self.sent@, catalog_id: self.catalog_id@, undo: self.undo }
    }
}

/// The writes that are not yet confirmed, one to an id.
#[derive(Debug)]
pub struct Pending {
    list: Vec<PendingWrite>,
}

/// The records of a list.
pub open spec fn records(list: Seq<PendingWrite>) -> Seq<PendingView> {
    list.map_values(|p: PendingWrite| p@)
}

impl View for Pending {
    type V = Seq<PendingView>;

    closed spec fn view(&self) -> Seq<PendingView> {
        records(self.list@)
    }
}

/// Whether no two records go by one id.
pub open spec fn apart(list: Seq<PendingView>) -> bool {
    forall|i: int, j: int|
        0 <= i < j < list.len() ==> (#[trigger] list[i]).sent != (#[trigger] list[j]).sent
}

/// The record of what was sent under an id, from `from` on.
pub open spec fn record_of(list: Seq<PendingView>, sent: Seq<char>, from: int) -> Option<int>
    decreases list.len() - from,
{
    if from < 0 || from >= list.len() {
        None
    } else if list[from].sent == sent {
        Some(from)
    } else {
        record_of(list, sent, from + 1)
    }
}

/// What was sent under an id and is not yet confirmed.
pub open spec fn awaited(list: Seq<PendingView>, sent: Seq<char>) -> Option<PendingView> {
    match record_of(list, sent, 0) {
        Some(at) => Some(list[at]),
        None => None,
    }
}

/// The records with what was sent under an id settled.
pub open spec fn settled(list: Seq<PendingView>, sent: Seq<char>) -> Seq<PendingView> {
    match record_of(list, sent, 0) {
        Some(at) => list.remove(at),
        None => list,
    }
}

/// The records with one more. A second write under one id takes the place of
/// the first.
pub open spec fn recorded(list: Seq<PendingView>, write: PendingView) -> Seq<PendingView> {
    settled(list, write.sent).push(write)
}

impl Pending {
    #[verifier::type_invariant]
    spec fn one_to_an_id(&self) -> bool {
        apart(records(self.list@))
    }

    pub fn new() -> (r: Self)
        ensures
            r@ == Seq::<PendingView>::empty(),
    {
        let r = Pending { list: Vec::new() };
        proof {
            assert(r@ =~= Seq::<PendingView>::empty());
        }
        r
    }

    /// Take the record of what was sent under an id, if there is one.
    pub fn settle(&mut self, sent: &str) -> (r: Option<PendingWrite>)
        ensures
            final(self)@ == settled(old(self)@, sent@),
            apart(final(self)@),
            match r {
                Some(write) => awaited(old(self)@, sent@) == Some(write@),
                None => awaited(old(self)@, sent@) is None,
            },
    {
        proof {
            use_type_invariant(&*self);
            settling_keeps_ids_apart(self@, sent@);
        }
        let ghost all = self@;
        let mut list: Vec<PendingWrite> = Vec::new();
        std::mem::swap(&mut list, &mut self.list);
        let mut found: Option<PendingWrite> = None;
        let mut i: usize = 0;
        while i < list.len() && found.is_none()
            invariant
                all == old(self)@,
                found is None ==> {
                    &&& records(list@) == all
                    &&& i <= list@.len()
                    &&& record_of(all, sent@, 0) == record_of(all, sent@, i as int)
                },
                found matches Some(write) ==> {
                    &&& records(list@) == settled(all, sent@)
                    &&& awaited(all, sent@) == Some(write@)
                },
            decreases list@.len() - i + if found is None {
                1int
            } else {
                0
            },
        {
            proof {
                assert(all.len() == list@.len());
                assert(all[i as int] == list@[i as int]@);
            }
            if text::same(list[i].sent.as_str(), sent) {
                found = Some(list.remove(i));
                proof {
                    assert(records(list@) =~= all.remove(i as int));
                }
            } else {
                i += 1;
            }
        }
        self.list = list;
        found
    }

    /// Remember a write.
    pub fn record(&mut self, write: PendingWrite)
        ensures
            final(self)@ == recorded(old(self)@, write@),
            apart(final(self)@),
    {
        proof {
            use_type_invariant(&*self);
            recording_keeps_ids_apart(self@, write@);
        }
        let sent: String = write.sent.clone();
        let _ = self.settle(sent.as_str());
        let ghost left = self@;
        let ghost more = write@;
        let mut list: Vec<PendingWrite> = Vec::new();
        std::mem::swap(&mut list, &mut self.list);
        list.push(write);
        proof {
            assert(records(list@) =~= left.push(more));
        }
        self.list = list;
    }
}

/// A track that was dropped is nowhere in the library any more.
pub proof fn a_removed_track_is_gone(shelf: ShelfView, id: Seq<char>)
    ensures
        forall|i: int|
            0 <= i < shelf.without(id).tracks.len() ==> text::text_view(
                (#[trigger] shelf.without(id).tracks[i]).catalog_id,
            ) != Some(id),
{
    let keep = |t: Track| text::text_view(t.catalog_id) != Some(id);
    what_stays(shelf.tracks, keep);
}

proof fn what_stays(tracks: Seq<Track>, keep: spec_fn(Track) -> bool)
    ensures
        tracks.filter(keep).len() <= tracks.len(),
        tracks.filter(keep).len() == tracks.len() ==> forall|i: int|
            0 <= i < tracks.len() ==> keep(#[trigger] tracks[i]),
        forall|i: int| 0 <= i < tracks.filter(keep).len() ==> keep(#[trigger] tracks.filter(keep)[i]),
    decreases tracks.len(),
{
    reveal(Seq::filter);
    if tracks.len() > 0 {
        let shorter = tracks.drop_last();
        what_stays(shorter, keep);
        assert forall|i: int|
            tracks.filter(keep).len() == tracks.len() && 0 <= i < tracks.len() implies keep(
            #[trigger] tracks[i],
        ) by {
            if i < shorter.len() {
                assert(shorter[i] == tracks[i]);
            }
        }
    }
}

/// A refused change that is put back leaves the track as it was.
pub proof fn a_patch_can_be_taken_back(track: Track, id: Seq<char>)
    ensures
        patched_track(
            patched_track(track, id, Patch::Favorite(!track.favorite)),
            id,
            Patch::Favorite(track.favorite),
        ) == track,
        patched_track(
            patched_track(track, id, Patch::InLibrary(!track.in_library)),
            id,
            Patch::InLibrary(track.in_library),
        ) == track,
{
}

/// Settling a write leaves one record to an id.
pub proof fn settling_keeps_ids_apart(list: Seq<PendingView>, sent: Seq<char>)
    requires
        apart(list),
    ensures
        apart(settled(list, sent)),
{
    record_of_is_first(list, sent, 0);
    let left = settled(list, sent);
    if let Some(at) = record_of(list, sent, 0) {
        assert forall|i: int, j: int| 0 <= i < j < left.len() implies (#[trigger] left[i]).sent != (
        #[trigger] left[j]).sent by {
            assert(left[i] == list[if i < at { i } else { i + 1 }]);
            assert(left[j] == list[if j < at { j } else { j + 1 }]);
        }
    }
}

/// Sending a write leaves one record to an id.
pub proof fn recording_keeps_ids_apart(list: Seq<PendingView>, write: PendingView)
    requires
        apart(list),
    ensures
        apart(recorded(list, write)),
{
    settling_keeps_ids_apart(list, write.sent);
    none_left(list, write.sent);
}

/// What was sent under an id is found again under it, and is the last that was.
/// Nothing is left of it once it is settled.
pub proof fn a_write_is_settled_by_its_own_id(list: Seq<PendingView>, write: PendingView)
    requires
        apart(list),
    ensures
        ({
            let after = recorded(list, write);
            &&& awaited(after, write.sent) == Some(write)
            &&& settled(after, write.sent) == settled(list, write.sent)
            &&& awaited(settled(after, write.sent), write.sent) is None
        }),
{
    let left = settled(list, write.sent);
    let after = recorded(list, write);
    none_left(list, write.sent);
    assert forall|i: int| 0 <= i < left.len() implies (#[trigger] after[i]).sent
        != write.sent by {
        assert(after[i] == left[i]);
    }
    found_at_end(after, write.sent, 0);
    assert(after.remove(left.len() as int) =~= left);
    record_of_is_first(left, write.sent, 0);
}

/// Two writes in flight are not taken for each other: sending or settling one
/// changes nothing about what is awaited under another id.
pub proof fn two_writes_in_flight_are_not_confused(
    list: Seq<PendingView>,
    write: PendingView,
    other: Seq<char>,
)
    requires
        apart(list),
        other != write.sent,
    ensures
        awaited(settled(list, write.sent), other) == awaited(list, other),
        awaited(recorded(list, write), other) == awaited(list, other),
{
    settling_keeps_ids_apart(list, write.sent);
    recording_keeps_ids_apart(list, write);
    let left = settled(list, write.sent);
    let after = recorded(list, write);
    record_of_is_first(list, write.sent, 0);
    record_of_is_first(list, other, 0);
    record_of_is_first(left, other, 0);
    record_of_is_first(after, other, 0);
    match awaited(list, other) {
        Some(found) => {
            let at = record_of(list, other, 0)->0;
            let k = match record_of(list, write.sent, 0) {
                Some(gone) => if at < gone {
                    at
                } else {
                    at - 1
                },
                None => at,
            };
            assert(left[k] == found);
            assert(after[k] == found);
        },
        None => {
            assert forall|i: int| 0 <= i < left.len() implies (#[trigger] left[i]).sent
                != other by {
                match record_of(list, write.sent, 0) {
                    Some(gone) => {
                        assert(left[i] == list[if i < gone { i } else { i + 1 }]);
                    },
                    None => {},
                }
            }
            assert forall|i: int| 0 <= i < after.len() implies (#[trigger] after[i]).sent
                != other by {
                if i < left.len() {
                    assert(after[i] == left[i]);
                }
            }
        },
    }
}

proof fn record_of_is_first(list: Seq<PendingView>, sent: Seq<char>, from: int)
    requires
        0 <= from,
    ensures
        match record_of(list, sent, from) {
            Some(at) => from <= at < list.len() && list[at].sent == sent,
            None => forall|i: int| from <= i < list.len() ==> (#[trigger] list[i]).sent != sent,
        },
    decreases list.len() - from,
{
    if from < list.len() && list[from].sent != sent {
        record_of_is_first(list, sent, from + 1);
    }
}

proof fn none_left(list: Seq<PendingView>, sent: Seq<char>)
    requires
        apart(list),
    ensures
        forall|i: int|
            0 <= i < settled(list, sent).len() ==> (#[trigger] settled(list, sent)[i]).sent
                != sent,
{
    record_of_is_first(list, sent, 0);
    let left = settled(list, sent);
    assert forall|i: int| 0 <= i < left.len() implies (#[trigger] left[i]).sent != sent by {
        if let Some(at) = record_of(list, sent, 0) {
            if i < at {
                assert(left[i] == list[i]);
                assert(list[i].sent != list[at].sent);
            } else {
                assert(left[i] == list[i + 1]);
                assert(list[at].sent != list[i + 1].sent);
            }
        }
    }
}

proof fn found_at_end(list: Seq<PendingView>, sent: Seq<char>, from: int)
    requires
        0 <= from < list.len(),
        list.last().sent == sent,
        forall|i: int| 0 <= i < list.len() - 1 ==> (#[trigger] list[i]).sent != sent,
    ensures
        record_of(list, sent, from) == Some(list.len() - 1),
    decreases list.len() - from,
{
    if from < list.len() - 1 {
        assert(list[from].sent != sent);
        found_at_end(list, sent, from + 1);
    }
}

} // verus!
