//! The library pane: four sections, a filter, and what a row leads to.

use vstd::prelude::*;
use vstd::view::View as _;

use crate::ipc::{PageKind, View};
use crate::music::Entry;
use crate::queue;
use crate::text;

verus! {

/// What the pane is showing: the library, the rest of the catalog, or a page
/// opened from either.
#[derive(Debug, PartialEq, Eq)]
pub enum Showing {
    Library,
    /// Whether an answer is still on its way.
    Catalog { searching: bool },
    /// An album, artist or playlist, named before it has arrived.
    Page { title: String, subtitle: String, loading: bool },
}

/// A [`Showing`] with its texts as sequences.
#[verifier::ext_equal]
pub enum ShowingView {
    Library,
    Catalog { searching: bool },
    Page { title: Seq<char>, subtitle: Seq<char>, loading: bool },
}

impl vstd::view::View for Showing {
    type V = ShowingView;

    open spec fn view(&self) -> ShowingView {
        match *self {
            Showing::Library => ShowingView::Library,
            Showing::Catalog { searching } => ShowingView::Catalog { searching },
            Showing::Page { title, subtitle, loading } => ShowingView::Page {
                title: title@,
                subtitle: subtitle@,
                loading,
            },
        }
    }
}

impl Showing {
    pub fn is_catalog(&self) -> (r: bool)
        ensures
            r == (self@ is Catalog),
    {
        match self {
            Showing::Catalog { searching: _ } => true,
            _ => false,
        }
    }
}

/// The library pane.
#[derive(Debug)]
pub struct Browser {
    pub view: View,
    pub rows: Vec<Entry>,
    pub cursor: usize,
    pub showing: Showing,
    /// The filter, and whether it is being typed into.
    pub filter: String,
    pub typing: bool,
    /// Whether the page showing was opened from the catalog.
    pub from_catalog: bool,
    /// How many matched before the list was cut.
    pub total: usize,
    /// The first row on screen.
    pub offset: usize,
}

/// A [`Browser`] with its texts as sequences.
#[verifier::ext_equal]
pub struct BrowserView {
    pub view: View,
    pub rows: Seq<Entry>,
    pub cursor: int,
    pub showing: ShowingView,
    pub filter: Seq<char>,
    pub typing: bool,
    pub from_catalog: bool,
    pub total: int,
    pub offset: int,
}

impl vstd::view::View for Browser {
    type V = BrowserView;

    open spec fn view(&self) -> BrowserView {
        BrowserView {
            view: self.view,
            rows: self.rows@,
            cursor: self.cursor as int,
            showing: self.showing@,
            filter: self.filter@,
            typing: self.typing,
            from_catalog: self.from_catalog,
            total: self.total as int,
            offset: self.offset as int,
        }
    }
}

/// A place kept within a list: at its last row if it was past it, at the top if
/// there are none.
pub open spec fn kept_within(at: int, len: int) -> int {
    if at < 0 || len == 0 {
        0
    } else if at < len {
        at
    } else {
        len - 1
    }
}

/// The first row on screen, once the cursor is on it.
pub open spec fn scrolled_to(offset: int, cursor: int, height: int, len: int) -> int {
    let shown = if cursor < offset {
        cursor
    } else if cursor >= offset + height {
        cursor + 1 - height
    } else {
        offset
    };
    let last = if len > height {
        len - height
    } else {
        0
    };
    if shown < last {
        shown
    } else {
        last
    }
}

/// The page a row opens.
pub open spec fn page_behind(entry: Entry) -> Option<(PageKind, Seq<char>)> {
    match entry {
        Entry::Song(_) => None,
        Entry::Album(a) => Some((PageKind::Album, a.id@)),
        Entry::Artist(a) => Some((PageKind::Artist, a.id@)),
        Entry::Playlist(p) => Some((PageKind::Playlist, p.id@)),
    }
}

impl Entry {
    /// The page this row opens, if it is not a song.
    pub fn page_target(&self) -> (r: Option<(PageKind, String)>)
        ensures
            match r {
                Some((kind, id)) => page_behind(*self) == Some((kind, id@)),
                None => page_behind(*self) is None,
            },
    {
        match self {
            Entry::Song(_) => None,
            Entry::Album(a) => Some((PageKind::Album, a.id.clone())),
            Entry::Artist(a) => Some((PageKind::Artist, a.id.clone())),
            Entry::Playlist(p) => Some((PageKind::Playlist, p.id.clone())),
        }
    }

    pub fn opens_a_page(&self) -> (r: bool)
        ensures
            r == (page_behind(*self) is Some),
    {
        match self {
            Entry::Song(_) => false,
            _ => true,
        }
    }
}

impl BrowserView {
    /// A pane as it opens.
    pub open spec fn fresh() -> BrowserView {
        BrowserView {
            view: View::Songs,
            rows: Seq::empty(),
            cursor: 0,
            showing: ShowingView::Library,
            filter: Seq::empty(),
            typing: false,
            from_catalog: false,
            total: 0,
            offset: 0,
        }
    }

    /// The pane with other rows. A shorter list cannot strand the cursor.
    pub open spec fn replaced(self, rows: Seq<Entry>, total: int) -> BrowserView {
        BrowserView {
            rows,
            total,
            cursor: kept_within(self.cursor, rows.len() as int),
            ..self
        }
    }

    /// The pane looked at from the top.
    pub open spec fn from_the_top(self) -> BrowserView {
        BrowserView { cursor: 0, offset: 0, ..self }
    }

    /// The pane with its cursor moved, as far as there are rows.
    pub open spec fn moved(self, delta: int) -> BrowserView {
        if self.rows.len() == 0 {
            self
        } else {
            BrowserView {
                cursor: kept_within(self.cursor + delta, self.rows.len() as int),
                ..self
            }
        }
    }

    /// The rows that can be played, as ids in order.
    pub open spec fn playable(self) -> Seq<Seq<char>> {
        queue::live(queue::slots(self.rows), Set::empty())
    }

    /// How many rows above the cursor can be played.
    pub open spec fn playable_above(self) -> int {
        let above = if self.cursor < self.rows.len() {
            self.rows.take(self.cursor)
        } else {
            self.rows
        };
        queue::live(queue::slots(above), Set::empty()).len() as int
    }

    /// The pane with its cursor on screen.
    pub open spec fn scrolled(self, height: int) -> BrowserView {
        if height == 0 {
            self
        } else {
            BrowserView {
                offset: scrolled_to(self.offset, self.cursor, height, self.rows.len() as int),
                ..self
            }
        }
    }
}

impl Default for Browser {
    fn default() -> (r: Self)
        ensures
            r@ == BrowserView::fresh(),
    {
        let r = Browser {
            view: View::Songs,
            rows: Vec::new(),
            cursor: 0,
            showing: Showing::Library,
            filter: String::new(),
            typing: false,
            from_catalog: false,
            total: 0,
            offset: 0,
        };
        proof {
            assert(r@ =~= BrowserView::fresh());
        }
        r
    }
}

/// A place moved by a step and kept within a list.
pub fn step_within(at: usize, delta: isize, len: usize) -> (r: usize)
    requires
        len > 0,
    ensures
        r == kept_within(at + delta, len as int),
{
    if delta < 0 {
        let back: usize = if delta == isize::MIN {
            (isize::MAX as usize) + 1
        } else {
            (-delta) as usize
        };
        if at < back {
            0
        } else if at - back < len {
            at - back
        } else {
            len - 1
        }
    } else {
        let on: usize = delta as usize;
        if at >= len || on >= len - at {
            len - 1
        } else {
            at + on
        }
    }
}

impl Browser {
    pub fn replace(&mut self, rows: Vec<Entry>, total: usize)
        ensures
            final(self)@ == old(self)@.replaced(rows@, total as int),
    {
        self.rows = rows;
        self.total = total;
        if self.rows.len() == 0 {
            self.cursor = 0;
        } else if self.cursor >= self.rows.len() {
            self.cursor = self.rows.len() - 1;
        }
    }

    /// A new list to look at from the top: a section switch, a filter, a page.
    pub fn reset(&mut self)
        ensures
            final(self)@ == old(self)@.from_the_top(),
    {
        self.cursor = 0;
        self.offset = 0;
    }

    pub fn move_cursor(&mut self, delta: isize)
        ensures
            final(self)@ == old(self)@.moved(delta as int),
    {
        if self.rows.len() == 0 {
            return ;
        }
        self.cursor = step_within(self.cursor, delta, self.rows.len());
    }

    pub fn selected(&self) -> (r: Option<&Entry>)
        ensures
            match r {
                Some(entry) => self@.cursor < self@.rows.len() && *entry
                    == self@.rows[self@.cursor],
                None => self@.cursor >= self@.rows.len(),
            },
    {
        if self.cursor < self.rows.len() {
            Some(&self.rows[self.cursor])
        } else {
            None
        }
    }

    /// The ids to send as a queue, and where the selected row lands in them.
    ///
    /// **Rows with no playable id drop out of both**, or the index would count
    /// rows that are about to be discarded and open on the wrong track.
    pub fn queue_from_here(&self) -> (r: (Vec<String>, usize))
        ensures
            text::texts(r.0@) == self@.playable(),
            r.1 == self@.playable_above(),
    {
        let mut ids: Vec<String> = Vec::new();
        let mut index: usize = 0;
        let mut i: usize = 0;
        let ghost slots = queue::slots(self.rows@);
        let ghost none: Set<Seq<char>> = Set::empty();
        let ghost above = if self.cursor < self.rows@.len() {
            self.cursor as int
        } else {
            self.rows@.len() as int
        };
        proof {
            assert(text::texts(ids@) =~= queue::live(slots.take(0), none));
        }
        while i < self.rows.len()
            invariant
                i <= self.rows@.len(),
                slots == queue::slots(self.rows@),
                none == Set::<Seq<char>>::empty(),
                above == if self.cursor < self.rows@.len() {
                    self.cursor as int
                } else {
                    self.rows@.len() as int
                },
                text::texts(ids@) == queue::live(slots.take(i as int), none),
                index <= i,
                index == queue::live(
                    slots.take(
                        if i < above {
                            i as int
                        } else {
                            above
                        },
                    ),
                    none,
                ).len(),
            decreases self.rows@.len() - i,
        {
            proof {
                assert(slots.take(i + 1).drop_last() =~= slots.take(i as int));
                assert(slots[i as int] == self.rows@[i as int].catalog());
            }
            if let Some(id) = self.rows[i].catalog_id() {
                let ghost before = text::texts(ids@);
                ids.push(id.clone());
                proof {
                    assert(text::texts(ids@) =~= before.push(id@));
                }
                if i < self.cursor {
                    index += 1;
                }
            }
            i += 1;
        }
        proof {
            assert(slots.take(i as int) =~= slots);
            if self.cursor < self.rows@.len() {
                assert(queue::slots(self.rows@.take(above)) =~= slots.take(above));
            } else {
                assert(slots.take(above) =~= slots);
            }
        }
        (ids, index)
    }

    /// Bring the cursor onto a screen of so many rows.
    pub fn scroll(&mut self, height: usize)
        ensures
            final(self)@ == old(self)@.scrolled(height as int),
    {
        if height == 0 {
            return ;
        }
        if self.cursor < self.offset {
            self.offset = self.cursor;
        } else if self.cursor - self.offset >= height {
            self.offset = self.cursor - (height - 1);
        }
        let last: usize = if self.rows.len() > height {
            self.rows.len() - height
        } else {
            0
        };
        if self.offset > last {
            self.offset = last;
        }
    }
}

/// The cursor stays on screen, however the list is jumped about in.
pub proof fn the_cursor_stays_on_screen(pane: BrowserView, height: nat)
    requires
        height > 0,
        0 <= pane.offset,
        0 <= pane.cursor < pane.rows.len(),
    ensures
        ({
            let after = pane.scrolled(height as int);
            after.offset <= after.cursor < after.offset + height
        }),
{
}

/// A shorter list cannot strand the cursor.
pub proof fn a_shorter_list_cannot_strand_the_cursor(pane: BrowserView, rows: Seq<Entry>)
    requires
        0 <= pane.cursor,
        rows.len() > 0,
    ensures
        0 <= pane.replaced(rows, rows.len() as int).cursor < rows.len(),
{
}

/// The row a queue opens on is the row the cursor is on: rows that cannot be
/// played shift neither.
pub proof fn the_queue_opens_on_the_selected_row(pane: BrowserView)
    requires
        0 <= pane.cursor < pane.rows.len(),
        pane.rows[pane.cursor].catalog() is Some,
    ensures
        pane.playable_above() < pane.playable().len(),
        Some(pane.playable()[pane.playable_above()]) == pane.rows[pane.cursor].catalog(),
{
    let slots = queue::slots(pane.rows);
    assert(queue::slots(pane.rows.take(pane.cursor)) =~= slots.take(pane.cursor));
    live_stands_at(slots, pane.cursor, slots.len() as int);
    assert(slots.take(slots.len() as int) =~= slots);
}

proof fn live_stands_at(slots: Seq<Option<Seq<char>>>, at: int, upto: int)
    requires
        0 <= at < upto <= slots.len(),
        slots[at] is Some,
    ensures
        ({
            let none = Set::<Seq<char>>::empty();
            let before = queue::live(slots.take(at), none);
            let all = queue::live(slots.take(upto), none);
            before.len() < all.len() && Some(all[before.len() as int]) == slots[at]
        }),
    decreases upto,
{
    assert(slots.take(upto).drop_last() =~= slots.take(upto - 1));
    if upto - 1 > at {
        live_stands_at(slots, at, upto - 1);
    }
}

} // verus!
