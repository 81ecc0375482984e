//! The queue pane: what the daemon says is coming, and where the cursor is in it.

use vstd::prelude::*;

use crate::climat::browser;
use crate::climat::line;
use crate::climat::line::{Span, SpanView, Style, ACCENT, BRIGHT, DIM, MUTED};
use crate::ipc::QueueItem;
use crate::text;

verus! {

/// The queue pane.
#[derive(Debug)]
pub struct Queue {
    pub items: Vec<QueueItem>,
    /// What is playing.
    pub position: usize,
    pub cursor: usize,
    /// The first row on screen.
    pub offset: usize,
}

/// A [`Queue`] with its list as a sequence.
#[verifier::ext_equal]
pub struct QueueView {
    pub items: Seq<QueueItem>,
    pub position: int,
    pub cursor: int,
    pub offset: int,
}

impl View for Queue {
    type V = QueueView;

    open spec fn view(&self) -> QueueView {
        QueueView {
            items: self.items@,
            position: self.position as int,
            cursor: self.cursor as int,
            offset: self.offset as int,
        }
    }
}

impl QueueView {
    /// A pane as it opens.
    pub open spec fn fresh() -> QueueView {
        QueueView { items: Seq::empty(), position: 0, cursor: 0, offset: 0 }
    }

    /// The pane with the queue the daemon has now. A shorter one cannot strand
    /// the cursor.
    pub open spec fn replaced(self, items: Seq<QueueItem>, position: int) -> QueueView {
        QueueView {
            items,
            position,
            cursor: browser::kept_within(self.cursor, items.len() as int),
            ..self
        }
    }

    /// The pane with its cursor moved, as far as there are rows.
    pub open spec fn moved(self, delta: int) -> QueueView {
        if self.items.len() == 0 {
            self
        } else {
            QueueView {
                cursor: browser::kept_within(self.cursor + delta, self.items.len() as int),
                ..self
            }
        }
    }

    /// The pane with its cursor on what is playing.
    pub open spec fn followed(self) -> QueueView {
        QueueView {
            cursor: browser::kept_within(self.position, self.items.len() as int),
            ..self
        }
    }

    /// The pane with its cursor on a row.
    pub open spec fn at(self, row: int) -> QueueView {
        QueueView { cursor: browser::kept_within(row, self.items.len() as int), ..self }
    }

    /// Where the selected row would go. Nowhere past either end.
    pub open spec fn swap_place(self, delta: int) -> Option<int> {
        let to = self.cursor + delta;
        if 0 <= to < self.items.len() {
            Some(to)
        } else {
            None
        }
    }

    /// The pane with its cursor on screen.
    pub open spec fn scrolled(self, height: int) -> QueueView {
        if height == 0 {
            self
        } else {
            QueueView {
                offset: browser::scrolled_to(
                    self.offset,
                    self.cursor,
                    height,
                    self.items.len() as int,
                ),
                ..self
            }
        }
    }
}

impl Default for Queue {
    fn default() -> (r: Self)
        ensures
            r@ == QueueView::fresh(),
    {
        let r = Queue { items: Vec::new(), position: 0, cursor: 0, offset: 0 };
        proof {
            assert(r@ =~= QueueView::fresh());
        }
        r
    }
}

impl Queue {
    pub fn replace(&mut self, items: Vec<QueueItem>, position: usize)
        ensures
            final(self)@ == old(self)@.replaced(items@, position as int),
    {
        self.items = items;
        self.position = position;
        let at: usize = self.cursor;
        self.cursor_to(at);
    }

    pub fn move_cursor(&mut self, delta: isize)
        ensures
            final(self)@ == old(self)@.moved(delta as int),
    {
        if self.items.len() > 0 {
            self.cursor = browser::step_within(self.cursor, delta, self.items.len());
        }
    }

    /// Put the cursor on what is playing.
    pub fn follow(&mut self)
        ensures
            final(self)@ == old(self)@.followed(),
    {
        let at: usize = self.position;
        self.cursor_to(at);
    }

    /// Put the cursor on a row.
    pub fn cursor_to(&mut self, row: usize)
        ensures
            final(self)@ == old(self)@.at(row as int),
    {
        if self.items.len() == 0 {
            self.cursor = 0;
        } else if row < self.items.len() {
            self.cursor = row;
        } else {
            self.cursor = self.items.len() - 1;
        }
    }

    /// Where the selected row would go, if it can go there.
    pub fn swap_target(&self, delta: isize) -> (r: Option<usize>)
        ensures
            match r {
                Some(to) => self@.swap_place(delta as int) == Some(to as int),
                None => self@.swap_place(delta as int) is None,
            },
    {
        let count: usize = self.items.len();
        let to: usize = if delta < 0 {
            let back: usize = if delta == isize::MIN {
                (isize::MAX as usize) + 1
            } else {
                (-delta) as usize
            };
            if self.cursor < back {
                return None;
            }
            self.cursor - back
        } else {
            match self.cursor.checked_add(delta as usize) {
                Some(to) => to,
                None => {
                    return None;
                },
            }
        };
        if to < count {
            Some(to)
        } else {
            None
        }
    }

    /// Bring the cursor onto a screen of so many rows.
    pub fn scroll(&mut self, height: usize)
        ensures
            final(self)@ == old(self)@.scrolled(height as int),
    {
        if height == 0 {
            return ;
        }
        if self.cursor < self.offset {
            self.offset = self.cursor;
        } else if self.cursor - self.offset >= height {
            self.offset = self.cursor - (height - 1);
        }
        let last: usize = if self.items.len() > height {
            self.items.len() - height
        } else {
            0
        };
        if self.offset > last {
            self.offset = last;
        }
    }
}

/// The pane's label, and how long the queue is.
pub open spec fn queue_label(pane: QueueView) -> Seq<SpanView> {
    seq![
        line::piece("QUEUE"@, line::in_bold(MUTED)),
        line::piece("   "@ + text::decimal(pane.items.len()), line::in_color(DIM)),
    ]
}

/// The pane's label, and how long the queue is.
pub fn header(pane: &Queue) -> (r: Vec<Span>)
    ensures
        line::spans(r@) == queue_label(pane@),
{
    let mut out = line::blank();
    line::put(&mut out, "QUEUE", Style { color: Some(MUTED), bold: true, reversed: false });
    let mut words = "   ".to_string();
    text::push_decimal(&mut words, pane.items.len() as u64);
    line::put(&mut out, words.as_str(), Style { color: Some(DIM), bold: false, reversed: false });
    proof {
        assert(line::spans(out@) =~= queue_label(pane@));
    }
    out
}

/// One row of the queue: what is playing is lit, what is selected is reversed.
pub open spec fn queue_row(
    item: QueueItem,
    playing: bool,
    selected: bool,
    width: int,
) -> Seq<SpanView> {
    let color = if playing {
        ACCENT
    } else {
        BRIGHT
    };
    let byline = if width > 40 {
        width / 3
    } else {
        0
    };
    let room = if width > byline + 3 {
        width - byline - 3
    } else {
        0
    };
    let quiet = Style { color: Some(MUTED), bold: false, reversed: selected };
    let named = seq![
        line::piece(
            if playing {
                "▶ "@
            } else {
                "  "@
            },
            quiet,
        ),
        line::piece(
            line::fitted(item.title@, room),
            Style { color: Some(color), bold: false, reversed: selected },
        ),
    ];
    if byline > 0 {
        named.push(line::piece(line::fitted(item.artist@, byline), quiet))
    } else {
        named
    }
}

fn row(item: &QueueItem, playing: bool, selected: bool, width: usize) -> (r: Vec<Span>)
    ensures
        line::spans(r@) == queue_row(*item, playing, selected, width as int),
{
    let byline_room: usize = if width > 40 {
        width / 3
    } else {
        0
    };
    let room: usize = if width > byline_room + 3 {
        width - byline_room - 3
    } else {
        0
    };
    let color: u32 = if playing {
        ACCENT
    } else {
        BRIGHT
    };
    let quiet = Style { color: Some(MUTED), bold: false, reversed: selected };
    let mut out = line::blank();
    let mark: &str = if playing {
        "▶ "
    } else {
        "  "
    };
    line::put(&mut out, mark, quiet);
    let title = line::fit(item.title.as_str(), room);
    line::put(
        &mut out,
        title.as_str(),
        Style { color: Some(color), bold: false, reversed: selected },
    );
    if byline_room > 0 {
        let byline = line::fit(item.artist.as_str(), byline_room);
        line::put(&mut out, byline.as_str(), quiet);
    }
    proof {
        assert(line::spans(out@) =~= queue_row(*item, playing, selected, width as int));
    }
    out
}

/// How many rows fit on screen.
pub open spec fn rows_shown(pane: QueueView, height: int) -> int {
    let left = pane.items.len() - pane.offset;
    if left < 0 {
        0
    } else if left < height {
        left
    } else {
        height
    }
}

/// What the pane draws, once its cursor is on screen.
pub open spec fn queue_lines(
    pane: QueueView,
    height: int,
    width: int,
    focused: bool,
) -> Seq<Seq<SpanView>> {
    Seq::new(
        rows_shown(pane, height) as nat,
        |i: int|
            queue_row(
                pane.items[pane.offset + i],
                pane.offset + i == pane.position,
                focused && pane.offset + i == pane.cursor,
                width,
            ),
    )
}

/// Draw the pane, with its cursor on screen.
pub fn render(pane: &mut Queue, height: usize, width: usize, focused: bool) -> (r: Vec<Vec<Span>>)
    ensures
        final(pane)@ == old(pane)@.scrolled(height as int),
        line::lines(r@) == queue_lines(
            old(pane)@.scrolled(height as int),
            height as int,
            width as int,
            focused,
        ),
{
    let mut out: Vec<Vec<Span>> = Vec::new();
    pane.scroll(height);
    let ghost all = queue_lines(pane@, height as int, width as int, focused);
    let mut i: usize = 0;
    proof {
        assert(line::lines(out@) =~= all.take(0));
    }
    while i < height && pane.offset < pane.items.len() && i < pane.items.len() - pane.offset
        invariant
            i <= rows_shown(pane@, height as int),
            all == queue_lines(pane@, height as int, width as int, focused),
            line::lines(out@) == all.take(i as int),
        decreases height - i,
    {
        let at: usize = pane.offset + i;
        let drawn = row(&pane.items[at], at == pane.position, focused && at == pane.cursor, width);
        let ghost before = line::lines(out@);
        line::put_line(&mut out, drawn);
        proof {
            assert(all.take(i + 1) =~= before.push(all[i as int]));
        }
        i += 1;
    }
    proof {
        assert(all.take(i as int) =~= all);
    }
    out
}

} // verus!
