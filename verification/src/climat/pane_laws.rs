//! What holds of every line that is drawn.

use vstd::prelude::*;

use crate::climat::browser::{BrowserView, ShowingView};
use crate::climat::line;
use crate::climat::line::{ACCENT, BRIGHT, DIM, MUTED};
use crate::climat::panes;
use crate::climat::queue;
use crate::climat::queue::QueueView;
use crate::climat::screen;
use crate::climat::screen::{Area, LookView};
use crate::climat::ui;
use crate::climat::ui::Focus;
use crate::ipc::{SnapshotView, StageView, View as Section};
use crate::music::Entry;
use crate::protocol::RepeatMode;
use crate::text;

verus! {

/// A text that fits is shown whole and padded with blanks, and one that does not is
/// cut, with a mark that it was in its last cell.
pub proof fn a_text_is_shown_whole_or_cut_with_a_mark(words: Seq<char>, width: int)
    requires
        0 < width,
    ensures
        ({
            let shown = line::fitted(words, width);
            &&& shown.len() == width
            &&& words.len() <= width ==> words.is_prefix_of(shown) && forall|i: int|
                words.len() <= i < width ==> #[trigger] shown[i] == ' '
            &&& words.len() > width ==> shown.last() == '…' && forall|i: int|
                0 <= i < width - 1 ==> #[trigger] shown[i] == words[i]
        }),
{
    let shown = line::fitted(words, width);
    if words.len() <= width {
        assert(shown.subrange(0, words.len() as int) =~= words);
    }
}

/// What a text of digits reads as.
pub open spec fn reads_as(digits: Seq<char>) -> int
    decreases digits.len(),
{
    if digits.len() == 0 {
        0
    } else {
        reads_as(digits.drop_last()) * 10 + (digits.last() as int - '0' as int)
    }
}

/// A number in decimal reads as that number, in digits alone, and none of them is a
/// leading nought.
pub proof fn a_number_reads_as_itself(n: nat)
    ensures
        reads_as(text::decimal(n)) == n,
        text::decimal(n).len() > 0,
        forall|i: int|
            0 <= i < text::decimal(n).len() ==> '0' <= #[trigger] text::decimal(n)[i] <= '9',
        n > 0 ==> text::decimal(n)[0] != '0',
    decreases n,
{
    reveal_with_fuel(reads_as, 2);
    if n >= 10 {
        a_number_reads_as_itself(n / 10);
        assert(text::decimal(n).drop_last() =~= text::decimal(n / 10));
        assert forall|i: int| 0 <= i < text::decimal(n).len() implies '0' <= #[trigger] text::decimal(
            n,
        )[i] <= '9' by {
            if i < text::decimal(n / 10).len() {
                assert(text::decimal(n)[i] == text::decimal(n / 10)[i]);
            }
        }
        assert(text::decimal(n)[0] == text::decimal(n / 10)[0]);
    } else {
        assert(text::decimal(n).drop_last() =~= Seq::empty());
    }
}

/// A time under an hour reads as its minutes and its seconds, and a longer one as its
/// hours too. Together they are the whole seconds of it.
pub proof fn a_time_reads_as_its_seconds(ms: nat)
    ensures
        ({
            let seconds = ms / 1000;
            let s = seconds % 60;
            let m = (seconds / 60) % 60;
            let h = seconds / 3600;
            &&& h * 3600 + m * 60 + s == seconds
            &&& h == 0 ==> line::clock_face(ms) == text::decimal(m) + seq![':'] + line::two_digits(
                s,
            )
            &&& h > 0 ==> line::clock_face(ms) == text::decimal(h) + seq![':'] + line::two_digits(m)
                + seq![':'] + line::two_digits(s)
            &&& line::two_digits(s).len() == 2
            &&& reads_as(line::two_digits(s)) == s
            &&& reads_as(line::two_digits(m)) == m
        }),
{
    let seconds = ms / 1000;
    let s = (seconds % 60) as nat;
    let m = ((seconds / 60) % 60) as nat;
    assert((seconds % 3600) / 60 == m);
    two_digits_read(s);
    two_digits_read(m);
}

proof fn two_digits_read(n: nat)
    requires
        n < 100,
    ensures
        reads_as(line::two_digits(n)) == n,
{
    reveal_with_fuel(reads_as, 3);
    let d = line::two_digits(n);
    assert(d.drop_last() =~= seq![d[0]]);
    assert(d.drop_last().drop_last() =~= Seq::empty());
}

/// A meter is as full as it is told, and no fuller than it is wide.
pub proof fn a_meter_is_as_full_as_it_is_told(filled: int, width: int)
    requires
        0 <= filled,
        0 <= width,
    ensures
        filled <= width ==> line::full_cells(filled, width) == filled,
        filled > width ==> line::full_cells(filled, width) == width,
{
}

/// A column shows the loudest of the levels that fall into it: one of them, and none
/// of them louder.
pub proof fn a_column_shows_the_loudest_of_its_levels(
    levels: Seq<u8>,
    width: int,
    column: int,
) -> (at: int)
    requires
        levels.len() > 0,
        0 <= column < width,
    ensures
        ({
            let from = line::column_start(column, levels.len() as int, width);
            let to = line::column_end(column, levels.len() as int, width);
            &&& 0 <= from < to <= levels.len()
            &&& from <= at < to
            &&& line::folded(levels, width)[column] == levels[at]
            &&& forall|k: int| from <= k < to ==> #[trigger] levels[k] <= levels[at]
        }),
{
    let n = levels.len() as int;
    let from = line::column_start(column, n, width);
    let to = line::column_end(column, n, width);
    columns_lie_within(column, n, width);
    the_loudest_is_one_of_them(levels, from, to)
}

proof fn columns_lie_within(column: int, count: int, width: int)
    requires
        0 <= column < width,
        0 < count,
    ensures
        0 <= line::column_start(column, count, width) < count,
        line::column_start(column, count, width) < line::column_end(column, count, width) <= count,
        column + 1 < width ==> line::column_start(column + 1, count, width) <= line::column_end(
            column,
            count,
            width,
        ),
        column == 0 ==> line::column_start(column, count, width) == 0,
        column + 1 == width ==> line::column_end(column, count, width) == count,
{
    let a = column * count;
    let b = (column + 1) * count;
    assert(0 <= a) by (nonlinear_arith)
        requires
            a == column * count,
            0 <= column,
            0 < count,
    ;
    assert(a + count == b && b <= width * count) by (nonlinear_arith)
        requires
            a == column * count,
            b == (column + 1) * count,
            column + 1 <= width,
            0 < count,
    ;
    assert(0 <= a / width < count) by (nonlinear_arith)
        requires
            0 <= a,
            a + count <= width * count,
            0 < width,
            0 < count,
    ;
    assert(b / width <= count) by (nonlinear_arith)
        requires
            b <= width * count,
            0 < width,
    ;
    if column == 0 {
        assert(a == 0) by (nonlinear_arith)
            requires
                a == column * count,
                column == 0,
        ;
        assert(0int / width == 0) by (nonlinear_arith)
            requires
                0 < width,
        ;
    }
    if column + 1 == width {
        assert(b / width == count) by (nonlinear_arith)
            requires
                b == (column + 1) * count,
                column + 1 == width,
                0 < width,
        ;
    }
}

proof fn the_loudest_is_one_of_them(levels: Seq<u8>, from: int, to: int) -> (at: int)
    requires
        0 <= from < to <= levels.len(),
    ensures
        from <= at < to,
        line::loudest(levels, from, to) == levels[at],
        forall|k: int| from <= k < to ==> #[trigger] levels[k] <= levels[at],
    decreases to - from,
{
    if to - from == 1 {
        assert(line::loudest(levels, from, to - 1) == 0);
        from
    } else {
        let before = the_loudest_is_one_of_them(levels, from, to - 1);
        if levels[to - 1] > levels[before] {
            to - 1
        } else {
            before
        }
    }
}

/// Every level falls into some column: the first one begins with the first level, the
/// last one ends with the last, and none begins past where the one before it ends.
pub proof fn the_columns_leave_no_level_out(count: int, width: int, column: int)
    requires
        0 < count,
        0 <= column < width,
    ensures
        line::column_start(0, count, width) == 0,
        line::column_end(width - 1, count, width) == count,
        column + 1 < width ==> line::column_start(column + 1, count, width) <= line::column_end(
            column,
            count,
            width,
        ),
{
    columns_lie_within(0, count, width);
    columns_lie_within(width - 1, count, width);
    columns_lie_within(column, count, width);
}

/// A bar fills its lower cell before its upper one, and both hold all of it, up to
/// what two cells take.
pub proof fn a_bar_fills_from_the_foot(sixteenths: u8)
    ensures
        ({
            let lower = line::lower_part(sixteenths);
            let upper = line::upper_part(sixteenths);
            &&& 0 <= lower <= 8
            &&& 0 <= upper <= 8
            &&& upper > 0 ==> lower == 8
            &&& sixteenths <= 16 ==> lower + upper == sixteenths
            &&& sixteenths > 16 ==> lower + upper == 16
        }),
{
}

/// A cell is blank where there is nothing in it, and else the block that is as high
/// as what is.
pub proof fn a_cell_is_as_high_as_what_is_in_it(eighths: int)
    ensures
        eighths <= 0 ==> line::step(eighths) == ' ',
        1 <= eighths <= 8 ==> line::step(eighths) as int == 0x2580 + eighths,
        eighths > 8 ==> line::step(eighths) as int == 0x2588,
{
}

/// A blend begins with one colour and ends with the other, and in between each part
/// of it lies between theirs.
pub proof fn a_blend_goes_from_one_colour_to_the_other(from: u32, to: u32, eighths: int)
    requires
        from <= 0xFFFFFF,
        to <= 0xFFFFFF,
        0 <= eighths <= 8,
    ensures
        line::blended(from, to, 0) == from,
        line::blended(from, to, 8) == to,
        lies_between(
            line::mixed(line::red(from), line::red(to), eighths),
            line::red(from),
            line::red(to),
        ),
        lies_between(
            line::mixed(line::green(from), line::green(to), eighths),
            line::green(from),
            line::green(to),
        ),
        lies_between(
            line::mixed(line::blue(from), line::blue(to), eighths),
            line::blue(from),
            line::blue(to),
        ),
{
    mixing_stays_between(line::red(from), line::red(to), eighths);
    mixing_stays_between(line::green(from), line::green(to), eighths);
    mixing_stays_between(line::blue(from), line::blue(to), eighths);
    mixing_stays_between(line::red(from), line::red(to), 0);
    mixing_stays_between(line::green(from), line::green(to), 0);
    mixing_stays_between(line::blue(from), line::blue(to), 0);
    mixing_stays_between(line::red(from), line::red(to), 8);
    mixing_stays_between(line::green(from), line::green(to), 8);
    mixing_stays_between(line::blue(from), line::blue(to), 8);
}

/// Whether a number lies between two others, either way round.
pub open spec fn lies_between(x: int, a: int, b: int) -> bool {
    a <= x <= b || b <= x <= a
}

proof fn mixing_stays_between(from: int, to: int, eighths: int)
    requires
        0 <= eighths <= 8,
    ensures
        lies_between(line::mixed(from, to, eighths), from, to),
        eighths == 0 ==> line::mixed(from, to, eighths) == from,
        eighths == 8 ==> line::mixed(from, to, eighths) == to,
{
    let d = (to - from) * eighths;
    if to >= from {
        assert(0 <= d <= (to - from) * 8) by (nonlinear_arith)
            requires
                d == (to - from) * eighths,
                0 <= eighths <= 8,
                to >= from,
        ;
    } else {
        assert((to - from) * 8 <= d <= 0) by (nonlinear_arith)
            requires
                d == (to - from) * eighths,
                0 <= eighths <= 8,
                to < from,
        ;
    }
    if eighths == 0 {
        assert(d == 0) by (nonlinear_arith)
            requires
                d == (to - from) * eighths,
                eighths == 0,
        ;
    }
    if eighths == 8 {
        assert(d == (to - from) * 8);
    }
}

/// A pane draws the rows from its offset on, in order, as many as it is high or as
/// there are, each as that row. Only the row under the cursor is marked, and only in
/// the pane that has the focus.
pub proof fn a_pane_draws_its_rows_from_its_offset(
    pane: BrowserView,
    height: int,
    width: int,
    focused: bool,
    i: int,
)
    requires
        0 <= pane.offset < pane.rows.len(),
        0 <= height,
        0 <= i < height,
        pane.offset + i < pane.rows.len(),
    ensures
        ({
            let shown = panes::pane_lines(pane, height, width, focused);
            let row = pane.rows[pane.offset + i];
            let marked = focused && pane.cursor == pane.offset + i;
            &&& shown.len() == if pane.rows.len() - pane.offset < height {
                pane.rows.len() - pane.offset
            } else {
                height
            }
            &&& shown[i] == panes::pane_row(row, marked, width)
            &&& forall|k: int|
                0 <= k < shown[i].len() ==> (#[trigger] shown[i][k]).style.reversed == marked
        }),
{
}

/// A row shows its name, and in a wide pane who it is by, each fitted to its room. A
/// door has a mark in front of it that a song does not.
pub proof fn a_row_shows_its_name_and_who_it_is_by(entry: Entry, selected: bool, width: int)
    requires
        0 <= width,
    ensures
        ({
            let row = panes::pane_row(entry, selected, width);
            let name = match entry {
                Entry::Song(t) => t.title@,
                Entry::Album(a) => a.name@,
                Entry::Artist(a) => a.name@,
                Entry::Playlist(p) => p.name@,
            };
            let by = match entry {
                Entry::Song(t) => t.artist@,
                Entry::Album(a) => a.artist@,
                Entry::Artist(a) => a.genres@,
                Entry::Playlist(p) => p.curator@,
            };
            &&& entry is Song ==> row[0].text == "  "@
            &&& !(entry is Song) ==> row[0].text == "▸ "@
            &&& row[1].text == line::fitted(name, row[1].text.len() as int)
            &&& row[1].style.color == Some(BRIGHT)
            &&& width <= 40 ==> row.len() == 2
            &&& width > 40 ==> row.len() == 3 && row[2].text == line::fitted(by, width / 3)
                && row[2].style.color == Some(MUTED)
            &&& {
                let taken = (if width > 40 {
                    width / 3
                } else {
                    0
                }) + (if entry is Song {
                    3int
                } else {
                    5
                });
                row[1].text.len() == if width > taken {
                    width - taken
                } else {
                    0
                }
            }
        }),
{
    let room = panes::title_room(entry, width);
    let name = entry.name();
    line::a_fitted_text_fills_its_width(name, room as nat);
}

/// An empty pane says why: it is opening, nothing matches what was typed, or there is
/// nothing.
pub proof fn an_empty_pane_says_why(pane: BrowserView, height: int, width: int, focused: bool)
    requires
        pane.rows.len() == 0,
    ensures
        ({
            let opening = pane.showing matches ShowingView::Page { loading, .. } && loading;
            panes::pane_lines(pane, height, width, focused) == seq![
                seq![
                    line::piece(
                        if opening {
                            "Opening…"@
                        } else if pane.filter.len() > 0 {
                            "Nothing matches"@
                        } else {
                            "Nothing here"@
                        },
                        line::in_color(DIM),
                    ),
                ],
            ]
        }),
{
}

/// The header of a pane names its sections in order and marks the one that is shown,
/// or names the page.
pub proof fn the_shown_section_is_marked(pane: BrowserView, section: Section)
    requires
        !(pane.showing is Page),
    ensures
        ({
            let header = panes::pane_header(pane);
            let at = match section {
                Section::Songs => 0int,
                Section::Albums => 2,
                Section::Artists => 4,
                Section::Playlists => 6,
            };
            let name = match section {
                Section::Songs => "SONGS"@,
                Section::Albums => "ALBUMS"@,
                Section::Artists => "ARTISTS"@,
                Section::Playlists => "PLAYLISTS"@,
            };
            &&& header.len() >= 8
            &&& section == pane.view ==> header[at] == line::piece(name, line::in_bold(ACCENT))
            &&& section != pane.view ==> header[at] == line::piece(
                text::lowercase(name),
                line::in_color(DIM),
            )
        }),
{
}

/// The queue draws its items from its offset on, in order. Only the one that plays has
/// the mark of playing, and only the one under the cursor is marked as selected, in
/// the pane that has the focus.
pub proof fn the_queue_draws_its_items_from_its_offset(
    pane: QueueView,
    height: int,
    width: int,
    focused: bool,
    i: int,
)
    requires
        0 <= pane.offset < pane.items.len(),
        0 <= i < height,
        0 <= width,
        pane.offset + i < pane.items.len(),
    ensures
        ({
            let shown = queue::queue_lines(pane, height, width, focused);
            let item = pane.items[pane.offset + i];
            let plays = pane.position == pane.offset + i;
            let marked = focused && pane.cursor == pane.offset + i;
            &&& shown.len() == if pane.items.len() - pane.offset < height {
                pane.items.len() - pane.offset
            } else {
                height
            }
            &&& shown[i][0].text == if plays {
                "▶ "@
            } else {
                "  "@
            }
            &&& shown[i][1].text == line::fitted(item.title@, shown[i][1].text.len() as int)
            &&& {
                let taken = if width > 40 {
                    width / 3 + 3
                } else {
                    3
                };
                shown[i][1].text.len() == if width > taken {
                    width - taken
                } else {
                    0
                }
            }
            &&& shown[i][1].style.color == Some(
                if plays {
                    ACCENT
                } else {
                    BRIGHT
                },
            )
            &&& width > 40 ==> shown[i].len() == 3 && shown[i][2].text == line::fitted(
                item.artist@,
                width / 3,
            )
            &&& width <= 40 ==> shown[i].len() == 2
            &&& forall|k: int|
                0 <= k < shown[i].len() ==> (#[trigger] shown[i][k]).style.reversed == marked
        }),
{
    let byline = if width > 40 {
        width / 3
    } else {
        0
    };
    let room = if width > byline + 3 {
        width - byline - 3
    } else {
        0
    };
    line::a_fitted_text_fills_its_width(pane.items[pane.offset + i].title@, room as nat);
}

/// The header of the queue says how many there are in it.
pub proof fn the_queue_says_how_many_there_are(pane: QueueView)
    ensures
        queue::queue_label(pane)[1].text == "   "@ + text::decimal(pane.items.len()),
{
}

/// What plays is named by its title and its artist. Before the player is ready, or with
/// nothing on, that is said instead.
pub proof fn what_plays_is_named(
    stage: StageView,
    snap: SnapshotView,
    bars: Seq<u8>,
    sounding: bool,
    played: int,
    volume: int,
    width: int,
)
    ensures
        ({
            let shown = ui::playing_lines(stage, snap, bars, sounding, played, volume, width);
            &&& stage == StageView::Ready && snap.title.len() > 0 ==> shown.len() == 5
                && shown[0].len() == 3 && shown[0][0].text == snap.title && shown[0][2].text
                == snap.artist
            &&& stage == StageView::Ready && snap.title.len() == 0 ==> shown.len() == 1
                && shown[0][0].text == "Nothing playing"@
            &&& stage != StageView::Ready ==> shown.len() == 1 && shown[0][0].text == match stage {
                StageView::Connecting => "Starting the playback engine…"@,
                StageView::SignedOut => "Not signed in — open Slipmat to sign in"@,
                StageView::Broken { detail } => "Playback unavailable: "@ + detail,
                StageView::Ready => Seq::empty(),
            }
            &&& stage == StageView::Ready && snap.title.len() > 0 && !sounding ==> shown[1].len()
                == 0 && shown[2].len() == 0
        }),
{
}

/// The transport shows whether something plays, how far it is, and how long it is, and
/// its bar takes what the rest of the line leaves.
pub proof fn the_transport_shows_how_far_it_is(snap: SnapshotView, played: int, width: int)
    requires
        0 <= played,
    ensures
        ({
            let shown = ui::transport_line(snap, played, width);
            let bar = if width < 30 {
                8
            } else {
                width - 22
            };
            &&& shown[0].text == if snap.playing {
                "▶"@
            } else {
                "❚❚"@
            }
            &&& shown[2].text.len() + shown[3].text.len() == bar
            &&& shown[2].text.len() == if played < bar {
                played
            } else {
                bar
            }
            &&& forall|i: int| 0 <= i < shown[2].text.len() ==> #[trigger] shown[2].text[i] == '█'
            &&& forall|i: int| 0 <= i < shown[3].text.len() ==> #[trigger] shown[3].text[i] == '░'
            &&& shown[5].text == line::clock_face(snap.position_ms as nat) + " / "@
                + line::clock_face(snap.duration_ms as nat)
        }),
{
}

/// The modes are shown as they are, and lit where they are on. The volume fills its
/// own meter.
pub proof fn the_modes_are_shown_as_they_are(snap: SnapshotView, volume: int)
    requires
        0 <= volume,
    ensures
        ({
            let shown = ui::modes_line(snap, volume);
            &&& shown[2].text == if snap.shuffle {
                "on"@
            } else {
                "off"@
            }
            &&& shown[2].style.color == Some(
                if snap.shuffle {
                    ACCENT
                } else {
                    DIM
                },
            )
            &&& shown[4].text == match snap.repeat {
                RepeatMode::Off => "off"@,
                RepeatMode::All => "all"@,
                RepeatMode::One => "one"@,
            }
            &&& shown[4].style.color == Some(
                if snap.repeat == RepeatMode::Off {
                    DIM
                } else {
                    ACCENT
                },
            )
            &&& shown[6].text.len() == if volume < 10 {
                volume
            } else {
                10
            }
            &&& shown[6].text.len() + shown[7].text.len() == 10
        }),
{
}

/// The screen runs from what plays, over what was refused and the queue, to the library
/// and the keys, each in its own area. The cursor of a pane is shown only where that
/// pane has the focus.
pub proof fn the_screen_runs_from_what_plays_to_the_keys(
    look: LookView,
    pane: BrowserView,
    list: QueueView,
    areas: Seq<Area>,
    width: int,
)
    requires
        areas.len() == 7,
    ensures
        ({
            let shown = screen::painted(look, pane, list, areas, width);
            let n = if look.message is Some {
                1int
            } else {
                0
            };
            &&& shown.len() == 6 + n
            &&& shown[0].area == areas[0]
            &&& shown[0].lines == ui::playing_lines(
                look.stage,
                look.snap,
                look.bars,
                look.sounding,
                look.played,
                look.volume,
                width,
            )
            &&& look.message is Some ==> shown[1].area == areas[1] && shown[1].lines.len() == 2
                && shown[1].lines[0].len() == 0 && shown[1].lines[1].len() == 1
                && shown[1].lines[1][0].text == line::fitted(look.message->0, width)
                && shown[1].lines[1][0].style.color == Some(ACCENT)
            &&& shown[n + 1].area == areas[2]
            &&& shown[n + 1].lines == seq![Seq::empty(), queue::queue_label(list)]
            &&& shown[n + 2].area == areas[3]
            &&& shown[n + 2].lines == queue::queue_lines(
                list.scrolled(areas[3].height as int),
                areas[3].height as int,
                areas[3].width as int,
                look.focus == Focus::Queue,
            )
            &&& shown[n + 3].area == areas[4]
            &&& shown[n + 3].lines == seq![Seq::empty(), panes::pane_header(pane)]
            &&& shown[n + 4].area == areas[5]
            &&& shown[n + 4].lines == panes::pane_lines(
                if pane.rows.len() == 0 {
                    pane
                } else {
                    pane.scrolled(areas[5].height as int)
                },
                areas[5].height as int,
                areas[5].width as int,
                look.focus == Focus::Browser,
            )
            &&& shown[n + 5].area == areas[6]
            &&& shown[n + 5].lines.len() == 1
        }),
{
}

/// The margins take two cells off either side and one off the top and the bottom, of a
/// screen that has them.
pub proof fn the_margins_are_two_cells_and_one(frame: Area)
    requires
        frame.x + 2 <= u16::MAX,
        frame.y + 1 <= u16::MAX,
        frame.width >= 4,
        frame.height >= 2,
    ensures
        ({
            let inner = screen::within_margins(frame);
            &&& inner.x == frame.x + 2
            &&& inner.y == frame.y + 1
            &&& inner.width + 4 == frame.width
            &&& inner.height + 2 == frame.height
        }),
{
}

/// While something is typed, no key of the transport is advertised: every letter goes
/// into the box. Where typing leaves the machine, that is said. Otherwise the way to
/// play and pause comes first.
pub proof fn the_hints_go_with_what_the_keys_do(focus: Focus, catalog: bool)
    ensures
        screen::hints_for(focus, false, catalog)[0] == ("space"@, "play/pause"@),
        screen::hints_for(focus, true, true)[0] == ("↵"@, "search Apple Music"@),
        screen::hints_for(focus, true, false)[0] == ("↵"@, "done"@),
        screen::hints_for(focus, true, catalog).len() == 3,
        screen::hints_for(focus, false, catalog).len() == 7,
        screen::hints_for(Focus::Queue, false, catalog)[3] == ("d"@, "remove"@),
        screen::hints_for(Focus::Queue, false, catalog)[4] == ("KJ"@, "reorder"@),
        screen::hints_for(Focus::Browser, false, catalog)[3] == ("/"@, "filter"@),
        screen::hints_for(Focus::Browser, false, catalog)[6] == ("esc"@, "back"@),
{
}

/// The bars of a column are its loudest level: the lower cell holds the first eight
/// sixteenths of it and the upper one the rest.
pub proof fn a_column_is_drawn_as_high_as_it_is_loud(levels: Seq<u8>, width: int, column: int)
    requires
        levels.len() > 0,
        0 <= column < width,
    ensures
        ({
            let loud = line::folded(levels, width)[column];
            let lower = line::lower_row(levels, width)[column];
            let upper = line::upper_row(levels, width)[column];
            &&& lower.text == seq![line::step(line::lower_part(loud))]
            &&& upper.text == seq![line::step(line::upper_part(loud))]
            &&& loud == 0 ==> lower.text == seq![' '] && upper.text == seq![' ']
            &&& loud >= 16 ==> lower.text == seq!['█'] && upper.text == seq!['█']
        }),
{
}

/// While something sounds, the bars stand between the title and the transport, the upper row
/// over the lower one.
pub proof fn the_bars_stand_under_the_title(
    snap: SnapshotView,
    bars: Seq<u8>,
    played: int,
    volume: int,
    width: int,
)
    requires
        snap.title.len() > 0,
    ensures
        ({
            let shown = ui::playing_lines(
                StageView::Ready,
                snap,
                bars,
                true,
                played,
                volume,
                width,
            );
            &&& shown[1] == line::upper_row(bars, width)
            &&& shown[2] == line::lower_row(bars, width)
            &&& shown[3] == ui::transport_line(snap, played, width)
            &&& shown[4] == ui::modes_line(snap, volume)
        }),
{
}

/// A page is headed by its title in capitals, with what it says of itself, and that it is
/// opening while it is.
pub proof fn a_page_is_headed_by_its_title(pane: BrowserView)
    requires
        pane.showing is Page,
    ensures
        pane.showing matches ShowingView::Page { title, subtitle, loading } && {
            let header = panes::pane_header(pane);
            &&& header[0].text == text::uppercase(title)
            &&& subtitle.len() > 0 ==> header[1].text == "   "@ + subtitle
            &&& loading ==> header.last().text == "   opening…"@
            &&& header.len() == 1 + (if subtitle.len() > 0 {
                1int
            } else {
                0
            }) + (if loading {
                1int
            } else {
                0
            })
        },
{
}

/// What is typed is shown behind a slash, with a cursor while the box is open. Nothing is
/// shown where nothing is typed and the box is closed.
pub proof fn what_is_typed_is_shown(pane: BrowserView)
    ensures
        pane.typing ==> panes::filter_box(pane).len() == 2 && panes::filter_box(pane)[0].text
            == "/"@ + pane.filter,
        !pane.typing && pane.filter.len() > 0 ==> panes::filter_box(pane).len() == 1
            && panes::filter_box(pane)[0].text == "/"@ + pane.filter,
        !pane.typing && pane.filter.len() == 0 ==> panes::filter_box(pane).len() == 0,
        !(pane.showing is Page) ==> panes::pane_header(pane).len() == 8 + panes::filter_box(
            pane,
        ).len(),
{
}

} // verus!
