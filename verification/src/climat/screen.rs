//! The whole screen: the row of hints, how the space is divided, and what goes
//! where.

use vstd::prelude::*;

use crate::climat::browser::{Browser, BrowserView};
use crate::climat::line;
use crate::climat::line::{Span, SpanView, Style, ACCENT, DIM, MUTED};
use crate::climat::panes;
use crate::climat::queue;
use crate::climat::queue::{Queue, QueueView};
use crate::climat::ui;
use crate::climat::ui::{Focus, Look};
use crate::ipc::{SnapshotView, StageView};
use crate::text;

verus! {

/// A key and what it does.
pub open spec fn hint(key: Seq<char>, what: Seq<char>) -> (Seq<char>, Seq<char>) {
    (key, what)
}

/// The hints of a list.
pub open spec fn hints_of(list: Seq<(&'static str, &'static str)>) -> Seq<(Seq<char>, Seq<char>)> {
    list.map_values(|h: (&'static str, &'static str)| (h.0@, h.1@))
}

/// What the keys do right now, the most useful first. While typing every letter
/// goes into the filter, so the transport is not advertised; and where typing
/// leaves the machine, that is said.
pub open spec fn hints_for(focus: Focus, typing: bool, catalog: bool) -> Seq<
    (Seq<char>, Seq<char>),
> {
    if typing && catalog {
        seq![
            hint("↵"@, "search Apple Music"@),
            hint("esc"@, "cancel"@),
            hint("⌫"@, "back"@),
        ]
    } else if typing {
        seq![hint("↵"@, "done"@), hint("esc"@, "clear"@), hint("⌫"@, "back"@)]
    } else if focus == Focus::Browser {
        seq![
            hint("space"@, "play/pause"@),
            hint("↑↓"@, "move"@),
            hint("↵"@, "play/open"@),
            hint("/"@, "filter"@),
            hint("1-5"@, "section"@),
            hint("⇥"@, "pane"@),
            hint("esc"@, "back"@),
        ]
    } else {
        seq![
            hint("space"@, "play/pause"@),
            hint("↑↓"@, "move"@),
            hint("↵"@, "play"@),
            hint("d"@, "remove"@),
            hint("KJ"@, "reorder"@),
            hint("⇥"@, "pane"@),
            hint("zb"@, "prev/next"@),
        ]
    }
}

fn hints(focus: Focus, typing: bool, catalog: bool) -> (r: Vec<(&'static str, &'static str)>)
    ensures
        hints_of(r@) == hints_for(focus, typing, catalog),
{
    let list: Vec<(&'static str, &'static str)> = if typing && catalog {
        vec![("↵", "search Apple Music"), ("esc", "cancel"), ("⌫", "back")]
    } else if typing {
        vec![("↵", "done"), ("esc", "clear"), ("⌫", "back")]
    } else if focus == Focus::Browser {
        vec![
            ("space", "play/pause"),
            ("↑↓", "move"),
            ("↵", "play/open"),
            ("/", "filter"),
            ("1-5", "section"),
            ("⇥", "pane"),
            ("esc", "back"),
        ]
    } else {
        vec![
            ("space", "play/pause"),
            ("↑↓", "move"),
            ("↵", "play"),
            ("d", "remove"),
            ("KJ", "reorder"),
            ("⇥", "pane"),
            ("zb", "prev/next"),
        ]
    };
    proof {
        assert(hints_of(list@) =~= hints_for(focus, typing, catalog));
    }
    list
}

/// How much of the line a hint takes.
pub open spec fn hint_cost(key: Seq<char>, what: Seq<char>) -> int {
    key.len() as int + what.len() + 4
}

/// What is kept free for the two ways out. A player you cannot see how to leave
/// is worse than one with no hints at all.
pub open spec fn reserved() -> int {
    hint_cost("_"@, "hide"@) + hint_cost("q"@, "quit"@)
}

/// A hint, drawn.
pub open spec fn hint_pieces(key: Seq<char>, what: Seq<char>) -> Seq<SpanView> {
    seq![
        line::piece(key, line::in_bold(MUTED)),
        line::piece(" "@ + what + "   "@, line::in_color(DIM)),
    ]
}

/// The hints from `at` on, as far as there is room for them once `used` of the
/// line is spent. The first that does not fit ends the row: nothing less useful
/// takes its place.
pub open spec fn hints_fitting(
    list: Seq<(Seq<char>, Seq<char>)>,
    at: int,
    used: int,
    width: int,
) -> Seq<SpanView>
    decreases list.len() - at,
{
    if at < 0 || at >= list.len() {
        Seq::empty()
    } else {
        let (key, what) = list[at];
        let cost = hint_cost(key, what);
        if used + cost + reserved() > width {
            Seq::empty()
        } else {
            hint_pieces(key, what) + hints_fitting(list, at + 1, used + cost, width)
        }
    }
}

/// The row of hints. The two ways out are always there.
pub open spec fn hint_line(
    width: int,
    focus: Focus,
    typing: bool,
    catalog: bool,
) -> Seq<SpanView> {
    hints_fitting(hints_for(focus, typing, catalog), 0, 0, width) + hint_pieces("_"@, "hide"@)
        + hint_pieces("q"@, "quit"@)
}

fn cost(key: &str, what: &str) -> (r: u128)
    ensures
        r == hint_cost(key@, what@),
        r <= 2 * usize::MAX + 4,
{
    let k: usize = text::chars_of(key).len();
    let w: usize = text::chars_of(what).len();
    k as u128 + w as u128 + 4
}

fn put_hint(out: &mut Vec<Span>, key: &str, what: &str)
    ensures
        line::spans(final(out)@) == line::spans(old(out)@) + hint_pieces(key@, what@),
{
    line::put(out, key, Style { color: Some(MUTED), bold: true, reversed: false });
    let mut words = " ".to_string();
    words.append(what);
    words.append("   ");
    line::put(out, words.as_str(), Style { color: Some(DIM), bold: false, reversed: false });
    proof {
        assert(line::spans(final(out)@) =~= line::spans(old(out)@) + hint_pieces(key@, what@));
    }
}

/// The row of hints. **Nothing has to be memorised**, which is why it is always
/// there rather than behind a key.
///
/// It changes with focus, because the keys do. It goes by priority and stops
/// where the window runs out, so that a narrow terminal loses the least useful
/// hints rather than the row.
pub fn key_hints(width: usize, focus: Focus, typing: bool, catalog: bool) -> (r: Vec<Span>)
    ensures
        line::spans(r@) == hint_line(width as int, focus, typing, catalog),
{
    let list = hints(focus, typing, catalog);
    let leaving: u128 = cost("_", "hide") + cost("q", "quit");
    let room: u128 = width as u128;
    let ghost all = hints_of(list@);
    let ghost fitting = hints_fitting(all, 0, 0, width as int);
    let mut out = line::blank();
    let mut used: u128 = 0;
    let mut i: usize = 0;
    proof {
        assert(line::spans(out@) + fitting =~= fitting);
    }
    let mut room_left = true;
    while room_left && i < list.len()
        invariant
            i <= list@.len(),
            all == hints_of(list@),
            leaving == reserved(),
            leaving <= 4 * usize::MAX + 8,
            room == width,
            used <= room,
            room_left ==> fitting == line::spans(out@) + hints_fitting(
                all,
                i as int,
                used as int,
                width as int,
            ),
            !room_left ==> fitting == line::spans(out@),
        decreases
                list@.len() - i + if room_left {
                    1int
                } else {
                    0int
                },
    {
        let (key, what) = list[i];
        let price: u128 = cost(key, what);
        proof {
            assert(all[i as int] == (key@, what@));
        }
        if used + price + leaving <= room {
            let ghost before = line::spans(out@);
            put_hint(&mut out, key, what);
            proof {
                let later = hints_fitting(all, i + 1, used + price, width as int);
                assert(before + (hint_pieces(key@, what@) + later) =~= (before + hint_pieces(
                    key@,
                    what@,
                )) + later);
            }
            used = used + price;
            i += 1;
        } else {
            proof {
                assert(line::spans(out@) + Seq::<SpanView>::empty() =~= line::spans(out@));
            }
            room_left = false;
        }
    }
    proof {
        assert(line::spans(out@) =~= fitting);
    }
    put_hint(&mut out, "_", "hide");
    put_hint(&mut out, "q", "quit");
    out
}

/// The two ways out are on screen however narrow it is.
pub proof fn the_ways_out_are_always_shown(width: nat, focus: Focus, typing: bool, catalog: bool)
    ensures
        ({
            let shown = hint_line(width as int, focus, typing, catalog);
            &&& shown.len() >= 4
            &&& shown[shown.len() - 4].text == "_"@
            &&& shown[shown.len() - 2].text == "q"@
        }),
{
}

/// Some hints, drawn one after the other.
pub open spec fn hint_row(list: Seq<(Seq<char>, Seq<char>)>) -> Seq<SpanView>
    decreases list.len(),
{
    if list.len() == 0 {
        Seq::empty()
    } else {
        hint_pieces(list[0].0, list[0].1) + hint_row(list.drop_first())
    }
}

/// How much of the line some pieces take.
pub open spec fn cells(pieces: Seq<SpanView>) -> int
    decreases pieces.len(),
{
    if pieces.len() == 0 {
        0
    } else {
        cells(pieces.drop_last()) + pieces.last().text.len()
    }
}

proof fn cells_add_up(a: Seq<SpanView>, b: Seq<SpanView>)
    ensures
        cells(a + b) == cells(a) + cells(b),
    decreases b.len(),
{
    if b.len() == 0 {
        assert(a + b =~= a);
    } else {
        cells_add_up(a, b.drop_last());
        assert((a + b).drop_last() =~= a + b.drop_last());
    }
}

proof fn a_hint_takes_what_it_costs(key: Seq<char>, what: Seq<char>)
    ensures
        cells(hint_pieces(key, what)) == hint_cost(key, what),
{
    reveal_strlit(" ");
    reveal_strlit("   ");
    let pieces = hint_pieces(key, what);
    assert(pieces.drop_last() =~= seq![pieces[0]]);
    assert(pieces.drop_last().drop_last() =~= Seq::<SpanView>::empty());
    reveal_with_fuel(cells, 3);
}

proof fn what_fits_is_a_prefix(
    list: Seq<(Seq<char>, Seq<char>)>,
    at: int,
    used: int,
    width: int,
) -> (shown: int)
    requires
        0 <= at <= list.len(),
    ensures
        at <= shown <= list.len(),
        hints_fitting(list, at, used, width) == hint_row(list.subrange(at, shown)),
        shown > at ==> used + cells(hints_fitting(list, at, used, width)) + reserved() <= width,
        shown == at ==> cells(hints_fitting(list, at, used, width)) == 0,
    decreases list.len() - at,
{
    if at >= list.len() {
        assert(list.subrange(at, at) =~= Seq::empty());
        at
    } else {
        let (key, what) = list[at];
        let price = hint_cost(key, what);
        if used + price + reserved() > width {
            assert(list.subrange(at, at) =~= Seq::empty());
            at
        } else {
            let shown = what_fits_is_a_prefix(list, at + 1, used + price, width);
            let here = list.subrange(at, shown);
            assert(here.drop_first() =~= list.subrange(at + 1, shown));
            a_hint_takes_what_it_costs(key, what);
            cells_add_up(
                hint_pieces(key, what),
                hints_fitting(list, at + 1, used + price, width),
            );
            shown
        }
    }
}

/// The row is the most useful hints, in their order and as many as fit, and then
/// the two ways out: a narrow window never loses a hint while a less useful one
/// stays.
pub proof fn a_narrow_window_loses_the_least_useful_hints(
    width: nat,
    focus: Focus,
    typing: bool,
    catalog: bool,
)
    ensures
        exists|shown: int|
            0 <= shown <= hints_for(focus, typing, catalog).len() && hint_line(
                width as int,
                focus,
                typing,
                catalog,
            ) == hint_row(#[trigger] hints_for(focus, typing, catalog).take(shown)) + hint_pieces(
                "_"@,
                "hide"@,
            ) + hint_pieces("q"@, "quit"@),
{
    let list = hints_for(focus, typing, catalog);
    let shown = what_fits_is_a_prefix(list, 0, 0, width as int);
    assert(list.subrange(0, shown) =~= list.take(shown));
}

/// Where the two ways out fit, the row does.
pub proof fn the_hints_fit_the_window(width: nat, focus: Focus, typing: bool, catalog: bool)
    requires
        width >= 18,
    ensures
        cells(hint_line(width as int, focus, typing, catalog)) <= width,
{
    let fitting = hints_fitting(hints_for(focus, typing, catalog), 0, 0, width as int);
    let _shown = what_fits_is_a_prefix(hints_for(focus, typing, catalog), 0, 0, width as int);
    let hide = hint_pieces("_"@, "hide"@);
    let quit = hint_pieces("q"@, "quit"@);
    a_hint_takes_what_it_costs("_"@, "hide"@);
    a_hint_takes_what_it_costs("q"@, "quit"@);
    cells_add_up(fitting, hide);
    cells_add_up(fitting + hide, quit);
    reveal_strlit("_");
    reveal_strlit("hide");
    reveal_strlit("q");
    reveal_strlit("quit");
}

/// A rectangle of the screen, in cells.
#[derive(Debug, Clone, Copy, PartialEq, Eq, Structural)]
pub struct Area {
    pub x: u16,
    pub y: u16,
    pub width: u16,
    pub height: u16,
}

/// How much of the height a pane asks for.
#[derive(Debug, Clone, Copy, PartialEq, Eq, Structural)]
pub enum Room {
    /// So many rows.
    Length(u16),
    /// A share of what is left over, against the others that ask for one.
    Fill(u16),
}

/// Whether a pane is a full-width stretch of an area.
pub open spec fn lies_across(pane: Area, area: Area) -> bool {
    &&& pane.x == area.x
    &&& pane.width == area.width
    &&& area.y <= pane.y
    &&& pane.y + pane.height <= area.y + area.height
}

/// How many rows are asked for.
pub open spec fn rows_asked(rooms: Seq<Room>) -> int
    decreases rooms.len(),
{
    if rooms.len() == 0 {
        0
    } else {
        rows_asked(rooms.drop_last()) + match rooms.last() {
            Room::Length(rows) => rows as int,
            Room::Fill(_) => 0,
        }
    }
}

/// How many shares of what is left over are asked for.
pub open spec fn shares_asked(rooms: Seq<Room>) -> int
    decreases rooms.len(),
{
    if rooms.len() == 0 {
        0
    } else {
        shares_asked(rooms.drop_last()) + match rooms.last() {
            Room::Length(_) => 0,
            Room::Fill(share) => share as int,
        }
    }
}

/// Whether a handful of panes is asked for, none of which outweighs the others by
/// far.
pub open spec fn modest(rooms: Seq<Room>) -> bool {
    &&& rooms.len() <= 8
    &&& forall|i: int|
        0 <= i < rooms.len() ==> (#[trigger] rooms[i] matches Room::Fill(share) ==> 1 <= share
            <= 10)
}

/// Whether an area has all the rows that are asked for.
pub open spec fn has_room(area: Area, rooms: Seq<Room>) -> bool {
    &&& rows_asked(rooms) <= area.height
    &&& area.y + area.height <= u16::MAX
}

/// How far down the pane `i` begins where there is room for all: below what the
/// panes above it ask for, and their part of what is left over, to the nearest
/// row.
pub open spec fn edge(rooms: Seq<Room>, height: int, i: int) -> int {
    let above = rooms.take(i);
    let left = height - rows_asked(rooms);
    let shares = shares_asked(rooms);
    rows_asked(above) + if shares == 0 {
        0
    } else {
        (2 * shares_asked(above) * left + shares) / (2 * shares)
    }
}

/// Whether panes divide an area as they were asked to: from the top, none over
/// another, and, where there is room, each between its own edge and the next.
pub open spec fn laid_out(panes: Seq<Area>, rooms: Seq<Room>, area: Area) -> bool {
    &&& panes.len() == rooms.len()
    &&& forall|i: int| 0 <= i < panes.len() ==> lies_across(#[trigger] panes[i], area)
    &&& forall|i: int, j: int|
        0 <= i < j < panes.len() ==> (#[trigger] panes[i]).y + panes[i].height <= (
        #[trigger] panes[j]).y
    &&& has_room(area, rooms) ==> forall|i: int|
        0 <= i < panes.len() ==> {
            &&& (#[trigger] panes[i]).y == area.y + edge(rooms, area.height as int, i)
            &&& panes[i].y + panes[i].height == area.y + edge(rooms, area.height as int, i + 1)
        }
}

/// `ratatui::layout::Layout::split` on a vertical layout gives one rectangle for
/// each constraint, in their order. Each keeps the area's left edge and width and
/// lies within its height.
///
/// Of a handful of panes: the weights of its constraints keep every gap between
/// two panes at nothing, so none lies over another. A length weighs more than a
/// share of what is left, so every length is met where all of them fit. What is
/// left is then shared out exactly, and each edge rounded to a row.
///
/// Who goes short where they do not all fit is left unsaid: the solver has several
/// answers then, and takes one by walking maps with a hasher that every process
/// seeds anew. Nothing is said of many panes or large shares, whose weights add up.
#[verifier::external_body]
fn split(area: Area, rooms: &[Room]) -> (r: Vec<Area>)
    ensures
        r@.len() == rooms@.len(),
        forall|i: int| 0 <= i < r@.len() ==> lies_across(#[trigger] r@[i], area),
        modest(rooms@) ==> laid_out(r@, rooms@, area),
{
    let constraints = rooms.iter().map(|room| match room {
        Room::Length(rows) => ratatui::layout::Constraint::Length(*rows),
        Room::Fill(share) => ratatui::layout::Constraint::Fill(*share),
    });
    let Area { x, y, width, height } = area;
    ratatui::layout::Layout::vertical(constraints)
        .split(ratatui::layout::Rect { x, y, width, height })
        .iter()
        .map(|pane| Area { x: pane.x, y: pane.y, width: pane.width, height: pane.height })
        .collect()
}

/// A pane and what is written on it.
#[derive(Debug)]
pub struct Drawn {
    pub area: Area,
    pub lines: Vec<Vec<Span>>,
}

/// A [`Drawn`] with its lines as sequences.
#[verifier::ext_equal]
pub struct DrawnView {
    pub area: Area,
    pub lines: Seq<Seq<SpanView>>,
}

impl View for Drawn {
    type V = DrawnView;

    open spec fn view(&self) -> DrawnView {
        DrawnView { area: self.area, lines: line::lines(self.lines@) }
    }
}

/// The panes of a screen.
pub open spec fn panes_of(list: Seq<Drawn>) -> Seq<DrawnView> {
    list.map_values(|d: Drawn| d@)
}

/// A line with a blank one above it. The gap leads: a section is apart from what
/// comes before it.
pub open spec fn spaced(words: Seq<SpanView>) -> Seq<Seq<SpanView>> {
    seq![Seq::empty(), words]
}

/// What the player's own lines are drawn from.
#[verifier::ext_equal]
pub struct LookView {
    pub snap: SnapshotView,
    pub stage: StageView,
    pub focus: Focus,
    pub bars: Seq<u8>,
    pub sounding: bool,
    pub played: int,
    pub volume: int,
    pub message: Option<Seq<char>>,
}

impl<'a> View for Look<'a> {
    type V = LookView;

    open spec fn view(&self) -> LookView {
        LookView {
            snap: self.snap@,
            stage: self.stage@,
            focus: self.focus,
            bars: self.bars@,
            sounding: self.sounding,
            played: self.played as int,
            volume: self.volume as int,
            message: match self.message {
                Some(words) => Some(words@),
                None => None,
            },
        }
    }
}

/// Whether the pane is showing the catalog, or a page reached from it.
pub open spec fn is_catalog(pane: BrowserView) -> bool {
    pane.showing is Catalog || pane.from_catalog
}

/// What was refused, if anything was.
pub open spec fn note(look: LookView, area: Area, width: int) -> Seq<DrawnView> {
    match look.message {
        Some(words) => seq![
            DrawnView {
                area,
                lines: spaced(
                    seq![line::piece(line::fitted(words, width), line::in_color(ACCENT))],
                ),
            },
        ],
        None => Seq::empty(),
    }
}

/// The screen, from the panes it is divided into.
pub open spec fn painted(
    look: LookView,
    pane: BrowserView,
    list: QueueView,
    areas: Seq<Area>,
    width: int,
) -> Seq<DrawnView> {
    let top = DrawnView {
        area: areas[0],
        lines: ui::playing_lines(
            look.stage,
            look.snap,
            look.bars,
            look.sounding,
            look.played,
            look.volume,
            width,
        ),
    };
    let below = seq![
        DrawnView { area: areas[2], lines: spaced(queue::queue_label(list)) },
        DrawnView {
            area: areas[3],
            lines: queue::queue_lines(
                list.scrolled(areas[3].height as int),
                areas[3].height as int,
                areas[3].width as int,
                look.focus == Focus::Queue,
            ),
        },
        DrawnView { area: areas[4], lines: spaced(panes::pane_header(pane)) },
        DrawnView {
            area: areas[5],
            lines: panes::pane_lines(
                panes::drawn(pane, areas[5].height as int),
                areas[5].height as int,
                areas[5].width as int,
                look.focus == Focus::Browser,
            ),
        },
        DrawnView {
            area: areas[6],
            lines: seq![hint_line(width, look.focus, pane.typing, is_catalog(pane))],
        },
    ];
    seq![top] + note(look, areas[1], width) + below
}

fn put_pane(screen: &mut Vec<Drawn>, area: Area, lines: Vec<Vec<Span>>)
    ensures
        panes_of(final(screen)@) == panes_of(old(screen)@).push(
            DrawnView { area, lines: line::lines(lines@) },
        ),
{
    let ghost before = panes_of(screen@);
    let ghost more = DrawnView { area, lines: line::lines(lines@) };
    screen.push(Drawn { area, lines });
    proof {
        assert(panes_of(screen@) =~= before.push(more));
    }
}

fn under_a_gap(words: Vec<Span>) -> (r: Vec<Vec<Span>>)
    ensures
        line::lines(r@) == spaced(line::spans(words@)),
{
    let mut out: Vec<Vec<Span>> = Vec::new();
    line::put_line(&mut out, line::blank());
    line::put_line(&mut out, words);
    proof {
        assert(line::lines(out@) =~= spaced(line::spans(words@)));
    }
    out
}

/// Fill the panes a screen is divided into.
///
/// The queue sits under the transport, because it is what the transport moves
/// through. The library is below it.
pub fn paint(
    look: &Look,
    pane: &mut Browser,
    list: &mut Queue,
    areas: &[Area],
    width: usize,
) -> (r: Vec<Drawn>)
    requires
        areas@.len() == 7,
        look.bars@.len() * width <= usize::MAX,
    ensures
        panes_of(r@) == painted(look@, old(pane)@, old(list)@, areas@, width as int),
        final(pane)@ == panes::drawn(old(pane)@, areas@[5].height as int),
        final(list)@ == old(list)@.scrolled(areas@[3].height as int),
{
    let mut screen: Vec<Drawn> = Vec::new();
    put_pane(&mut screen, areas[0], ui::now_playing(look, width));
    if let Some(message) = look.message {
        let words = line::fit(message, width);
        let mut refusal = line::blank();
        line::put(
            &mut refusal,
            words.as_str(),
            Style { color: Some(ACCENT), bold: false, reversed: false },
        );
        proof {
            assert(line::spans(refusal@) =~= seq![
                line::piece(line::fitted(message@, width as int), line::in_color(ACCENT)),
            ]);
        }
        put_pane(&mut screen, areas[1], under_a_gap(refusal));
    }
    put_pane(&mut screen, areas[2], under_a_gap(queue::header(list)));
    let on_queue = look.focus == Focus::Queue;
    let queued = queue::render(
        list,
        areas[3].height as usize,
        areas[3].width as usize,
        on_queue,
    );
    put_pane(&mut screen, areas[3], queued);
    let catalog = pane.showing.is_catalog() || pane.from_catalog;
    let typing = pane.typing;
    put_pane(&mut screen, areas[4], under_a_gap(panes::header(pane)));
    let on_browser = look.focus == Focus::Browser;
    let rows = panes::render(
        pane,
        areas[5].height as usize,
        areas[5].width as usize,
        on_browser,
    );
    put_pane(&mut screen, areas[5], rows);
    let mut hint_row: Vec<Vec<Span>> = Vec::new();
    line::put_line(&mut hint_row, key_hints(width, look.focus, typing, catalog));
    proof {
        assert(line::lines(hint_row@) =~= seq![
            hint_line(width as int, look.focus, typing, catalog),
        ]);
    }
    put_pane(&mut screen, areas[6], hint_row);
    proof {
        assert(panes_of(screen@) =~= painted(
            look@,
            old(pane)@,
            old(list)@,
            areas@,
            width as int,
        ));
    }
    screen
}

/// The part of a screen that is drawn on: two cells of margin either side, and
/// one above and below.
pub open spec fn within_margins(frame: Area) -> Area {
    Area {
        x: (frame.x + 2) as u16,
        y: (frame.y + 1) as u16,
        width: if frame.width > 4 {
            (frame.width - 4) as u16
        } else {
            0
        },
        height: if frame.height > 2 {
            (frame.height - 2) as u16
        } else {
            0
        },
    }
}

fn margins(frame: Area) -> (r: Area)
    requires
        frame.x + 2 <= u16::MAX,
        frame.y + 1 <= u16::MAX,
    ensures
        r == within_margins(frame),
{
    Area {
        x: frame.x + 2,
        y: frame.y + 1,
        width: if frame.width > 4 {
            frame.width - 4
        } else {
            0
        },
        height: if frame.height > 2 {
            frame.height - 2
        } else {
            0
        },
    }
}

/// What each pane asks for, from the top. The library gets the larger share of
/// what is left over: it is what you are reading.
pub open spec fn rooms_for(message: bool) -> Seq<Room> {
    seq![
        Room::Length(5),
        Room::Length(
            if message {
                2
            } else {
                0
            },
        ),
        Room::Length(2),
        Room::Fill(2),
        Room::Length(2),
        Room::Fill(3),
        Room::Length(1),
    ]
}

/// What each pane asks for, from the top.
pub fn rooms(message: bool) -> (r: Vec<Room>)
    ensures
        r@ == rooms_for(message),
{
    let notice: u16 = if message {
        2
    } else {
        0
    };
    let list: Vec<Room> = vec![
        Room::Length(5),
        Room::Length(notice),
        Room::Length(2),
        Room::Fill(2),
        Room::Length(2),
        Room::Fill(3),
        Room::Length(1),
    ];
    proof {
        assert(list@ =~= rooms_for(message));
    }
    list
}

proof fn one_pane_more(rooms: Seq<Room>, i: int)
    requires
        0 <= i < rooms.len(),
    ensures
        rows_asked(rooms.take(i + 1)) == rows_asked(rooms.take(i)) + match rooms[i] {
            Room::Length(rows) => rows as int,
            Room::Fill(_) => 0,
        },
        shares_asked(rooms.take(i + 1)) == shares_asked(rooms.take(i)) + match rooms[i] {
            Room::Length(_) => 0,
            Room::Fill(share) => share as int,
        },
{
    assert(rooms.take(i + 1).drop_last() =~= rooms.take(i));
}

/// Where each pane of the screen begins, as far as there is room for all.
proof fn edges_of_the_screen(message: bool, height: int)
    ensures
        ({
            let rooms = rooms_for(message);
            let note = if message {
                2int
            } else {
                0
            };
            let left = height - 10 - note;
            &&& modest(rooms)
            &&& rows_asked(rooms) == 10 + note
            &&& edge(rooms, height, 0) == 0
            &&& edge(rooms, height, 1) == 5
            &&& edge(rooms, height, 2) == 5 + note
            &&& edge(rooms, height, 3) == 7 + note
            &&& edge(rooms, height, 4) == 7 + note + (4 * left + 5) / 10
            &&& edge(rooms, height, 5) == 9 + note + (4 * left + 5) / 10
            &&& edge(rooms, height, 6) == 9 + note + left
            &&& edge(rooms, height, 7) == height
        }),
{
    let rooms = rooms_for(message);
    let note = if message {
        2int
    } else {
        0
    };
    let left = height - 10 - note;
    assert(rooms.take(0).len() == 0);
    one_pane_more(rooms, 0);
    one_pane_more(rooms, 1);
    one_pane_more(rooms, 2);
    one_pane_more(rooms, 3);
    one_pane_more(rooms, 4);
    one_pane_more(rooms, 5);
    one_pane_more(rooms, 6);
    assert(rooms.take(7) =~= rooms);
    assert(rows_asked(rooms) == 10 + note);
    assert(shares_asked(rooms) == 5);
    assert(2int * 0int * left == 0) by (nonlinear_arith);
    assert(2int * 2int * left == 4 * left) by (nonlinear_arith);
    assert(2int * 5int * left == 10 * left) by (nonlinear_arith);
    assert((10 * left + 5) / 10 == left);
}

/// Where the window has the rows, every line of the screen that is not a list has
/// its place, the lists get all that is left over, and the library gets the larger
/// share of it.
pub proof fn the_library_gets_the_larger_share(panes: Seq<Area>, message: bool, area: Area)
    requires
        laid_out(panes, rooms_for(message), area),
        has_room(area, rooms_for(message)),
    ensures
        panes[0].y == area.y,
        forall|i: int|
            0 <= i < 6 ==> (#[trigger] panes[i]).y + panes[i].height == panes[i + 1].y,
        panes[6].y + panes[6].height == area.y + area.height,
        panes[0].height == 5,
        panes[1].height == if message {
            2int
        } else {
            0
        },
        panes[2].height == 2,
        panes[4].height == 2,
        panes[6].height == 1,
        panes[3].height <= panes[5].height,
{
    edges_of_the_screen(message, area.height as int);
}

/// Draw the screen. Every pane lies within the margins, at their full width.
pub fn draw(frame: Area, look: &Look, pane: &mut Browser, list: &mut Queue) -> (r: Vec<Drawn>)
    requires
        frame.x + 2 <= u16::MAX,
        frame.y + 1 <= u16::MAX,
        look.bars@.len() * within_margins(frame).width <= usize::MAX,
    ensures
        exists|areas: Seq<Area>|
            {
                &&& laid_out(areas, rooms_for(look.message is Some), within_margins(frame))
                &&& panes_of(r@) == #[trigger] painted(
                    look@,
                    old(pane)@,
                    old(list)@,
                    areas,
                    within_margins(frame).width as int,
                )
                &&& final(pane)@ == panes::drawn(old(pane)@, areas[5].height as int)
                &&& final(list)@ == old(list)@.scrolled(areas[3].height as int)
            },
{
    let area = margins(frame);
    let asked = rooms(look.message.is_some());
    let areas = split(area, asked.as_slice());
    let width: usize = area.width as usize;
    proof {
        edges_of_the_screen(look.message is Some, area.height as int);
    }
    paint(look, pane, list, areas.as_slice(), width)
}

} // verus!
