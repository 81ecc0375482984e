//! Drawing. Borderless: whitespace separates the regions and one accent marks
//! what is playing, what is selected and what is on.

use vstd::prelude::*;

use crate::climat::browser::Browser;
use crate::climat::line;
use crate::climat::line::{Span, SpanView, Style, ACCENT, BRIGHT, DIM, MUTED};
use crate::climat::queue::Queue;
use crate::ipc::{Snapshot, SnapshotView, Stage, StageView};
use crate::protocol::RepeatMode;

verus! {

/// Which pane the arrow keys are talking to.
#[derive(Debug, Clone, Copy, PartialEq, Eq, Structural)]
pub enum Focus {
    /// Where a fresh client starts: the library is what you came to look at.
    Browser,
    Queue,
}

impl Default for Focus {
    fn default() -> (r: Self)
        ensures
            r == Focus::Browser,
    {
        Focus::Browser
    }
}

/// How wide the volume meter is. It is a state to glance at, not a thing to read
/// along.
pub const VOL: usize = 10;

/// What the transport line spends on things that are not the bar.
pub const TRANSPORT_FURNITURE: usize = 22;

fn colored(color: u32) -> (r: Style)
    ensures
        r == line::in_color(color),
{
    Style { color: Some(color), bold: false, reversed: false }
}

fn bold(color: u32) -> (r: Style)
    ensures
        r == line::in_bold(color),
{
    Style { color: Some(color), bold: true, reversed: false }
}

fn unstyled() -> (r: Style)
    ensures
        r == line::plain(),
{
    Style { color: None, bold: false, reversed: false }
}

/// What a client says before it can play.
pub open spec fn stage_words(stage: StageView) -> Seq<char> {
    match stage {
        StageView::Connecting => "Starting the playback engine…"@,
        StageView::SignedOut => "Not signed in — open Slipmat to sign in"@,
        StageView::Broken { detail } => "Playback unavailable: "@ + detail,
        StageView::Ready => Seq::empty(),
    }
}

pub fn stage_text(stage: &Stage) -> (r: String)
    ensures
        r@ == stage_words(stage@),
{
    match stage {
        Stage::Connecting => "Starting the playback engine…".to_string(),
        Stage::SignedOut => "Not signed in — open Slipmat to sign in".to_string(),
        Stage::Broken { detail } => {
            let mut words = "Playback unavailable: ".to_string();
            words.append(detail.as_str());
            words
        },
        Stage::Ready => String::new(),
    }
}

/// What a repeat mode is called.
pub open spec fn repeat_words(repeat: RepeatMode) -> Seq<char> {
    match repeat {
        RepeatMode::Off => "off"@,
        RepeatMode::All => "all"@,
        RepeatMode::One => "one"@,
    }
}

pub fn repeat_text(repeat: RepeatMode) -> (r: &'static str)
    ensures
        r@ == repeat_words(repeat),
{
    match repeat {
        RepeatMode::Off => "off",
        RepeatMode::All => "all",
        RepeatMode::One => "one",
    }
}

/// A mode by its name, lit while it is on.
pub open spec fn mode_piece(on: bool, words: Seq<char>) -> SpanView {
    line::piece(
        words,
        line::in_color(
            if on {
                ACCENT
            } else {
                DIM
            },
        ),
    )
}

fn put_mode(out: &mut Vec<Span>, on: bool, words: &str)
    ensures
        line::spans(final(out)@) == line::spans(old(out)@).push(mode_piece(on, words@)),
{
    let color: u32 = if on {
        ACCENT
    } else {
        DIM
    };
    line::put(out, words, colored(color));
}

/// How wide the progress bar is: what the line has left.
pub open spec fn bar_room(width: int) -> int {
    if width >= TRANSPORT_FURNITURE + 8 {
        width - TRANSPORT_FURNITURE
    } else {
        8
    }
}

/// How wide the progress bar is. A bar you can aim at is worth more than
/// whitespace, so it takes what the line has left.
pub fn bar_width(width: usize) -> (r: usize)
    ensures
        r == bar_room(width as int),
{
    if width >= TRANSPORT_FURNITURE + 8 {
        width - TRANSPORT_FURNITURE
    } else {
        8
    }
}

/// What the player's own lines are drawn from.
#[derive(Debug)]
pub struct Look<'a> {
    pub snap: &'a Snapshot,
    pub stage: &'a Stage,
    pub focus: Focus,
    /// How loud each band is, in sixteenths.
    pub bars: &'a [u8],
    /// Whether any band makes a sound at all.
    pub sounding: bool,
    /// How many cells of the progress bar are full.
    pub played: usize,
    /// How many cells of the volume meter are full.
    pub volume: usize,
    pub message: Option<&'a str>,
}

/// The line that names the track.
pub open spec fn title_line(snap: SnapshotView) -> Seq<SpanView> {
    seq![
        line::piece(snap.title, line::in_bold(BRIGHT)),
        line::piece("  —  "@, line::in_color(DIM)),
        line::piece(snap.artist, line::in_color(MUTED)),
    ]
}

/// The line with the progress bar and the clock.
pub open spec fn transport_line(snap: SnapshotView, played: int, width: int) -> Seq<SpanView> {
    let bar = bar_room(width);
    let full = line::full_cells(played, bar);
    seq![
        line::piece(
            if snap.playing {
                "▶"@
            } else {
                "❚❚"@
            },
            line::in_color(ACCENT),
        ),
        line::piece("   "@, line::plain()),
        line::piece(line::repeated('█', full), line::in_color(ACCENT)),
        line::piece(line::repeated('░', bar - full), line::in_color(DIM)),
        line::piece("   "@, line::plain()),
        line::piece(
            line::clock_face(snap.position_ms as nat) + " / "@ + line::clock_face(
                snap.duration_ms as nat,
            ),
            line::in_color(DIM),
        ),
    ]
}

/// The line with the modes and the volume.
pub open spec fn modes_line(snap: SnapshotView, volume: int) -> Seq<SpanView> {
    let full = line::full_cells(volume, VOL as int);
    seq![
        line::piece("    "@, line::plain()),
        line::piece("shuffle "@, line::in_color(DIM)),
        mode_piece(
            snap.shuffle,
            if snap.shuffle {
                "on"@
            } else {
                "off"@
            },
        ),
        line::piece("   repeat "@, line::in_color(DIM)),
        mode_piece(snap.repeat != RepeatMode::Off, repeat_words(snap.repeat)),
        line::piece("   vol "@, line::in_color(DIM)),
        line::piece(line::repeated('█', full), line::in_color(ACCENT)),
        line::piece(line::repeated('░', VOL - full), line::in_color(DIM)),
    ]
}

/// What the top of the screen says. Anything but ready has nothing to say about
/// a track, so it says what it is doing instead.
pub open spec fn playing_lines(
    stage: StageView,
    snap: SnapshotView,
    bars: Seq<u8>,
    sounding: bool,
    played: int,
    volume: int,
    width: int,
) -> Seq<Seq<SpanView>> {
    if stage != StageView::Ready {
        seq![seq![line::piece(stage_words(stage), line::in_color(MUTED))]]
    } else if snap.title.len() == 0 {
        seq![seq![line::piece("Nothing playing"@, line::in_color(MUTED))]]
    } else {
        seq![
            title_line(snap),
            if sounding {
                line::upper_row(bars, width)
            } else {
                Seq::empty()
            },
            if sounding {
                line::lower_row(bars, width)
            } else {
                Seq::empty()
            },
            transport_line(snap, played, width),
            modes_line(snap, volume),
        ]
    }
}

fn one_line(words: &str, color: u32) -> (r: Vec<Vec<Span>>)
    ensures
        line::lines(r@) == seq![seq![line::piece(words@, line::in_color(color))]],
{
    let mut out: Vec<Vec<Span>> = Vec::new();
    let mut only = line::blank();
    line::put(&mut only, words, colored(color));
    proof {
        assert(line::spans(only@) =~= seq![line::piece(words@, line::in_color(color))]);
    }
    line::put_line(&mut out, only);
    proof {
        assert(line::lines(out@) =~= seq![seq![line::piece(words@, line::in_color(color))]]);
    }
    out
}

fn title(snap: &Snapshot) -> (r: Vec<Span>)
    ensures
        line::spans(r@) == title_line(snap@),
{
    let mut out = line::blank();
    line::put(&mut out, snap.title.as_str(), bold(BRIGHT));
    line::put(&mut out, "  —  ", colored(DIM));
    line::put(&mut out, snap.artist.as_str(), colored(MUTED));
    proof {
        assert(line::spans(out@) =~= title_line(snap@));
    }
    out
}

fn transport(snap: &Snapshot, played: usize, width: usize) -> (r: Vec<Span>)
    ensures
        line::spans(r@) == transport_line(snap@, played as int, width as int),
{
    let bar: usize = bar_width(width);
    let mut out = line::blank();
    let mark: &str = if snap.playing {
        "▶"
    } else {
        "❚❚"
    };
    line::put(&mut out, mark, colored(ACCENT));
    line::put(&mut out, "   ", unstyled());
    let full = line::meter(played, bar);
    line::put(&mut out, full.as_str(), colored(ACCENT));
    let left = line::rest(played, bar);
    line::put(&mut out, left.as_str(), colored(DIM));
    line::put(&mut out, "   ", unstyled());
    let mut time = line::clock(snap.position_ms);
    time.append(" / ");
    let whole = line::clock(snap.duration_ms);
    time.append(whole.as_str());
    line::put(&mut out, time.as_str(), colored(DIM));
    proof {
        assert(line::spans(out@) =~= transport_line(snap@, played as int, width as int));
    }
    out
}

fn modes(snap: &Snapshot, volume: usize) -> (r: Vec<Span>)
    ensures
        line::spans(r@) == modes_line(snap@, volume as int),
{
    let mut out = line::blank();
    line::put(&mut out, "    ", unstyled());
    line::put(&mut out, "shuffle ", colored(DIM));
    let shuffle: &str = if snap.shuffle {
        "on"
    } else {
        "off"
    };
    put_mode(&mut out, snap.shuffle, shuffle);
    line::put(&mut out, "   repeat ", colored(DIM));
    put_mode(&mut out, snap.repeat != RepeatMode::Off, repeat_text(snap.repeat));
    line::put(&mut out, "   vol ", colored(DIM));
    let full = line::meter(volume, VOL);
    line::put(&mut out, full.as_str(), colored(ACCENT));
    let left = line::rest(volume, VOL);
    line::put(&mut out, left.as_str(), colored(DIM));
    proof {
        assert(line::spans(out@) =~= modes_line(snap@, volume as int));
    }
    out
}

fn is_ready(stage: &Stage) -> (r: bool)
    ensures
        r == (stage@ == StageView::Ready),
{
    match stage {
        Stage::Ready => true,
        _ => false,
    }
}

/// The top of the screen.
///
/// The bars stand under the title, two rows tall: one row of block characters is
/// only eight heights.
pub fn now_playing(look: &Look, width: usize) -> (r: Vec<Vec<Span>>)
    requires
        look.bars@.len() * width <= usize::MAX,
    ensures
        line::lines(r@) == playing_lines(
            look.stage@,
            look.snap@,
            look.bars@,
            look.sounding,
            look.played as int,
            look.volume as int,
            width as int,
        ),
{
    if !is_ready(look.stage) {
        let words = stage_text(look.stage);
        return one_line(words.as_str(), MUTED);
    }
    if look.snap.title.as_str().is_empty() {
        return one_line("Nothing playing", MUTED);
    }
    let (upper, lower) = if look.sounding {
        line::bars(look.bars, width)
    } else {
        (line::blank(), line::blank())
    };
    let mut out: Vec<Vec<Span>> = Vec::new();
    line::put_line(&mut out, title(look.snap));
    line::put_line(&mut out, upper);
    line::put_line(&mut out, lower);
    line::put_line(&mut out, transport(look.snap, look.played, width));
    line::put_line(&mut out, modes(look.snap, look.volume));
    proof {
        assert(line::lines(out@) =~= playing_lines(
            look.stage@,
            look.snap@,
            look.bars@,
            look.sounding,
            look.played as int,
            look.volume as int,
            width as int,
        ));
    }
    out
}

} // verus!
