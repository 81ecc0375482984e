//! What a line on a terminal is made of: text cut to a width, a clock, a meter
//! and the bars.

use vstd::prelude::*;

use crate::text;

verus! {

/// The only colour that means anything: what is playing, selected or on. A
/// colour is its red, green and blue, a byte each.
pub const ACCENT: u32 = 0xFF4A5E;

/// Track titles and anything the eye should land on.
pub const BRIGHT: u32 = 0xF2ECED;

/// Artists, and the second half of a line.
pub const MUTED: u32 = 0x9A8E90;

/// Times, labels, and everything that is only there when looked for.
pub const DIM: u32 = 0x655B5D;

/// White, for the top of the bars.
pub const PEAK: u32 = 0xFFFFFF;

/// How a piece of text looks. No colour is the terminal's own.
#[derive(Debug, Clone, Copy, PartialEq, Eq, Structural)]
pub struct Style {
    pub color: Option<u32>,
    pub bold: bool,
    pub reversed: bool,
}

/// Plain text.
pub open spec fn plain() -> Style {
    Style { color: None, bold: false, reversed: false }
}

/// Text in a colour.
pub open spec fn in_color(color: u32) -> Style {
    Style { color: Some(color), bold: false, reversed: false }
}

/// Bold text in a colour.
pub open spec fn in_bold(color: u32) -> Style {
    Style { color: Some(color), bold: true, reversed: false }
}

/// Text in a colour, front and back exchanged.
pub open spec fn in_reverse(color: u32) -> Style {
    Style { color: Some(color), bold: false, reversed: true }
}

/// A piece of text that looks one way.
#[derive(Debug, PartialEq, Eq)]
pub struct Span {
    pub text: String,
    pub style: Style,
}

/// A [`Span`] with its text as a sequence.
#[verifier::ext_equal]
pub struct SpanView {
    pub text: Seq<char>,
    pub style: Style,
}

impl View for Span {
    type V = SpanView;

    open spec fn view(&self) -> SpanView {
        SpanView { text: self.text@, style: self.style }
    }
}

/// The pieces of a line.
pub open spec fn spans(line: Seq<Span>) -> Seq<SpanView> {
    line.map_values(|s: Span| s@)
}

/// The lines of a pane.
pub open spec fn lines(list: Seq<Vec<Span>>) -> Seq<Seq<SpanView>> {
    list.map_values(|l: Vec<Span>| spans(l@))
}

/// A piece of text.
pub open spec fn piece(words: Seq<char>, style: Style) -> SpanView {
    SpanView { text: words, style }
}

/// Add a piece to a line.
pub fn put(line: &mut Vec<Span>, words: &str, style: Style)
    ensures
        spans(final(line)@) == spans(old(line)@).push(piece(words@, style)),
{
    let ghost before = spans(line@);
    line.push(Span { text: words.to_string(), style });
    proof {
        assert(spans(line@) =~= before.push(piece(words@, style)));
    }
}

/// A line without anything on it.
pub fn blank() -> (r: Vec<Span>)
    ensures
        spans(r@) == Seq::<SpanView>::empty(),
{
    let r: Vec<Span> = Vec::new();
    proof {
        assert(spans(r@) =~= Seq::<SpanView>::empty());
    }
    r
}

/// Add a line to a pane.
pub fn put_line(pane: &mut Vec<Vec<Span>>, line: Vec<Span>)
    ensures
        lines(final(pane)@) == lines(old(pane)@).push(spans(line@)),
{
    let ghost before = lines(pane@);
    let ghost more = spans(line@);
    pane.push(line);
    proof {
        assert(lines(pane@) =~= before.push(more));
    }
}

/// One character, over and over.
pub open spec fn repeated(c: char, n: int) -> Seq<char> {
    Seq::new(
        if n < 0 {
            0
        } else {
            n as nat
        },
        |i: int| c,
    )
}

/// Add a character `n` times.
pub fn push_repeated(out: &mut String, c: char, n: usize)
    ensures
        final(out)@ == old(out)@ + repeated(c, n as int),
{
    let ghost before = out@;
    let mut i: usize = 0;
    proof {
        assert(before =~= before + repeated(c, 0));
    }
    while i < n
        invariant
            i <= n,
            out@ == before + repeated(c, i as int),
        decreases n - i,
    {
        out.push(c);
        proof {
            assert(before + repeated(c, i + 1) =~= (before + repeated(c, i as int)).push(c));
        }
        i += 1;
    }
}

/// A text cut to a width or padded out to it, so that a column stays a column.
pub open spec fn fitted(words: Seq<char>, width: int) -> Seq<char> {
    if width <= 0 {
        Seq::empty()
    } else if words.len() <= width {
        words + repeated(' ', width - words.len())
    } else {
        words.take(width - 1).push('…')
    }
}

/// Cut `text` to `width` and pad it out, so a column stays a column.
///
/// Counts characters rather than bytes: an accented name is one column per
/// character.
pub fn fit(text: &str, width: usize) -> (r: String)
    ensures
        r@ == fitted(text@, width as int),
        r@.len() == width,
{
    if width == 0 {
        return String::new();
    }
    let chars = text::chars_of(text);
    if chars.len() <= width {
        let mut out = text.to_string();
        push_repeated(&mut out, ' ', width - chars.len());
        return out;
    }
    let mut out = String::new();
    let mut i: usize = 0;
    proof {
        assert(out@ =~= text@.take(0));
    }
    while i < width - 1
        invariant
            i <= width - 1,
            0 < width < chars@.len(),
            chars@ == text@,
            out@ == text@.take(i as int),
        decreases width - i,
    {
        out.push(chars[i]);
        proof {
            assert(text@.take(i + 1) =~= text@.take(i as int).push(text@[i as int]));
        }
        i += 1;
    }
    out.push('…');
    out
}

/// A number below a hundred, in two digits.
pub open spec fn two_digits(n: nat) -> Seq<char> {
    seq![text::digit(n / 10), text::digit(n % 10)]
}

/// A time as a clock shows it.
pub open spec fn clock_face(ms: nat) -> Seq<char> {
    let total = ms / 1000;
    let h = total / 3600;
    let m = (total % 3600) / 60;
    let s = total % 60;
    if h > 0 {
        text::decimal(h) + seq![':'] + two_digits(m) + seq![':'] + two_digits(s)
    } else {
        text::decimal(m) + seq![':'] + two_digits(s)
    }
}

fn push_two_digits(out: &mut String, n: u64)
    requires
        n < 100,
    ensures
        final(out)@ == old(out)@ + two_digits(n as nat),
{
    let tens: u8 = 48u8 + (n / 10) as u8;
    let ones: u8 = 48u8 + (n % 10) as u8;
    out.push(tens as char);
    out.push(ones as char);
    proof {
        assert(final(out)@ =~= old(out)@ + two_digits(n as nat));
    }
}

/// `m:ss`, or `h:mm:ss` for the rare track that needs it.
pub fn clock(ms: u64) -> (r: String)
    ensures
        r@ == clock_face(ms as nat),
{
    let total: u64 = ms / 1000;
    let (h, m, s): (u64, u64, u64) = (total / 3600, (total % 3600) / 60, total % 60);
    let mut out = String::new();
    if h > 0 {
        text::push_decimal(&mut out, h);
        out.push(':');
        push_two_digits(&mut out, m);
        out.push(':');
        push_two_digits(&mut out, s);
    } else {
        text::push_decimal(&mut out, m);
        out.push(':');
        push_two_digits(&mut out, s);
    }
    proof {
        assert(out@ =~= clock_face(ms as nat));
    }
    out
}

/// How many cells of a meter are full: no more than there are.
pub open spec fn full_cells(filled: int, width: int) -> int {
    if filled < width {
        filled
    } else {
        width
    }
}

/// The full part of a meter of which `filled` cells are full.
pub fn meter(filled: usize, width: usize) -> (r: String)
    ensures
        r@ == repeated('█', full_cells(filled as int, width as int)),
{
    let mut out = String::new();
    let full: usize = if filled < width {
        filled
    } else {
        width
    };
    push_repeated(&mut out, '█', full);
    proof {
        assert(out@ =~= repeated('█', full as int));
    }
    out
}

/// The rest of a meter of which `filled` cells are full.
pub fn rest(filled: usize, width: usize) -> (r: String)
    ensures
        r@ == repeated('░', width - full_cells(filled as int, width as int)),
{
    let mut out = String::new();
    let full: usize = if filled < width {
        filled
    } else {
        width
    };
    push_repeated(&mut out, '░', width - full);
    proof {
        assert(out@ =~= repeated('░', width - full));
    }
    out
}

/// A meter and its remainder always fill the width: drawn as two pieces, they
/// must not change length between them.
pub proof fn a_meter_and_its_remainder_fill_the_width(filled: nat, width: nat)
    ensures
        repeated('█', full_cells(filled as int, width as int)).len() + repeated(
            '░',
            width - full_cells(filled as int, width as int),
        ).len() == width,
{
}

/// A column is as wide as it was asked to be, whatever is in it.
pub proof fn a_fitted_text_fills_its_width(words: Seq<char>, width: nat)
    ensures
        fitted(words, width as int).len() == width,
{
}

/// The red of a colour.
pub open spec fn red(color: u32) -> int {
    (color as int / 0x10000) % 0x100
}

/// The green of a colour.
pub open spec fn green(color: u32) -> int {
    (color as int / 0x100) % 0x100
}

/// The blue of a colour.
pub open spec fn blue(color: u32) -> int {
    color as int % 0x100
}

/// One part of a mixed colour, `eighths` of the way from one to the other.
pub open spec fn mixed(from: int, to: int, eighths: int) -> int {
    (from * 8 + (to - from) * eighths) / 8
}

/// A colour `eighths` of the way from one to another.
pub open spec fn blended(from: u32, to: u32, eighths: int) -> u32 {
    (mixed(red(from), red(to), eighths) * 0x10000 + mixed(green(from), green(to), eighths) * 0x100
        + mixed(blue(from), blue(to), eighths)) as u32
}

fn mix(from: u32, to: u32, eighths: u8) -> (r: u32)
    requires
        eighths <= 8,
        from < 0x100,
        to < 0x100,
    ensures
        r == mixed(from as int, to as int, eighths as int),
        r < 0x100,
{
    let a: i32 = from as i32;
    let b: i32 = to as i32;
    let e: i32 = eighths as i32;
    proof {
        assert(a * 8 + (b - a) * e == a * (8 - e) + b * e) by (nonlinear_arith);
        assert(0 <= a * (8 - e) + b * e <= 255 * 8) by (nonlinear_arith)
            requires
                0 <= a <= 255,
                0 <= b <= 255,
                0 <= e <= 8,
        ;
        assert(-255 * 8 <= (b - a) * e <= 255 * 8) by (nonlinear_arith)
            requires
                0 <= a <= 255,
                0 <= b <= 255,
                0 <= e <= 8,
        ;
    }
    ((a * 8 + (b - a) * e) / 8) as u32
}

/// A colour `eighths` of the way from one to another.
pub fn blend(from: u32, to: u32, eighths: u8) -> (r: u32)
    requires
        eighths <= 8,
    ensures
        r == blended(from, to, eighths as int),
{
    let r: u32 = mix((from / 0x10000) % 0x100, (to / 0x10000) % 0x100, eighths);
    let g: u32 = mix((from / 0x100) % 0x100, (to / 0x100) % 0x100, eighths);
    let b: u32 = mix(from % 0x100, to % 0x100, eighths);
    r * 0x10000 + g * 0x100 + b
}

/// The glyph of a cell that is so many eighths full. Nothing is a space: a floor
/// of stubs reads as a broken meter rather than as silence.
pub open spec fn step(eighths: int) -> char {
    if eighths <= 0 {
        ' '
    } else if eighths == 1 {
        '▁'
    } else if eighths == 2 {
        '▂'
    } else if eighths == 3 {
        '▃'
    } else if eighths == 4 {
        '▄'
    } else if eighths == 5 {
        '▅'
    } else if eighths == 6 {
        '▆'
    } else if eighths == 7 {
        '▇'
    } else {
        '█'
    }
}

fn glyph(eighths: u8) -> (r: char)
    requires
        eighths <= 8,
    ensures
        r == step(eighths as int),
{
    if eighths == 0 {
        ' '
    } else if eighths == 1 {
        '▁'
    } else if eighths == 2 {
        '▂'
    } else if eighths == 3 {
        '▃'
    } else if eighths == 4 {
        '▄'
    } else if eighths == 5 {
        '▅'
    } else if eighths == 6 {
        '▆'
    } else if eighths == 7 {
        '▇'
    } else {
        '█'
    }
}

/// One cell of a bar. How full it is picks both the glyph and, between `foot` and
/// `head`, its colour.
pub open spec fn bar_cell(eighths: int, foot: u32, head: u32) -> SpanView {
    SpanView {
        text: seq![step(eighths)],
        style: if eighths <= 0 {
            plain()
        } else {
            in_color(blended(foot, head, eighths))
        },
    }
}

fn cell(eighths: u8, foot: u32, head: u32) -> (r: Span)
    requires
        eighths <= 8,
    ensures
        r@ == bar_cell(eighths as int, foot, head),
{
    let mut words = String::new();
    words.push(glyph(eighths));
    proof {
        assert(words@ =~= seq![step(eighths as int)]);
    }
    if eighths == 0 {
        Span { text: words, style: Style { color: None, bold: false, reversed: false } }
    } else {
        Span {
            text: words,
            style: Style { color: Some(blend(foot, head, eighths)), bold: false, reversed: false },
        }
    }
}

/// The loudest of a stretch of levels, from `from` up to but not at `to`.
pub open spec fn loudest(levels: Seq<u8>, from: int, to: int) -> u8
    decreases to - from,
{
    if from >= to || from < 0 || to > levels.len() {
        0
    } else {
        let before = loudest(levels, from, to - 1);
        if levels[to - 1] > before {
            levels[to - 1]
        } else {
            before
        }
    }
}

/// Where the stretch of levels behind a column starts.
pub open spec fn column_start(column: int, count: int, width: int) -> int {
    column * count / width
}

/// Where the stretch of levels behind a column ends: behind every column is at
/// least one.
pub open spec fn column_end(column: int, count: int, width: int) -> int {
    let end = (column + 1) * count / width;
    if end > column_start(column, count, width) {
        end
    } else {
        column_start(column, count, width) + 1
    }
}

/// The levels behind each column on screen: the **peak** of its stretch, not the
/// average, which is what would throw the loud one away.
pub open spec fn folded(levels: Seq<u8>, width: int) -> Seq<u8> {
    if width <= 0 || levels.len() == 0 {
        Seq::empty()
    } else {
        Seq::new(
            width as nat,
            |c: int|
                loudest(
                    levels,
                    column_start(c, levels.len() as int, width),
                    column_end(c, levels.len() as int, width),
                ),
        )
    }
}

proof fn stretch_is_within(column: int, count: int, width: int)
    requires
        0 <= column < width,
        0 < count,
    ensures
        0 <= column_start(column, count, width) < count,
        column_start(column, count, width) < column_end(column, count, width) <= count,
{
    assert(0 <= column * count) by (nonlinear_arith)
        requires
            0 <= column,
            0 < count,
    ;
    assert(column * count < width * count) by (nonlinear_arith)
        requires
            column < width,
            0 < count,
    ;
    assert((column + 1) * count <= width * count) by (nonlinear_arith)
        requires
            column + 1 <= width,
            0 < count,
    ;
    let start = column * count / width;
    assert(0 <= start < count) by (nonlinear_arith)
        requires
            start == column * count / width,
            0 <= column * count < width * count,
            0 < width,
    ;
    let end = (column + 1) * count / width;
    assert(end <= count) by (nonlinear_arith)
        requires
            end == (column + 1) * count / width,
            (column + 1) * count <= width * count,
            0 < width,
    ;
}

fn peak(levels: &[u8], from: usize, to: usize) -> (r: u8)
    requires
        from <= to <= levels@.len(),
    ensures
        r == loudest(levels@, from as int, to as int),
{
    let mut best: u8 = 0;
    let mut i: usize = from;
    while i < to
        invariant
            from <= i <= to <= levels@.len(),
            best == loudest(levels@, from as int, i as int),
        decreases to - i,
    {
        if levels[i] > best {
            best = levels[i];
        }
        i += 1;
    }
    best
}

/// Fold the analysed levels into the columns on screen, in sixteenths.
pub fn columns(levels: &[u8], width: usize) -> (r: Vec<u8>)
    requires
        levels@.len() * width <= usize::MAX,
    ensures
        r@ == folded(levels@, width as int),
{
    let mut out: Vec<u8> = Vec::new();
    if width == 0 || levels.len() == 0 {
        return out;
    }
    let count: usize = levels.len();
    let ghost all = folded(levels@, width as int);
    let mut c: usize = 0;
    while c < width
        invariant
            c <= width,
            0 < width,
            0 < count == levels@.len(),
            levels@.len() * width <= usize::MAX,
            all == folded(levels@, width as int),
            out@ == all.take(c as int),
        decreases width - c,
    {
        proof {
            stretch_is_within(c as int, count as int, width as int);
            assert((c + 1) * count <= width * count) by (nonlinear_arith)
                requires
                    c + 1 <= width,
                    0 < count,
            ;
            assert(c * count <= (c + 1) * count) by (nonlinear_arith)
                requires
                    0 < count,
            ;
            assert(width * count == count * width) by (nonlinear_arith);
        }
        let from: usize = c * count / width;
        let reach: usize = (c + 1) * count / width;
        let to: usize = if reach > from {
            reach
        } else {
            from + 1
        };
        out.push(peak(levels, from, to));
        proof {
            assert(out@ =~= all.take(c + 1));
        }
        c += 1;
    }
    proof {
        assert(all.take(c as int) =~= all);
    }
    out
}

/// What is left of a level for the lower of two rows, which fills first.
pub open spec fn lower_part(sixteenths: u8) -> int {
    if sixteenths < 8 {
        sixteenths as int
    } else {
        8
    }
}

/// What is left of a level for the upper of two rows.
pub open spec fn upper_part(sixteenths: u8) -> int {
    if sixteenths <= 8 {
        0
    } else if sixteenths < 16 {
        sixteenths - 8
    } else {
        8
    }
}

/// The colour halfway up.
pub open spec fn halfway() -> u32 {
    blended(ACCENT, PEAK, 4)
}

/// The lower row of the bars.
pub open spec fn lower_row(levels: Seq<u8>, width: int) -> Seq<SpanView> {
    folded(levels, width).map_values(
        |v: u8| bar_cell(lower_part(v), ACCENT, halfway()),
    )
}

/// The upper row of the bars.
pub open spec fn upper_row(levels: Seq<u8>, width: int) -> Seq<SpanView> {
    folded(levels, width).map_values(
        |v: u8| bar_cell(upper_part(v), halfway(), PEAK),
    )
}

/// One cell per column across two rows, so that a level has sixteen steps rather
/// than eight, coloured from the accent at the bottom to white at the top.
///
/// Returns the upper row and the lower one. A level is in sixteenths.
pub fn bars(levels: &[u8], width: usize) -> (r: (Vec<Span>, Vec<Span>))
    requires
        levels@.len() * width <= usize::MAX,
    ensures
        spans(r.0@) == upper_row(levels@, width as int),
        spans(r.1@) == lower_row(levels@, width as int),
{
    let found = columns(levels, width);
    let half = blend(ACCENT, PEAK, 4);
    let mut upper: Vec<Span> = Vec::new();
    let mut lower: Vec<Span> = Vec::new();
    let ghost above = upper_row(levels@, width as int);
    let ghost below = lower_row(levels@, width as int);
    let mut i: usize = 0;
    proof {
        assert(spans(upper@) =~= above.take(0));
        assert(spans(lower@) =~= below.take(0));
    }
    while i < found.len()
        invariant
            i <= found@.len(),
            half == halfway(),
            found@ == folded(levels@, width as int),
            above == upper_row(levels@, width as int),
            below == lower_row(levels@, width as int),
            spans(upper@) == above.take(i as int),
            spans(lower@) == below.take(i as int),
        decreases found@.len() - i,
    {
        let v: u8 = found[i];
        let low: u8 = if v < 8 {
            v
        } else {
            8
        };
        let high: u8 = if v <= 8 {
            0
        } else if v < 16 {
            v - 8
        } else {
            8
        };
        let ghost over = spans(upper@);
        let ghost under = spans(lower@);
        lower.push(cell(low, ACCENT, half));
        upper.push(cell(high, half, PEAK));
        proof {
            assert(spans(lower@) =~= under.push(below[i as int]));
            assert(spans(upper@) =~= over.push(above[i as int]));
            assert(below.take(i + 1) =~= under.push(below[i as int]));
            assert(above.take(i + 1) =~= over.push(above[i as int]));
        }
        i += 1;
    }
    proof {
        assert(above.take(i as int) =~= above);
        assert(below.take(i as int) =~= below);
    }
    (upper, lower)
}

/// The bars take the width they are given, with more columns than levels or
/// fewer.
pub proof fn the_bars_take_the_width_they_are_given(levels: Seq<u8>, width: nat)
    requires
        levels.len() > 0,
    ensures
        upper_row(levels, width as int).len() == width,
        lower_row(levels, width as int).len() == width,
{
}

/// A loud level survives the fold: no column is quieter than anything behind it.
pub proof fn folding_keeps_the_peak(levels: Seq<u8>, width: nat, column: int, at: int)
    requires
        levels.len() > 0,
        0 <= column < width,
        column_start(column, levels.len() as int, width as int) <= at < column_end(
            column,
            levels.len() as int,
            width as int,
        ),
    ensures
        folded(levels, width as int)[column] >= levels[at],
{
    let from = column_start(column, levels.len() as int, width as int);
    let to = column_end(column, levels.len() as int, width as int);
    stretch_is_within(column, levels.len() as int, width as int);
    loudest_is_loudest(levels, from, to, at);
}

proof fn loudest_is_loudest(levels: Seq<u8>, from: int, to: int, at: int)
    requires
        0 <= from <= at < to <= levels.len(),
    ensures
        loudest(levels, from, to) >= levels[at],
    decreases to - from,
{
    if at < to - 1 {
        loudest_is_loudest(levels, from, to - 1, at);
    }
}

} // verus!
