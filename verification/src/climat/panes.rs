//! How the library pane is drawn: its header, and the rows on screen.

use vstd::prelude::*;
use vstd::view::View as _;

use crate::climat::browser;
use crate::climat::browser::{Browser, BrowserView, Showing, ShowingView};
use crate::climat::line;
use crate::climat::line::{Span, SpanView, Style, ACCENT, BRIGHT, DIM, MUTED};
use crate::ipc::View;
use crate::music::Entry;
use crate::text;

verus! {

/// What a section is called.
pub open spec fn section_name(view: View) -> Seq<char> {
    match view {
        View::Songs => "SONGS"@,
        View::Albums => "ALBUMS"@,
        View::Artists => "ARTISTS"@,
        View::Playlists => "PLAYLISTS"@,
    }
}

fn name_of(view: View) -> (r: &'static str)
    ensures
        r@ == section_name(view),
{
    match view {
        View::Songs => "SONGS",
        View::Albums => "ALBUMS",
        View::Artists => "ARTISTS",
        View::Playlists => "PLAYLISTS",
    }
}

/// The tab of one section, lit or not, and the gap behind it.
pub open spec fn tab(view: View, shown: View) -> Seq<SpanView> {
    seq![
        if view == shown {
            line::piece(section_name(view), line::in_bold(ACCENT))
        } else {
            line::piece(text::lowercase(section_name(view)), line::in_color(DIM))
        },
        line::piece("   "@, line::plain()),
    ]
}

/// The tabs, in the order the number keys select them.
pub open spec fn tabs(shown: View) -> Seq<SpanView> {
    tab(View::Songs, shown) + tab(View::Albums, shown) + tab(View::Artists, shown) + tab(
        View::Playlists,
        shown,
    )
}

/// The filter, with a block behind it while it is being typed into.
pub open spec fn filter_box(pane: BrowserView) -> Seq<SpanView> {
    if pane.typing {
        seq![
            line::piece("/"@ + pane.filter, line::in_color(BRIGHT)),
            line::piece("▌"@, line::in_color(ACCENT)),
        ]
    } else if pane.filter.len() > 0 {
        seq![line::piece("/"@ + pane.filter, line::in_color(MUTED))]
    } else {
        Seq::empty()
    }
}

/// The name of an opened page, and what else is known of it.
pub open spec fn page_title(
    title: Seq<char>,
    subtitle: Seq<char>,
    loading: bool,
) -> Seq<SpanView> {
    let named = seq![line::piece(text::uppercase(title), line::in_bold(MUTED))];
    let said = if subtitle.len() > 0 {
        named.push(line::piece("   "@ + subtitle, line::in_color(DIM)))
    } else {
        named
    };
    if loading {
        said.push(line::piece("   opening…"@, line::in_color(DIM)))
    } else {
        said
    }
}

/// The section tabs, or the opened page's name: one line, either way.
pub open spec fn pane_header(pane: BrowserView) -> Seq<SpanView> {
    match pane.showing {
        ShowingView::Page { title, subtitle, loading } => page_title(title, subtitle, loading),
        _ => tabs(pane.view) + filter_box(pane),
    }
}

fn colored(color: u32) -> (r: Style)
    ensures
        r == line::in_color(color),
{
    Style { color: Some(color), bold: false, reversed: false }
}

fn bold(color: u32) -> (r: Style)
    ensures
        r == line::in_bold(color),
{
    Style { color: Some(color), bold: true, reversed: false }
}

fn put_tab(out: &mut Vec<Span>, view: View, shown: View)
    ensures
        line::spans(final(out)@) == line::spans(old(out)@) + tab(view, shown),
{
    let name = name_of(view);
    if view == shown {
        line::put(out, name, bold(ACCENT));
    } else {
        let quiet = name.to_lowercase();
        line::put(out, quiet.as_str(), colored(DIM));
    }
    line::put(out, "   ", Style { color: None, bold: false, reversed: false });
    proof {
        assert(line::spans(final(out)@) =~= line::spans(old(out)@) + tab(view, shown));
    }
}

fn put_filter(out: &mut Vec<Span>, pane: &Browser)
    ensures
        line::spans(final(out)@) == line::spans(old(out)@) + filter_box(pane@),
{
    let open = !pane.filter.as_str().is_empty();
    if pane.typing || open {
        let mut words = "/".to_string();
        words.append(pane.filter.as_str());
        if pane.typing {
            line::put(out, words.as_str(), colored(BRIGHT));
            line::put(out, "▌", colored(ACCENT));
        } else {
            line::put(out, words.as_str(), colored(MUTED));
        }
    }
    proof {
        assert(line::spans(final(out)@) =~= line::spans(old(out)@) + filter_box(pane@));
    }
}

/// The section tabs, or the opened page's name: one line, either way.
pub fn header(pane: &Browser) -> (r: Vec<Span>)
    ensures
        line::spans(r@) == pane_header(pane@),
{
    let mut out = line::blank();
    if let Showing::Page { title, subtitle, loading } = &pane.showing {
        let name = title.as_str().to_uppercase();
        line::put(&mut out, name.as_str(), bold(MUTED));
        if !subtitle.as_str().is_empty() {
            let mut words = "   ".to_string();
            words.append(subtitle.as_str());
            line::put(&mut out, words.as_str(), colored(DIM));
        }
        if *loading {
            line::put(&mut out, "   opening…", colored(DIM));
        }
        proof {
            assert(line::spans(out@) =~= page_title(title@, subtitle@, *loading));
        }
        return out;
    }
    put_tab(&mut out, View::Songs, pane.view);
    put_tab(&mut out, View::Albums, pane.view);
    put_tab(&mut out, View::Artists, pane.view);
    put_tab(&mut out, View::Playlists, pane.view);
    proof {
        assert(line::spans(out@) =~= tabs(pane@.view));
    }
    put_filter(&mut out, pane);
    out
}

/// The marker of a row: one that leads somewhere shows it.
pub open spec fn lead(entry: Entry) -> Seq<char> {
    if browser::page_behind(entry) is Some {
        "▸ "@
    } else {
        "  "@
    }
}

/// How much of a line the marker is taken to cost.
pub open spec fn lead_room(entry: Entry) -> int {
    if browser::page_behind(entry) is Some {
        4
    } else {
        2
    }
}

/// How much of a line is left for who it is by.
pub open spec fn byline_room(width: int) -> int {
    if width > 40 {
        width / 3
    } else {
        0
    }
}

/// How much of a line is left for the title.
pub open spec fn title_room(entry: Entry, width: int) -> int {
    let taken = lead_room(entry) + byline_room(width) + 1;
    if width > taken {
        width - taken
    } else {
        0
    }
}

/// One row of the pane.
pub open spec fn pane_row(entry: Entry, selected: bool, width: int) -> Seq<SpanView> {
    let bright = if selected {
        line::in_reverse(BRIGHT)
    } else {
        line::in_color(BRIGHT)
    };
    let quiet = if selected {
        line::in_reverse(MUTED)
    } else {
        line::in_color(MUTED)
    };
    let named = seq![
        line::piece(lead(entry), quiet),
        line::piece(line::fitted(entry.name(), title_room(entry, width)), bright),
    ];
    if byline_room(width) > 0 {
        named.push(line::piece(line::fitted(entry.byline(), byline_room(width)), quiet))
    } else {
        named
    }
}

/// One row of the pane. The title gives way before who it is by does.
pub fn row(entry: &Entry, selected: bool, width: usize) -> (r: Vec<Span>)
    ensures
        line::spans(r@) == pane_row(*entry, selected, width as int),
{
    let opens = entry.opens_a_page();
    let mark: &str = if opens {
        "▸ "
    } else {
        "  "
    };
    let mark_room: usize = if opens {
        4
    } else {
        2
    };
    let sub_room: usize = if width > 40 {
        width / 3
    } else {
        0
    };
    let taken: usize = mark_room + sub_room + 1;
    let room: usize = if width > taken {
        width - taken
    } else {
        0
    };
    let bright = Style { color: Some(BRIGHT), bold: false, reversed: selected };
    let quiet = Style { color: Some(MUTED), bold: false, reversed: selected };
    let mut out = line::blank();
    line::put(&mut out, mark, quiet);
    let title = line::fit(entry.title(), room);
    line::put(&mut out, title.as_str(), bright);
    if sub_room > 0 {
        let byline = line::fit(entry.subtitle(), sub_room);
        line::put(&mut out, byline.as_str(), quiet);
    }
    proof {
        assert(line::spans(out@) =~= pane_row(*entry, selected, width as int));
    }
    out
}

/// What an empty pane says.
pub open spec fn emptiness(pane: BrowserView) -> Seq<char> {
    match pane.showing {
        ShowingView::Page { title, subtitle, loading } if loading => "Opening…"@,
        _ => if pane.filter.len() > 0 {
            "Nothing matches"@
        } else {
            "Nothing here"@
        },
    }
}

/// How many rows fit on screen.
pub open spec fn rows_shown(pane: BrowserView, height: int) -> int {
    let left = pane.rows.len() - pane.offset;
    if left < 0 {
        0
    } else if left < height {
        left
    } else {
        height
    }
}

/// What the pane draws, once its cursor is on screen.
pub open spec fn pane_lines(
    pane: BrowserView,
    height: int,
    width: int,
    focused: bool,
) -> Seq<Seq<SpanView>> {
    if pane.rows.len() == 0 {
        seq![seq![line::piece(emptiness(pane), line::in_color(DIM))]]
    } else {
        Seq::new(
            rows_shown(pane, height) as nat,
            |i: int|
                pane_row(
                    pane.rows[pane.offset + i],
                    focused && pane.offset + i == pane.cursor,
                    width,
                ),
        )
    }
}

/// The pane after it was drawn: an empty one has nothing to scroll.
pub open spec fn drawn(pane: BrowserView, height: int) -> BrowserView {
    if pane.rows.len() == 0 {
        pane
    } else {
        pane.scrolled(height)
    }
}

fn empty_words(pane: &Browser) -> (r: &'static str)
    ensures
        r@ == emptiness(pane@),
{
    if let Showing::Page { title: _, subtitle: _, loading } = &pane.showing {
        if *loading {
            return "Opening…";
        }
    }
    if pane.filter.as_str().is_empty() {
        "Nothing here"
    } else {
        "Nothing matches"
    }
}

/// Draw the pane, with its cursor on screen.
pub fn render(pane: &mut Browser, height: usize, width: usize, focused: bool) -> (r: Vec<
    Vec<Span>,
>)
    ensures
        final(pane)@ == drawn(old(pane)@, height as int),
        line::lines(r@) == pane_lines(
            drawn(old(pane)@, height as int),
            height as int,
            width as int,
            focused,
        ),
{
    let mut out: Vec<Vec<Span>> = Vec::new();
    if pane.rows.len() == 0 {
        let mut words = line::blank();
        line::put(&mut words, empty_words(pane), colored(DIM));
        line::put_line(&mut out, words);
        proof {
            assert(line::lines(out@)[0] =~= seq![
                line::piece(emptiness(pane@), line::in_color(DIM)),
            ]);
            assert(line::lines(out@) =~= pane_lines(
                pane@,
                height as int,
                width as int,
                focused,
            ));
        }
        return out;
    }
    pane.scroll(height);
    let ghost all = pane_lines(pane@, height as int, width as int, focused);
    let mut i: usize = 0;
    proof {
        assert(line::lines(out@) =~= all.take(0));
    }
    while i < height && pane.offset < pane.rows.len() && i < pane.rows.len() - pane.offset
        invariant
            i <= rows_shown(pane@, height as int),
            pane@.rows.len() > 0,
            all == pane_lines(pane@, height as int, width as int, focused),
            line::lines(out@) == all.take(i as int),
        decreases height - i,
    {
        let at: usize = pane.offset + i;
        let drawn_row = row(&pane.rows[at], focused && at == pane.cursor, width);
        let ghost before = line::lines(out@);
        line::put_line(&mut out, drawn_row);
        proof {
            assert(all.take(i + 1) =~= before.push(all[i as int]));
        }
        i += 1;
    }
    proof {
        assert(all.take(i as int) =~= all);
    }
    out
}

} // verus!
