//! What holds of the terminal client as a whole.

use vstd::prelude::*;

use crate::climat::browser;
use crate::climat::browser::{BrowserView, ShowingView};
use crate::climat::client;
use crate::climat::client::{AppView, Key};
use crate::climat::queue::QueueView;
use crate::climat::ui::Focus;
use crate::ipc::{
    EventView,
    PageKind,
    PlayMode,
    QueueItem,
    RequestView,
    SnapshotView,
    StageView,
    Transport,
    View as Section,
};
use crate::music::Entry;
use crate::protocol::RepeatMode;
use crate::queue;
use crate::text;
use crate::view::CatalogFilter;

verus! {

/// No key changes what is playing, or the queue: each becomes a request, and the
/// screen moves when the daemon answers.
pub proof fn no_key_changes_what_the_daemon_said(app: AppView, key: Key, now_ms: u64)
    ensures
        ({
            let after = app.keyed(key, now_ms);
            &&& after.snap == app.snap
            &&& after.stage == app.stage
            &&& after.queue.items == app.queue.items
            &&& after.queue.position == app.queue.position
        }),
{
    reveal(AppView::on_library);
    reveal(AppView::on_catalog);
    reveal(AppView::searching);
    reveal(AppView::edited);
    reveal(AppView::box_cleared);
    reveal(AppView::box_sent);
    reveal(AppView::cursor_moved);
    reveal(AppView::activated);
    reveal(AppView::backed);
    reveal(AppView::reordering);
    reveal(AppView::pressed);
}

/// While the box is open a letter is a letter: none of them leaves, and none of
/// them stops the daemon.
pub proof fn a_letter_in_the_box_is_a_letter(app: AppView, c: char, now_ms: u64)
    requires
        app.browser.typing,
    ensures
        !app.leaves(Key::Char(c)),
        app.keyed(Key::Char(c), now_ms).browser.filter == app.browser.filter.push(c),
        app.keyed(Key::Char(c), now_ms).quit_daemon == app.quit_daemon,
{
    reveal(AppView::edited);
}

/// Typing over the catalog asks nothing of anyone until it is sent.
pub proof fn the_catalog_is_not_asked_per_keystroke(app: AppView, c: char, now_ms: u64)
    requires
        app.browser.typing,
        app.browser.showing is Catalog,
    ensures
        app.keyed(Key::Char(c), now_ms).outbox == app.outbox,
        app.keyed(Key::Backspace, now_ms).outbox == app.outbox,
{
    reveal(AppView::edited);
}

/// Sending asks once, for what is in the box without the blanks around it.
pub proof fn sending_the_box_asks_once(app: AppView, now_ms: u64)
    requires
        app.browser.typing,
        app.browser.showing is Catalog,
        text::trimmed(app.browser.filter).len() > 0,
    ensures
        app.keyed(Key::Enter, now_ms).outbox == app.outbox.push(
            RequestView::Search {
                query: text::trimmed(app.browser.filter),
                filter: CatalogFilter::All,
                offset: 0,
            },
        ),
{
    reveal(AppView::box_sent);
    reveal(AppView::searching);
}

/// A late answer from the library does not overwrite what was asked of the
/// catalog, and an answer to an abandoned question does not land.
pub proof fn a_stale_answer_does_not_land(
    app: AppView,
    section: Section,
    entries: Seq<Entry>,
    total: int,
    query: Seq<char>,
    now_ms: u64,
)
    ensures
        app.browser.showing is Catalog ==> app.heard(
            EventView::Rows { view: section, entries, total },
            now_ms,
        ) == app,
        query != text::trimmed(app.browser.filter) ==> app.heard(
            EventView::Results { query, entries },
            now_ms,
        ) == app,
{
    reveal(AppView::heard);
}

/// A page reached from a search leads back to that search.
pub proof fn a_page_leads_back_to_its_search(app: AppView, now_ms: u64)
    requires
        !app.browser.typing,
        app.browser.showing is Page,
        app.browser.from_catalog,
        text::trimmed(app.browser.filter).len() > 0,
    ensures
        ({
            let after = app.keyed(Key::Esc, now_ms);
            &&& after.browser.showing == (ShowingView::Catalog { searching: true })
            &&& after.browser.filter == app.browser.filter
            &&& after.outbox.last() == (RequestView::Search {
                query: text::trimmed(app.browser.filter),
                filter: CatalogFilter::All,
                offset: 0,
            })
        }),
{
    reveal(AppView::backed);
    reveal(AppView::searching);
}

/// The selection stays on the row that was moved, so that a second press moves
/// the same one again.
pub proof fn the_cursor_follows_the_row_it_moves(app: AppView)
    requires
        !app.browser.typing,
        app.focus == Focus::Queue,
        0 <= app.queue.cursor,
        app.queue.cursor + 1 < app.queue.items.len(),
    ensures
        ({
            let after = app.keyed(Key::Char('J'), 0);
            &&& after.queue.cursor == app.queue.cursor + 1
            &&& after.outbox == app.outbox.push(
                RequestView::MoveInQueue {
                    from: app.queue.cursor,
                    to: app.queue.cursor + 1,
                },
            )
        }),
{
    reveal(AppView::pressed);
    reveal(AppView::reordering);
}

/// Three presses of repeat come back to where they started.
pub proof fn repeat_comes_round(mode: RepeatMode)
    ensures
        client::repeat_after(client::repeat_after(client::repeat_after(mode))) == mode,
        client::repeat_after(mode) != mode,
{
}

/// The clock goes forward and stops at the end of the track.
pub proof fn the_clock_stops_at_the_end(app: AppView, now_ms: u64)
    ensures
        app.ticked(now_ms).snap.position_ms >= app.snap.position_ms,
        app.snap.position_ms <= app.snap.duration_ms ==> app.ticked(now_ms).snap.position_ms
            <= app.snap.duration_ms,
{
}

/// What was refused fades, and does not come back.
pub proof fn a_refusal_fades(app: AppView, now_ms: u64)
    requires
        app.has_faded(now_ms),
    ensures
        app.ticked(now_ms).message is None,
{
}

/// Whether an application has come to ask one thing more, and nothing else of it has
/// changed.
pub open spec fn asks(before: AppView, after: AppView, request: RequestView) -> bool {
    after == (AppView { outbox: before.outbox.push(request), ..before })
}

/// Each key of the transport asks for what it is labelled with, whichever pane has
/// the focus: the space bar plays and pauses, `z` and `b` go back and on, `s` turns
/// the shuffle over, and `r` steps the repeat from off to all to one.
pub proof fn the_keys_of_the_transport(app: AppView, now_ms: u64)
    requires
        !app.browser.typing,
    ensures
        asks(
            app,
            app.keyed(Key::Char(' '), now_ms),
            RequestView::Transport(Transport::PlayPause),
        ),
        asks(app, app.keyed(Key::Char('z'), now_ms), RequestView::Transport(Transport::Previous)),
        asks(app, app.keyed(Key::Char('b'), now_ms), RequestView::Transport(Transport::Next)),
        asks(
            app,
            app.keyed(Key::Char('s'), now_ms),
            RequestView::Transport(Transport::SetShuffle { shuffle: !app.snap.shuffle }),
        ),
        asks(
            app,
            app.keyed(Key::Char('r'), now_ms),
            RequestView::Transport(
                Transport::SetRepeat {
                    mode: match app.snap.repeat {
                        RepeatMode::Off => RepeatMode::All,
                        RepeatMode::All => RepeatMode::One,
                        RepeatMode::One => RepeatMode::Off,
                    },
                },
            ),
        ),
{
    reveal(AppView::pressed);
}

/// The arrows seek five seconds back and on, but not before the beginning.
pub proof fn the_arrows_seek_five_seconds(app: AppView, now_ms: u64)
    requires
        !app.browser.typing,
    ensures
        asks(
            app,
            app.keyed(Key::Left, now_ms),
            RequestView::Transport(
                Transport::Seek {
                    position_ms: if app.snap.position_ms < 5_000 {
                        0
                    } else {
                        (app.snap.position_ms - 5_000) as u64
                    },
                },
            ),
        ),
        app.snap.position_ms <= u64::MAX - 5_000 ==> asks(
            app,
            app.keyed(Key::Right, now_ms),
            RequestView::Transport(
                Transport::Seek { position_ms: (app.snap.position_ms + 5_000) as u64 },
            ),
        ),
{
}

/// The digits go to the sections, in the order of their tabs, from the top, and ask
/// for their rows. The last one goes to the catalog, with an empty box to type in.
pub proof fn the_digits_go_to_the_sections(app: AppView, now_ms: u64, section: Section)
    requires
        !app.browser.typing,
    ensures
        ({
            let digit = match section {
                Section::Songs => '1',
                Section::Albums => '2',
                Section::Artists => '3',
                Section::Playlists => '4',
            };
            let after = app.keyed(Key::Char(digit), now_ms);
            &&& after == (AppView {
                focus: Focus::Browser,
                browser: BrowserView {
                    view: section,
                    showing: ShowingView::Library,
                    cursor: 0,
                    offset: 0,
                    ..app.browser
                },
                outbox: app.outbox.push(
                    RequestView::Browse {
                        view: section,
                        query: app.browser.filter,
                        offset: 0,
                        limit: 0,
                    },
                ),
                ..app
            })
        }),
        app.keyed(Key::Char('5'), now_ms) == (AppView {
            focus: Focus::Browser,
            browser: BrowserView {
                showing: ShowingView::Catalog { searching: false },
                rows: Seq::empty(),
                filter: Seq::empty(),
                typing: true,
                cursor: 0,
                offset: 0,
                ..app.browser
            },
            ..app
        }),
{
    reveal(AppView::pressed);
    reveal(AppView::on_library);
    reveal(AppView::on_catalog);
}

/// A cursor moves by as many rows as it is told, within its list, and stops at either
/// end.
pub proof fn a_cursor_stops_at_either_end(pane: BrowserView, delta: int)
    requires
        0 <= pane.cursor < pane.rows.len(),
    ensures
        ({
            let after = pane.moved(delta);
            &&& after == (BrowserView { cursor: after.cursor, ..pane })
            &&& 0 <= pane.cursor + delta < pane.rows.len() ==> after.cursor == pane.cursor + delta
            &&& pane.cursor + delta < 0 ==> after.cursor == 0
            &&& pane.cursor + delta >= pane.rows.len() ==> after.cursor == pane.rows.len() - 1
        }),
{
}

/// The same of the queue's cursor.
pub proof fn the_queue_s_cursor_stops_at_either_end(pane: QueueView, delta: int)
    requires
        0 <= pane.cursor < pane.items.len(),
    ensures
        ({
            let after = pane.moved(delta);
            &&& after == (QueueView { cursor: after.cursor, ..pane })
            &&& 0 <= pane.cursor + delta < pane.items.len() ==> after.cursor == pane.cursor + delta
            &&& pane.cursor + delta < 0 ==> after.cursor == 0
            &&& pane.cursor + delta >= pane.items.len() ==> after.cursor == pane.items.len() - 1
        }),
{
}

/// The keys that move the cursor move the one of the pane that has the focus, and no
/// other: up and down by one row, by letter too, and by ten a page at a time.
pub proof fn the_cursor_keys_move_the_focused_pane(app: AppView, now_ms: u64)
    requires
        !app.browser.typing,
    ensures
        moves(app, app.keyed(Key::Up, now_ms), -1),
        moves(app, app.keyed(Key::Char('k'), now_ms), -1),
        moves(app, app.keyed(Key::Down, now_ms), 1),
        moves(app, app.keyed(Key::Char('j'), now_ms), 1),
        moves(app, app.keyed(Key::PageUp, now_ms), -10),
        moves(app, app.keyed(Key::PageDown, now_ms), 10),
{
    reveal(AppView::pressed);
    reveal(AppView::cursor_moved);
}

/// Whether the cursor of the pane that has the focus has moved, and nothing else.
pub open spec fn moves(before: AppView, after: AppView, delta: int) -> bool {
    if before.focus == Focus::Queue {
        after == (AppView { queue: before.queue.moved(delta), ..before })
    } else {
        after == (AppView { browser: before.browser.moved(delta), ..before })
    }
}

/// The tab key goes to the other pane, either way round.
pub proof fn the_tab_key_goes_to_the_other_pane(app: AppView, now_ms: u64)
    requires
        !app.browser.typing,
    ensures
        ({
            let other = if app.focus == Focus::Queue {
                Focus::Browser
            } else {
                Focus::Queue
            };
            &&& app.keyed(Key::Tab, now_ms) == (AppView { focus: other, ..app })
            &&& app.keyed(Key::BackTab, now_ms) == (AppView { focus: other, ..app })
        }),
{
}

/// In the queue, Enter goes to the selected row, `d` removes it, and Home goes to the
/// row that plays. None of them does anything to it in the other pane.
pub proof fn the_keys_of_the_queue(app: AppView, now_ms: u64)
    requires
        !app.browser.typing,
    ensures
        app.focus == Focus::Queue ==> asks(
            app,
            app.keyed(Key::Enter, now_ms),
            RequestView::JumpTo { index: app.queue.cursor },
        ),
        app.focus == Focus::Queue ==> asks(
            app,
            app.keyed(Key::Char('d'), now_ms),
            RequestView::RemoveFromQueue { index: app.queue.cursor },
        ),
        app.focus == Focus::Queue && 0 <= app.queue.position < app.queue.items.len() ==> app.keyed(
            Key::Home,
            now_ms,
        ) == (AppView {
            queue: QueueView { cursor: app.queue.position, ..app.queue },
            ..app
        }),
        app.focus == Focus::Browser ==> app.keyed(Key::Home, now_ms) == app && app.keyed(
            Key::Char('d'),
            now_ms,
        ) == app && app.keyed(Key::Char('J'), now_ms) == app && app.keyed(Key::Char('K'), now_ms)
            == app,
{
    reveal(AppView::pressed);
    reveal(AppView::activated);
}

/// A row of the queue is moved one up or one down, and the cursor with it. At either
/// end there is nowhere to move it, and nothing is asked.
pub proof fn a_row_moves_one_place_or_not_at_all(app: AppView, now_ms: u64)
    requires
        !app.browser.typing,
        app.focus == Focus::Queue,
        0 <= app.queue.cursor < app.queue.items.len(),
    ensures
        ({
            let up = app.keyed(Key::Char('K'), now_ms);
            let down = app.keyed(Key::Char('J'), now_ms);
            let at = app.queue.cursor;
            &&& at == 0 ==> up == app
            &&& at > 0 ==> up == (AppView {
                queue: QueueView { cursor: at - 1, ..app.queue },
                outbox: app.outbox.push(RequestView::MoveInQueue { from: at, to: at - 1 }),
                ..app
            })
            &&& at + 1 == app.queue.items.len() ==> down == app
            &&& at + 1 < app.queue.items.len() ==> down == (AppView {
                queue: QueueView { cursor: at + 1, ..app.queue },
                outbox: app.outbox.push(RequestView::MoveInQueue { from: at, to: at + 1 }),
                ..app
            })
        }),
{
    reveal(AppView::pressed);
    reveal(AppView::reordering);
}

/// Entering a row that is a door opens its own page: the album, the artist or the
/// playlist that it names.
pub proof fn entering_a_door_opens_its_own_page(app: AppView, now_ms: u64)
    requires
        !app.browser.typing,
        app.focus == Focus::Browser,
        0 <= app.browser.cursor < app.browser.rows.len(),
        !(app.browser.rows[app.browser.cursor] is Song),
    ensures
        ({
            let row = app.browser.rows[app.browser.cursor];
            let after = app.keyed(Key::Enter, now_ms);
            &&& after.outbox == app.outbox.push(
                match row {
                    Entry::Album(a) => RequestView::Open { kind: PageKind::Album, id: a.id@ },
                    Entry::Artist(a) => RequestView::Open { kind: PageKind::Artist, id: a.id@ },
                    Entry::Playlist(p) => RequestView::Open {
                        kind: PageKind::Playlist,
                        id: p.id@,
                    },
                    Entry::Song(_) => RequestView::Snapshot,
                },
            )
            &&& after.browser.showing == (ShowingView::Page {
                title: match row {
                    Entry::Album(a) => a.name@,
                    Entry::Artist(a) => a.name@,
                    Entry::Playlist(p) => p.name@,
                    Entry::Song(t) => t.title@,
                },
                subtitle: match row {
                    Entry::Album(a) => a.artist@,
                    Entry::Artist(a) => a.genres@,
                    Entry::Playlist(p) => p.curator@,
                    Entry::Song(t) => t.artist@,
                },
                loading: true,
            })
            &&& after.browser.from_catalog == (app.browser.showing is Catalog)
            &&& after.browser.rows.len() == 0
            &&& after.browser.cursor == 0
            &&& after.browser.offset == 0
            &&& after.browser.filter == app.browser.filter
            &&& after.browser.view == app.browser.view
        }),
{
    reveal(AppView::activated);
}

/// Entering a song plays the whole list from it: every row that can be streamed, in
/// order, and the index sent is the entered row's.
pub proof fn entering_a_song_plays_the_list_from_it(app: AppView, now_ms: u64)
    requires
        !app.browser.typing,
        app.focus == Focus::Browser,
        0 <= app.browser.cursor < app.browser.rows.len(),
        app.browser.rows[app.browser.cursor] is Song,
        app.browser.rows[app.browser.cursor]->Song_0.catalog_id is Some,
    ensures
        ({
            let song = app.browser.rows[app.browser.cursor]->Song_0.catalog_id->0@;
            let ids = ids_of_rows(app.browser.rows);
            let above = ids_of_rows(app.browser.rows.take(app.browser.cursor)).len() as int;
            &&& asks(
                app,
                app.keyed(Key::Enter, now_ms),
                RequestView::Play { ids, index: above, start: PlayMode::InOrder },
            )
            &&& 0 <= above < ids.len()
            &&& ids[above] == song
        }),
{
    reveal(AppView::activated);
    playable_ids_are_the_rows(app.browser.rows);
    playable_ids_are_the_rows(app.browser.rows.take(app.browser.cursor));
    browser::the_queue_opens_on_the_selected_row(app.browser);
}

/// The ids of the songs of a list that have one, in order.
pub open spec fn ids_of_rows(rows: Seq<Entry>) -> Seq<Seq<char>> {
    rows.filter(|row: Entry| row is Song && row->Song_0.catalog_id is Some).map_values(
        |row: Entry| row->Song_0.catalog_id->0@,
    )
}

proof fn playable_ids_are_the_rows(rows: Seq<Entry>)
    ensures
        queue::live(queue::slots(rows), Set::empty()) == ids_of_rows(rows),
    decreases rows.len(),
{
    reveal(Seq::filter);
    if rows.len() > 0 {
        playable_ids_are_the_rows(rows.drop_last());
        assert(queue::slots(rows).drop_last() =~= queue::slots(rows.drop_last()));
    }
    assert(queue::live(queue::slots(rows), Set::empty()) =~= ids_of_rows(rows));
}

/// A song that cannot be streamed, in a list of which nothing can be, is said so.
pub proof fn a_list_that_cannot_be_streamed_is_said_so(app: AppView, now_ms: u64)
    requires
        !app.browser.typing,
        app.focus == Focus::Browser,
        0 <= app.browser.cursor < app.browser.rows.len(),
        app.browser.rows[app.browser.cursor] is Song,
        ids_of_rows(app.browser.rows).len() == 0,
    ensures
        app.keyed(Key::Enter, now_ms) == (AppView {
            message: Some(("Nothing here can be streamed"@, now_ms)),
            ..app
        }),
{
    reveal(AppView::activated);
    playable_ids_are_the_rows(app.browser.rows);
}

/// Of the library, every letter typed and every one taken back asks for the rows it
/// finds, from the top.
pub proof fn the_library_is_asked_per_keystroke(app: AppView, c: char, now_ms: u64)
    requires
        app.browser.typing,
        !(app.browser.showing is Catalog),
    ensures
        finds(app, app.keyed(Key::Char(c), now_ms), app.browser.filter.push(c), true),
        app.browser.filter.len() > 0 ==> finds(
            app,
            app.keyed(Key::Backspace, now_ms),
            app.browser.filter.drop_last(),
            true,
        ),
        finds(app, app.keyed(Key::Esc, now_ms), Seq::empty(), false),
        app.keyed(Key::Enter, now_ms) == (AppView {
            browser: BrowserView { typing: false, ..app.browser },
            ..app
        }),
{
    reveal(AppView::edited);
    reveal(AppView::box_cleared);
    reveal(AppView::box_sent);
}

/// Whether an application has come to ask for the rows another filter finds.
pub open spec fn finds(before: AppView, after: AppView, filter: Seq<char>, typing: bool) -> bool {
    after == (AppView {
        browser: BrowserView { filter, typing, cursor: 0, offset: 0, ..before.browser },
        outbox: before.outbox.push(
            RequestView::Browse { view: before.browser.view, query: filter, offset: 0, limit: 0 },
        ),
        ..before
    })
}

/// Leaving a page of the library goes back to its section, and leaving a filter
/// clears it. Where there is neither, there is nothing to leave.
pub proof fn escape_goes_one_step_back(app: AppView, now_ms: u64)
    requires
        !app.browser.typing,
    ensures
        app.browser.showing is Page && !app.browser.from_catalog ==> app.keyed(Key::Esc, now_ms)
            == (AppView {
            browser: BrowserView {
                showing: ShowingView::Library,
                cursor: 0,
                offset: 0,
                ..app.browser
            },
            outbox: app.outbox.push(
                RequestView::Browse {
                    view: app.browser.view,
                    query: app.browser.filter,
                    offset: 0,
                    limit: 0,
                },
            ),
            ..app
        }),
        !(app.browser.showing is Page) && app.browser.filter.len() > 0 ==> finds(
            app,
            app.keyed(Key::Esc, now_ms),
            Seq::empty(),
            false,
        ),
        !(app.browser.showing is Page) && app.browser.filter.len() == 0 ==> app.keyed(
            Key::Esc,
            now_ms,
        ) == app,
{
    reveal(AppView::backed);
    reveal(AppView::on_library);
}

/// The client is left by three keys, and not while typing. One of them takes the
/// daemon along.
pub proof fn three_keys_leave(app: AppView, key: Key, now_ms: u64)
    ensures
        app.leaves(key) <==> !app.browser.typing && (key == Key::Char('_') || key == Key::Char('-')
            || key == Key::Char('q')),
        !app.browser.typing ==> app.keyed(Key::Char('q'), now_ms) == (AppView {
            quit_daemon: true,
            ..app
        }),
        app.keyed(key, now_ms).quit_daemon ==> app.quit_daemon || key == Key::Char('q'),
        !app.browser.typing ==> app.keyed(Key::Char('_'), now_ms) == app && app.keyed(
            Key::Char('-'),
            now_ms,
        ) == app,
{
    reveal(AppView::pressed);
    reveal(AppView::on_library);
    reveal(AppView::on_catalog);
    reveal(AppView::searching);
    reveal(AppView::edited);
    reveal(AppView::box_cleared);
    reveal(AppView::box_sent);
    reveal(AppView::activated);
    reveal(AppView::backed);
    reveal(AppView::reordering);
    reveal(AppView::cursor_moved);
}

/// The slash opens the box in the browser.
pub proof fn a_slash_opens_the_box(app: AppView, now_ms: u64)
    requires
        !app.browser.typing,
    ensures
        app.focus == Focus::Browser ==> app.keyed(Key::Char('/'), now_ms) == (AppView {
            browser: BrowserView { typing: true, ..app.browser },
            ..app
        }),
        app.focus == Focus::Queue ==> app.keyed(Key::Char('/'), now_ms) == app,
{
    reveal(AppView::pressed);
}

/// What the daemon says is what is shown: its snapshot, its stage, its queue with the
/// row that plays, and its refusals.
pub proof fn what_the_daemon_says_is_shown(
    app: AppView,
    snap: SnapshotView,
    stage: StageView,
    items: Seq<QueueItem>,
    position: int,
    detail: Seq<char>,
    now_ms: u64,
)
    ensures
        app.heard(EventView::Snapshot(snap), now_ms) == (AppView { snap, ..app }),
        app.heard(EventView::Stage(stage), now_ms) == (AppView { stage, ..app }),
        app.heard(EventView::Error { detail }, now_ms) == (AppView {
            message: Some((detail, now_ms)),
            ..app
        }),
        app.heard(EventView::LibraryChanged, now_ms) == app,
        ({
            let after = app.heard(EventView::Queue { items, position }, now_ms);
            &&& after.queue.items == items
            &&& after.queue.position == position
            &&& after == (AppView { queue: after.queue, ..app })
            &&& 0 <= app.queue.cursor < items.len() ==> after.queue.cursor == app.queue.cursor
            &&& 0 < items.len() <= app.queue.cursor ==> after.queue.cursor == items.len() - 1
        }),
{
    reveal(AppView::heard);
}

/// Rows that were asked for replace those there were, and the cursor stays where it
/// is if it can. Results and a page open from the top.
pub proof fn an_answer_replaces_the_rows(
    app: AppView,
    section: Section,
    entries: Seq<Entry>,
    total: int,
    kind: PageKind,
    id: Seq<char>,
    title: Seq<char>,
    now_ms: u64,
)
    ensures
        ({
            let rows = app.heard(EventView::Rows { view: section, entries, total }, now_ms);
            !(app.browser.showing is Catalog) ==> rows.browser.rows == entries
                && rows.browser.total == total && (0 <= app.browser.cursor < entries.len()
                ==> rows.browser.cursor == app.browser.cursor)
        }),
        ({
            let found = app.heard(
                EventView::Results { query: text::trimmed(app.browser.filter), entries },
                now_ms,
            );
            app.browser.showing is Catalog ==> found == (AppView {
                browser: BrowserView {
                    showing: ShowingView::Catalog { searching: false },
                    rows: entries,
                    total: entries.len() as int,
                    cursor: 0,
                    offset: 0,
                    ..app.browser
                },
                ..app
            })
        }),
        ({
            let page = app.heard(EventView::Page { kind, id, title, entries }, now_ms);
            &&& page.browser.rows == entries
            &&& page.browser.cursor == 0
            &&& page.browser.offset == 0
            &&& page.browser.showing matches ShowingView::Page { title: shown, loading, .. }
                && shown == title && !loading
            &&& page.browser.filter == app.browser.filter
            &&& page.outbox == app.outbox
        }),
{
    reveal(AppView::heard);
}

/// While something plays the clock moves a frame at a time, up to the end of the
/// track. While nothing does it stands still.
pub proof fn the_clock_moves_a_frame_at_a_time(app: AppView, now_ms: u64)
    ensures
        ({
            let after = app.ticked(now_ms);
            &&& !app.snap.playing ==> after.snap == app.snap
            &&& app.snap.playing && app.snap.position_ms + 100 <= app.snap.duration_ms
                ==> after.snap == (SnapshotView {
                position_ms: (app.snap.position_ms + 100) as u64,
                ..app.snap
            })
            &&& app.snap.playing && app.snap.position_ms <= app.snap.duration_ms
                < app.snap.position_ms + 100 ==> after.snap.position_ms == app.snap.duration_ms
            &&& after.outbox == app.outbox
            &&& after.browser == app.browser
            &&& after.queue == app.queue
        }),
{
}

/// A message stays for five seconds, and not a moment less.
pub proof fn a_message_stays_for_five_seconds(app: AppView, now_ms: u64)
    requires
        app.message is Some,
    ensures
        ({
            let (words, said_ms) = app.message->0;
            &&& now_ms - said_ms <= 5_000 ==> app.ticked(now_ms).message == app.message
            &&& now_ms - said_ms > 5_000 ==> app.ticked(now_ms).message is None
        }),
{
}

/// A pane that is drawn leaves its offset alone where the cursor is in sight, and
/// never scrolls past its last row.
pub proof fn a_pane_scrolls_no_further_than_it_must(pane: BrowserView, height: int)
    requires
        height > 0,
        0 <= pane.offset,
        0 <= pane.cursor < pane.rows.len(),
    ensures
        ({
            let after = pane.scrolled(height);
            &&& after == (BrowserView { offset: after.offset, ..pane })
            &&& pane.rows.len() <= height ==> after.offset == 0
            &&& pane.rows.len() > height ==> after.offset + height <= pane.rows.len()
            &&& pane.offset <= pane.cursor < pane.offset + height && pane.offset + height
                <= pane.rows.len() ==> after.offset == pane.offset
            &&& pane.cursor < pane.offset && pane.rows.len() >= pane.cursor + height
                ==> after.offset == pane.cursor
            &&& pane.cursor >= pane.offset + height ==> after.offset == pane.cursor + 1 - height
        }),
{
}

/// The same of the queue: the cursor is in sight, and the last row is not scrolled
/// past.
pub proof fn the_queue_scrolls_no_further_than_it_must(pane: QueueView, height: int)
    requires
        height > 0,
        0 <= pane.offset,
        0 <= pane.cursor < pane.items.len(),
    ensures
        ({
            let after = pane.scrolled(height);
            &&& after == (QueueView { offset: after.offset, ..pane })
            &&& after.offset <= pane.cursor < after.offset + height
            &&& pane.items.len() <= height ==> after.offset == 0
            &&& pane.items.len() > height ==> after.offset + height <= pane.items.len()
            &&& pane.offset <= pane.cursor < pane.offset + height && pane.offset + height
                <= pane.items.len() ==> after.offset == pane.offset
        }),
{
}

/// In the catalog a letter is taken back without asking, Escape clears the box and what it
/// found, and Enter asks for what was typed without the spaces round it. An empty box asks
/// nothing.
pub proof fn the_box_of_the_catalog(app: AppView, now_ms: u64)
    requires
        app.browser.typing,
        app.browser.showing is Catalog,
    ensures
        app.browser.filter.len() > 0 ==> app.keyed(Key::Backspace, now_ms) == (AppView {
            browser: BrowserView { filter: app.browser.filter.drop_last(), ..app.browser },
            ..app
        }),
        app.keyed(Key::Esc, now_ms) == (AppView {
            browser: BrowserView {
                filter: Seq::empty(),
                typing: false,
                rows: Seq::empty(),
                ..app.browser
            },
            ..app
        }),
        text::trimmed(app.browser.filter).len() == 0 ==> app.keyed(Key::Enter, now_ms) == (
        AppView {
            browser: BrowserView { typing: false, rows: Seq::empty(), ..app.browser },
            ..app
        }),
        text::trimmed(app.browser.filter).len() > 0 ==> app.keyed(Key::Enter, now_ms).browser == (
        BrowserView {
            typing: false,
            rows: Seq::empty(),
            showing: ShowingView::Catalog { searching: true },
            cursor: 0,
            offset: 0,
            ..app.browser
        }),
{
    reveal(AppView::edited);
    reveal(AppView::box_cleared);
    reveal(AppView::box_sent);
    reveal(AppView::searching);
}

/// Results land only in the catalog, and a page keeps what it said of itself while it
/// opened.
pub proof fn results_land_only_in_the_catalog(
    app: AppView,
    query: Seq<char>,
    entries: Seq<Entry>,
    kind: PageKind,
    id: Seq<char>,
    title: Seq<char>,
    now_ms: u64,
)
    ensures
        !(app.browser.showing is Catalog) ==> app.heard(
            EventView::Results { query, entries },
            now_ms,
        ) == app,
        app.browser.showing is Page ==> app.heard(
            EventView::Page { kind, id, title, entries },
            now_ms,
        ).browser.showing == (ShowingView::Page {
            title,
            subtitle: app.browser.showing->subtitle,
            loading: false,
        }),
{
    reveal(AppView::heard);
}

/// Entering a row that is not there does nothing.
pub proof fn entering_nothing_does_nothing(app: AppView, now_ms: u64)
    requires
        !app.browser.typing,
        app.focus == Focus::Browser,
        app.browser.cursor >= app.browser.rows.len(),
    ensures
        app.keyed(Key::Enter, now_ms) == app,
{
    reveal(AppView::activated);
}

} // verus!
