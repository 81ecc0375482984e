//! What each message, each answer and each report does to the window's model.

use vstd::prelude::*;
use vstd::view::View as _;

use crate::app::actions;
use crate::app::commands::CommandMsg;
use crate::app::handle;
use crate::app::handle::{AppMsg, NowPlayingOutput};
use crate::app::model::{
    AppView,
    CardView,
    EffectView,
    LibraryAction,
    SettingsView,
    StageView,
    Theme,
    Window,
};
use crate::app::pages;
use crate::app::pages::{PageKind, PageKindView, PageTaskView, PageView, PagesView};
use crate::app::shelf::{Access, ShelfView};
use crate::app::window;
use crate::app::writes;
use crate::app::writes::Patch;
use crate::deck::{DeckView, Retry, SessionView};
use crate::deck_laws;
use crate::library_laws;
use crate::markup;
use crate::mpris::MprisCommand;
use crate::music::{Album, Artist, Artwork, Entry, Playlist, SearchResults, Track};
use crate::protocol::{CommandView, Item, PlayerEvent, PlayerView, RepeatMode, Tokens};
use crate::protocol_laws;
use crate::queue;
use crate::queue::Start;
use crate::queue_laws;
use crate::text;
use crate::view::{CatalogFilter, SidebarRowView, Sort, SortBy, Sorts, View};
use crate::view_laws;
use crate::volume;

verus! {

/// Whether a model has come to tell its player one thing more, and nothing else of it
/// has changed.
pub open spec fn said(before: AppView, after: AppView, command: CommandView) -> bool {
    after == (AppView {
        deck: DeckView { outbox: before.deck.outbox.push(command), ..before.deck },
        ..before
    })
}

/// Each button of the transport is the command of its own name, and no other. The mirror
/// waits for the player to say that it took.
pub proof fn each_button_is_its_own_command(app: AppView, shuffle: bool, mode: RepeatMode)
    requires
        app.deck.attached,
    ensures
        said(app, app.handling(AppMsg::PlayPause), CommandView::PlayPause),
        said(app, app.handling(AppMsg::Play), CommandView::Play),
        said(app, app.handling(AppMsg::Pause), CommandView::Pause),
        said(app, app.handling(AppMsg::Next), CommandView::Next),
        said(
            app,
            app.handling(AppMsg::SetShuffle(shuffle)),
            CommandView::SetShuffle { shuffle },
        ),
        said(app, app.handling(AppMsg::SetRepeat(mode)), CommandView::SetRepeat { mode }),
        said(app, app.handling(AppMsg::SignIn), CommandView::ShowLogin),
{
    reveal(AppView::after_transport);
    reveal(AppView::after_account);
}

/// Going back begins the track again once it has played for three seconds, and goes to the
/// one before it until then. Going back to its beginning is a jump that is announced.
pub proof fn previous_restarts_a_track_that_is_under_way(app: AppView)
    requires
        app.deck.attached,
    ensures
        ({
            let after = app.handling(AppMsg::Previous);
            &&& app.deck.player.interpolated_ms < 3_000 ==> said(app, after, CommandView::Previous)
            &&& app.deck.player.interpolated_ms >= 3_000 ==> after.deck.outbox
                == app.deck.outbox.push(CommandView::Seek { position_ms: 0 }) && after.effects
                == app.effects.push(EffectView::Seeked(0))
        }),
{
    reveal(AppView::after_transport);
    reveal(AppView::went_previous);
}

/// A seek goes where it was asked to, and is announced.
pub proof fn a_seek_goes_where_it_was_asked_to(app: AppView, position_ms: u64)
    requires
        app.deck.attached,
    ensures
        ({
            let after = app.handling(AppMsg::Seek(position_ms));
            &&& after.deck.outbox == app.deck.outbox.push(CommandView::Seek { position_ms })
            &&& after.effects == app.effects.push(EffectView::Seeked(position_ms))
        }),
{
    reveal(AppView::after_transport);
}

/// A volume that moved is kept within its range, kept, sent and shown. One that did not is
/// none of these.
pub proof fn a_volume_is_kept_sent_and_shown(app: AppView, volume: u64, moved: bool)
    requires
        app.deck.attached,
    ensures
        ({
            let after = app.handling(AppMsg::SetVolume { volume, moved });
            let kept = volume::clamped(volume);
            &&& !moved ==> after == app
            &&& moved ==> after.card == (CardView { volume: kept, ..app.card })
            &&& moved ==> after.deck.outbox == app.deck.outbox.push(
                CommandView::SetVolume { volume: kept },
            )
            &&& moved ==> after.effects.len() == app.effects.len() + 1
                && after.effects.last() is Show && after.effects.last()->Show_0.bar.volume == kept
        }),
{
    reveal(AppView::after_transport);
    reveal(AppView::at_volume);
    reveal(AppView::pushed);
    reveal(AppView::snapshot);
}

/// Playing from a row of what is on show opens on that row's track, and on no other: a
/// queue is sent that opens on it, or the player that holds the list already goes to it.
pub proof fn playing_from_a_row_opens_on_it(app: AppView, row: usize)
    requires
        app.deck.attached,
        row < app.shelf.visible().len(),
        app.shelf.visible()[row as int].catalog() is Some,
        !app.deck.dead.contains(app.shelf.visible()[row as int].catalog()->0),
    ensures
        ({
            let id = app.shelf.visible()[row as int].catalog()->0;
            let after = app.handling(AppMsg::PlayFrom(row));
            &&& after.effects == app.effects
            &&& opens_on(app.deck.player, after.deck, id)
        }),
{
    reveal(AppView::after_queueing);
    a_list_opens_on_its_row(app, app.shelf.visible(), row as int, Start::Clicked);
}

/// Whether the last thing a player is told is to go to a track: by a queue that opens on
/// it, or by its place in the queue the player holds.
pub open spec fn opens_on(player: PlayerView, deck: DeckView, id: Seq<char>) -> bool {
    deck.outbox.len() > 0 && match deck.outbox.last() {
        CommandView::SetQueue { songs, start_position, start_playing, start_time_ms } => 0
            <= start_position < songs.len() && songs[start_position] == id && start_playing
            && start_time_ms == 0,
        CommandView::ChangeToIndex { index } => 0 <= index < player.queue.len()
            && player.queue[index].answers_to(id),
        _ => false,
    }
}

proof fn a_list_opens_on_its_row(app: AppView, entries: Seq<Entry>, row: int, start: Start)
    requires
        app.deck.attached,
        0 <= row < entries.len(),
        entries[row].catalog() is Some,
        !app.deck.dead.contains(entries[row].catalog()->0),
    ensures
        ({
            let after = app.playing_list(entries, row, start);
            &&& after.effects == app.effects
            &&& after == (AppView { deck: after.deck, ..app })
            &&& opens_on(app.deck.player, after.deck, entries[row].catalog()->0)
        }),
{
    reveal(AppView::playing_list);
    let slots = queue::slots(entries);
    let id = entries[row].catalog()->0;
    assert(slots[row] == Some(id));
    assert(slots.contains(Some(id)));
    queue_laws::the_whole_list_is_enqueued(slots, app.deck.dead);
    assert(queue::queued(slots, app.deck.dead).contains(id));
    assert(queue::first_live(slots, row, app.deck.dead) == Some(id));
    deck_laws::a_list_the_player_holds_is_not_sent_again(app.deck, slots, row, start);
    deck_laws::a_new_queue_opens_on_the_row_asked_for(app.deck, slots, row, row, start);
}

/// A list of which nothing can be streamed is not played, and that is said.
pub proof fn a_list_of_the_dead_is_said_so(app: AppView, entries: Seq<Entry>, row: int, start: Start)
    requires
        forall|k: int|
            0 <= k < entries.len() ==> (#[trigger] entries[k]).catalog() is None
                || app.deck.dead.contains(entries[k].catalog()->0),
    ensures
        app.playing_list(entries, row, start) == (AppView {
            effects: app.effects.push(EffectView::Toast("Nothing here can be streamed"@)),
            ..app
        }),
{
    reveal(AppView::playing_list);
    let slots = queue::slots(entries);
    let songs = queue::queued(slots, app.deck.dead);
    queue_laws::the_whole_list_is_enqueued(slots, app.deck.dead);
    if songs.len() > 0 {
        assert(songs.contains(songs[0]));
        let k = choose|k: int| 0 <= k < slots.len() && slots[k] == Some(songs[0]);
        assert(entries[k].catalog() == Some(songs[0]));
    }
}

/// A row that is a door opens its own page, and a song is played from where it stands. A
/// row that is not there does nothing.
pub proof fn a_row_is_a_door_or_is_played(app: AppView, position: u32)
    ensures
        ({
            let rows = app.shelf.visible();
            let after = app.handling(AppMsg::LibraryActivated(position));
            &&& position >= rows.len() ==> after == app
            &&& position < rows.len() && rows[position as int] is Song ==> after == (AppView {
                effects: app.effects.push(EffectView::PlayFrom(position as int)),
                ..app
            })
            &&& position < rows.len() && !(rows[position as int] is Song) ==> after == (AppView {
                effects: app.effects.push(
                    EffectView::OpenPage(pages::door(rows[position as int])->0),
                ),
                ..app
            })
        }),
{
    reveal(AppView::after_browsing);
    reveal(AppView::row_activated);
}

/// A song of a page is played from where it stands there, and a door there opens its own
/// page.
pub proof fn a_row_of_a_page_is_a_door_or_is_played(app: AppView, at: int, row: usize)
    requires
        app.pages.ids_differ(),
        0 <= at < app.pages.stack.len(),
        row < app.pages.stack[at].entries.len(),
        app.deck.attached,
    ensures
        ({
            let page = app.pages.stack[at].id;
            let entry = app.pages.stack[at].entries[row as int];
            let after = app.handling(AppMsg::DetailActivated { page, row });
            &&& !(entry is Song) ==> after == (AppView {
                effects: app.effects.push(EffectView::OpenPage(pages::door(entry)->0)),
                ..app
            })
            &&& entry.catalog() is Some && !app.deck.dead.contains(entry.catalog()->0) ==> opens_on(
                app.deck.player,
                after.deck,
                entry.catalog()->0,
            ) && after.effects == app.effects
        }),
{
    reveal(AppView::after_queueing);
    reveal(AppView::page_row_activated);
    a_page_is_found_where_it_is(app.pages, at, 0);
    let rows = app.pages.stack[at].entries;
    if rows[row as int].catalog() is Some && !app.deck.dead.contains(
        rows[row as int].catalog()->0,
    ) {
        a_list_opens_on_its_row(app, rows, row as int, Start::Clicked);
    }
}

proof fn a_page_is_found_where_it_is(stack: PagesView, at: int, from: int)
    requires
        stack.ids_differ(),
        0 <= from <= at < stack.stack.len(),
    ensures
        pages::depth_of(stack.stack, stack.stack[at].id, from) == Some(at),
    decreases at - from,
{
    if from < at {
        assert(stack.stack[from].id != stack.stack[at].id);
        a_page_is_found_where_it_is(stack, at, from + 1);
    }
}

/// A page is played from its top, in order, or shuffled from a row that is drawn among
/// those that can be streamed.
pub proof fn a_page_is_played_from_its_top_or_shuffled(
    app: AppView,
    at: int,
    drawn: u32,
    row: int,
)
    requires
        app.pages.ids_differ(),
        0 <= at < app.pages.stack.len(),
        app.deck.attached,
        0 <= row < app.pages.stack[at].entries.len(),
        app.pages.stack[at].entries[row].catalog() is Some,
        !app.deck.dead.contains(app.pages.stack[at].entries[row].catalog()->0),
        forall|k: int|
            0 <= k < row ==> (#[trigger] app.pages.stack[at].entries[k]).catalog() is None
                || app.deck.dead.contains(app.pages.stack[at].entries[k].catalog()->0),
    ensures
        ({
            let page = app.pages.stack[at].id;
            let rows = app.pages.stack[at].entries;
            let in_order = app.handling(AppMsg::PlayPage { page, shuffle: false, drawn });
            let shuffled = app.handling(AppMsg::PlayPage { page, shuffle: true, drawn });
            let live = queue::live_rows(queue::slots(rows), app.deck.dead);
            &&& opens_on(app.deck.player, in_order.deck, rows[row].catalog()->0)
            &&& live.len() > 0
            &&& opens_on(
                app.deck.player,
                shuffled.deck,
                rows[live[drawn as int % live.len() as int]].catalog()->0,
            )
        }),
{
    reveal(AppView::after_queueing);
    reveal(AppView::page_played);
    a_page_is_found_where_it_is(app.pages, at, 0);
    let rows = app.pages.stack[at].entries;
    let slots = queue::slots(rows);
    let dead = app.deck.dead;
    let live = queue::live_rows(slots, dead);
    let id = rows[row].catalog()->0;
    queue_laws::playable_rows_are_the_streamable_ones(slots, dead, row);
    assert(live.contains(row));
    let pick = live[drawn as int % live.len() as int];
    assert(live.contains(pick));
    queue_laws::playable_rows_are_the_streamable_ones(slots, dead, pick);
    a_list_opens_on_its_row(app, rows, pick, Start::Shuffled);
    reveal(AppView::playing_list);
    assert(slots[row] == Some(id));
    assert(slots.contains(Some(id)));
    queue_laws::the_whole_list_is_enqueued(slots, dead);
    assert(queue::queued(slots, dead).contains(id));
    first_live_skips(slots, dead, 0, row);
    deck_laws::a_list_the_player_holds_is_not_sent_again(app.deck, slots, 0, Start::InOrder);
    assert forall|k: int| 0 <= k < row implies (#[trigger] slots[k]) is None || dead.contains(
        slots[k]->0,
    ) by {
        assert(slots[k] == rows[k].catalog());
    }
    deck_laws::a_new_queue_opens_on_the_row_asked_for(app.deck, slots, 0, row, Start::InOrder);
}

proof fn first_live_skips(
    slots: Seq<Option<Seq<char>>>,
    dead: Set<Seq<char>>,
    from: int,
    row: int,
)
    requires
        0 <= from <= row < slots.len(),
        queue::streamable(slots[row], dead),
        forall|k: int| from <= k < row ==> !queue::streamable(#[trigger] slots[k], dead),
    ensures
        queue::first_live(slots, from, dead) == slots[row],
    decreases row - from,
{
    if from < row {
        assert(!queue::streamable(slots[from], dead));
        first_live_skips(slots, dead, from + 1, row);
    }
}

/// A row of the queue that is clicked is gone to, and one that is removed is removed, where
/// it stands now: where it was clicked if it is still there, and else where its track is
/// found first. Where it is not found, that is said and the player is told nothing.
pub proof fn a_clicked_row_is_found_before_it_is_used(
    app: AppView,
    at: usize,
    id: String,
    index: int,
)
    requires
        app.deck.attached,
        ({
            let queue = app.deck.player.queue;
            if at < queue.len() && queue[at as int].answers_to(id@) {
                index == at
            } else {
                &&& 0 <= index <= queue.len()
                &&& forall|k: int| 0 <= k < index ==> !(#[trigger] queue[k]).answers_to(id@)
                &&& index < queue.len() ==> queue[index].answers_to(id@)
            }
        }),
    ensures
        ({
            let jumped = app.handling(AppMsg::JumpTo { at, id });
            let removed = app.handling(AppMsg::RemoveFromQueue { at, id });
            let gone = AppView {
                effects: app.effects.push(
                    EffectView::Toast("That track is no longer in the queue"@),
                ),
                ..app
            };
            if index < app.deck.player.queue.len() {
                &&& said(app, removed, CommandView::RemoveFromQueue { index })
                &&& app.deck.player.playing ==> said(
                    app,
                    jumped,
                    CommandView::ChangeToIndex { index },
                )
                &&& !app.deck.player.playing ==> jumped.deck.outbox == app.deck.outbox.push(
                    CommandView::ChangeToIndex { index },
                ).push(CommandView::Play)
            } else {
                jumped == gone && removed == gone
            }
        }),
{
    reveal(AppView::after_queueing);
    reveal(AppView::jumped_to);
    reveal(AppView::removing);
    reveal(DeckView::jumped);
    let queue = app.deck.player.queue;
    if !(at < queue.len() && queue[at as int].answers_to(id@)) {
        found_at(queue, id@, 0, index);
    }
}

proof fn found_at(queue: Seq<Item>, id: Seq<char>, from: int, index: int)
    requires
        0 <= from <= index <= queue.len(),
        forall|k: int| 0 <= k < index ==> !(#[trigger] queue[k]).answers_to(id),
        index < queue.len() ==> queue[index].answers_to(id),
    ensures
        queue::first_called(queue, id, from) == if index < queue.len() {
            Some(index)
        } else {
            None
        },
    decreases index - from,
{
    if from < index {
        assert(!queue[from].answers_to(id));
        found_at(queue, id, from + 1, index);
    }
}

/// A row that is moved is moved in the mirror at once, the playing one still marked, and
/// the player told to do likewise. A move off the queue is not made.
pub proof fn a_move_is_shown_before_the_player_answers(app: AppView, from: usize, to: usize)
    requires
        app.deck.attached,
        0 <= app.deck.player.queue_position < app.deck.player.queue.len(),
    ensures
        ({
            let after = app.handling(AppMsg::MoveInQueue { from, to });
            let player = app.deck.player;
            let n = player.queue.len();
            if from < n && to < n {
                &&& after.deck.player.queue[to as int] == player.queue[from as int]
                &&& after.deck.player.queue.remove(to as int) == player.queue.remove(from as int)
                &&& after.deck.player.queue[after.deck.player.queue_position]
                    == player.queue[player.queue_position]
                &&& after.deck.outbox == app.deck.outbox.push(
                    CommandView::MoveInQueue { from: from as int, to: to as int },
                )
                &&& after.card.pending_move == Some((from, to))
                &&& after.effects.last() is Show
            } else {
                after == app
            }
        }),
{
    reveal(AppView::after_queueing);
    reveal(AppView::reordered);
    reveal(AppView::pushed);
    let player = app.deck.player;
    if from < player.queue.len() && to < player.queue.len() {
        protocol_laws::a_move_takes_one_item_along(player, from as int, to as int);
        protocol_laws::a_move_keeps_the_playing_item(player, from as int, to as int);
    }
}

/// Clearing the queue tells the player, forgets what was sent and what was on, and forgets
/// the remembered session.
pub proof fn a_cleared_queue_is_forgotten(app: AppView)
    requires
        app.deck.attached,
    ensures
        app.handling(AppMsg::ClearQueue) == (AppView {
            deck: DeckView {
                outbox: app.deck.outbox.push(CommandView::ClearQueue),
                last_queue: None,
                pending_start: None,
                ..app.deck
            },
            card: CardView { last_item: None, ..app.card },
            effects: app.effects.push(EffectView::ClearSession).push(EffectView::Backdrop(None)),
            ..app
        }),
{
    reveal(AppView::after_queueing);
    reveal(AppView::queue_cleared);
}

/// A song that is put in the library, or gets a star, is asked of the service, and that is
/// said. Before there is a connection, that is said instead.
pub proof fn a_write_is_asked_of_the_service(
    app: AppView,
    catalog_id: String,
    action: LibraryAction,
)
    ensures
        ({
            let after = app.handling(AppMsg::LibraryWrite { catalog_id, action });
            &&& app.tokens is None ==> after.effects == app.effects.push(
                EffectView::Toast("Not connected yet"@),
            )
            &&& app.tokens is Some ==> after.effects == app.effects.push(
                EffectView::Toast(
                    match action {
                        LibraryAction::AddToLibrary => "Adding to your library…"@,
                        LibraryAction::Favorite => "Favouriting…"@,
                    },
                ),
            ).push(EffectView::WriteLibrary { catalog_id: catalog_id@, action })
            &&& after == (AppView { effects: after.effects, ..app })
        }),
{
    reveal(AppView::after_account);
    reveal(AppView::writing);
}

/// A write the service took is shown: a star means that it is in the library too. One it did
/// not take is said, in its own words, and shown nowhere.
pub proof fn a_written_star_is_shown(
    app: AppView,
    catalog_id: String,
    result: Result<(), String>,
)
    ensures
        ({
            let id = catalog_id@;
            let starred = app.answering(
                CommandMsg::LibraryWritten { catalog_id, action: LibraryAction::Favorite, result },
            );
            let added = app.answering(
                CommandMsg::LibraryWritten {
                    catalog_id,
                    action: LibraryAction::AddToLibrary,
                    result,
                },
            );
            match result {
                Ok(_) => {
                    &&& starred.shelf == app.shelf.patched(id, Patch::Favorite(true)).patched(
                        id,
                        Patch::InLibrary(true),
                    )
                    &&& starred.pages == app.pages.patched(id, Patch::Favorite(true)).patched(
                        id,
                        Patch::InLibrary(true),
                    )
                    &&& starred.effects == app.effects.push(EffectView::Toast("Favourited"@))
                    &&& added.shelf == app.shelf.patched(id, Patch::InLibrary(true))
                    &&& added.pages == app.pages.patched(id, Patch::InLibrary(true))
                    &&& added.effects == app.effects.push(
                        EffectView::Toast("Sent to your library"@),
                    )
                },
                Err(why) => {
                    let said = AppView {
                        effects: app.effects.push(EffectView::Toast(why@)),
                        ..app
                    };
                    starred == said && added == said
                },
            }
        }),
{
    reveal(AppView::answering);
    reveal(AppView::written);
    reveal(AppView::patched);
}

/// A removal, and a star that is taken off, are sent, shown at once, said, and remembered
/// with what takes them back.
pub proof fn a_removal_is_sent_and_shown_at_once(
    app: AppView,
    library_id: String,
    catalog_id: String,
)
    requires
        app.deck.attached,
        writes::apart(app.pending),
    ensures
        ({
            let id = catalog_id@;
            let removed = app.handling(AppMsg::RemoveFromLibrary { library_id, catalog_id });
            let unstarred = app.handling(AppMsg::Unfavorite { catalog_id });
            &&& removed.deck.outbox == app.deck.outbox.push(
                CommandView::RemoveFromLibrary { id: library_id@ },
            )
            &&& removed.shelf == app.shelf.patched(id, Patch::InLibrary(false))
            &&& removed.pages == app.pages.patched(id, Patch::InLibrary(false))
            &&& removed.effects == app.effects.push(
                EffectView::Toast("Removing from your library…"@),
            )
            &&& writes::awaited(removed.pending, library_id@) == Some(
                writes::PendingView {
                    sent: library_id@,
                    catalog_id: id,
                    undo: Patch::InLibrary(true),
                },
            )
            &&& unstarred.deck.outbox == app.deck.outbox.push(CommandView::Unfavorite { id })
            &&& unstarred.shelf == app.shelf.patched(id, Patch::Favorite(false))
            &&& unstarred.pages == app.pages.patched(id, Patch::Favorite(false))
            &&& unstarred.effects == app.effects.push(EffectView::Toast("Removing favourite…"@))
            &&& writes::awaited(unstarred.pending, id) == Some(
                writes::PendingView { sent: id, catalog_id: id, undo: Patch::Favorite(true) },
            )
        }),
{
    reveal(AppView::after_account);
    reveal(AppView::unlisted);
    reveal(AppView::unstarred);
    reveal(AppView::patched);
    writes::a_write_is_settled_by_its_own_id(
        app.pending,
        writes::PendingView {
            sent: library_id@,
            catalog_id: catalog_id@,
            undo: Patch::InLibrary(true),
        },
    );
    writes::a_write_is_settled_by_its_own_id(
        app.pending,
        writes::PendingView {
            sent: catalog_id@,
            catalog_id: catalog_id@,
            undo: Patch::Favorite(true),
        },
    );
}

/// A page opens once there is a connection, and before that it is said that there is none.
pub proof fn a_page_opens_once_connected(app: AppView, kind: PageKind)
    ensures
        app.tokens is Some ==> app.handling(AppMsg::OpenPage(kind)) == (AppView {
            pages: app.pages.pushed(kind@),
            ..app
        }),
        app.tokens is None ==> app.handling(AppMsg::OpenPage(kind)) == (AppView {
            effects: app.effects.push(EffectView::Toast("Not connected yet"@)),
            ..app
        }),
{
    reveal(AppView::after_browsing);
    reveal(AppView::opening);
}

/// A tile opens the page of what it shows.
pub proof fn a_tile_opens_its_own_page(app: AppView, position: u32)
    ensures
        position < app.shelf.album_tiles.len() ==> app.handling(AppMsg::AlbumActivated(position))
            == (AppView {
            effects: app.effects.push(
                EffectView::OpenPage(
                    pages::door(Entry::Album(app.shelf.album_tiles[position as int]))->0,
                ),
            ),
            ..app
        }),
        position < app.shelf.artist_tiles.len() ==> app.handling(AppMsg::ArtistActivated(position))
            == (AppView {
            effects: app.effects.push(
                EffectView::OpenPage(
                    pages::door(Entry::Artist(app.shelf.artist_tiles[position as int]))->0,
                ),
            ),
            ..app
        }),
        position < app.shelf.playlist_tiles.len() ==> app.handling(
            AppMsg::PlaylistActivated(position),
        ) == (AppView {
            effects: app.effects.push(
                EffectView::OpenPage(
                    pages::door(Entry::Playlist(app.shelf.playlist_tiles[position as int]))->0,
                ),
            ),
            ..app
        }),
        position >= app.shelf.album_tiles.len() ==> app.handling(AppMsg::AlbumActivated(position))
            == app,
{
    reveal(AppView::after_browsing);
}

/// A sort that is chosen is that of the section on show, applied and kept. Turning it round
/// keeps the key. Choosing the one there is does nothing.
pub proof fn a_sort_is_applied_and_kept(app: AppView, by: SortBy)
    ensures
        ({
            let now = app.shelf.sorts.of(app.shelf.view);
            let chosen = app.handling(AppMsg::SetSort(by));
            let turned = app.handling(AppMsg::ToggleSortDirection);
            &&& by == now.by ==> chosen == app
            &&& by != now.by ==> {
                &&& chosen.shelf == app.shelf.sorted(
                    Sort { by, reversed: now.reversed },
                    app.playing(),
                )
                &&& chosen.effects == app.effects.push(EffectView::SaveSettings)
                &&& writes_sorts(chosen.settings, chosen.shelf.sorts)
            }
            &&& turned.shelf == app.shelf.sorted(
                Sort { by: now.by, reversed: !now.reversed },
                app.playing(),
            )
            &&& turned.effects == app.effects.push(EffectView::SaveSettings)
            &&& writes_sorts(turned.settings, turned.shelf.sorts)
        }),
{
    reveal(AppView::after_browsing);
    reveal(AppView::sorted_by);
    reveal(AppView::flipped);
}

/// Whether settings name the sorts of every section.
pub open spec fn writes_sorts(settings: SettingsView, sorts: Sorts) -> bool {
    &&& settings.sort == sorts.songs.by.target()
    &&& settings.sort_reversed == sorts.songs.reversed
    &&& settings.album_sort == sorts.albums.by.target()
    &&& settings.album_sort_reversed == sorts.albums.reversed
    &&& settings.artist_sort == sorts.artists.by.target()
    &&& settings.artist_sort_reversed == sorts.artists.reversed
    &&& settings.playlist_sort == sorts.playlists.by.target()
    &&& settings.playlist_sort_reversed == sorts.playlists.reversed
}

/// Sorts that were kept are found again when the window opens: each section's own, where it
/// offers them.
pub proof fn kept_sorts_are_found_again(settings: SettingsView, sorts: Sorts)
    requires
        SortBy::offered(View::Songs).contains(sorts.songs.by),
        SortBy::offered(View::Albums).contains(sorts.albums.by),
        SortBy::offered(View::Artists).contains(sorts.artists.by),
        SortBy::offered(View::Playlists).contains(sorts.playlists.by),
    ensures
        window::sorts_read(actions::sorts_written(settings, sorts)) == sorts,
{
    view_laws::a_sort_round_trips_through_its_id(sorts.songs.by);
    view_laws::a_sort_round_trips_through_its_id(sorts.albums.by);
    view_laws::a_sort_round_trips_through_its_id(sorts.artists.by);
    view_laws::a_sort_round_trips_through_its_id(sorts.playlists.by);
    view_laws::a_key_that_does_not_fit_gives_way_to_the_title(sorts.songs.by, View::Songs);
    view_laws::a_key_that_does_not_fit_gives_way_to_the_title(sorts.albums.by, View::Albums);
    view_laws::a_key_that_does_not_fit_gives_way_to_the_title(sorts.artists.by, View::Artists);
    view_laws::a_key_that_does_not_fit_gives_way_to_the_title(sorts.playlists.by, View::Playlists);
}

/// The window opens on the section it was left in, with nothing loaded.
pub proof fn the_window_opens_where_it_was_left(settings: SettingsView, dead: Set<Seq<char>>)
    ensures
        ({
            let app = AppView::fresh(settings, dead);
            &&& app.shelf.view.section() == settings.section
            &&& app.window.show_sidebar == settings.show_sidebar
            &&& app.stage == StageView::Starting
            &&& app.deck.dead == dead
            &&& app.deck.outbox.len() == 0
            &&& !app.deck.attached
            &&& app.tokens is None
            &&& app.effects.len() == 0
        }),
{
    view_laws::a_view_round_trips_through_its_section(View::Songs, settings.section);
}

/// A section that is chosen is shown, kept, and takes what was opened over the last one away.
pub proof fn a_chosen_section_is_shown_and_kept(app: AppView, view: View)
    requires
        view != app.shelf.view,
    ensures
        ({
            let after = app.handling(AppMsg::SetView(view));
            &&& after.shelf == app.shelf.showing(view, app.access(), app.playing())
            &&& after.settings == (SettingsView { section: view.section(), ..app.settings })
            &&& after.effects == app.effects.push(EffectView::SaveSettings)
            &&& app.pages.stack.len() > 0 ==> after.pages.todo == app.pages.todo.push(
                PageTaskView::PopAll,
            )
            &&& app.pages.stack.len() == 0 ==> after.pages == app.pages
        }),
{
    reveal(AppView::after_browsing);
    reveal(AppView::sectioned);
}

/// How much of the service can be asked goes by the tokens: nothing without any, the catalog
/// with a developer's, and the library with a user's.
pub proof fn access_goes_by_the_tokens(app: AppView)
    ensures
        app.access() == Access::Away <==> app.tokens is None,
        app.access() == Access::Guest <==> app.tokens is Some
            && app.tokens->0.music_user_token is None,
        app.access() == Access::Member <==> app.tokens is Some
            && app.tokens->0.music_user_token is Some,
{
}

/// Signing out is asked about first, where there is anything to sign out of, and then tells
/// the player.
pub proof fn signing_out_is_asked_about_first(app: AppView)
    requires
        app.deck.attached,
    ensures
        app.stage == StageView::Ready ==> app.handling(AppMsg::SignOut) == (AppView {
            effects: app.effects.push(EffectView::ConfirmSignOut),
            ..app
        }),
        app.stage != StageView::Ready ==> app.handling(AppMsg::SignOut) == app,
        app.handling(AppMsg::SignOutConfirmed).deck.outbox == app.deck.outbox.push(
            CommandView::SignOut,
        ),
{
    reveal(AppView::after_account);
    reveal(AppView::session_forgotten);
    reveal(AppView::pushed);
}

/// What a controller on the bus asks for, and what the bar does, is the message of its own
/// name. Quitting only pauses: the window is not the controller's to close.
pub proof fn each_control_is_its_own_message(
    ms: u64,
    volume: u64,
    on: bool,
    mode: RepeatMode,
    moved: bool,
)
    ensures
        handle::asked_on_the_bus(MprisCommand::Play, moved) == AppMsg::Play,
        handle::asked_on_the_bus(MprisCommand::Pause, moved) == AppMsg::Pause,
        handle::asked_on_the_bus(MprisCommand::PlayPause, moved) == AppMsg::PlayPause,
        handle::asked_on_the_bus(MprisCommand::Next, moved) == AppMsg::Next,
        handle::asked_on_the_bus(MprisCommand::Previous, moved) == AppMsg::Previous,
        handle::asked_on_the_bus(MprisCommand::Seek(ms), moved) == AppMsg::Seek(ms),
        handle::asked_on_the_bus(MprisCommand::SetShuffle(on), moved) == AppMsg::SetShuffle(on),
        handle::asked_on_the_bus(MprisCommand::SetRepeat(mode), moved) == AppMsg::SetRepeat(mode),
        handle::asked_on_the_bus(MprisCommand::SetVolume(volume), moved) == (AppMsg::SetVolume {
            volume,
            moved,
        }),
        handle::asked_on_the_bus(MprisCommand::Raise, moved) == AppMsg::Raise,
        handle::asked_on_the_bus(MprisCommand::Quit, moved) == AppMsg::Pause,
        handle::asked_on_the_bar(NowPlayingOutput::PlayPause, moved) == AppMsg::PlayPause,
        handle::asked_on_the_bar(NowPlayingOutput::Next, moved) == AppMsg::Next,
        handle::asked_on_the_bar(NowPlayingOutput::Previous, moved) == AppMsg::Previous,
        handle::asked_on_the_bar(NowPlayingOutput::Seek(ms), moved) == AppMsg::Seek(ms),
        handle::asked_on_the_bar(NowPlayingOutput::SetShuffle(on), moved) == AppMsg::SetShuffle(on),
        handle::asked_on_the_bar(NowPlayingOutput::SetRepeat(mode), moved) == AppMsg::SetRepeat(
            mode,
        ),
        handle::asked_on_the_bar(NowPlayingOutput::SetVolume(volume), moved) == (
        AppMsg::SetVolume { volume, moved }),
        handle::asked_on_the_bar(NowPlayingOutput::ToggleQueue, moved) == AppMsg::ToggleQueue,
{
}

/// What a window's message shows or hides is shown or hidden.
pub proof fn what_the_window_is_told_is_shown(app: AppView, on: bool)
    ensures
        app.handling(AppMsg::WindowShown).window == (Window { background: false, ..app.window }),
        app.handling(AppMsg::SidebarShown(on)).window == (Window {
            show_sidebar: on,
            ..app.window
        }),
        app.handling(AppMsg::SidebarCollapsed(on)).window == (Window {
            sidebar_collapsed: on,
            ..app.window
        }),
        app.handling(AppMsg::Raise).effects == app.effects.push(EffectView::RaiseWindow),
        app.deck.player.queue.len() == 0 ==> app.handling(AppMsg::WindowCloseRequested)
            == (AppView { effects: app.effects.push(EffectView::CloseWindow), ..app }),
{
    reveal(AppView::after_window);
}

/// The sidebar is turned over, and kept as it then is.
pub proof fn the_sidebar_is_turned_over_and_kept(app: AppView)
    ensures
        ({
            let after = app.handling(AppMsg::ToggleSidebar);
            &&& after.window.show_sidebar == !app.window.show_sidebar
            &&& after.settings.show_sidebar == !app.window.show_sidebar
            &&& after.effects == app.effects.push(EffectView::SaveSettings)
        }),
{
    reveal(AppView::after_window);
}

/// The queue is turned over, and one that opens is scrolled to what plays.
pub proof fn the_queue_is_turned_over(app: AppView)
    ensures
        ({
            let after = app.handling(AppMsg::ToggleQueue);
            &&& after.window.show_queue == !app.window.show_queue
            &&& after.window.show_queue ==> after.effects.last() == EffectView::ScrollToPlaying
        }),
{
    reveal(AppView::after_window);
    reveal(AppView::queue_toggled);
    reveal(AppView::pushed);
}

/// A theme, an accent and whether tracks are announced are kept as they were chosen.
pub proof fn what_is_chosen_is_kept(app: AppView, on: bool, index: u32, accent: String)
    ensures
        ({
            let after = app.handling(AppMsg::SetTheme(index));
            &&& index == 1 ==> after.settings.theme == Theme::Light
            &&& index == 2 ==> after.settings.theme == Theme::Dark
            &&& index != 1 && index != 2 ==> after.settings.theme == Theme::System
            &&& after.effects == app.effects.push(EffectView::ApplyTheme).push(
                EffectView::SaveSettings,
            )
        }),
        ({
            let after = app.handling(AppMsg::SetAccent(accent));
            &&& after.settings.accent == accent@
            &&& after.effects == app.effects.push(EffectView::SaveSettings).push(
                EffectView::ApplyAccent,
            )
        }),
        app.handling(AppMsg::SetNotifyTrackChange(on)).settings == (SettingsView {
            notify_track_change: on,
            ..app.settings
        }),
{
    reveal(AppView::after_window);
}

/// What is on show is what plays, or failing that what the queue stands at, or failing that
/// what was on last while there still is a queue.
pub proof fn what_is_on_show(app: AppView)
    ensures
        ({
            let player = app.deck.player;
            &&& player.now_playing is Some ==> app.on_show() == player.now_playing
            &&& player.now_playing is None && 0 <= player.queue_position < player.queue.len()
                ==> app.on_show() == Some(player.queue[player.queue_position])
            &&& player.now_playing is None && player.queue_position >= player.queue.len()
                && player.queue.len() > 0 ==> app.on_show() == app.card.last_item
            &&& player.now_playing is None && player.queue.len() == 0 ==> app.on_show() is None
        }),
{
    reveal(AppView::on_show);
}

/// The window shows what is on: its words, the position as it was reported, the modes, and
/// the queue in its order with the row that plays marked. The bus is told the position
/// carried forward, and that it has stopped only where nothing is on.
pub proof fn the_window_shows_what_is_on(app: AppView, i: int)
    ensures
        ({
            let shown = app.snapshot();
            let player = app.deck.player;
            let item = app.on_show();
            &&& item is Some ==> shown.bar.title == item->0.title@ && shown.bar.artist
                == item->0.artist@ && shown.bar.album == item->0.album@ && shown.bus.track_id
                == item->0.key() && shown.bus.track_number == item->0.track_number
            &&& item is None ==> shown.bar.title.len() == 0 && shown.bus.track_id is None
            &&& shown.bar.active <==> item is Some
            &&& shown.bus.stopped <==> item is None
            &&& shown.bar.position_ms == player.position_ms
            &&& shown.bus.position_ms == player.interpolated_ms
            &&& shown.bar.duration_ms == player.duration_ms
            &&& shown.bar.playing == player.playing
            &&& shown.bar.busy == player.busy
            &&& shown.bar.shuffle == player.shuffle
            &&& shown.bar.repeat == player.repeat
            &&& shown.bar.has_next == player.has_next
            &&& shown.bar.has_previous == player.has_previous
            &&& shown.bar.volume == app.card.volume
            &&& shown.bar.queue_open == app.window.show_queue
            &&& shown.bus.art_path == app.card.art_path
            &&& player.queue.len() > 0 ==> shown.current == Some(player.queue_position)
            &&& player.queue.len() == 0 ==> shown.current is None
            &&& shown.queue.len() == player.queue.len()
            &&& 0 <= i < player.queue.len() ==> shown.queue[i].at == i && shown.queue[i].title
                == player.queue[i].title@ && shown.queue[i].artist == player.queue[i].artist@
                && shown.queue[i].duration_ms == player.queue[i].duration_ms && (
            player.queue[i].key() is Some ==> shown.queue[i].id == player.queue[i].key()->0)
        }),
{
    reveal(AppView::snapshot);
}

/// Each report moves the window on: that the player is there, that it is signed in, that it
/// is broken, and what it may be asked with.
pub proof fn each_report_moves_the_stage_on(
    app: AppView,
    authorized: bool,
    detail: String,
    tokens: Tokens,
    moved: bool,
)
    requires
        app.deck.attached,
    ensures
        app.told(PlayerEvent::WidevineReady, moved) == (AppView {
            stage: StageView::Connecting,
            ..app
        }),
        app.told(PlayerEvent::HookReady { authorized }, moved) == (AppView {
            stage: if authorized {
                StageView::Ready
            } else {
                StageView::SignedOut
            },
            ..app
        }),
        app.told(PlayerEvent::HookFailed { detail }, moved).stage is Broken,
        app.told(PlayerEvent::Tokens(tokens), moved).tokens == Some(tokens),
        tokens.authorized ==> app.told(PlayerEvent::Tokens(tokens), moved).stage
            == StageView::Ready,
        !tokens.authorized ==> app.told(PlayerEvent::Tokens(tokens), moved).stage == app.stage,
        ({
            let after = app.told(PlayerEvent::Authorization { authorized }, moved);
            &&& authorized ==> after.stage == StageView::Ready && after.deck.outbox
                == app.deck.outbox.push(CommandView::Hide)
            &&& !authorized ==> after.stage == StageView::SignedOut && after.deck.outbox
                == app.deck.outbox
        }),
{
    reveal(AppView::told);
}

/// A refused queue is sent again without what is dead, and the window marks that. Where
/// nothing is left of it, that is said. A refusal that is none of ours is said in its own
/// words.
pub proof fn a_refused_queue_is_answered_or_said(app: AppView, detail: String, moved: bool)
    ensures
        ({
            let after = app.told(PlayerEvent::Error { detail }, moved);
            &&& after.deck == app.deck.retrying(detail@, true)
            &&& app.deck.refused(detail@) == Retry::Resent ==> after.effects == app.effects.push(
                EffectView::SaveDead,
            ).push(EffectView::DrawDead)
            &&& app.deck.refused(detail@) == Retry::NothingLeft ==> after.effects
                == app.effects.push(EffectView::SaveDead).push(
                EffectView::Toast("None of these tracks are available to stream"@),
            )
            &&& app.deck.refused(detail@) == Retry::NotOurs ==> after.effects == app.effects.push(
                EffectView::Toast(detail@),
            )
        }),
{
    reveal(AppView::told);
    reveal(AppView::refused);
}

/// Whatever the player reports, the mirror is what it says it is, and the last item that was
/// on is remembered.
pub proof fn a_report_is_mirrored(app: AppView, player: PlayerView)
    ensures
        app.mirrored(player).deck == (DeckView { player, ..app.deck }),
        player.now_playing is Some ==> app.mirrored(player).card.last_item == player.now_playing,
        player.now_playing is None ==> app.mirrored(player).card == app.card,
        app.mirrored(player).effects == app.effects,
{
    reveal(AppView::mirrored);
}

/// A cover that is wanted and is not the last one asked for is fetched. Where none is wanted,
/// none is shown.
pub proof fn a_new_cover_is_fetched(app: AppView)
    ensures
        ({
            let item = app.on_show();
            let wanted = if item is Some {
                text::text_view(item->0.artwork_template)
            } else {
                None
            };
            let after = app.covered();
            &&& wanted == app.card.art_for ==> after == app
            &&& wanted != app.card.art_for && wanted is Some ==> after == (AppView {
                card: CardView { art_for: wanted, ..app.card },
                effects: app.effects.push(EffectView::FetchCover { template: wanted->0 }),
                ..app
            })
            &&& wanted != app.card.art_for && wanted is None ==> after == (AppView {
                card: CardView { art_for: None, art_path: None, ..app.card },
                effects: app.effects.push(EffectView::Cover(None)),
                ..app
            })
        }),
{
    reveal(AppView::covered);
}

/// A cover that landed is shown, and a track that waited for it is announced with it, if it
/// is still the one that plays.
pub proof fn a_cover_that_landed_is_shown(
    app: AppView,
    path: Option<String>,
    backdrop: Option<String>,
)
    ensures
        ({
            let after = app.answering(CommandMsg::Artwork { path, backdrop });
            let shown = app.effects.push(EffectView::Backdrop(text::text_view(backdrop))).push(
                EffectView::Cover(text::text_view(path)),
            );
            let waited = app.card.notify_when_art_lands is Some && app.card.notify_when_art_lands
                == app.playing();
            &&& after.card.art_path == text::text_view(path)
            &&& shown.is_prefix_of(after.effects)
            &&& !waited ==> after.effects.len() == shown.len() + 1
            &&& waited && app.deck.player.now_playing is Some ==> after.effects.len() == shown.len()
                + 2 && after.effects[shown.len() as int] == (EffectView::Notify {
                title: app.deck.player.now_playing->0.title@,
                artist: app.deck.player.now_playing->0.artist@,
                art_path: text::text_view(path),
            })
            &&& after.effects.last() is Show
        }),
{
    reveal(AppView::answering);
    reveal(AppView::cover_landed);
    reveal(AppView::announced);
    reveal(AppView::pushed);
}

/// A new track is announced with its own title and artist: at once, or once its cover has
/// landed where that is on its way.
pub proof fn a_new_track_is_announced(app: AppView, in_flight: bool)
    requires
        app.settings.notify_track_change,
        app.playing() is Some,
        app.playing() != app.card.notified_for,
    ensures
        ({
            let after = app.notified(in_flight);
            let item = app.deck.player.now_playing->0;
            &&& after.card.notified_for == app.playing()
            &&& in_flight ==> after.effects == app.effects && after.card.notify_when_art_lands
                == app.playing()
            &&& !in_flight ==> after.effects == app.effects.push(
                EffectView::Notify {
                    title: item.title@,
                    artist: item.artist@,
                    art_path: app.card.art_path,
                },
            ) && after.card.notify_when_art_lands is None
        }),
{
    reveal(AppView::notified);
    reveal(AppView::announced);
}

/// The row of what plays is marked, and the one that was is not any more.
pub proof fn the_row_that_plays_is_marked(app: AppView)
    ensures
        app.marked().shelf.marked == app.playing(),
        app.playing() != app.shelf.marked ==> app.marked().effects == app.effects.push(
            EffectView::Mark { from: app.shelf.marked, to: app.playing() },
        ),
        app.playing() == app.shelf.marked ==> app.marked() == app,
{
    reveal(AppView::marked);
}

/// The timer is started when something begins to play and stopped when it ends.
pub proof fn the_timer_goes_with_the_music(app: AppView)
    ensures
        app.deck.player.playing && !app.card.ticking ==> app.ticking().effects == app.effects.push(
            EffectView::StartTicking,
        ),
        !app.deck.player.playing && app.card.ticking ==> app.ticking().effects == app.effects.push(
            EffectView::StopTicking,
        ),
        app.deck.player.playing == app.card.ticking ==> app.ticking() == app,
{
    reveal(AppView::ticking);
}

/// Once the window is ready it has the remembered queue put back, once, and asks for the
/// songs and for what its section shows.
pub proof fn a_ready_window_is_stocked(app: AppView, session: SessionView)
    requires
        app.stage == StageView::Ready,
        app.tokens is Some,
        !app.restored,
    ensures
        app.stocking(Some(session)).deck == app.deck.restoring(session),
        app.stocking(Some(session)).restored,
        app.stocking(None).deck == app.deck,
        app.stocking(None).restored,
        app.tokens->0.music_user_token is Some && app.shelf.tracks.len() == 0
            && !app.shelf.loading.songs && !app.shelf.tried.songs ==> app.stocking(
            None,
        ).shelf.loading.songs,
{
    reveal(AppView::stocking);
    reveal(ShelfView::loading_songs);
    reveal(ShelfView::loading_albums);
    reveal(ShelfView::loading_artists);
    reveal(ShelfView::loading_playlists);
}

/// Before the window is ready nothing is put back and nothing asked for.
pub proof fn a_window_that_is_not_ready_is_not_stocked(app: AppView, saved: Option<SessionView>)
    requires
        app.stage != StageView::Ready,
    ensures
        app.stocking(saved) == app,
{
    reveal(AppView::stocking);
}

/// A player that is there is told things again, holds nothing, and is still being got ready.
/// One that died is counted, said, and started again.
pub proof fn a_dead_player_is_counted_and_started_again(app: AppView)
    requires
        app.restarts < u32::MAX,
    ensures
        app.answering(CommandMsg::Spawned) == (AppView {
            deck: DeckView { attached: true, ..app.deck },
            restored: false,
            stage: StageView::InstallingWidevine,
            ..app
        }),
        ({
            let after = app.answering(CommandMsg::Died);
            let n = after.effects.len();
            &&& after.restarts == app.restarts + 1
            &&& after.stage == StageView::Restarting((app.restarts + 1) as u32)
            &&& after.deck == (DeckView { attached: false, ..app.deck })
            &&& after.shelf == app.shelf
            &&& n >= 2
            &&& after.effects[n - 2] == EffectView::Toast("Playback engine stopped — restarting"@)
            &&& after.effects[n - 1] == (EffectView::Respawn {
                attempt: (app.restarts + 1) as u32,
            })
            &&& app.deck.session() is None ==> n == app.effects.len() + 2
        }),
{
    reveal(AppView::answering);
    reveal(AppView::bereft);
    reveal(AppView::keeping);
}

/// A report heals, then confirms: a new track that was loaded afresh goes back to its
/// position, a command that ended is judged, and the start that was waited for is confirmed
/// last.
pub proof fn a_report_heals_and_confirms(app: AppView, event: PlayerEvent, cmd: String)
    ensures
        event is NowPlaying ==> app.healed(event).deck == app.deck.resumed().verified(),
        event == (PlayerEvent::CmdDone { cmd }) ==> app.healed(event).deck == app.deck.judged(
            cmd@,
        ).verified(),
        !(event is NowPlaying) && !(event is CmdDone) ==> app.healed(event).deck
            == app.deck.verified(),
        app.healed(event).effects == app.effects,
{
    reveal(AppView::healed);
}

/// Songs that did not arrive are said, with why, and the same of a search that failed.
pub proof fn what_did_not_arrive_is_said(app: AppView, why: String, generation: u64, offset: usize)
    ensures
        app.answering(CommandMsg::Library(Err(why))).effects == app.effects.push(
            EffectView::Toast("Couldn't load your library: "@ + why@),
        ),
        app.answering(CommandMsg::LibraryAlbums(Err(why))).effects == app.effects.push(
            EffectView::Toast(why@),
        ),
        app.answering(CommandMsg::LibraryArtists(Err(why))).effects == app.effects.push(
            EffectView::Toast(why@),
        ),
        app.answering(CommandMsg::LibraryPlaylists(Err(why))).effects == app.effects.push(
            EffectView::Toast(why@),
        ),
        generation == app.shelf.search_gen ==> app.answering(
            CommandMsg::Catalog { generation, offset, result: Err(why) },
        ).effects == app.effects.push(EffectView::Toast("Search failed: "@ + why@)),
{
    reveal(AppView::answering);
    reveal(AppView::songs_answered);
    reveal(AppView::catalog_answered);
}

/// The page on show goes by the stage: a spinner while it resolves itself, the library once
/// it is ready and there is anything in it, and else what has to be done.
pub proof fn the_page_goes_by_the_stage(app: AppView)
    ensures
        app.stage is Starting || app.stage is InstallingWidevine || app.stage is Connecting
            ==> app.page() == "loading"@,
        app.stage is SignedOut || app.stage is Restarting || app.stage is Broken ==> app.page()
            == "status"@,
        app.stage == StageView::Ready && app.shelf.view == View::Songs && app.shelf.tracks.len()
            == 0 ==> app.page() == "status"@,
        app.stage == StageView::Ready && app.shelf.view == View::Songs && app.shelf.tracks.len()
            > 0 && app.shelf.rows.len() > 0 ==> app.page() == "library"@,
        app.stage == StageView::Ready && app.shelf.view == View::Songs && app.shelf.tracks.len()
            > 0 && app.shelf.rows.len() == 0 ==> app.page() == "no-results"@,
        app.stage == StageView::Ready && app.shelf.view == View::Albums && app.shelf.loading.albums
            && app.shelf.albums.len() == 0 ==> app.page() == "loading"@,
        app.stage == StageView::Ready && app.shelf.view == View::Albums && app.shelf.albums.len()
            > 0 && app.shelf.album_tiles.len() > 0 ==> app.page() == "albums"@,
        app.stage == StageView::Ready && app.shelf.view == View::Artists && app.shelf.artists.len()
            > 0 && app.shelf.artist_tiles.len() > 0 ==> app.page() == "artists"@,
        app.stage == StageView::Ready && app.shelf.view == View::Playlists
            && app.shelf.playlists.len() > 0 && app.shelf.playlist_tiles.len() > 0 ==> app.page()
            == "playlists"@,
        app.stage == StageView::Ready && app.shelf.view == View::Search && app.shelf.tracks.len()
            > 0 && !app.shelf.searching && text::trimmed(app.shelf.catalog_query).len() == 0
            ==> app.page() == "search-prompt"@,
{
}

/// A ready player that plays is headed by its title, and what is said below it is the artist
/// and the album, with nothing that markup could take for its own.
pub proof fn what_plays_heads_the_page(app: AppView, i: int)
    requires
        app.stage == StageView::Ready,
        app.deck.player.now_playing is Some,
    ensures
        ({
            let item = app.deck.player.now_playing->0;
            &&& app.headline() == item.title@
            &&& app.detail() == markup::escaped(item.artist@ + " — "@ + item.album@)
            &&& 0 <= i < app.detail().len() ==> !markup::is_markup(app.detail()[i])
        }),
{
    let item = app.deck.player.now_playing->0;
    markup::an_escaped_text_holds_no_markup(item.artist@ + " — "@ + item.album@);
}

/// A report goes all the way: what it says is taken in, then the mirror is what the player
/// is, then the deck heals and confirms by that mirror, and the window shows it.
pub proof fn a_report_goes_all_the_way(
    app: AppView,
    event: PlayerEvent,
    player: PlayerView,
    metadata_changed: bool,
    moved: bool,
    saved: Option<SessionView>,
)
    requires
        app.restored,
    ensures
        ({
            let after = app.after(event, player, metadata_changed, moved, saved);
            let told = app.told(event, moved);
            let mirror = DeckView { player, ..told.deck };
            let cmd = event->CmdDone_cmd@;
            &&& event is NowPlaying ==> after.deck == mirror.resumed().verified()
            &&& event is CmdDone ==> after.deck == mirror.judged(cmd).verified()
            &&& !(event is NowPlaying) && !(event is CmdDone) ==> after.deck == mirror.verified()
            &&& after.stage == told.stage
            &&& after.tokens == told.tokens
            &&& after.card.ticking == player.playing
            &&& exists|k: int|
                app.effects.len() <= k < after.effects.len() && (#[trigger] after.effects[k]) is Show
                    && after.effects[k]->Show_0.bar.playing == player.playing
                    && after.effects[k]->Show_0.bar.position_ms == player.position_ms
        }),
{
    let told = app.told(event, moved);
    telling_restores_nothing(app, event, moved);
    let mirror = told.mirrored(player);
    assert(mirror.deck == (DeckView { player, ..told.deck }) && mirror.stage == told.stage
        && mirror.tokens == told.tokens && mirror.restored == told.restored && mirror.effects
        == told.effects) by {
        reveal(AppView::mirrored);
    }
    let dressed = mirror.dressed(metadata_changed);
    dressing_keeps_the_deck(mirror, metadata_changed);
    let ticked = dressed.ticking();
    ticking_keeps_the_deck(dressed);
    let shown = ticked.pushed();
    assert(shown == (AppView {
        effects: ticked.effects.push(EffectView::Show(ticked.snapshot())),
        ..ticked
    })) by {
        reveal(AppView::pushed);
    }
    let remembered = shown.remembering(app.playing());
    assert(remembered.deck == shown.deck && remembered.stage == shown.stage && remembered.tokens
        == shown.tokens && remembered.card == shown.card && remembered.restored == shown.restored
        && shown.effects.is_prefix_of(remembered.effects)) by {
        reveal(AppView::remembering);
        reveal(AppView::saving);
    }
    let healed = remembered.healed(event);
    assert(healed == (AppView { deck: healed.deck, ..remembered })) by {
        reveal(AppView::healed);
    }
    a_report_heals_and_confirms(remembered, event, event->CmdDone_cmd);
    stocking_keeps_the_deck(healed, saved);
    let after = app.after(event, player, metadata_changed, moved, saved);
    let k = ticked.effects.len() as int;
    assert(shown.effects[k] == EffectView::Show(ticked.snapshot()));
    assert(after.effects[k] == shown.effects[k]);
    assert(ticked.snapshot().bar.playing == player.playing
        && ticked.snapshot().bar.position_ms == player.position_ms) by {
        reveal(AppView::snapshot);
    }
}

proof fn telling_restores_nothing(app: AppView, event: PlayerEvent, moved: bool)
    ensures
        app.told(event, moved).restored == app.restored,
        app.effects.is_prefix_of(app.told(event, moved).effects),
{
    reveal(AppView::told);
    reveal(AppView::refused);
    reveal(AppView::adopting_volume);
    reveal(AppView::write_settled);
    reveal(AppView::patched);
    reveal(AppView::pushed);
}

proof fn dressing_keeps_the_deck(app: AppView, metadata_changed: bool)
    ensures
        ({
            let after = app.dressed(metadata_changed);
            &&& after.deck == app.deck
            &&& after.stage == app.stage
            &&& after.tokens == app.tokens
            &&& after.restored == app.restored
            &&& app.effects.is_prefix_of(after.effects)
        }),
{
    reveal(AppView::dressed);
    reveal(AppView::covered);
    reveal(AppView::marked);
    reveal(AppView::notified);
    reveal(AppView::announced);
}

proof fn ticking_keeps_the_deck(app: AppView)
    ensures
        ({
            let after = app.ticking();
            &&& after.deck == app.deck
            &&& after.stage == app.stage
            &&& after.tokens == app.tokens
            &&& after.restored == app.restored
            &&& after.card.ticking == app.deck.player.playing
            &&& app.effects.is_prefix_of(after.effects)
        }),
{
    reveal(AppView::ticking);
}

proof fn stocking_keeps_the_deck(app: AppView, saved: Option<SessionView>)
    requires
        app.restored,
    ensures
        app.stocking(saved) == (AppView { shelf: app.stocking(saved).shelf, ..app }),
{
    reveal(AppView::stocking);
}

/// A song that is queued, and a tick of the clock, reach the deck and the screen.
pub proof fn a_queued_song_reaches_the_deck(app: AppView, catalog_id: String, next: bool)
    ensures
        app.handling(AppMsg::Enqueue { catalog_id, next }) == (AppView {
            deck: app.deck.enqueued(catalog_id@, next),
            ..app
        }),
        app.handling(AppMsg::Tick) == (AppView {
            effects: app.effects.push(EffectView::Show(app.snapshot())),
            ..app
        }),
{
    reveal(AppView::after_transport);
    reveal(AppView::after_queueing);
    reveal(AppView::pushed);
}

/// What is typed, filtered, scrolled to or asked for again reaches the search and the
/// sections.
pub proof fn what_is_looked_for_reaches_the_shelf(
    app: AppView,
    query: String,
    filter: CatalogFilter,
    generation: u64,
    view: View,
)
    ensures
        app.handling(AppMsg::SearchChanged(query)) == app.searched(query@),
        app.handling(AppMsg::SetCatalogFilter(filter)) == (AppView {
            shelf: app.shelf.filtered(filter, app.access(), app.playing()),
            ..app
        }),
        app.handling(AppMsg::RunCatalogSearch(generation)) == (AppView {
            shelf: app.shelf.typing_stopped(app.access(), generation),
            ..app
        }),
        app.handling(AppMsg::LoadMoreCatalog) == (AppView {
            shelf: app.shelf.paging(app.access()),
            ..app
        }),
        app.handling(AppMsg::ReloadSection(view)).shelf == app.shelf.reloaded(view, app.access()),
{
    reveal(AppView::after_browsing);
    reveal(AppView::section_reloaded);
}

/// A page that was left, and a panel whose time is up, reach the stack and the window.
pub proof fn what_goes_away_reaches_the_window(app: AppView, page: u64, generation: u64)
    ensures
        app.handling(AppMsg::PagePopped(page)) == (AppView {
            pages: app.pages.popped(page),
            ..app
        }),
        app.handling(AppMsg::HideVolumeOsd(generation)) == app.unflashed(generation),
{
    reveal(AppView::after_browsing);
    reveal(AppView::after_transport);
}

/// What is typed clears the pages over the section, and filters or searches it. The same text
/// again does nothing.
pub proof fn what_is_typed_is_looked_for(app: AppView, query: Seq<char>)
    ensures
        ({
            let now = if app.shelf.view == View::Search {
                app.shelf.catalog_query
            } else {
                app.shelf.library_query
            };
            let after = app.searched(query);
            &&& query == now ==> after == app
            &&& query != now ==> after.shelf == app.shelf.typed(query, app.playing())
            &&& query != now && app.pages.stack.len() > 0 ==> after.pages.todo
                == app.pages.todo.push(PageTaskView::PopAll)
            &&& after.effects == app.effects
        }),
{
    reveal(AppView::searched);
}

/// What arrived goes to its own section, and a page and its picture to the page they were
/// fetched for.
pub proof fn what_arrived_goes_to_its_own_section(
    app: AppView,
    tracks: Vec<Track>,
    albums: Vec<Album>,
    artists: Vec<Artist>,
    playlists: Vec<Playlist>,
    generation: u64,
    offset: usize,
    found: SearchResults,
    page: u64,
    path: Option<String>,
)
    ensures
        app.answering(CommandMsg::Library(Ok(tracks))) == (AppView {
            shelf: app.shelf.songs_arrived(Some(tracks@), app.playing()),
            ..app
        }),
        app.answering(CommandMsg::LibraryAlbums(Ok(albums))) == (AppView {
            shelf: app.shelf.albums_arrived(Some(albums@)),
            ..app
        }),
        app.answering(CommandMsg::LibraryArtists(Ok(artists))) == (AppView {
            shelf: app.shelf.artists_arrived(Some(artists@)),
            ..app
        }),
        app.answering(CommandMsg::LibraryPlaylists(Ok(playlists))) == (AppView {
            shelf: app.shelf.playlists_arrived(Some(playlists@)),
            ..app
        }),
        generation == app.shelf.search_gen ==> app.answering(
            CommandMsg::Catalog { generation, offset, result: Ok(found) },
        ) == (AppView {
            shelf: app.shelf.answered(generation, offset as int, Some(found), app.playing()),
            ..app
        }),
        app.answering(CommandMsg::PageArtwork { page, path }) == (AppView {
            pages: app.pages.pictured(page, text::text_view(path)),
            ..app
        }),
{
    reveal(AppView::answering);
    reveal(AppView::songs_answered);
    reveal(AppView::catalog_answered);
}

/// A picture that landed is that of the page it was fetched for, and of no other.
pub proof fn a_picture_lands_on_its_own_page(
    stack: PagesView,
    at: int,
    other: int,
    path: Seq<char>,
)
    requires
        stack.ids_differ(),
        0 <= at < stack.stack.len(),
        0 <= other < stack.stack.len(),
        at != other,
    ensures
        ({
            let id = stack.stack[at].id;
            let after = stack.pictured(id, Some(path));
            &&& after.stack[at] == (PageView { art: Some(path), ..stack.stack[at] })
            &&& after.stack[other] == stack.stack[other]
            &&& after.todo == stack.todo.push(PageTaskView::Draw { page: id })
            &&& stack.pictured(id, None) == stack
        }),
{
    a_page_is_found_where_it_is(stack, at, 0);
}

/// A tile whose cover landed is drawn, and may be asked for again.
pub proof fn a_tile_that_landed_is_drawn(app: AppView, key: String, other: Seq<char>)
    ensures
        ({
            let after = app.answering(CommandMsg::TileArt { key, decoded: true });
            let failed = app.answering(CommandMsg::TileArt { key, decoded: false });
            &&& after.effects == app.effects.push(EffectView::DrawTile { key: key@ })
            &&& failed.effects == app.effects
            &&& after.tiles_pending.contains(other) <==> app.tiles_pending.contains(other) && other
                != key@
            &&& failed.tiles_pending == after.tiles_pending
        }),
{
    reveal(AppView::answering);
    reveal(AppView::tile_landed);
    library_laws::what_a_filter_keeps(app.tiles_pending, |k: Seq<char>| k != key@);
}

/// The volume's panel is hidden by the press that showed it last, and by no earlier one.
pub proof fn the_panel_is_hidden_by_its_last_press(app: AppView, generation: u64)
    ensures
        app.flashed().window.osd_shown,
        !app.flashed().unflashed(app.flashed().window.osd_generation).window.osd_shown,
        generation != app.window.osd_generation ==> app.unflashed(generation) == app,
        app.flashed().effects == app.effects.push(
            EffectView::FlashVolume { generation: app.flashed().window.osd_generation },
        ),
{
    reveal(AppView::flashed);
}

/// A write the player settled is settled against its id, and a volume it reports is adopted.
/// What says nothing of its own changes nothing but the mirror.
pub proof fn other_reports_reach_their_part(
    app: AppView,
    kind: String,
    id: String,
    ok: bool,
    detail: String,
    volume: u64,
    moved: bool,
    event: PlayerEvent,
)
    ensures
        app.told(PlayerEvent::LibraryWrite { kind, id, ok, detail }, moved) == app.write_settled(
            id@,
            ok,
        ),
        app.told(PlayerEvent::Volume { volume }, moved) == app.adopting_volume(volume, moved),
        event is PlaybackState || event is NowPlaying || event is Queue || event is Position
            || event is CmdDone || event is CmdRecv || event is CmdQueued || event is HookWarning
            || event is HookBoot ==> app.told(event, moved) == app,
{
    reveal(AppView::told);
}

/// A section that is ready asks for what it shows, once.
pub proof fn a_ready_section_asks_for_what_it_shows(app: AppView)
    requires
        app.stage == StageView::Ready,
        app.tokens is Some,
        app.restored,
        app.shelf.tracks.len() > 0,
    ensures
        app.shelf.view == View::Albums ==> app.stocking(None).shelf == app.shelf.loading_albums(
            app.access(),
        ),
        app.shelf.view == View::Artists ==> app.stocking(None).shelf == app.shelf.loading_artists(
            app.access(),
        ),
        app.shelf.view == View::Playlists ==> app.stocking(None).shelf
            == app.shelf.loading_playlists(app.access()),
        app.shelf.view == View::Songs ==> app.stocking(None) == app,
{
    reveal(AppView::stocking);
}

/// A reorder the player refused is taken back, said, and not taken back twice.
pub proof fn a_refused_reorder_is_said(app: AppView)
    ensures
        app.card.pending_move is None ==> app.move_undone() == app,
        app.card.pending_move is Some ==> {
            let after = app.move_undone();
            &&& after.card.pending_move is None
            &&& after.effects.last() == EffectView::Toast("Couldn't reorder the queue"@)
            &&& after.deck.outbox == app.deck.outbox
        },
{
    reveal(AppView::move_undone);
    reveal(AppView::pushed);
}

/// A drawer that moved by itself is followed, an overlay goes away once it was used, and a
/// section that cannot be reloaded is said.
pub proof fn the_window_follows_its_drawers(app: AppView, open: bool, shown: bool)
    ensures
        app.handling(AppMsg::PlayerDrawer(open)).window.show_queue == open,
        open == app.window.show_queue ==> app.handling(AppMsg::PlayerDrawer(open)) == app,
        app.window.sidebar_collapsed ==> app.handling(AppMsg::SectionChosen).window == (Window {
            show_sidebar: false,
            ..app.window
        }),
        !app.window.sidebar_collapsed ==> app.handling(AppMsg::SectionChosen) == app,
        app.handling(AppMsg::ShowQueuePane(shown)).effects == app.effects.push(
            EffectView::QueuePane(shown),
        ),
        app.tokens is None ==> app.section_reloaded(View::Songs).effects == app.effects.push(
            EffectView::Toast("Not connected yet"@),
        ),
        app.tokens is Some ==> app.section_reloaded(View::Songs).effects == app.effects,
{
    reveal(AppView::after_window);
    reveal(AppView::drawer_moved);
    reveal(AppView::pushed);
    reveal(AppView::section_reloaded);
}

/// What is animated is the sidebar, the queue and the bar below, each as it now is, and each
/// only when that changed.
pub proof fn what_changed_is_animated(app: AppView)
    requires
        app.window.shown is Some,
    ensures
        ({
            let was = app.window.shown->0;
            let ready = app.stage == StageView::Ready;
            let after = app.animating();
            let is = after.window.shown->0;
            &&& is.sidebar == app.window.show_sidebar
            &&& is.queue == app.window.show_queue
            &&& is.bottom_bar == ready
            &&& was.sidebar != is.sidebar && was.queue == is.queue && was.bottom_bar
                == is.bottom_bar ==> after.effects == app.effects.push(
                EffectView::SetSidebar(is.sidebar),
            )
            &&& was.sidebar == is.sidebar && was.queue != is.queue && was.bottom_bar
                == is.bottom_bar ==> after.effects == app.effects.push(
                EffectView::SetQueue(is.queue),
            )
            &&& was.sidebar == is.sidebar && was.queue == is.queue && was.bottom_bar
                != is.bottom_bar ==> after.effects == app.effects.push(
                EffectView::SetBottomBar(is.bottom_bar),
            )
            &&& was == is ==> after.effects == app.effects
        }),
{
    reveal(AppView::animating);
}

/// A window that is signed out is headed off by the onboarding, and let in again after.
pub proof fn the_onboarding_comes_and_goes(app: AppView)
    ensures
        app.stage == StageView::SignedOut && !app.window.onboarding ==> app.gated().effects
            == app.effects.push(EffectView::PresentOnboarding),
        app.stage != StageView::SignedOut && app.window.onboarding ==> app.gated().effects
            == app.effects.push(EffectView::CloseOnboarding),
        (app.stage == StageView::SignedOut) == app.window.onboarding ==> app.gated() == app,
{
    reveal(AppView::gated);
}

/// Each stage is headed by its own words.
pub proof fn each_stage_has_its_own_words(app: AppView, n: u32)
    ensures
        app.stage is Starting ==> app.headline() == "Starting the playback engine"@,
        app.stage is InstallingWidevine ==> app.headline() == "Preparing playback"@,
        app.stage is Connecting ==> app.headline() == "Connecting to Apple Music"@,
        app.stage is SignedOut ==> app.headline() == "Welcome to Tonearm"@,
        app.stage == StageView::Restarting(n) ==> app.headline() == "Reconnecting (attempt "@
            + text::decimal(n as nat) + ")"@,
        app.stage is Broken ==> app.headline() == "Playback unavailable"@ && app.detail()
            == app.stage->Broken_0,
        app.stage == StageView::Ready && app.deck.player.now_playing is None ==> app.headline()
            == "Ready"@ && app.detail() == "Nothing playing"@,
        app.stage == StageView::Ready && app.tokens is Some ==> app.subtitle() == text::uppercase(
            app.tokens->0.storefront@,
        ),
        app.stage != StageView::Ready || app.tokens is None ==> app.subtitle().len() == 0,
{
}

/// A new track whose cover is not there yet waits for it: it is not announced with the cover
/// of the track before.
pub proof fn a_new_track_waits_for_its_own_cover(app: AppView)
    requires
        app.settings.notify_track_change,
        app.deck.player.now_playing is Some,
        app.playing() is Some,
        app.playing() != app.card.notified_for,
        app.deck.player.now_playing->0.artwork_template is Some,
        text::text_view(app.deck.player.now_playing->0.artwork_template) != app.card.art_for,
    ensures
        ({
            let after = app.dressed(true);
            &&& after.card.notify_when_art_lands == app.playing()
            &&& after.card.notified_for == app.playing()
            &&& forall|k: int|
                app.effects.len() <= k < after.effects.len() ==> !((
                #[trigger] after.effects[k]) is Notify)
            &&& app.dressed(false) == app
        }),
{
    reveal(AppView::dressed);
    reveal(AppView::covered);
    reveal(AppView::marked);
    reveal(AppView::notified);
    reveal(AppView::on_show);
}

/// A track that plays while nothing is to be announced counts as announced, so that it is not
/// made up for later.
pub proof fn an_unannounced_track_is_not_made_up_for(app: AppView, in_flight: bool)
    requires
        !app.settings.notify_track_change,
    ensures
        app.notified(in_flight).card.notified_for == app.playing(),
{
    reveal(AppView::notified);
}

/// A tile that is wanted and not on its way is fetched, and remembered as on its way.
pub proof fn a_wanted_tile_is_fetched(app: AppView, key: String, art: Artwork)
    ensures
        ({
            let after = app.handling(AppMsg::NeedTileArt { key, art });
            &&& app.tiles_pending.contains(key@) ==> after == app
            &&& !app.tiles_pending.contains(key@) ==> after == (AppView {
                tiles_pending: app.tiles_pending.push(key@),
                effects: app.effects.push(EffectView::FetchTile { key: key@, art }),
                ..app
            })
        }),
{
    reveal(AppView::after_browsing);
    reveal(AppView::tile_wanted);
}

/// An answer to a write that nobody waits for changes nothing.
pub proof fn an_answer_nobody_waits_for_changes_nothing(app: AppView, id: Seq<char>, ok: bool)
    requires
        forall|k: int| 0 <= k < app.pending.len() ==> (#[trigger] app.pending[k]).sent != id,
    ensures
        app.write_settled(id, ok) == app,
{
    reveal(AppView::write_settled);
    nobody_waits(app.pending, id, 0);
}

proof fn nobody_waits(list: Seq<writes::PendingView>, id: Seq<char>, from: int)
    requires
        0 <= from,
        forall|k: int| 0 <= k < list.len() ==> (#[trigger] list[k]).sent != id,
    ensures
        writes::record_of(list, id, from) is None,
    decreases list.len() - from,
{
    if from < list.len() {
        nobody_waits(list, id, from + 1);
    }
}

/// The box shows what is looked for in the section on show, when that changes.
pub proof fn the_box_goes_with_the_section(app: AppView, before: View)
    ensures
        before == app.shelf.view ==> app.refilled(before) == app,
        before != app.shelf.view ==> app.refilled(before) == (AppView {
            effects: app.effects.push(
                EffectView::SearchText(
                    if app.shelf.view == View::Search {
                        app.shelf.catalog_query
                    } else {
                        app.shelf.library_query
                    },
                ),
            ),
            ..app
        }),
{
}

/// A row of the sidebar goes to its section, or opens the playlist that was pinned there, of
/// the library. A row that is not there means nothing.
pub proof fn a_row_of_the_sidebar_goes_where_it_says(
    app: AppView,
    rows: Seq<SidebarRowView>,
    index: int,
)
    ensures
        ({
            let after = app.row_chosen(rows, index);
            &&& index < 0 || index >= rows.len() ==> after == app
            &&& 0 <= index < rows.len() && rows[index] is Section ==> after == (AppView {
                effects: app.effects.push(EffectView::GoTo(rows[index]->Section_0)),
                ..app
            })
            &&& 0 <= index < rows.len() && rows[index] is Pinned && app.tokens is Some
                ==> after.pages.todo == app.pages.todo.push(
                PageTaskView::Push {
                    page: app.pages.next_id,
                    kind: PageKindView::LibraryPlaylist(rows[index]->Pinned_0),
                },
            )
        }),
{
    reveal(AppView::opening);
}

/// A pin is named after the first playlist of the library that has its id.
pub proof fn a_pin_is_named_after_its_playlist(list: Seq<Playlist>, id: Seq<char>, from: int)
    requires
        0 <= from,
    ensures
        match actions::playlist_of(list, id, from) {
            Some(at) => from <= at < list.len() && list[at].id@ == id && forall|k: int|
                from <= k < at ==> (#[trigger] list[k]).id@ != id,
            None => forall|k: int| from <= k < list.len() ==> (#[trigger] list[k]).id@ != id,
        },
    decreases list.len() - from,
{
    if from < list.len() && list[from].id@ != id {
        a_pin_is_named_after_its_playlist(list, id, from + 1);
    }
}

} // verus!
