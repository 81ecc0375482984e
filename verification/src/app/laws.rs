//! What holds of the application as a whole.

use vstd::prelude::*;
use vstd::view::View as _;

use crate::app::commands::CommandMsg;
use crate::app::handle::AppMsg;
use crate::app::model::{AppView, EffectView, StageView};
use crate::app::shelf;
use crate::app::shelf::{Access, ShelfView};
use crate::app::writes;
use crate::deck::{DeckView, SessionView};
use crate::library;
use crate::music::{Artwork, SearchResults};
use crate::protocol;
use crate::protocol::{CommandView, PlayerEvent, PlayerView};
use crate::sort;
use crate::text;
use crate::view::{SearchScope, SortBy, View};
use crate::volume;

verus! {

/// An animation is started on an edge and never on a level: telling the widgets
/// again, with nothing changed in between, tells them nothing.
pub proof fn only_edges_are_animated(app: AppView)
    ensures
        app.animating().animating().effects == app.animating().effects,
        app.animating().window.shown == Some(app.animated()),
{
    reveal(AppView::animating);
}

/// What the widgets were last told is what the model says, after every step.
pub proof fn a_step_leaves_nothing_to_animate(app: AppView, msg: AppMsg)
    ensures
        ({
            let after = app.handling(msg).drawn(app.shelf.view);
            after.window.shown == Some(after.animated())
        }),
{
    reveal(AppView::animating);
}

/// The first-run gate is up exactly while nobody is signed in, after every
/// step.
pub proof fn the_gate_is_up_exactly_while_signed_out(app: AppView)
    ensures
        app.gated().window.onboarding == (app.stage is SignedOut),
        app.gated().stage is SignedOut == app.stage is SignedOut,
        app.gated().gated().effects == app.gated().effects,
{
    reveal(AppView::gated);
}

/// A slow answer to an older search changes nothing at all, good or bad.
pub proof fn a_stale_catalog_answer_is_discarded(
    app: AppView,
    generation: u64,
    offset: usize,
    result: Result<SearchResults, String>,
)
    requires
        generation != app.shelf.search_gen,
    ensures
        app.answering(CommandMsg::Catalog { generation, offset, result }) == app,
{
    reveal(AppView::answering);
    reveal(AppView::catalog_answered);
}

/// A debounce that a later keystroke superseded asks nothing.
pub proof fn only_the_newest_keystroke_asks(app: AppView, generation: u64)
    requires
        generation != app.shelf.search_gen,
    ensures
        app.handling(AppMsg::RunCatalogSearch(generation)) == app,
{
    reveal(AppView::after_browsing);
}

/// Every keystroke in the catalog makes the question before it stale.
pub proof fn a_keystroke_makes_the_last_question_stale(app: AppView, query: Seq<char>)
    requires
        app.shelf.view == View::Search,
        query != app.shelf.query(),
    ensures
        app.searched(query).shelf.search_gen != app.shelf.search_gen,
{
    reveal(AppView::searched);
    reveal(ShelfView::typed);
    reveal(ShelfView::with_rows);
}

/// The two searches are apart: typing into one leaves the other's text alone.
pub proof fn each_scope_keeps_its_own_query(app: AppView, query: Seq<char>)
    ensures
        app.shelf.view.searches() == SearchScope::Library ==> app.searched(
            query,
        ).shelf.catalog_query == app.shelf.catalog_query && app.searched(
            query,
        ).shelf.library_query == query,
        app.shelf.view.searches() == SearchScope::Catalog ==> app.searched(
            query,
        ).shelf.library_query == app.shelf.library_query && app.searched(
            query,
        ).shelf.catalog_query == query,
{
    reveal(AppView::searched);
    reveal(ShelfView::typed);
    reveal(ShelfView::with_rows);
    reveal(ShelfView::with_albums);
    reveal(ShelfView::with_artists);
    reveal(ShelfView::with_playlists);
}

/// Narrowing a list and widening it again loses nothing: a search never touches
/// the library it reads.
pub proof fn a_search_loses_nothing(app: AppView, query: Seq<char>)
    ensures
        app.searched(query).shelf.tracks == app.shelf.tracks,
        app.searched(query).shelf.albums == app.shelf.albums,
        app.searched(query).shelf.artists == app.shelf.artists,
        app.searched(query).shelf.playlists == app.shelf.playlists,
{
    reveal(AppView::searched);
    reveal(ShelfView::typed);
    reveal(ShelfView::with_rows);
    reveal(ShelfView::with_albums);
    reveal(ShelfView::with_artists);
    reveal(ShelfView::with_playlists);
}

/// What the catalog answered is shown as it was ranked, unfiltered and unsorted.
pub proof fn catalog_results_are_shown_as_they_came(app: AppView)
    requires
        app.shelf.view == View::Search,
    ensures
        app.shelf.visible() == app.shelf.catalog,
{
}

/// Signing out leaves nothing of one person's for the next: no tokens, no
/// library, no results, no searches and no rows. What is known to be dead stays.
pub proof fn signing_out_leaves_nothing_behind(app: AppView)
    ensures
        ({
            let after = app.handling(AppMsg::SignOutConfirmed);
            &&& after.stage == StageView::SignedOut
            &&& after.tokens is None
            &&& after.shelf.tracks.len() == 0
            &&& after.shelf.albums.len() == 0
            &&& after.shelf.artists.len() == 0
            &&& after.shelf.playlists.len() == 0
            &&& after.shelf.catalog.len() == 0
            &&& after.shelf.library_query.len() == 0
            &&& after.shelf.catalog_query.len() == 0
            &&& after.shelf.rows.len() == 0
            &&& after.shelf.album_tiles.len() == 0
            &&& after.shelf.artist_tiles.len() == 0
            &&& after.shelf.playlist_tiles.len() == 0
            &&& after.deck.last_queue is None
            &&& after.card.last_item is None
            &&& !after.window.show_queue
            &&& after.deck.dead == app.deck.dead
        }),
{
    reveal(AppView::after_account);
    reveal(AppView::session_forgotten);
    reveal(AppView::pushed);
    let said = app.sending(CommandView::SignOut);
    forgetting_empties_the_shelf(said.shelf, said.playing());
}

/// The bar, the queue and the bus are shown one and the same player.
pub proof fn every_part_shows_the_same_player(app: AppView)
    ensures
        ({
            let shown = app.snapshot();
            &&& shown.bar.title == shown.bus.title
            &&& shown.bar.artist == shown.bus.artist
            &&& shown.bar.album == shown.bus.album
            &&& shown.bar.playing == shown.bus.playing
            &&& shown.bar.duration_ms == shown.bus.length_ms
            &&& shown.bar.volume == shown.bus.volume
            &&& shown.bar.shuffle == shown.bus.shuffle
            &&& shown.bar.repeat == shown.bus.repeat
            &&& shown.bar.has_next == shown.bus.can_next
            &&& shown.bar.has_previous == shown.bus.can_previous
            &&& shown.bar.active == !shown.bus.stopped
        }),
{
    reveal(AppView::snapshot);
}

/// A track is announced once, however often the player mentions it again.
pub proof fn a_track_is_announced_once(app: AppView, in_flight: bool, again: bool)
    ensures
        app.notified(in_flight).notified(again).effects == app.notified(in_flight).effects,
{
    reveal(AppView::notified);
    reveal(AppView::announced);
}

/// A user who asked for no notifications gets none.
pub proof fn nothing_is_announced_unasked(app: AppView, in_flight: bool)
    requires
        !app.settings.notify_track_change,
    ensures
        app.notified(in_flight).effects == app.effects,
{
    reveal(AppView::notified);
}

/// The repaint timer runs exactly while something plays.
pub proof fn the_timer_runs_exactly_while_playing(app: AppView)
    ensures
        app.ticking().card.ticking == app.deck.player.playing,
        app.ticking().ticking().effects == app.ticking().effects,
{
    reveal(AppView::ticking);
}

/// A cover is fetched once per template.
pub proof fn a_cover_is_fetched_once(app: AppView)
    ensures
        app.covered().covered().effects == app.covered().effects,
        !app.covered().cover_in_flight(),
{
    reveal(AppView::covered);
    reveal(AppView::on_show);
}

/// A tile scrolled past twice is fetched once, until its cover has landed.
pub proof fn a_tile_is_fetched_once(app: AppView, key: Seq<char>, art: Artwork)
    ensures
        app.tile_wanted(key, art).tile_wanted(key, art).effects == app.tile_wanted(
            key,
            art,
        ).effects,
        !app.tile_landed(key, true).tiles_pending.contains(key),
{
    reveal(AppView::tile_wanted);
    reveal(AppView::tile_landed);
    if !app.tiles_pending.contains(key) {
        let grown = app.tiles_pending.push(key);
        assert(grown[app.tiles_pending.len() as int] == key);
        assert(grown.contains(key));
    }
    let keep = |k: Seq<char>| k != key;
    assert(!app.tiles_pending.filter(keep).contains(key)) by {
        broadcast use vstd::seq_lib::group_filter_ensures;

    }
}

/// A shortcut shows the volume also where there is no further to go.
pub proof fn a_volume_key_always_shows_the_volume(app: AppView, volume: u64, moved: bool)
    ensures
        app.handling(AppMsg::VolumeUp { volume, moved }).window.osd_shown,
        app.handling(AppMsg::VolumeDown { volume, moved }).window.osd_shown,
{
    reveal(AppView::after_transport);
    reveal(AppView::flashed);
}

/// A timer of an earlier press does not hide what a later one asked for.
pub proof fn an_earlier_press_does_not_hide_the_panel(app: AppView)
    ensures
        app.flashed().unflashed(app.window.osd_generation) == app.flashed(),
{
    reveal(AppView::flashed);
}

/// Without a player nothing is said: what would have been is dropped, not kept for
/// whoever comes next.
pub proof fn nothing_is_said_to_nobody(app: AppView, msg: AppMsg)
    requires
        !app.deck.attached,
        msg is PlayPause || msg is Play || msg is Pause || msg is Next || msg is SetShuffle
            || msg is SetRepeat || msg is SignIn,
    ensures
        app.handling(msg) == app,
{
    reveal(AppView::after_transport);
    reveal(AppView::after_account);
}

/// A window closed with a queue loaded is only hidden, and the music goes on: the
/// player is told nothing.
pub proof fn closing_does_not_stop_the_music(app: AppView)
    requires
        app.deck.player.queue.len() > 0,
    ensures
        app.handling(AppMsg::WindowCloseRequested).deck == app.deck,
        app.handling(AppMsg::WindowCloseRequested).window.background,
        app.handling(AppMsg::WindowCloseRequested).effects == app.effects.push(
            EffectView::HideWindow,
        ),
{
    reveal(AppView::after_window);
}

/// A player that died gives way to one that gets its queue and position back: what
/// it held is remembered as it dies, and the next process is owed it, once.
pub proof fn a_dead_player_s_queue_is_replayed(app: AppView)
    requires
        app.deck.session() is Some,
    ensures
        app.answering(CommandMsg::Died).effects[app.effects.len() as int]
            == EffectView::SaveSession(app.deck.session()->0),
        !app.answering(CommandMsg::Died).deck.attached,
        app.answering(CommandMsg::Died).answering(CommandMsg::Spawned).deck.attached,
        !app.answering(CommandMsg::Died).answering(CommandMsg::Spawned).restored,
{
    reveal(AppView::answering);
    reveal(AppView::bereft);
    reveal(AppView::keeping);
}

/// A change of track is remembered, whatever event brings it, so that a way out that
/// never runs costs no more than the place within the track.
pub proof fn a_change_of_track_is_remembered(
    app: AppView,
    event: PlayerEvent,
    player: PlayerView,
    metadata_changed: bool,
    moved: bool,
    saved: Option<SessionView>,
)
    requires
        player.playing_key() is Some,
        player.playing_key() != app.playing(),
    ensures
        app.after(event, player, metadata_changed, moved, saved).effects.last() == (match (
        DeckView { player, ..app.deck }).session() {
            Some(session) => EffectView::SaveSession(session),
            None => EffectView::ClearSession,
        }),
{
    let mirrored = app.told(event, moved).mirrored(player);
    assert(mirrored.deck.player == player) by {
        reveal(AppView::mirrored);
    }
    let dressed = mirrored.dressed(metadata_changed);
    assert(dressed.deck.player == player) by {
        reveal(AppView::dressed);
        reveal(AppView::covered);
        reveal(AppView::marked);
        reveal(AppView::notified);
        reveal(AppView::announced);
    }
    let shown = dressed.ticking().pushed();
    assert(shown.deck.player == player) by {
        reveal(AppView::ticking);
        reveal(AppView::pushed);
    }
    let remembered = shown.remembering(app.playing());
    assert(remembered.effects.last() == (match (DeckView { player, ..app.deck }).session() {
        Some(session) => EffectView::SaveSession(session),
        None => EffectView::ClearSession,
    })) by {
        reveal(AppView::remembering);
        reveal(AppView::saving);
        reveal(DeckView::session);
    }
    let healed = remembered.healed(event);
    assert(healed.effects == remembered.effects) by {
        reveal(AppView::healed);
    }
    assert(healed.stocking(saved).effects == healed.effects) by {
        reveal(AppView::stocking);
    }
}

/// The player advances its own queue, which is what makes one track run into the
/// next. With nothing of ours waiting to be settled, a track that ends and the one
/// that follows it leave the player alone.
pub proof fn a_track_that_ends_is_not_driven(
    app: AppView,
    event: PlayerEvent,
    player: PlayerView,
    metadata_changed: bool,
    moved: bool,
    saved: Option<SessionView>,
)
    requires
        event is NowPlaying || event is Queue || event is PlaybackState || event is Position,
        app.deck.pending_start is None,
        app.deck.resume_at is None,
        app.restored,
    ensures
        app.after(event, player, metadata_changed, moved, saved).deck.outbox == app.deck.outbox,
{
    let told = app.told(event, moved);
    assert(told == app) by {
        reveal(AppView::told);
    }
    let moved_on = told.mirrored(player);
    assert(moved_on.deck == (DeckView { player, ..app.deck }) && moved_on.restored) by {
        reveal(AppView::mirrored);
    }
    let dressed = moved_on.dressed(metadata_changed);
    assert(dressed.deck == moved_on.deck && dressed.restored) by {
        reveal(AppView::dressed);
        reveal(AppView::covered);
        reveal(AppView::marked);
        reveal(AppView::notified);
        reveal(AppView::announced);
    }
    let shown = dressed.ticking().pushed();
    assert(shown.deck == moved_on.deck && shown.restored) by {
        reveal(AppView::ticking);
        reveal(AppView::pushed);
    }
    let remembered = shown.remembering(app.playing());
    assert(remembered.deck == shown.deck && remembered.restored) by {
        reveal(AppView::remembering);
        reveal(AppView::saving);
    }
    let healed = remembered.healed(event);
    assert(healed.deck == moved_on.deck && healed.restored) by {
        reveal(AppView::healed);
        reveal(DeckView::resumed);
        reveal(DeckView::verified);
    }
    assert(healed.stocking(saved).deck == healed.deck) by {
        reveal(AppView::stocking);
    }
}

/// A volume the player reports is taken over and never said back, so that the
/// two cannot chase each other.
pub proof fn a_reported_volume_is_not_said_back(app: AppView, volume: u64, moved: bool)
    ensures
        app.adopting_volume(volume, moved).deck.outbox == app.deck.outbox,
        moved ==> app.adopting_volume(volume, moved).card.volume == volume::clamped(volume),
{
    reveal(AppView::adopting_volume);
    reveal(AppView::pushed);
}

/// A load that failed is not tried again on the next event. Only a reload
/// retries.
pub proof fn a_failed_load_is_not_repeated(
    shelf: ShelfView,
    access: Access,
    playing: Option<Seq<char>>,
)
    requires
        !shelf.loading.albums,
        !shelf.loading.artists,
        !shelf.loading.playlists,
    ensures
        shelf.loading_songs(access).songs_arrived(None, playing).loading_songs(access).todo
            == shelf.loading_songs(access).todo,
        shelf.loading_albums(access).albums_arrived(None).loading_albums(access).todo
            == shelf.loading_albums(access).todo,
        shelf.loading_artists(access).artists_arrived(None).loading_artists(access).todo
            == shelf.loading_artists(access).todo,
        shelf.loading_playlists(access).playlists_arrived(None).loading_playlists(access).todo
            == shelf.loading_playlists(access).todo,
{
    reveal(ShelfView::loading_albums);
    reveal(ShelfView::loading_artists);
    reveal(ShelfView::loading_playlists);
    reveal(ShelfView::loading_songs);
    reveal(ShelfView::songs_arrived);
    reveal(ShelfView::albums_arrived);
    reveal(ShelfView::artists_arrived);
    reveal(ShelfView::playlists_arrived);
}

/// A session is put back once: a later token cannot start it again.
pub proof fn a_session_is_put_back_once(app: AppView, saved: Option<SessionView>)
    ensures
        !app.stocking(saved).wants_session(),
        app.restored ==> app.stocking(saved).restored,
{
    reveal(AppView::stocking);
}

/// A player that came up again starts counting its deaths anew.
pub proof fn a_ready_player_forgets_its_restarts(app: AppView, debug: bool, moved: bool)
    ensures
        app.told(PlayerEvent::Ready { debug }, moved).restarts == 0,
{
    reveal(AppView::told);
}

/// Choosing the section that is showing does nothing.
pub proof fn choosing_the_shown_section_does_nothing(app: AppView)
    ensures
        app.handling(AppMsg::SetView(app.shelf.view)) == app,
{
    reveal(AppView::after_browsing);
    reveal(AppView::sectioned);
}

/// A reorder the player refused leaves the queue as it was.
pub proof fn a_refused_reorder_is_taken_back(app: AppView, from: usize, to: usize)
    requires
        from < app.deck.player.queue.len(),
        to < app.deck.player.queue.len(),
        0 <= app.deck.player.queue_position < app.deck.player.queue.len(),
    ensures
        app.reordered(from, to).move_undone().deck.player == app.deck.player,
{
    reveal(AppView::reordered);
    reveal(AppView::move_undone);
    reveal(AppView::pushed);
    protocol::a_move_is_undone_by_moving_back(app.deck.player, from as int, to as int);
}

/// A removal the player refused puts the row back as it was, and says so. One it
/// took lets the row go, and the library no longer holds the track. Either way
/// nothing else that is in flight is touched.
pub proof fn a_refused_removal_is_taken_back_and_a_confirmed_one_lets_the_row_go(
    app: AppView,
    library_id: Seq<char>,
    catalog_id: Seq<char>,
    other: Seq<char>,
)
    requires
        writes::apart(app.pending),
    ensures
        ({
            let sent = app.unlisted(library_id, catalog_id);
            let refused = sent.write_settled(library_id, false);
            let back = writes::Patch::InLibrary(true);
            &&& refused.shelf == sent.shelf.patched(catalog_id, back)
            &&& refused.pages == sent.pages.patched(catalog_id, back)
            &&& refused.pending == writes::settled(app.pending, library_id)
            &&& refused.effects == sent.effects.push(
                EffectView::Toast("Couldn't remove it from your library"@),
            )
        }),
        ({
            let sent = app.unlisted(library_id, catalog_id);
            let taken = sent.write_settled(library_id, true);
            &&& taken == (AppView {
                shelf: sent.shelf.without(catalog_id),
                pending: writes::settled(app.pending, library_id),
                ..sent
            })
            &&& forall|i: int|
                0 <= i < taken.shelf.tracks.len() ==> text::text_view(
                    (#[trigger] taken.shelf.tracks[i]).catalog_id,
                ) != Some(catalog_id)
        }),
        writes::apart(writes::settled(app.pending, library_id)),
        other != library_id ==> writes::awaited(
            writes::settled(app.pending, library_id),
            other,
        ) == writes::awaited(app.pending, other),
{
    reveal(AppView::unlisted);
    reveal(AppView::write_settled);
    reveal(AppView::patched);
    let write = writes::PendingView {
        sent: library_id,
        catalog_id,
        undo: writes::Patch::InLibrary(true),
    };
    writes::a_write_is_settled_by_its_own_id(app.pending, write);
    writes::settling_keeps_ids_apart(app.pending, library_id);
    if other != library_id {
        writes::two_writes_in_flight_are_not_confused(app.pending, write, other);
    }
    writes::a_removed_track_is_gone(app.unlisted(library_id, catalog_id).shelf, catalog_id);
}

/// A star that the player would not take off is put back, and that is said. One it
/// took off leaves the song where it is.
pub proof fn a_refused_unstarring_is_taken_back(app: AppView, catalog_id: Seq<char>)
    requires
        writes::apart(app.pending),
    ensures
        ({
            let sent = app.unstarred(catalog_id);
            let refused = sent.write_settled(catalog_id, false);
            let back = writes::Patch::Favorite(true);
            &&& refused.shelf == sent.shelf.patched(catalog_id, back)
            &&& refused.pages == sent.pages.patched(catalog_id, back)
            &&& refused.pending == writes::settled(app.pending, catalog_id)
            &&& refused.effects == sent.effects.push(
                EffectView::Toast("Couldn't remove that favourite"@),
            )
            &&& sent.write_settled(catalog_id, true) == (AppView {
                pending: writes::settled(app.pending, catalog_id),
                ..sent
            })
        }),
{
    reveal(AppView::unstarred);
    reveal(AppView::write_settled);
    reveal(AppView::patched);
    let write = writes::PendingView {
        sent: catalog_id,
        catalog_id,
        undo: writes::Patch::Favorite(true),
    };
    writes::a_write_is_settled_by_its_own_id(app.pending, write);
}

/// A list made of nothing is empty, however it is filtered, sorted and shown.
proof fn nothing_comes_of_nothing(
    needle: Seq<char>,
    songs: (SortBy, bool),
    albums: (SortBy, bool),
    artists: (SortBy, bool),
    playlists: (SortBy, bool),
)
    ensures
        library::song_rows(
            sort::displayed(
                shelf::tracks_found(Seq::empty(), needle),
                songs.0,
                songs.1,
            ),
        ).len() == 0,
        sort::displayed(
            shelf::albums_found(Seq::empty(), needle),
            albums.0,
            albums.1,
        ).len() == 0,
        sort::displayed(
            shelf::artists_found(Seq::empty(), needle),
            artists.0,
            artists.1,
        ).len() == 0,
        sort::displayed(
            shelf::playlists_found(Seq::empty(), needle),
            playlists.0,
            playlists.1,
        ).len() == 0,
{
    reveal(Seq::filter);
}

proof fn forgetting_empties_the_shelf(kept: ShelfView, playing: Option<Seq<char>>)
    ensures
        ({
            let after = kept.forgotten(playing);
            &&& after.tracks.len() == 0
            &&& after.albums.len() == 0
            &&& after.artists.len() == 0
            &&& after.playlists.len() == 0
            &&& after.catalog.len() == 0
            &&& after.library_query.len() == 0
            &&& after.catalog_query.len() == 0
            &&& after.rows.len() == 0
            &&& after.album_tiles.len() == 0
            &&& after.artist_tiles.len() == 0
            &&& after.playlist_tiles.len() == 0
        }),
{
    reveal(ShelfView::forgotten);
    reveal(ShelfView::with_rows);
    reveal(ShelfView::with_albums);
    reveal(ShelfView::with_artists);
    reveal(ShelfView::with_playlists);
    nothing_comes_of_nothing(
        text::folded(Seq::empty()),
        (kept.sorts.songs.by, kept.sorts.songs.reversed),
        (kept.sorts.albums.by, kept.sorts.albums.reversed),
        (kept.sorts.artists.by, kept.sorts.artists.reversed),
        (kept.sorts.playlists.by, kept.sorts.playlists.reversed),
    );
}

} // verus!
