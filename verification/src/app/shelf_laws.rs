//! What holds of the sections, of the search, and of the pages behind them.

use vstd::prelude::*;
use vstd::view::View as _;

use crate::app::pages;
use crate::app::pages::{PageContent, PageKindView, PageTaskView, PageView, PagesView};
use crate::app::shelf;
use crate::app::shelf::{Access, Each, RowsForView, ShelfTaskView, ShelfView};
use crate::app::writes;
use crate::app::writes::Patch;
use crate::library;
use crate::library_laws;
use crate::music::{Album, Artist, Artwork, Entry, Playlist, SearchResults, Track};
use crate::sort;
use crate::sort::Ranked;
use crate::sort_laws;
use crate::text;
use crate::view::{CatalogFilter, Sort, SortBy, View};

verus! {

proof fn a_shown_list_holds_the_same<T: Ranked>(list: Seq<T>, by: SortBy, reversed: bool)
    ensures
        sort::displayed(list, by, reversed).len() == list.len(),
        forall|x: T| #[trigger]
            sort::displayed(list, by, reversed).contains(x) <==> list.contains(x),
{
    broadcast use vstd::seq_lib::group_to_multiset_ensures;

    let shown = sort::displayed(list, by, reversed);
    sort_laws::a_sorted_list_holds_the_same_items(list, by, by.descends() != reversed);
    assert forall|x: T| #[trigger] shown.contains(x) <==> list.contains(x) by {
        assert(shown.to_multiset().count(x) == list.to_multiset().count(x));
    }
}

/// A song is on show in its section exactly when the library has it and what was typed
/// stands in its title, its artist or its album.
pub proof fn a_song_is_on_show_when_it_is_found(shelf: ShelfView, track: Track)
    requires
        shelf.view != View::Search,
    ensures
        ({
            let needle = text::folded(shelf.library_query);
            shelf.visible().contains(Entry::Song(track)) <==> shelf.tracks.contains(track) && (
            needle.len() == 0 || library_laws::holds(track.title@, needle) || library_laws::holds(
                track.artist@,
                needle,
            ) || library_laws::holds(track.album@, needle))
        }),
{
    let needle = text::folded(shelf.library_query);
    let found = shelf::tracks_found(shelf.tracks, needle);
    let shown = sort::displayed(found, shelf.sorts.songs.by, shelf.sorts.songs.reversed);
    library_laws::what_a_filter_keeps(
        shelf.tracks,
        |t: Track| library::found_in(needle, seq![t.title@, t.artist@, t.album@]),
    );
    a_shown_list_holds_the_same(found, shelf.sorts.songs.by, shelf.sorts.songs.reversed);
    let rows = shelf.visible();
    if shown.contains(track) {
        let k = choose|k: int| 0 <= k < shown.len() && shown[k] == track;
        assert(rows[k] == Entry::Song(track));
    }
    if rows.contains(Entry::Song(track)) {
        let k = choose|k: int| 0 <= k < rows.len() && rows[k] == Entry::Song(track);
        assert(shown[k] == track);
    }
    let fields = seq![track.title@, track.artist@, track.album@];
    library_laws::occurs_is_holding(track.title@, needle);
    library_laws::occurs_is_holding(track.artist@, needle);
    library_laws::occurs_is_holding(track.album@, needle);
    assert(text::lowercase(fields[0]) == text::lowercase(track.title@));
    assert(text::lowercase(fields[1]) == text::lowercase(track.artist@));
    assert(text::lowercase(fields[2]) == text::lowercase(track.album@));
}

/// The songs on show stand as their section's key asks, one after the other.
pub proof fn the_songs_on_show_stand_in_turn(shelf: ShelfView, i: int, j: int)
    requires
        shelf.view != View::Search,
        0 <= i < j < shelf.visible().len(),
    ensures
        shelf.visible()[i] is Song,
        shelf.visible()[j] is Song,
        sort_laws::songs_in_turn(
            shelf.visible()[i]->Song_0,
            shelf.visible()[j]->Song_0,
            shelf.sorts.songs.by,
            shelf.sorts.songs.reversed,
        ),
{
    let found = shelf::tracks_found(shelf.tracks, text::folded(shelf.library_query));
    a_shown_list_holds_the_same(found, shelf.sorts.songs.by, shelf.sorts.songs.reversed);
    sort_laws::songs_stand_by_what_the_key_names(
        found,
        shelf.sorts.songs.by,
        shelf.sorts.songs.reversed,
        i,
        j,
    );
}

/// The catalog's results are on show as they came, whatever is typed for the library.
pub proof fn results_are_on_show_as_they_came(shelf: ShelfView)
    requires
        shelf.view == View::Search,
    ensures
        shelf.visible() == shelf.catalog,
{
}

/// An album has a tile when the library has it and what was typed stands in its name or
/// its artist. The tiles stand as the section's key asks.
pub proof fn an_album_has_a_tile_when_it_is_found(shelf: ShelfView, album: Album, i: int, j: int)
    requires
        shelf.built_albums != Some(text::folded(shelf.library_query)),
    ensures
        ({
            let needle = text::folded(shelf.library_query);
            let after = shelf.with_albums();
            &&& after.album_tiles.contains(album) <==> shelf.albums.contains(album) && (
            needle.len() == 0 || library_laws::holds(album.name@, needle) || library_laws::holds(
                album.artist@,
                needle,
            ))
            &&& 0 <= i < j < after.album_tiles.len() ==> sort_laws::albums_in_turn(
                after.album_tiles[i],
                after.album_tiles[j],
                shelf.sorts.albums.by,
                shelf.sorts.albums.reversed,
            )
            &&& after.todo == shelf.todo.push(ShelfTaskView::DrawAlbums)
            &&& after.built_albums == Some(needle)
            &&& after.albums == shelf.albums
        }),
{
    reveal(ShelfView::with_albums);
    let needle = text::folded(shelf.library_query);
    let found = shelf::albums_found(shelf.albums, needle);
    library_laws::what_a_filter_keeps(
        shelf.albums,
        |a: Album| library::found_in(needle, seq![a.name@, a.artist@]),
    );
    a_shown_list_holds_the_same(found, shelf.sorts.albums.by, shelf.sorts.albums.reversed);
    if 0 <= i < j < found.len() {
        sort_laws::albums_stand_by_what_the_key_names(
            found,
            shelf.sorts.albums.by,
            shelf.sorts.albums.reversed,
            i,
            j,
        );
    }
    let fields = seq![album.name@, album.artist@];
    library_laws::occurs_is_holding(album.name@, needle);
    library_laws::occurs_is_holding(album.artist@, needle);
    assert(text::lowercase(fields[0]) == text::lowercase(album.name@));
    assert(text::lowercase(fields[1]) == text::lowercase(album.artist@));
}

/// An artist has a tile when the library has them and what was typed stands in their
/// name.
pub proof fn an_artist_has_a_tile_when_found(shelf: ShelfView, artist: Artist)
    requires
        shelf.built_artists != Some(text::folded(shelf.library_query)),
    ensures
        ({
            let needle = text::folded(shelf.library_query);
            let after = shelf.with_artists();
            &&& after.artist_tiles.contains(artist) <==> shelf.artists.contains(artist) && (
            needle.len() == 0 || library_laws::holds(artist.name@, needle))
            &&& after.todo == shelf.todo.push(ShelfTaskView::DrawArtists)
            &&& after.built_artists == Some(needle)
            &&& after.artists == shelf.artists
        }),
{
    reveal(ShelfView::with_artists);
    let needle = text::folded(shelf.library_query);
    let found = shelf::artists_found(shelf.artists, needle);
    library_laws::what_a_filter_keeps(
        shelf.artists,
        |a: Artist| library::found_in(needle, seq![a.name@]),
    );
    a_shown_list_holds_the_same(found, shelf.sorts.artists.by, shelf.sorts.artists.reversed);
    let fields = seq![artist.name@];
    library_laws::occurs_is_holding(artist.name@, needle);
    assert(text::lowercase(fields[0]) == text::lowercase(artist.name@));
}

/// A playlist has a tile when the library has it and what was typed stands in its name or
/// its curator. The tiles stand as the section's key asks.
pub proof fn a_playlist_has_a_tile_when_it_is_found(
    shelf: ShelfView,
    playlist: Playlist,
    i: int,
    j: int,
)
    requires
        shelf.built_playlists != Some(text::folded(shelf.library_query)),
    ensures
        ({
            let needle = text::folded(shelf.library_query);
            let after = shelf.with_playlists();
            &&& after.playlist_tiles.contains(playlist) <==> shelf.playlists.contains(playlist) && (
            needle.len() == 0 || library_laws::holds(playlist.name@, needle)
                || library_laws::holds(playlist.curator@, needle))
            &&& 0 <= i < j < after.playlist_tiles.len() ==> sort_laws::playlists_in_turn(
                after.playlist_tiles[i],
                after.playlist_tiles[j],
                shelf.sorts.playlists.by,
                shelf.sorts.playlists.reversed,
            )
            &&& after.todo == shelf.todo.push(ShelfTaskView::DrawPlaylists)
            &&& after.built_playlists == Some(needle)
            &&& after.playlists == shelf.playlists
        }),
{
    reveal(ShelfView::with_playlists);
    let needle = text::folded(shelf.library_query);
    let found = shelf::playlists_found(shelf.playlists, needle);
    library_laws::what_a_filter_keeps(
        shelf.playlists,
        |p: Playlist| library::found_in(needle, seq![p.name@, p.curator@]),
    );
    a_shown_list_holds_the_same(found, shelf.sorts.playlists.by, shelf.sorts.playlists.reversed);
    if 0 <= i < j < found.len() {
        sort_laws::playlists_stand_by_what_the_key_names(
            found,
            shelf.sorts.playlists.by,
            shelf.sorts.playlists.reversed,
            i,
            j,
        );
    }
    let fields = seq![playlist.name@, playlist.curator@];
    library_laws::occurs_is_holding(playlist.name@, needle);
    library_laws::occurs_is_holding(playlist.curator@, needle);
    assert(text::lowercase(fields[0]) == text::lowercase(playlist.name@));
    assert(text::lowercase(fields[1]) == text::lowercase(playlist.curator@));
}

/// The list is drawn anew where what it was drawn for has changed: what is typed, the
/// key, the direction, or where it is looked for. Then it is what is on show.
pub proof fn the_list_is_what_is_on_show(shelf: ShelfView, playing: Option<Seq<char>>)
    ensures
        ({
            let query = if shelf.view == View::Search {
                shelf.catalog_query
            } else {
                shelf.library_query
            };
            let wanted = RowsForView {
                query,
                by: shelf.sorts.songs.by,
                reversed: shelf.sorts.songs.reversed,
                scope: shelf.view.searches(),
            };
            let after = shelf.with_rows(playing);
            &&& shelf.built_rows == Some(wanted) ==> after == shelf
            &&& shelf.built_rows != Some(wanted) ==> after == (ShelfView {
                built_rows: Some(wanted),
                rows: shelf.visible(),
                marked: playing,
                todo: shelf.todo.push(ShelfTaskView::DrawRows),
                ..shelf
            })
        }),
{
    reveal(ShelfView::with_rows);
}

/// Typing in the search asks nothing until it stops. It makes what was asked before
/// stale, and begins again from the first page. An empty box shows nothing.
pub proof fn typing_begins_a_search_again(
    shelf: ShelfView,
    query: Seq<char>,
    playing: Option<Seq<char>>,
)
    requires
        shelf.view == View::Search,
        query != shelf.catalog_query,
    ensures
        ({
            let after = shelf.typed(query, playing);
            &&& after.catalog_query == query
            &&& after.library_query == shelf.library_query
            &&& after.search_gen != shelf.search_gen
            &&& after.catalog_paged == 0
            &&& !after.exhausted
            &&& text::trimmed(query).len() > 0 ==> after.todo == shelf.todo.push(
                ShelfTaskView::SearchLater { generation: after.search_gen },
            ) && after.catalog == shelf.catalog
            &&& text::trimmed(query).len() == 0 ==> after.catalog.len() == 0 && !after.searching
        }),
{
    reveal(ShelfView::typed);
    reveal(ShelfView::with_rows);
}

/// Typing elsewhere filters the section that is shown, and no other.
pub proof fn typing_filters_the_section_on_show(
    shelf: ShelfView,
    query: Seq<char>,
    playing: Option<Seq<char>>,
)
    requires
        shelf.view != View::Search,
        query != shelf.library_query,
    ensures
        ({
            let typed = ShelfView { library_query: query, ..shelf };
            let after = shelf.typed(query, playing);
            match shelf.view {
                View::Songs => after == typed.with_rows(playing),
                View::Albums => after == typed.with_albums(),
                View::Artists => after == typed.with_artists(),
                View::Playlists => after == typed.with_playlists(),
                View::Search => true,
            }
        }),
{
    reveal(ShelfView::typed);
}

/// The search is asked once typing stopped, from the first page, for what was typed
/// without the spaces round it and for the kind that is filtered. Nobody is asked before
/// there is a connection, for an empty box, or by a keystroke that is not the last.
pub proof fn the_search_is_asked_once_typing_stopped(
    shelf: ShelfView,
    access: Access,
    generation: u64,
)
    ensures
        ({
            let after = shelf.typing_stopped(access, generation);
            let asks = generation == shelf.search_gen && access != Access::Away && text::trimmed(
                shelf.catalog_query,
            ).len() > 0;
            &&& asks ==> after == (ShelfView {
                searching: true,
                todo: shelf.todo.push(
                    ShelfTaskView::Search {
                        generation,
                        offset: 0,
                        term: text::trimmed(shelf.catalog_query),
                        filter: shelf.catalog_filter,
                    },
                ),
                ..shelf
            })
            &&& !asks ==> after == shelf
        }),
{
    reveal(ShelfView::typing_stopped);
    reveal(ShelfView::asking);
}

/// The next page is asked for from where the last one ended, while there is one and none
/// is on its way, up to two hundred.
pub proof fn the_next_page_begins_where_the_last_one_ended(shelf: ShelfView, access: Access)
    ensures
        ({
            let after = shelf.paging(access);
            let asks = shelf.view == View::Search && !shelf.searching && !shelf.exhausted
                && shelf.catalog.len() > 0 && shelf.catalog_paged < 200 && access != Access::Away
                && text::trimmed(shelf.catalog_query).len() > 0;
            &&& asks ==> after == (ShelfView {
                searching: true,
                todo: shelf.todo.push(
                    ShelfTaskView::Search {
                        generation: shelf.search_gen,
                        offset: shelf.catalog_paged,
                        term: text::trimmed(shelf.catalog_query),
                        filter: shelf.catalog_filter,
                    },
                ),
                ..shelf
            })
            &&& !asks ==> after == shelf
        }),
{
    reveal(ShelfView::paging);
    reveal(ShelfView::asking);
}

/// The first page of results replaces those there were, and a later one goes below them.
/// A page that is not full is the last. An answer to an older question is not taken in,
/// and one that failed leaves the results alone.
pub proof fn a_page_of_results_replaces_or_follows(
    shelf: ShelfView,
    generation: u64,
    offset: int,
    found: SearchResults,
    playing: Option<Seq<char>>,
)
    ensures
        ({
            let after = shelf.answered(generation, offset, Some(found), playing);
            let rows = library::result_rows(shelf.catalog_filter, found, offset == 0);
            let paged = library::paged_by(shelf.catalog_filter, found) as int;
            &&& generation != shelf.search_gen ==> after == shelf
            &&& generation == shelf.search_gen ==> {
                &&& !after.searching
                &&& after.exhausted <==> paged < 25
                &&& offset == 0 ==> after.catalog == rows && after.catalog_paged == paged
                &&& offset != 0 ==> after.catalog == shelf.catalog + rows && after.catalog_paged
                    == shelf.catalog_paged + paged && after.rows == shelf.rows + rows
                &&& offset == 0 && shelf.view == View::Search ==> after.rows == rows
                &&& after.tracks == shelf.tracks
            }
            &&& generation == shelf.search_gen ==> shelf.answered(generation, offset, None, playing)
                == (ShelfView { searching: false, ..shelf })
        }),
{
    reveal(ShelfView::answered);
    reveal(ShelfView::with_rows);
    reveal(ShelfView::first_page);
    reveal(ShelfView::later_page);
    reveal(ShelfView::appended);
    let rows = library::result_rows(shelf.catalog_filter, found, offset == 0);
    if rows.len() == 0 {
        assert(shelf.rows + rows =~= shelf.rows);
    }
}

/// Another filter begins the search again, for its own kind, and shows none of the old
/// results. The same filter changes nothing.
pub proof fn another_filter_begins_the_search_again(
    shelf: ShelfView,
    filter: CatalogFilter,
    access: Access,
    playing: Option<Seq<char>>,
)
    ensures
        ({
            let after = shelf.filtered(filter, access, playing);
            &&& filter == shelf.catalog_filter ==> after == shelf
            &&& filter != shelf.catalog_filter ==> {
                &&& after.catalog_filter == filter
                &&& after.catalog.len() == 0
                &&& after.catalog_paged == 0
                &&& !after.exhausted
                &&& after.search_gen != shelf.search_gen
                &&& access != Access::Away && text::trimmed(shelf.catalog_query).len() > 0
                    ==> after.todo == shelf.todo.push(
                    ShelfTaskView::Search {
                        generation: after.search_gen,
                        offset: 0,
                        term: text::trimmed(shelf.catalog_query),
                        filter,
                    },
                )
            }
        }),
{
    reveal(ShelfView::filtered);
    reveal(ShelfView::asking);
    reveal(ShelfView::with_rows);
}

/// A section that is gone to is shown, and asks for its items the first time, once there
/// is someone to ask.
pub proof fn a_section_asks_for_its_items_once(
    shelf: ShelfView,
    access: Access,
    playing: Option<Seq<char>>,
)
    requires
        shelf.view == View::Songs,
        access != Access::Away,
        shelf.albums.len() == 0,
        !shelf.loading.albums,
        !shelf.tried.albums,
        shelf.artists.len() == 0,
        !shelf.loading.artists,
        !shelf.tried.artists,
        shelf.playlists.len() == 0,
        !shelf.loading.playlists,
        !shelf.tried.playlists,
    ensures
        ({
            let albums = shelf.showing(View::Albums, access, playing);
            let artists = shelf.showing(View::Artists, access, playing);
            let playlists = shelf.showing(View::Playlists, access, playing);
            &&& albums.view == View::Albums
            &&& albums.todo.last() == ShelfTaskView::FetchAlbums
            &&& albums.loading.albums
            &&& albums.loading_albums(access) == albums
            &&& artists.view == View::Artists
            &&& artists.todo.last() == ShelfTaskView::FetchArtists
            &&& artists.loading.artists
            &&& artists.loading_artists(access) == artists
            &&& playlists.view == View::Playlists
            &&& playlists.todo.last() == ShelfTaskView::FetchPlaylists
            &&& playlists.loading.playlists
            &&& playlists.loading_playlists(access) == playlists
        }),
{
    reveal(ShelfView::showing);
    reveal(ShelfView::with_albums);
    reveal(ShelfView::with_artists);
    reveal(ShelfView::with_playlists);
    reveal(ShelfView::loading_albums);
    reveal(ShelfView::loading_artists);
    reveal(ShelfView::loading_playlists);
}

/// Going to a section changes nothing that the library holds, and only what is on show.
pub proof fn going_to_a_section_loses_nothing(
    shelf: ShelfView,
    view: View,
    access: Access,
    playing: Option<Seq<char>>,
)
    ensures
        ({
            let after = shelf.showing(view, access, playing);
            &&& after.view == view
            &&& after.tracks == shelf.tracks
            &&& after.albums == shelf.albums
            &&& after.artists == shelf.artists
            &&& after.playlists == shelf.playlists
            &&& after.sorts == shelf.sorts
            &&& after.library_query == shelf.library_query
            &&& after.catalog_query == shelf.catalog_query
            &&& view == shelf.view ==> after == shelf
        }),
{
    reveal(ShelfView::showing);
    reveal(ShelfView::with_rows);
    reveal(ShelfView::with_albums);
    reveal(ShelfView::with_artists);
    reveal(ShelfView::with_playlists);
    reveal(ShelfView::loading_albums);
    reveal(ShelfView::loading_artists);
    reveal(ShelfView::loading_playlists);
    reveal(ShelfView::asking);
}

/// What arrived replaces what there was of its kind, and nothing of another. What did not
/// arrive leaves it.
pub proof fn what_arrived_replaces_its_own_kind(
    shelf: ShelfView,
    tracks: Seq<Track>,
    albums: Seq<Album>,
    artists: Seq<Artist>,
    playlists: Seq<Playlist>,
    playing: Option<Seq<char>>,
)
    ensures
        ({
            let after = shelf.songs_arrived(Some(tracks), playing);
            &&& after.tracks == tracks
            &&& !after.loading.songs
            &&& after.albums == shelf.albums && after.artists == shelf.artists && after.playlists
                == shelf.playlists
            &&& after.rows == (ShelfView { tracks, ..shelf }).visible()
        }),
        ({
            let after = shelf.albums_arrived(Some(albums));
            &&& after.albums == albums
            &&& !after.loading.albums
            &&& after.tracks == shelf.tracks && after.artists == shelf.artists && after.playlists
                == shelf.playlists
        }),
        ({
            let after = shelf.artists_arrived(Some(artists));
            &&& after.artists == artists
            &&& !after.loading.artists
            &&& after.tracks == shelf.tracks && after.albums == shelf.albums && after.playlists
                == shelf.playlists
        }),
        ({
            let after = shelf.playlists_arrived(Some(playlists));
            &&& after.playlists == playlists
            &&& !after.loading.playlists
            &&& after.tracks == shelf.tracks && after.albums == shelf.albums && after.artists
                == shelf.artists
        }),
        shelf.songs_arrived(None, playing) == (ShelfView {
            loading: Each { songs: false, ..shelf.loading },
            ..shelf
        }),
        shelf.albums_arrived(None) == (ShelfView {
            loading: Each { albums: false, ..shelf.loading },
            ..shelf
        }),
        shelf.artists_arrived(None) == (ShelfView {
            loading: Each { artists: false, ..shelf.loading },
            ..shelf
        }),
        shelf.playlists_arrived(None) == (ShelfView {
            loading: Each { playlists: false, ..shelf.loading },
            ..shelf
        }),
{
    reveal(ShelfView::with_rows);
    reveal(ShelfView::with_albums);
    reveal(ShelfView::with_artists);
    reveal(ShelfView::with_playlists);
    reveal(ShelfView::songs_arrived);
    reveal(ShelfView::albums_arrived);
    reveal(ShelfView::artists_arrived);
    reveal(ShelfView::playlists_arrived);
}

/// The songs are asked for once, and only of a member.
pub proof fn the_songs_are_asked_for_once(shelf: ShelfView, access: Access)
    ensures
        ({
            let after = shelf.loading_songs(access);
            let asks = !shelf.tried.songs && access == Access::Member;
            &&& asks ==> after == (ShelfView {
                tried: Each { songs: true, ..shelf.tried },
                loading: Each { songs: true, ..shelf.loading },
                todo: shelf.todo.push(ShelfTaskView::FetchSongs),
                ..shelf
            })
            &&& !asks ==> after == shelf
        }),
{
    reveal(ShelfView::loading_songs);
}

/// Reloading a section asks for its own items again, whether or not that was tried.
pub proof fn reloading_asks_again(shelf: ShelfView)
    requires
        !shelf.loading.albums,
        !shelf.loading.artists,
        !shelf.loading.playlists,
    ensures
        shelf.reloaded(View::Songs, Access::Member).todo == shelf.todo.push(
            ShelfTaskView::FetchSongs,
        ),
        shelf.reloaded(View::Albums, Access::Member).todo == shelf.todo.push(
            ShelfTaskView::FetchAlbums,
        ),
        shelf.reloaded(View::Artists, Access::Member).todo == shelf.todo.push(
            ShelfTaskView::FetchArtists,
        ),
        shelf.reloaded(View::Playlists, Access::Member).todo == shelf.todo.push(
            ShelfTaskView::FetchPlaylists,
        ),
{
    reveal(ShelfView::loading_songs);
    reveal(ShelfView::loading_albums);
    reveal(ShelfView::loading_artists);
    reveal(ShelfView::loading_playlists);
    reveal(ShelfView::reloaded);
}

/// A sort is that of the section on show, and its list stands by it at once.
pub proof fn a_sort_is_the_shown_section_s(
    shelf: ShelfView,
    sort: Sort,
    playing: Option<Seq<char>>,
)
    ensures
        ({
            let after = shelf.sorted(sort, playing);
            &&& after.sorts.of(shelf.view) == sort
            &&& after.view == shelf.view
            &&& shelf.view == View::Songs ==> after.rows == (ShelfView {
                sorts: after.sorts,
                ..shelf
            }).visible() && after.sorts.albums == shelf.sorts.albums
            &&& shelf.view == View::Albums ==> after.sorts.albums == sort && after.sorts.songs
                == shelf.sorts.songs && after.todo.last() == ShelfTaskView::DrawAlbums
            &&& shelf.view == View::Artists ==> after.sorts.artists == sort && after.todo.last()
                == ShelfTaskView::DrawArtists
            &&& shelf.view == View::Playlists ==> after.sorts.playlists == sort
                && after.todo.last() == ShelfTaskView::DrawPlaylists
        }),
{
    reveal(ShelfView::sorted);
    reveal(ShelfView::resorted);
    reveal(ShelfView::with_rows);
    reveal(ShelfView::with_albums);
    reveal(ShelfView::with_artists);
    reveal(ShelfView::with_playlists);
}

/// A row that is a door leads to its own page: of the library where the library has it,
/// and else of the catalog. A song leads nowhere.
pub proof fn a_door_leads_to_its_own_page(
    track: Track,
    album: Album,
    artist: Artist,
    playlist: Playlist,
)
    ensures
        pages::door(Entry::Song(track)) is None,
        album.library ==> pages::door(Entry::Album(album)) == Some(
            PageKindView::LibraryAlbum(album.id@),
        ),
        !album.library ==> pages::door(Entry::Album(album)) == Some(PageKindView::Album(album.id@)),
        artist.library ==> pages::door(Entry::Artist(artist)) == Some(
            PageKindView::LibraryArtist(artist.id@),
        ),
        !artist.library ==> pages::door(Entry::Artist(artist)) == Some(
            PageKindView::Artist(artist.id@),
        ),
        playlist.library ==> pages::door(Entry::Playlist(playlist)) == Some(
            PageKindView::LibraryPlaylist(playlist.id@),
        ),
        !playlist.library ==> pages::door(Entry::Playlist(playlist)) == Some(
            PageKindView::Playlist(playlist.id@),
        ),
{
}

/// A page that is opened goes on top of the others, empty, under an id of its own.
pub proof fn a_page_opens_on_top(stack: PagesView, kind: PageKindView)
    requires
        stack.next_id < u64::MAX,
    ensures
        ({
            let after = stack.pushed(kind);
            &&& after.stack.len() == stack.stack.len() + 1
            &&& after.stack.drop_last() == stack.stack
            &&& after.stack.last().id == stack.next_id
            &&& after.stack.last().entries.len() == 0
            &&& !after.stack.last().loaded
            &&& after.stack.last().failure is None
            &&& after.next_id == stack.next_id + 1
            &&& after.todo == stack.todo.push(
                PageTaskView::Push { page: stack.next_id, kind },
            )
        }),
{
    reveal(PagesView::pushed);
    assert(stack.pushed(kind).stack.drop_last() =~= stack.stack);
}

/// A page that arrives fills the page it was opened for and no other: an artist's with
/// their albums, any other with its songs, in the order they came. One that failed says
/// why. One whose page was left is dropped.
pub proof fn a_page_fills_the_one_it_was_opened_for(
    stack: PagesView,
    at: int,
    content: PageContent,
    why: Seq<char>,
    other: int,
)
    requires
        stack.ids_differ(),
        0 <= at < stack.stack.len(),
        0 <= other < stack.stack.len(),
        other != at,
    ensures
        ({
            let id = stack.stack[at].id;
            let after = stack.filled(id, Ok(content));
            let failed = stack.filled(id, Err(why));
            &&& after.stack.len() == stack.stack.len()
            &&& after.stack[at].loaded
            &&& after.stack[at].id == id
            &&& after.stack[at].entries == match content {
                PageContent::Album { album, tracks } => tracks@.map_values(
                    |t: Track| Entry::Song(t),
                ),
                PageContent::Artist { artist, albums } => albums@.map_values(
                    |a: Album| Entry::Album(a),
                ),
                PageContent::Playlist { playlist, tracks } => tracks@.map_values(
                    |t: Track| Entry::Song(t),
                ),
            }
            &&& after.stack[other] == stack.stack[other]
            &&& after.todo[stack.todo.len() as int] == (PageTaskView::Draw { page: id })
            &&& failed.stack[at] == (PageView { failure: Some(why), ..stack.stack[at] })
            &&& failed.stack[other] == stack.stack[other]
        }),
{
    reveal(PagesView::filled);
    depth_is_where_it_is(stack, at, 0);
}

proof fn depth_is_where_it_is(stack: PagesView, at: int, from: int)
    requires
        stack.ids_differ(),
        0 <= from <= at < stack.stack.len(),
    ensures
        pages::depth_of(stack.stack, stack.stack[at].id, from) == Some(at),
    decreases at - from,
{
    if from < at {
        assert(stack.stack[from].id != stack.stack[at].id);
        depth_is_where_it_is(stack, at, from + 1);
    }
}

/// A page nobody has open changes nothing when it arrives.
pub proof fn a_page_that_was_left_is_dropped(
    stack: PagesView,
    id: u64,
    content: Result<PageContent, Seq<char>>,
    path: Option<Seq<char>>,
)
    requires
        forall|k: int| 0 <= k < stack.stack.len() ==> (#[trigger] stack.stack[k]).id != id,
    ensures
        stack.filled(id, content) == stack,
        stack.pictured(id, path) == stack,
{
    reveal(PagesView::filled);
    reveal(PagesView::pictured);
    no_depth(stack.stack, id, 0);
}

proof fn no_depth(stack: Seq<PageView>, id: u64, from: int)
    requires
        0 <= from,
        forall|k: int| 0 <= k < stack.len() ==> (#[trigger] stack[k]).id != id,
    ensures
        pages::depth_of(stack, id, from) is None,
    decreases stack.len() - from,
{
    if from < stack.len() {
        no_depth(stack, id, from + 1);
    }
}

/// A page that is left goes, and the others stay in their order.
pub proof fn a_page_that_is_left_goes(stack: PagesView, id: u64, page: PageView)
    ensures
        stack.popped(id).stack.contains(page) <==> stack.stack.contains(page) && page.id != id,
        stack.popped(id).next_id == stack.next_id,
        stack.popped(id).todo == stack.todo,
{
    reveal(PagesView::popped);
    library_laws::what_a_filter_keeps(stack.stack, |p: PageView| p.id != id);
}

/// A page is drawn with its own cover. A playlist that has none gets a mosaic of the
/// first four covers of its tracks that differ, and nothing where there are not four.
pub proof fn a_page_gets_its_own_cover(
    page: u64,
    album: Album,
    artist: Artist,
    playlist: Playlist,
    tracks: Vec<Track>,
    albums: Vec<Album>,
)
    ensures
        ({
            let of_album = PageContent::Album { album, tracks };
            let of_artist = PageContent::Artist { artist, albums };
            let of_playlist = PageContent::Playlist { playlist, tracks };
            &&& album.artwork is None ==> of_album.picture(page) is None
            &&& album.artwork is Some ==> of_album.picture(page) == Some(
                PageTaskView::FetchArt { page, art: album.artwork->0 },
            )
            &&& artist.artwork is None ==> of_artist.picture(page) is None
            &&& artist.artwork is Some ==> of_artist.picture(page) == Some(
                PageTaskView::FetchArt { page, art: artist.artwork->0 },
            )
            &&& playlist.artwork is Some ==> of_playlist.picture(page) == Some(
                PageTaskView::FetchArt { page, art: playlist.artwork->0 },
            )
            &&& playlist.artwork is None ==> match of_playlist.picture(page) {
                Some(PageTaskView::Mosaic { page: on, covers }) => on == page && covers.len() == 4
                    && covers == pages::covers(pages::track_covers(tracks@), 4)
                    && pages::keys(covers).no_duplicates(),
                Some(_) => false,
                None => pages::covers(pages::track_covers(tracks@), 4).len() < 4,
            }
        }),
{
    pages::a_mosaic_never_repeats_a_cover(pages::track_covers(tracks@), 4);
}

/// The covers of a mosaic come in the order their tracks do, each being the first of its
/// kind.
pub proof fn covers_come_in_the_order_of_their_tracks(arts: Seq<Artwork>, want: nat, i: int) -> (at:
    int)
    requires
        0 <= i < pages::covers(arts, want).len(),
    ensures
        0 <= at < arts.len(),
        pages::covers(arts, want)[i] == arts[at],
        forall|k: int| 0 <= k < at ==> (#[trigger] arts[k]).key() != arts[at].key(),
{
    an_unrepeated_cover_is_its_first(arts, i)
}

proof fn an_unrepeated_cover_is_its_first(arts: Seq<Artwork>, i: int) -> (at: int)
    requires
        0 <= i < pages::unrepeated(arts).len(),
    ensures
        0 <= at < arts.len(),
        pages::unrepeated(arts)[i] == arts[at],
        forall|k: int| 0 <= k < at ==> (#[trigger] arts[k]).key() != arts[at].key(),
    decreases arts.len(),
{
    let shorter = arts.drop_last();
    let before = pages::unrepeated(shorter);
    if i < before.len() {
        let at = an_unrepeated_cover_is_its_first(shorter, i);
        assert forall|k: int| 0 <= k < at implies (#[trigger] arts[k]).key() != arts[at].key() by {
            assert(shorter[k] == arts[k]);
        }
        at
    } else {
        let at = arts.len() - 1;
        assert forall|k: int| 0 <= k < at implies (#[trigger] arts[k]).key() != arts[at].key() by {
            assert(shorter[k] == arts[k]);
            every_cover_is_kept_once(shorter, k);
        }
        at
    }
}

proof fn every_cover_is_kept_once(arts: Seq<Artwork>, k: int)
    requires
        0 <= k < arts.len(),
    ensures
        pages::keys(pages::unrepeated(arts)).contains(arts[k].key()),
    decreases arts.len(),
{
    let shorter = arts.drop_last();
    let before = pages::unrepeated(shorter);
    let after = pages::unrepeated(arts);
    if k < shorter.len() {
        every_cover_is_kept_once(shorter, k);
        let j = choose|j: int|
            0 <= j < pages::keys(before).len() && pages::keys(before)[j] == arts[k].key();
        assert(pages::keys(after)[j] == arts[k].key());
    } else if !pages::keys(before).contains(arts[k].key()) {
        assert(pages::keys(after)[before.len() as int] == arts[k].key());
    }
}

/// A change to a track is made to every copy of it, by its catalog id, and to nothing
/// else of the list: the rest of it stays as it was, and so does its order.
pub proof fn a_change_reaches_every_copy_and_nothing_else(
    tracks: Seq<Track>,
    id: Seq<char>,
    on: bool,
    k: int,
)
    requires
        0 <= k < tracks.len(),
    ensures
        ({
            let is_it = text::text_view(tracks[k].catalog_id) == Some(id);
            let starred = writes::patched_tracks(tracks, id, Patch::Favorite(on));
            let kept = writes::patched_tracks(tracks, id, Patch::InLibrary(on));
            &&& starred.len() == tracks.len()
            &&& kept.len() == tracks.len()
            &&& is_it ==> starred[k] == (Track { favorite: on, ..tracks[k] })
            &&& is_it ==> kept[k] == (Track { in_library: on, ..tracks[k] })
            &&& !is_it ==> starred[k] == tracks[k] && kept[k] == tracks[k]
        }),
{
}

/// The same of rows: every song of that catalog id changes, and nothing else.
pub proof fn a_change_reaches_every_row_of_it(rows: Seq<Entry>, id: Seq<char>, on: bool, k: int)
    requires
        0 <= k < rows.len(),
    ensures
        ({
            let is_it = rows[k] is Song && text::text_view(rows[k]->Song_0.catalog_id) == Some(id);
            let starred = writes::patched_rows(rows, id, Patch::Favorite(on));
            let kept = writes::patched_rows(rows, id, Patch::InLibrary(on));
            &&& starred.len() == rows.len()
            &&& kept.len() == rows.len()
            &&& is_it ==> starred[k] == Entry::Song(Track { favorite: on, ..rows[k]->Song_0 })
            &&& is_it ==> kept[k] == Entry::Song(Track { in_library: on, ..rows[k]->Song_0 })
            &&& !is_it ==> starred[k] == rows[k] && kept[k] == rows[k]
        }),
{
}

/// A change to a track reaches the library, the row on show and, where it is one of
/// belonging, the results of the search. Nothing else of the shelf changes.
pub proof fn a_change_reaches_every_list(shelf: ShelfView, id: Seq<char>, patch: Patch, at: int)
    requires
        0 <= at < shelf.rows.len(),
        shelf.rows[at] is Song,
        text::text_view(shelf.rows[at]->Song_0.catalog_id) == Some(id),
        forall|k: int|
            0 <= k < at ==> !((#[trigger] shelf.rows[k]) is Song && text::text_view(
                shelf.rows[k]->Song_0.catalog_id,
            ) == Some(id)),
    ensures
        ({
            let after = shelf.patched(id, patch);
            let changed = match patch {
                Patch::InLibrary(on) => Track { in_library: on, ..shelf.rows[at]->Song_0 },
                Patch::Favorite(on) => Track { favorite: on, ..shelf.rows[at]->Song_0 },
            };
            &&& after.rows == shelf.rows.update(at, Entry::Song(changed))
            &&& after.tracks == writes::patched_tracks(shelf.tracks, id, patch)
            &&& patch is InLibrary ==> after.catalog == writes::patched_rows(
                shelf.catalog,
                id,
                patch,
            )
            &&& patch is Favorite ==> after.catalog == shelf.catalog
            &&& after == (ShelfView {
                rows: after.rows,
                tracks: after.tracks,
                catalog: after.catalog,
                ..shelf
            })
        }),
{
    the_row_is_where_it_is(shelf.rows, id, at, 0);
}

proof fn the_row_is_where_it_is(rows: Seq<Entry>, id: Seq<char>, at: int, from: int)
    requires
        0 <= from <= at < rows.len(),
        rows[at].catalog() == Some(id),
        forall|k: int|
            0 <= k < at ==> !((#[trigger] rows[k]) is Song && text::text_view(
                rows[k]->Song_0.catalog_id,
            ) == Some(id)),
    ensures
        writes::row_of(rows, id, from) == Some(at),
    decreases at - from,
{
    if from < at {
        assert(rows[from].catalog() != Some(id));
        the_row_is_where_it_is(rows, id, at, from + 1);
    }
}

/// A track that is dropped takes only itself along: every other stays, in its order.
pub proof fn dropping_a_track_drops_no_other(shelf: ShelfView, id: Seq<char>)
    ensures
        shelf.without(id).tracks == shelf.tracks.filter(
            |t: Track| text::text_view(t.catalog_id) != Some(id),
        ),
        shelf.without(id).albums == shelf.albums,
        shelf.without(id).catalog == shelf.catalog,
        shelf.view == View::Search ==> shelf.without(id).rows == shelf.rows,
{
    let keep = |t: Track| text::text_view(t.catalog_id) != Some(id);
    let kept = shelf.tracks.filter(keep);
    if kept.len() == shelf.tracks.len() {
        all_kept(shelf.tracks, keep);
    }
}

/// The row of a track that is dropped goes with it, and no other row does.
pub proof fn a_dropped_track_takes_its_row_along(shelf: ShelfView, id: Seq<char>, at: int)
    requires
        shelf.view != View::Search,
        shelf.rows == shelf.visible(),
        0 <= at < shelf.rows.len(),
        shelf.rows[at].catalog() == Some(id),
        forall|k: int|
            0 <= k < at ==> !((#[trigger] shelf.rows[k]) is Song && text::text_view(
                shelf.rows[k]->Song_0.catalog_id,
            ) == Some(id)),
    ensures
        shelf.without(id).rows == shelf.rows.remove(at),
{
    let keep = |t: Track| text::text_view(t.catalog_id) != Some(id);
    let track = shelf.rows[at]->Song_0;
    assert(shelf.rows.contains(Entry::Song(track)));
    a_song_is_on_show_when_it_is_found(shelf, track);
    library_laws::what_a_filter_keeps(shelf.tracks, keep);
    if shelf.tracks.filter(keep).len() == shelf.tracks.len() {
        all_kept(shelf.tracks, keep);
        assert(shelf.tracks.filter(keep).contains(track));
        assert(keep(track));
    }
    the_row_is_where_it_is(shelf.rows, id, at, 0);
}

proof fn all_kept(tracks: Seq<Track>, keep: spec_fn(Track) -> bool)
    requires
        tracks.filter(keep).len() == tracks.len(),
    ensures
        tracks.filter(keep) == tracks,
    decreases tracks.len(),
{
    reveal(Seq::filter);
    if tracks.len() > 0 {
        let shorter = tracks.drop_last();
        at_most_as_many(shorter, keep);
        all_kept(shorter, keep);
        assert(tracks =~= shorter.push(tracks.last()));
    }
}

proof fn at_most_as_many(tracks: Seq<Track>, keep: spec_fn(Track) -> bool)
    ensures
        tracks.filter(keep).len() <= tracks.len(),
    decreases tracks.len(),
{
    reveal(Seq::filter);
    if tracks.len() > 0 {
        at_most_as_many(tracks.drop_last(), keep);
    }
}

/// The artists stand by name, up unless turned round.
pub proof fn the_artists_on_show_stand_by_name(shelf: ShelfView, i: int, j: int)
    requires
        shelf.built_artists != Some(text::folded(shelf.library_query)),
        shelf.sorts.artists.by == SortBy::Title,
        0 <= i < j < shelf.with_artists().artist_tiles.len(),
    ensures
        ({
            let tiles = shelf.with_artists().artist_tiles;
            let a = text::lowercase(tiles[i].name@);
            let b = text::lowercase(tiles[j].name@);
            a == b || sort_laws::ahead(a, b, shelf.sorts.artists.reversed)
        }),
{
    reveal(ShelfView::with_artists);
    let found = shelf::artists_found(shelf.artists, text::folded(shelf.library_query));
    a_shown_list_holds_the_same(found, SortBy::Title, shelf.sorts.artists.reversed);
    sort_laws::artists_stand_by_name(found, shelf.sorts.artists.reversed, i, j);
}

/// Going to the search asks again for what was typed there, and shows nothing where nothing
/// was.
pub proof fn going_to_the_search_asks_again(
    shelf: ShelfView,
    access: Access,
    playing: Option<Seq<char>>,
)
    requires
        shelf.view != View::Search,
    ensures
        ({
            let after = shelf.showing(View::Search, access, playing);
            &&& after.search_gen != shelf.search_gen
            &&& text::trimmed(shelf.catalog_query).len() > 0 && access != Access::Away
                ==> after.searching && after.todo == shelf.todo.push(
                ShelfTaskView::Search {
                    generation: after.search_gen,
                    offset: 0,
                    term: text::trimmed(shelf.catalog_query),
                    filter: shelf.catalog_filter,
                },
            )
            &&& text::trimmed(shelf.catalog_query).len() == 0 ==> after.catalog.len() == 0
        }),
{
    reveal(ShelfView::showing);
    reveal(ShelfView::asking);
    reveal(ShelfView::with_rows);
}

/// A change to a track reaches every page it stands on, and changes nothing else of them.
pub proof fn a_change_reaches_every_page(stack: PagesView, id: Seq<char>, patch: Patch, k: int)
    requires
        0 <= k < stack.stack.len(),
    ensures
        stack.patched(id, patch).stack.len() == stack.stack.len(),
        stack.patched(id, patch).stack[k] == (PageView {
            entries: writes::patched_rows(stack.stack[k].entries, id, patch),
            ..stack.stack[k]
        }),
        stack.patched(id, patch).todo == stack.todo,
{
}

/// A track that no row on show is of changes no row.
pub proof fn a_change_elsewhere_leaves_the_rows(shelf: ShelfView, id: Seq<char>, patch: Patch)
    requires
        forall|k: int|
            0 <= k < shelf.rows.len() ==> (#[trigger] shelf.rows[k]).catalog() != Some(id),
    ensures
        shelf.patched(id, patch).rows == shelf.rows,
{
    no_row_of_it(shelf.rows, id, 0);
}

proof fn no_row_of_it(rows: Seq<Entry>, id: Seq<char>, from: int)
    requires
        0 <= from,
        forall|k: int| 0 <= k < rows.len() ==> (#[trigger] rows[k]).catalog() != Some(id),
    ensures
        writes::row_of(rows, id, from) is None,
    decreases rows.len() - from,
{
    if from < rows.len() {
        no_row_of_it(rows, id, from + 1);
    }
}

} // verus!
