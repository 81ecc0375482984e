//! What holds of every browse and every page of results.

use vstd::prelude::*;

use crate::ipc;
use crate::library;
use crate::library::{LibraryView, CATALOG_BROWSE_ROWS};
use crate::music::{Album, Artist, Entry, Playlist, SearchResults, Track};
use crate::text;
use crate::view::CatalogFilter;

verus! {

/// Whether a needle stands somewhere in a text, without regard to case: the
/// lowercased text reads `before`, the needle, and the rest.
pub open spec fn holds(words: Seq<char>, needle: Seq<char>) -> bool {
    exists|before: Seq<char>, rest: Seq<char>|
        #[trigger] (before + needle + rest) == text::lowercase(words)
}

/// A needle occurs in a lowercased text exactly where the text holds it.
pub proof fn occurs_is_holding(words: Seq<char>, needle: Seq<char>)
    ensures
        text::occurs(text::lowercase(words), needle) <==> holds(words, needle),
{
    let low = text::lowercase(words);
    if text::occurs(low, needle) {
        let i = choose|i: int| text::occurs_at(low, needle, i);
        assert(low.take(i) + needle + low.skip(i + needle.len()) =~= low);
    }
    if holds(words, needle) {
        let (before, rest) = choose|before: Seq<char>, rest: Seq<char>|
            #[trigger] (before + needle + rest) == low;
        assert(low.subrange(before.len() as int, (before.len() + needle.len()) as int) =~= needle);
        assert(text::occurs_at(low, needle, before.len() as int));
    }
}

/// A filter keeps what passes it, and nothing else.
pub proof fn what_a_filter_keeps<T>(list: Seq<T>, keep: spec_fn(T) -> bool)
    ensures
        forall|x: T| #[trigger] list.filter(keep).contains(x) <==> list.contains(x) && keep(x),
{
    let places = a_filtered_list_keeps_its_order(list, keep);
    let kept = list.filter(keep);
    assert forall|x: T| #[trigger] kept.contains(x) <==> list.contains(x) && keep(x) by {
        if kept.contains(x) {
            let k = choose|k: int| 0 <= k < kept.len() && kept[k] == x;
            assert(keep(kept[k]));
            assert(list[places[k]] == x);
        }
        if list.contains(x) && keep(x) {
            let k = choose|k: int| 0 <= k < list.len() && list[k] == x;
            assert(keep(list[k]));
            let j = choose|j: int| 0 <= j < places.len() && places[j] == k;
            assert(kept[j] == x);
        }
    }
}

/// Whether the items of a list are those of another at these places, which rise.
pub open spec fn is_drawn_from<T>(some: Seq<T>, all: Seq<T>, places: Seq<int>) -> bool {
    &&& places.len() == some.len()
    &&& forall|i: int| 0 <= i < some.len() ==> 0 <= #[trigger] places[i] < all.len() && some[i]
        == all[places[i]]
    &&& forall|i: int, j: int|
        0 <= i < j < places.len() ==> #[trigger] places[i] < #[trigger] places[j]
}

/// A filtered list keeps its order.
pub proof fn a_filtered_list_keeps_its_order<T>(list: Seq<T>, keep: spec_fn(T) -> bool) -> (places:
    Seq<int>)
    ensures
        is_drawn_from(list.filter(keep), list, places),
        forall|i: int| 0 <= i < list.filter(keep).len() ==> keep(#[trigger] list.filter(keep)[i]),
        forall|k: int|
            0 <= k < list.len() && keep(#[trigger] list[k]) ==> places.contains(k),
    decreases list.len(),
{
    reveal(Seq::filter);
    if list.len() == 0 {
        Seq::empty()
    } else {
        let shorter = list.drop_last();
        let before = a_filtered_list_keeps_its_order(shorter, keep);
        if keep(list.last()) {
            let after = before.push(list.len() - 1);
            assert forall|k: int| 0 <= k < list.len() && keep(#[trigger] list[k]) implies after.contains(
                k,
            ) by {
                if k < shorter.len() {
                    assert(shorter[k] == list[k]);
                    let j = choose|j: int| 0 <= j < before.len() && before[j] == k;
                    assert(after[j] == k);
                } else {
                    assert(after[before.len() as int] == k);
                }
            }
            after
        } else {
            assert forall|k: int| 0 <= k < list.len() && keep(#[trigger] list[k]) implies before.contains(
                k,
            ) by {
                assert(shorter[k] == list[k]);
            }
            before
        }
    }
}

/// A song is found by its title, by its artist and by its album, and by nothing
/// else.
pub proof fn a_song_is_found_by_title_artist_or_album(
    library: LibraryView,
    query: Seq<char>,
    track: Track,
)
    ensures
        ({
            let needle = text::folded(query);
            library.matching(ipc::View::Songs, query).contains(Entry::Song(track))
                <==> library.tracks.contains(track) && (needle.len() == 0 || holds(
                track.title@,
                needle,
            ) || holds(track.artist@, needle) || holds(track.album@, needle))
        }),
{
    let needle = text::folded(query);
    let entry = Entry::Song(track);
    rows_found(library, ipc::View::Songs, query, entry);
    songs_are_rows(library.tracks, track);
    let fields = library::searched(entry);
    occurs_is_holding(track.title@, needle);
    occurs_is_holding(track.artist@, needle);
    occurs_is_holding(track.album@, needle);
    assert(text::lowercase(fields[0]) == text::lowercase(track.title@));
    assert(text::lowercase(fields[1]) == text::lowercase(track.artist@));
    assert(text::lowercase(fields[2]) == text::lowercase(track.album@));
}

/// An album is found by its name and by its artist, and by nothing else.
pub proof fn an_album_is_found_by_name_or_artist(
    library: LibraryView,
    query: Seq<char>,
    album: Album,
)
    ensures
        ({
            let needle = text::folded(query);
            library.matching(ipc::View::Albums, query).contains(Entry::Album(album))
                <==> library.albums.contains(album) && (needle.len() == 0 || holds(
                album.name@,
                needle,
            ) || holds(album.artist@, needle))
        }),
{
    let needle = text::folded(query);
    let entry = Entry::Album(album);
    rows_found(library, ipc::View::Albums, query, entry);
    albums_are_rows(library.albums, album);
    let fields = library::searched(entry);
    occurs_is_holding(album.name@, needle);
    occurs_is_holding(album.artist@, needle);
    assert(text::lowercase(fields[0]) == text::lowercase(album.name@));
    assert(text::lowercase(fields[1]) == text::lowercase(album.artist@));
}

/// An artist is found by name, and by nothing else.
pub proof fn an_artist_is_found_by_name(library: LibraryView, query: Seq<char>, artist: Artist)
    ensures
        ({
            let needle = text::folded(query);
            library.matching(ipc::View::Artists, query).contains(Entry::Artist(artist))
                <==> library.artists.contains(artist) && (needle.len() == 0 || holds(
                artist.name@,
                needle,
            ))
        }),
{
    let needle = text::folded(query);
    let entry = Entry::Artist(artist);
    rows_found(library, ipc::View::Artists, query, entry);
    artists_are_rows(library.artists, artist);
    let fields = library::searched(entry);
    occurs_is_holding(artist.name@, needle);
    assert(text::lowercase(fields[0]) == text::lowercase(artist.name@));
}

/// A playlist is found by name, and by nothing else.
pub proof fn a_playlist_is_found_by_name(
    library: LibraryView,
    query: Seq<char>,
    playlist: Playlist,
)
    ensures
        ({
            let needle = text::folded(query);
            library.matching(ipc::View::Playlists, query).contains(Entry::Playlist(playlist))
                <==> library.playlists.contains(playlist) && (needle.len() == 0 || holds(
                playlist.name@,
                needle,
            ))
        }),
{
    let needle = text::folded(query);
    let entry = Entry::Playlist(playlist);
    rows_found(library, ipc::View::Playlists, query, entry);
    playlists_are_rows(library.playlists, playlist);
    let fields = library::searched(entry);
    occurs_is_holding(playlist.name@, needle);
    assert(text::lowercase(fields[0]) == text::lowercase(playlist.name@));
}

proof fn rows_found(library: LibraryView, view: ipc::View, query: Seq<char>, entry: Entry)
    ensures
        library.matching(view, query).contains(entry) <==> library.shelf(view).contains(entry)
            && library::found_in(text::folded(query), library::searched(entry)),
{
    what_a_filter_keeps(
        library.shelf(view),
        |e: Entry| library::found_in(text::folded(query), library::searched(e)),
    );
}

proof fn songs_are_rows(tracks: Seq<Track>, track: Track)
    ensures
        library::song_rows(tracks).contains(Entry::Song(track)) <==> tracks.contains(track),
{
    let rows = library::song_rows(tracks);
    if tracks.contains(track) {
        let k = choose|k: int| 0 <= k < tracks.len() && tracks[k] == track;
        assert(rows[k] == Entry::Song(track));
    }
}

proof fn albums_are_rows(albums: Seq<Album>, album: Album)
    ensures
        library::album_rows(albums).contains(Entry::Album(album)) <==> albums.contains(album),
{
    let rows = library::album_rows(albums);
    if albums.contains(album) {
        let k = choose|k: int| 0 <= k < albums.len() && albums[k] == album;
        assert(rows[k] == Entry::Album(album));
    }
}

proof fn artists_are_rows(artists: Seq<Artist>, artist: Artist)
    ensures
        library::artist_rows(artists).contains(Entry::Artist(artist)) <==> artists.contains(artist),
{
    let rows = library::artist_rows(artists);
    if artists.contains(artist) {
        let k = choose|k: int| 0 <= k < artists.len() && artists[k] == artist;
        assert(rows[k] == Entry::Artist(artist));
    }
}

proof fn playlists_are_rows(playlists: Seq<Playlist>, playlist: Playlist)
    ensures
        library::playlist_rows(playlists).contains(Entry::Playlist(playlist))
            <==> playlists.contains(playlist),
{
    let rows = library::playlist_rows(playlists);
    if playlists.contains(playlist) {
        let k = choose|k: int| 0 <= k < playlists.len() && playlists[k] == playlist;
        assert(rows[k] == Entry::Playlist(playlist));
    }
}

/// A section holds its own kind and no other: the songs, the albums, the artists
/// or the playlists of the library, each as a row, in the library's order.
pub proof fn a_section_holds_its_own_kind(library: LibraryView, view: ipc::View)
    ensures
        view == ipc::View::Songs ==> library.shelf(view).len() == library.tracks.len() && forall|
            i: int,
        |
            0 <= i < library.tracks.len() ==> #[trigger] library.shelf(view)[i] == Entry::Song(
                library.tracks[i],
            ),
        view == ipc::View::Albums ==> library.shelf(view).len() == library.albums.len() && forall|
            i: int,
        |
            0 <= i < library.albums.len() ==> #[trigger] library.shelf(view)[i] == Entry::Album(
                library.albums[i],
            ),
        view == ipc::View::Artists ==> library.shelf(view).len() == library.artists.len()
            && forall|i: int|
            0 <= i < library.artists.len() ==> #[trigger] library.shelf(view)[i] == Entry::Artist(
                library.artists[i],
            ),
        view == ipc::View::Playlists ==> library.shelf(view).len() == library.playlists.len()
            && forall|i: int|
            0 <= i < library.playlists.len() ==> #[trigger] library.shelf(view)[i]
                == Entry::Playlist(library.playlists[i]),
{
}

/// What a query finds comes in the order the section has, each row as often as it
/// stands there.
pub proof fn what_is_found_keeps_its_order(
    library: LibraryView,
    view: ipc::View,
    query: Seq<char>,
) -> (places: Seq<int>)
    ensures
        is_drawn_from(library.matching(view, query), library.shelf(view), places),
        forall|k: int|
            0 <= k < library.shelf(view).len() && library.matching(view, query).contains(
                #[trigger] library.shelf(view)[k],
            ) ==> places.contains(k),
{
    let keep = |e: Entry| library::found_in(text::folded(query), library::searched(e));
    what_a_filter_keeps(library.shelf(view), keep);
    let places = a_filtered_list_keeps_its_order(library.shelf(view), keep);
    assert forall|k: int|
        0 <= k < library.shelf(view).len() && library.matching(view, query).contains(
            #[trigger] library.shelf(view)[k],
        ) implies places.contains(k) by {
        assert(keep(library.shelf(view)[k]));
    }
    places
}

/// Spaces round a query, and the case it is typed in, find nothing more and
/// nothing less: what is looked for is the lowercased text between them.
pub proof fn spaces_round_a_query_do_not_count(query: Seq<char>) -> (at: int)
    ensures
        ({
            let kept = text::trimmed(query);
            &&& 0 <= at <= at + kept.len() <= query.len()
            &&& kept == query.subrange(at, at + kept.len())
            &&& text::folded(query) == text::lowercase(kept)
            &&& forall|i: int|
                0 <= i < at || at + kept.len() <= i < query.len() ==> text::is_space(
                    #[trigger] query[i],
                )
            &&& kept.len() > 0 ==> !text::is_space(kept[0]) && !text::is_space(kept.last())
        }),
{
    let at = leading_spaces(query);
    let rest = text::trim_start(query);
    let n = trailing_spaces(rest);
    let kept = text::trimmed(query);
    assert(kept =~= query.subrange(at, at + kept.len()));
    assert forall|i: int| 0 <= i < at || at + kept.len() <= i < query.len() implies text::is_space(
        #[trigger] query[i],
    ) by {
        if i >= at {
            assert(rest[i - at] == query[i]);
        }
    }
    at
}

proof fn leading_spaces(words: Seq<char>) -> (at: int)
    ensures
        0 <= at <= words.len(),
        text::trim_start(words) == words.skip(at),
        forall|i: int| 0 <= i < at ==> text::is_space(#[trigger] words[i]),
        at < words.len() ==> !text::is_space(words[at]),
    decreases words.len(),
{
    if words.len() > 0 && text::is_space(words[0]) {
        let rest = words.drop_first();
        let at = leading_spaces(rest);
        assert(rest.skip(at) =~= words.skip(at + 1));
        assert forall|i: int| 0 <= i < at + 1 implies text::is_space(#[trigger] words[i]) by {
            if i > 0 {
                assert(rest[i - 1] == words[i]);
            }
        }
        at + 1
    } else {
        assert(words.skip(0) =~= words);
        0
    }
}

proof fn trailing_spaces(words: Seq<char>) -> (n: int)
    ensures
        0 <= n <= words.len(),
        text::trim_end(words) == words.take(n),
        forall|i: int| n <= i < words.len() ==> text::is_space(#[trigger] words[i]),
        n > 0 ==> !text::is_space(words[n - 1]),
    decreases words.len(),
{
    if words.len() > 0 && text::is_space(words.last()) {
        let rest = words.drop_last();
        let n = trailing_spaces(rest);
        assert(rest.take(n) =~= words.take(n));
        assert forall|i: int| n <= i < words.len() implies text::is_space(#[trigger] words[i]) by {
            if i < rest.len() {
                assert(rest[i] == words[i]);
            }
        }
        n
    } else {
        assert(words.take(words.len() as int) =~= words);
        words.len() as int
    }
}

/// A window begins at its offset, holds the rows from there on in their order, and
/// as many as its limit or all that are left. A limit of none is no limit.
pub proof fn a_window_begins_at_its_offset(rows: Seq<Entry>, offset: int, limit: int)
    requires
        0 <= offset,
        0 <= limit,
    ensures
        ({
            let shown = library::window(rows, offset, limit);
            let left = if offset < rows.len() {
                rows.len() - offset
            } else {
                0
            };
            &&& limit == 0 || left <= limit ==> shown.len() == left
            &&& 0 < limit < left ==> shown.len() == limit
            &&& forall|i: int| 0 <= i < shown.len() ==> #[trigger] shown[i] == rows[offset + i]
        }),
{
}

/// A page of results under a filter is all of that kind, in the order it came,
/// and the offset moves by as many.
pub proof fn a_filter_shows_one_kind(found: SearchResults, first_page: bool)
    ensures
        library::result_rows(CatalogFilter::Songs, found, first_page)
            == found.songs@.map_values(|t: Track| Entry::Song(t)),
        library::result_rows(CatalogFilter::Albums, found, first_page)
            == found.albums@.map_values(|a: Album| Entry::Album(a)),
        library::result_rows(CatalogFilter::Artists, found, first_page)
            == found.artists@.map_values(|a: Artist| Entry::Artist(a)),
        library::result_rows(CatalogFilter::Playlists, found, first_page)
            == found.playlists@.map_values(|p: Playlist| Entry::Playlist(p)),
        library::paged_by(CatalogFilter::Songs, found) == found.songs@.len(),
        library::paged_by(CatalogFilter::Albums, found) == found.albums@.len(),
        library::paged_by(CatalogFilter::Artists, found) == found.artists@.len(),
        library::paged_by(CatalogFilter::Playlists, found) == found.playlists@.len(),
        library::paged_by(CatalogFilter::All, found) == found.songs@.len(),
{
}

/// The first page of a search of everything leads with a few artists, then a few
/// playlists, then a few albums, and ends with every song that came. A later one
/// holds songs only.
pub proof fn a_search_of_everything_leads_with_a_few_doors(found: SearchResults)
    ensures
        ({
            let rows = library::result_rows(CatalogFilter::All, found, true);
            let artists = least(found.artists@.len() as int, CATALOG_BROWSE_ROWS as int);
            let playlists = least(found.playlists@.len() as int, CATALOG_BROWSE_ROWS as int);
            let albums = least(found.albums@.len() as int, CATALOG_BROWSE_ROWS as int);
            &&& rows.len() == artists + playlists + albums + found.songs@.len()
            &&& forall|i: int|
                0 <= i < artists ==> #[trigger] rows[i] == Entry::Artist(found.artists@[i])
            &&& forall|i: int|
                0 <= i < playlists ==> rows[artists + i] == Entry::Playlist(
                    #[trigger] found.playlists@[i],
                )
            &&& forall|i: int|
                0 <= i < albums ==> rows[artists + playlists + i] == Entry::Album(
                    #[trigger] found.albums@[i],
                )
            &&& forall|i: int|
                0 <= i < found.songs@.len() ==> rows[artists + playlists + albums + i]
                    == Entry::Song(#[trigger] found.songs@[i])
        }),
        CATALOG_BROWSE_ROWS == 3,
        library::result_rows(CatalogFilter::All, found, false) == found.songs@.map_values(
            |t: Track| Entry::Song(t),
        ),
{
}

/// The smaller of two numbers.
pub open spec fn least(a: int, b: int) -> int {
    if a < b {
        a
    } else {
        b
    }
}

} // verus!
