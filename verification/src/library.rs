//! What is known of the library, and how a slice of it is asked for.

use vstd::prelude::*;

use crate::ipc;
use crate::music::{Album, Artist, Entry, Playlist, SearchResults, Track};
use crate::text;
use crate::view::CatalogFilter;

verus! {

/// How many artists, playlists and albums lead a search of everything.
pub const CATALOG_BROWSE_ROWS: usize = 3;

/// Everything the library holds, by kind.
#[derive(Debug, PartialEq, Eq)]
pub struct Library {
    pub tracks: Vec<Track>,
    pub albums: Vec<Album>,
    pub artists: Vec<Artist>,
    pub playlists: Vec<Playlist>,
}

/// A [`Library`] with its lists as sequences.
#[verifier::ext_equal]
pub struct LibraryView {
    pub tracks: Seq<Track>,
    pub albums: Seq<Album>,
    pub artists: Seq<Artist>,
    pub playlists: Seq<Playlist>,
}

impl View for Library {
    type V = LibraryView;

    open spec fn view(&self) -> LibraryView {
        LibraryView {
            tracks: self.tracks@,
            albums: self.albums@,
            artists: self.artists@,
            playlists: self.playlists@,
        }
    }
}

impl Default for Library {
    fn default() -> (r: Self)
        ensures
            r@.tracks.len() == 0,
            r@.albums.len() == 0,
            r@.artists.len() == 0,
            r@.playlists.len() == 0,
    {
        Library {
            tracks: Vec::new(),
            albums: Vec::new(),
            artists: Vec::new(),
            playlists: Vec::new(),
        }
    }
}

/// What was on disk last time, by kind. An empty list is not an error.
#[derive(Debug, PartialEq, Eq)]
pub struct Cached {
    pub songs: Vec<Track>,
    pub albums: Vec<Album>,
    pub artists: Vec<Artist>,
    pub playlists: Vec<Playlist>,
}

/// Whether a needle occurs in any of these fields, without regard to case. An
/// empty needle finds everything.
pub open spec fn found_in(needle: Seq<char>, fields: Seq<Seq<char>>) -> bool {
    needle.len() == 0 || exists|i: int|
        0 <= i < fields.len() && text::occurs(#[trigger] text::lowercase(fields[i]), needle)
}

/// Whether a needle occurs in any of these fields.
pub fn matches(needle: &str, fields: &[&str]) -> (r: bool)
    ensures
        r == found_in(needle@, fields@.map_values(|f: &str| f@)),
{
    let ghost all = fields@.map_values(|f: &str| f@);
    if needle.is_empty() {
        return true;
    }
    let mut i: usize = 0;
    while i < fields.len()
        invariant
            i <= fields@.len(),
            all == fields@.map_values(|f: &str| f@),
            forall|j: int|
                0 <= j < i ==> !text::occurs(#[trigger] text::lowercase(all[j]), needle@),
        decreases fields@.len() - i,
    {
        let field = fields[i].to_lowercase();
        if text::contains(field.as_str(), needle) {
            proof {
                assert(text::occurs(text::lowercase(all[i as int]), needle@));
            }
            return true;
        }
        i += 1;
    }
    proof {
        if needle@.len() == 0 {
            assert(needle@ =~= Seq::empty());
        }
    }
    false
}

/// What a row is searched by: a title, an artist and an album, or the names it
/// has.
pub open spec fn searched(entry: Entry) -> Seq<Seq<char>> {
    match entry {
        Entry::Song(t) => seq![t.title@, t.artist@, t.album@],
        Entry::Album(a) => seq![a.name@, a.artist@],
        Entry::Artist(a) => seq![a.name@],
        Entry::Playlist(p) => seq![p.name@],
    }
}

/// Whether a track's title, artist or album holds the needle.
pub fn matches_track(track: &Track, needle: &str) -> (r: bool)
    ensures
        r == found_in(needle@, searched(Entry::Song(*track))),
{
    let fields = [track.title.as_str(), track.artist.as_str(), track.album.as_str()];
    proof {
        assert(fields@.map_values(|f: &str| f@) =~= searched(Entry::Song(*track)));
    }
    matches(needle, fields.as_slice())
}

fn matches_row(entry: &Entry, needle: &str) -> (r: bool)
    ensures
        r == found_in(needle@, searched(*entry)),
{
    match entry {
        Entry::Song(t) => matches_track(t, needle),
        Entry::Album(a) => {
            let fields = [a.name.as_str(), a.artist.as_str()];
            proof {
                assert(fields@.map_values(|f: &str| f@) =~= searched(*entry));
            }
            matches(needle, fields.as_slice())
        },
        Entry::Artist(a) => {
            let fields = [a.name.as_str()];
            proof {
                assert(fields@.map_values(|f: &str| f@) =~= searched(*entry));
            }
            matches(needle, fields.as_slice())
        },
        Entry::Playlist(p) => {
            let fields = [p.name.as_str()];
            proof {
                assert(fields@.map_values(|f: &str| f@) =~= searched(*entry));
            }
            matches(needle, fields.as_slice())
        },
    }
}

/// The rows of a list that a needle finds, in order.
pub open spec fn finds(list: Seq<Entry>, needle: Seq<char>) -> Seq<Entry> {
    list.filter(|entry: Entry| found_in(needle, searched(entry)))
}

/// One step of a filter, from the front.
pub proof fn filter_grows<T>(list: Seq<T>, keep: spec_fn(T) -> bool, i: int)
    requires
        0 <= i < list.len(),
    ensures
        list.take(i + 1).filter(keep) == if keep(list[i]) {
            list.take(i).filter(keep).push(list[i])
        } else {
            list.take(i).filter(keep)
        },
{
    reveal(Seq::filter);
    assert(list.take(i + 1).drop_last() =~= list.take(i));
}

fn find_rows(list: Vec<Entry>, needle: &str) -> (r: Vec<Entry>)
    ensures
        r@ == finds(list@, needle@),
{
    let ghost keep = |entry: Entry| found_in(needle@, searched(entry));
    let mut out: Vec<Entry> = Vec::new();
    let mut i: usize = 0;
    proof {
        reveal(Seq::filter);
        assert(list@.take(0).filter(keep) =~= Seq::empty());
    }
    while i < list.len()
        invariant
            i <= list@.len(),
            keep == |entry: Entry| found_in(needle@, searched(entry)),
            out@ == list@.take(i as int).filter(keep),
        decreases list@.len() - i,
    {
        proof {
            filter_grows(list@, keep, i as int);
        }
        if matches_row(&list[i], needle) {
            out.push(list[i].clone());
        }
        i += 1;
    }
    proof {
        assert(list@.take(i as int) =~= list@);
    }
    out
}

/// Songs as rows.
pub open spec fn song_rows(tracks: Seq<Track>) -> Seq<Entry> {
    tracks.map_values(|t: Track| Entry::Song(t))
}

/// Albums as rows.
pub open spec fn album_rows(albums: Seq<Album>) -> Seq<Entry> {
    albums.map_values(|a: Album| Entry::Album(a))
}

/// Artists as rows.
pub open spec fn artist_rows(artists: Seq<Artist>) -> Seq<Entry> {
    artists.map_values(|a: Artist| Entry::Artist(a))
}

/// Playlists as rows.
pub open spec fn playlist_rows(playlists: Seq<Playlist>) -> Seq<Entry> {
    playlists.map_values(|p: Playlist| Entry::Playlist(p))
}

/// The first `limit` songs, as rows at the end of a list.
pub fn push_songs(out: &mut Vec<Entry>, tracks: &[Track], limit: usize)
    ensures
        final(out)@ == old(out)@ + song_rows(
            tracks@.take(
                if limit <= tracks@.len() {
                    limit as int
                } else {
                    tracks@.len() as int
                },
            ),
        ),
{
    let mut i: usize = 0;
    while i < tracks.len() && i < limit
        invariant
            i <= tracks@.len(),
            i <= limit,
            out@ == old(out)@ + song_rows(tracks@.take(i as int)),
        decreases tracks@.len() - i,
    {
        let ghost so_far = song_rows(tracks@.take(i as int));
        out.push(Entry::Song(tracks[i].clone()));
        proof {
            assert(song_rows(tracks@.take(i + 1)) =~= so_far.push(Entry::Song(tracks@[i as int])));
            assert(out@ =~= old(out)@ + song_rows(tracks@.take(i + 1)));
        }
        i += 1;
    }
}

/// The first `limit` albums, as rows at the end of a list.
pub fn push_albums(out: &mut Vec<Entry>, albums: &[Album], limit: usize)
    ensures
        final(out)@ == old(out)@ + album_rows(
            albums@.take(
                if limit <= albums@.len() {
                    limit as int
                } else {
                    albums@.len() as int
                },
            ),
        ),
{
    let mut i: usize = 0;
    while i < albums.len() && i < limit
        invariant
            i <= albums@.len(),
            i <= limit,
            out@ == old(out)@ + album_rows(albums@.take(i as int)),
        decreases albums@.len() - i,
    {
        let ghost so_far = album_rows(albums@.take(i as int));
        out.push(Entry::Album(albums[i].clone()));
        proof {
            assert(album_rows(albums@.take(i + 1)) =~= so_far.push(
                Entry::Album(albums@[i as int]),
            ));
            assert(out@ =~= old(out)@ + album_rows(albums@.take(i + 1)));
        }
        i += 1;
    }
}

/// The first `limit` artists, as rows at the end of a list.
pub fn push_artists(out: &mut Vec<Entry>, artists: &[Artist], limit: usize)
    ensures
        final(out)@ == old(out)@ + artist_rows(
            artists@.take(
                if limit <= artists@.len() {
                    limit as int
                } else {
                    artists@.len() as int
                },
            ),
        ),
{
    let mut i: usize = 0;
    while i < artists.len() && i < limit
        invariant
            i <= artists@.len(),
            i <= limit,
            out@ == old(out)@ + artist_rows(artists@.take(i as int)),
        decreases artists@.len() - i,
    {
        let ghost so_far = artist_rows(artists@.take(i as int));
        out.push(Entry::Artist(artists[i].clone()));
        proof {
            assert(artist_rows(artists@.take(i + 1)) =~= so_far.push(
                Entry::Artist(artists@[i as int]),
            ));
            assert(out@ =~= old(out)@ + artist_rows(artists@.take(i + 1)));
        }
        i += 1;
    }
}

/// The first `limit` playlists, as rows at the end of a list.
pub fn push_playlists(out: &mut Vec<Entry>, playlists: &[Playlist], limit: usize)
    ensures
        final(out)@ == old(out)@ + playlist_rows(
            playlists@.take(
                if limit <= playlists@.len() {
                    limit as int
                } else {
                    playlists@.len() as int
                },
            ),
        ),
{
    let mut i: usize = 0;
    while i < playlists.len() && i < limit
        invariant
            i <= playlists@.len(),
            i <= limit,
            out@ == old(out)@ + playlist_rows(playlists@.take(i as int)),
        decreases playlists@.len() - i,
    {
        let ghost so_far = playlist_rows(playlists@.take(i as int));
        out.push(Entry::Playlist(playlists[i].clone()));
        proof {
            assert(playlist_rows(playlists@.take(i + 1)) =~= so_far.push(
                Entry::Playlist(playlists@[i as int]),
            ));
            assert(out@ =~= old(out)@ + playlist_rows(playlists@.take(i + 1)));
        }
        i += 1;
    }
}

impl LibraryView {
    /// One section, as rows.
    pub open spec fn shelf(self, view: ipc::View) -> Seq<Entry> {
        match view {
            ipc::View::Songs => song_rows(self.tracks),
            ipc::View::Albums => album_rows(self.albums),
            ipc::View::Artists => artist_rows(self.artists),
            ipc::View::Playlists => playlist_rows(self.playlists),
        }
    }

    /// The rows of a section that a query finds.
    pub open spec fn matching(self, view: ipc::View, query: Seq<char>) -> Seq<Entry> {
        finds(self.shelf(view), text::folded(query))
    }
}

/// A window of a list: `limit` rows from `offset` on, or all that there are. A
/// limit of zero is no limit.
pub open spec fn window(rows: Seq<Entry>, offset: int, limit: int) -> Seq<Entry> {
    let from = if offset < rows.len() {
        offset
    } else {
        rows.len() as int
    };
    let to = if limit == 0 || from + limit > rows.len() {
        rows.len() as int
    } else {
        from + limit
    };
    rows.subrange(from, to)
}

impl Library {
    /// What was on disk last time. An empty library is not an error: the first
    /// browse waits on the service instead of answering instantly.
    pub fn from_cache(cached: Cached) -> (r: Self)
        ensures
            r@ == (LibraryView {
                tracks: cached.songs@,
                albums: cached.albums@,
                artists: cached.artists@,
                playlists: cached.playlists@,
            }),
    {
        Library {
            tracks: cached.songs,
            albums: cached.albums,
            artists: cached.artists,
            playlists: cached.playlists,
        }
    }

    fn rows(&self, view: ipc::View) -> (r: Vec<Entry>)
        ensures
            r@ == self@.shelf(view),
    {
        let mut out: Vec<Entry> = Vec::new();
        match view {
            ipc::View::Songs => {
                let n: usize = self.tracks.len();
                push_songs(&mut out, self.tracks.as_slice(), n);
                proof {
                    assert(self.tracks@.take(n as int) =~= self.tracks@);
                }
            },
            ipc::View::Albums => {
                let n: usize = self.albums.len();
                push_albums(&mut out, self.albums.as_slice(), n);
                proof {
                    assert(self.albums@.take(n as int) =~= self.albums@);
                }
            },
            ipc::View::Artists => {
                let n: usize = self.artists.len();
                push_artists(&mut out, self.artists.as_slice(), n);
                proof {
                    assert(self.artists@.take(n as int) =~= self.artists@);
                }
            },
            ipc::View::Playlists => {
                let n: usize = self.playlists.len();
                push_playlists(&mut out, self.playlists.as_slice(), n);
                proof {
                    assert(self.playlists@.take(n as int) =~= self.playlists@);
                }
            },
        }
        proof {
            assert(out@ =~= self@.shelf(view));
        }
        out
    }

    /// One window of one section, and how many rows there were before it was
    /// cut, so that a client can size a scrollbar.
    pub fn browse(&self, view: ipc::View, query: &str, offset: usize, limit: usize) -> (r: (
        Vec<Entry>,
        usize,
    ))
        ensures
            r.0@ == window(self@.matching(view, query@), offset as int, limit as int),
            r.1 == self@.matching(view, query@).len(),
    {
        let needle = text::fold_query(query);
        let all: Vec<Entry> = find_rows(self.rows(view), needle.as_str());
        let total: usize = all.len();
        let from: usize = if offset < total {
            offset
        } else {
            total
        };
        let to: usize = if limit == 0 || limit > total - from {
            total
        } else {
            from + limit
        };
        let mut rows: Vec<Entry> = Vec::new();
        let mut i: usize = from;
        while i < to
            invariant
                from <= i <= to <= all@.len(),
                rows@ == all@.subrange(from as int, i as int),
            decreases to - i,
        {
            rows.push(all[i].clone());
            proof {
                assert(rows@ =~= all@.subrange(from as int, i + 1));
            }
            i += 1;
        }
        (rows, total)
    }
}

/// A list cut to its first few.
pub open spec fn few<T>(list: Seq<T>) -> Seq<T> {
    if list.len() > CATALOG_BROWSE_ROWS {
        list.take(CATALOG_BROWSE_ROWS as int)
    } else {
        list
    }
}

/// The rows one page of catalog results makes.
pub open spec fn result_rows(
    filter: CatalogFilter,
    found: SearchResults,
    first_page: bool,
) -> Seq<Entry> {
    match filter {
        CatalogFilter::All => if first_page {
            artist_rows(few(found.artists@)) + playlist_rows(few(found.playlists@)) + album_rows(
                few(found.albums@),
            ) + song_rows(found.songs@)
        } else {
            song_rows(found.songs@)
        },
        CatalogFilter::Songs => song_rows(found.songs@),
        CatalogFilter::Albums => album_rows(found.albums@),
        CatalogFilter::Artists => artist_rows(found.artists@),
        CatalogFilter::Playlists => playlist_rows(found.playlists@),
    }
}

/// How far one page of catalog results moves the offset: by the kind the filter
/// pages, which is songs when it names none.
pub open spec fn paged_by(filter: CatalogFilter, found: SearchResults) -> nat {
    match filter {
        CatalogFilter::All => found.songs@.len(),
        CatalogFilter::Songs => found.songs@.len(),
        CatalogFilter::Albums => found.albums@.len(),
        CatalogFilter::Artists => found.artists@.len(),
        CatalogFilter::Playlists => found.playlists@.len(),
    }
}

/// Fold one page of catalog results into rows, and report how many of the
/// **paging kind** came back.
///
/// One offset advances across every kind asked for, so exactly one kind can
/// drive paging, and which one depends on the filter. Unfiltered, artists,
/// playlists and albums are trimmed hard and put on top: they are doors, and
/// songs would bury them. Later pages append songs only, because the other
/// kinds come back on every page.
pub fn catalog_rows(filter: CatalogFilter, found: SearchResults, first_page: bool) -> (r: (
    Vec<Entry>,
    usize,
))
    ensures
        r.0@ == result_rows(filter, found, first_page),
        r.1 == paged_by(filter, found),
{
    let mut rows: Vec<Entry> = Vec::new();
    let n_songs: usize = found.songs.len();
    let n_albums: usize = found.albums.len();
    let n_artists: usize = found.artists.len();
    let n_playlists: usize = found.playlists.len();
    proof {
        assert(found.songs@.take(n_songs as int) =~= found.songs@);
        assert(found.albums@.take(n_albums as int) =~= found.albums@);
        assert(found.artists@.take(n_artists as int) =~= found.artists@);
        assert(found.playlists@.take(n_playlists as int) =~= found.playlists@);
    }
    let paged: usize = match filter {
        CatalogFilter::All => {
            if first_page {
                push_artists(&mut rows, found.artists.as_slice(), CATALOG_BROWSE_ROWS);
                push_playlists(&mut rows, found.playlists.as_slice(), CATALOG_BROWSE_ROWS);
                push_albums(&mut rows, found.albums.as_slice(), CATALOG_BROWSE_ROWS);
            }
            push_songs(&mut rows, found.songs.as_slice(), n_songs);
            n_songs
        },
        CatalogFilter::Songs => {
            push_songs(&mut rows, found.songs.as_slice(), n_songs);
            n_songs
        },
        CatalogFilter::Albums => {
            push_albums(&mut rows, found.albums.as_slice(), n_albums);
            n_albums
        },
        CatalogFilter::Artists => {
            push_artists(&mut rows, found.artists.as_slice(), n_artists);
            n_artists
        },
        CatalogFilter::Playlists => {
            push_playlists(&mut rows, found.playlists.as_slice(), n_playlists);
            n_playlists
        },
    };
    proof {
        assert(rows@ =~= result_rows(filter, found, first_page));
    }
    (rows, paged)
}

/// An empty query finds everything: no row of any section is left out.
pub proof fn an_empty_query_finds_everything(library: LibraryView, view: ipc::View)
    ensures
        finds(library.shelf(view), Seq::empty()) == library.shelf(view),
{
    keeps_all(library.shelf(view), |e: Entry| found_in(Seq::empty(), searched(e)));
}

proof fn keeps_all(list: Seq<Entry>, keep: spec_fn(Entry) -> bool)
    requires
        forall|e: Entry| #[trigger] keep(e),
    ensures
        list.filter(keep) == list,
    decreases list.len(),
{
    reveal(Seq::filter);
    if list.len() > 0 {
        keeps_all(list.drop_last(), keep);
        assert(list =~= list.drop_last().push(list.last()));
    }
}

/// Windows laid end to end are the whole list: what one leaves off, the next
/// takes up.
pub proof fn windows_lie_end_to_end(rows: Seq<Entry>, offset: int, limit: int)
    requires
        0 <= offset,
        0 < limit,
    ensures
        window(rows, offset, limit) + window(rows, offset + limit, 0) == window(rows, offset, 0),
        window(rows, 0, 0) == rows,
        window(rows, offset, limit).len() <= limit,
{
    assert(window(rows, offset, limit) + window(rows, offset + limit, 0) =~= window(
        rows,
        offset,
        0,
    ));
    assert(window(rows, 0, 0) =~= rows);
}

} // verus!
