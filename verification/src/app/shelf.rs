//! What the content pane is showing, and where it came from.
//!
//! Three collections, a list and one catalog search. Loading is per section and
//! on first visit, and each section answers for its own emptiness. A rebuild is
//! skipped where the rows already on screen are the ones it would build.

use vstd::prelude::*;
use vstd::view::View as _;

use crate::library;
use crate::music;
use crate::music::{Album, Artist, Entry, Playlist, Track};
use crate::sort;
use crate::text;
use crate::view::{CatalogFilter, SearchScope, SortBy, Sorts, View};

verus! {

/// How many results one catalog request brings back at most.
pub const CATALOG_LIMIT: usize = 25;

/// Stop paging here: an unbounded list is an unbounded number of requests.
pub const CATALOG_MAX: usize = 200;

/// One yes or no per collection.
#[derive(Debug, Clone, Copy, PartialEq, Eq, Structural)]
pub struct Each {
    pub songs: bool,
    pub albums: bool,
    pub artists: bool,
    pub playlists: bool,
}

/// How much of the service can be reached.
#[derive(Debug, Clone, Copy, PartialEq, Eq, Structural)]
pub enum Access {
    /// Nothing: there are no tokens yet.
    Away,
    /// The catalog, but nobody's library.
    Guest,
    /// Everything.
    Member,
}

/// What the rows on screen were built for.
#[derive(Debug, PartialEq, Eq)]
pub struct RowsFor {
    pub query: String,
    pub by: SortBy,
    pub reversed: bool,
    pub scope: SearchScope,
}

/// A [`RowsFor`] with its text as a sequence.
#[verifier::ext_equal]
pub struct RowsForView {
    pub query: Seq<char>,
    pub by: SortBy,
    pub reversed: bool,
    pub scope: SearchScope,
}

impl vstd::view::View for RowsFor {
    type V = RowsForView;

    open spec fn view(&self) -> RowsForView {
        RowsForView {
            query: self.query@,
            by: self.by,
            reversed: self.reversed,
            scope: self.scope,
        }
    }
}

/// Something to be done about the content pane.
#[derive(Debug, PartialEq, Eq)]
pub enum ShelfTask {
    FetchSongs,
    FetchAlbums,
    FetchArtists,
    FetchPlaylists,
    /// Ask the catalog, and answer under this generation.
    Search { generation: u64, offset: usize, term: String, filter: CatalogFilter },
    /// Ask once the search box has sat still, if it has.
    SearchLater { generation: u64 },
    /// Draw the rows anew, from the top.
    DrawRows,
    /// Draw this many rows below those already there.
    DrawMoreRows { count: usize },
    DrawAlbums,
    DrawArtists,
    DrawPlaylists,
}

/// A [`ShelfTask`] with its text as a sequence.
#[verifier::ext_equal]
pub enum ShelfTaskView {
    FetchSongs,
    FetchAlbums,
    FetchArtists,
    FetchPlaylists,
    Search { generation: u64, offset: int, term: Seq<char>, filter: CatalogFilter },
    SearchLater { generation: u64 },
    DrawRows,
    DrawMoreRows { count: int },
    DrawAlbums,
    DrawArtists,
    DrawPlaylists,
}

impl vstd::view::View for ShelfTask {
    type V = ShelfTaskView;

    open spec fn view(&self) -> ShelfTaskView {
        match *self {
            ShelfTask::FetchSongs => ShelfTaskView::FetchSongs,
            ShelfTask::FetchAlbums => ShelfTaskView::FetchAlbums,
            ShelfTask::FetchArtists => ShelfTaskView::FetchArtists,
            ShelfTask::FetchPlaylists => ShelfTaskView::FetchPlaylists,
            ShelfTask::Search { generation, offset, term, filter } => ShelfTaskView::Search {
                generation,
                offset: offset as int,
                term: term@,
                filter,
            },
            ShelfTask::SearchLater { generation } => ShelfTaskView::SearchLater { generation },
            ShelfTask::DrawRows => ShelfTaskView::DrawRows,
            ShelfTask::DrawMoreRows { count } => ShelfTaskView::DrawMoreRows {
                count: count as int,
            },
            ShelfTask::DrawAlbums => ShelfTaskView::DrawAlbums,
            ShelfTask::DrawArtists => ShelfTaskView::DrawArtists,
            ShelfTask::DrawPlaylists => ShelfTaskView::DrawPlaylists,
        }
    }
}

/// The content pane.
#[derive(Debug)]
pub struct Shelf {
    /// Which section is showing. The search scope is derived from it.
    pub view: View,
    pub sorts: Sorts,
    /// The whole library, by kind. Filters read this and never the rows, so
    /// that clearing a search is lossless.
    pub tracks: Vec<Track>,
    pub albums: Vec<Album>,
    pub artists: Vec<Artist>,
    pub playlists: Vec<Playlist>,
    /// One query per scope: they are different searches.
    pub library_query: String,
    pub catalog_query: String,
    /// What is on screen.
    pub rows: Vec<Entry>,
    pub album_tiles: Vec<Album>,
    pub artist_tiles: Vec<Artist>,
    pub playlist_tiles: Vec<Playlist>,
    /// What it was built for. `None` means stale.
    pub built_rows: Option<RowsFor>,
    pub built_albums: Option<String>,
    pub built_artists: Option<String>,
    pub built_playlists: Option<String>,
    pub loading: Each,
    /// Whether a load has been *attempted*. A failure leaves a collection
    /// empty, and "empty" alone would mean trying again on every event.
    pub tried: Each,
    /// Results of the last catalog search, apart from the library.
    pub catalog: Vec<Entry>,
    /// How many rows of the paging kind `catalog` holds, and so where the next
    /// page starts.
    pub catalog_paged: usize,
    pub catalog_filter: CatalogFilter,
    pub searching: bool,
    pub exhausted: bool,
    /// Only the newest search may fire, and only its answer may land.
    pub search_gen: u64,
    /// Which row carries the play marker.
    pub marked: Option<String>,
    /// What to do, in order.
    pub todo: Vec<ShelfTask>,
}

/// A [`Shelf`] with its texts as sequences.
#[verifier::ext_equal]
pub struct ShelfView {
    pub view: View,
    pub sorts: Sorts,
    pub tracks: Seq<Track>,
    pub albums: Seq<Album>,
    pub artists: Seq<Artist>,
    pub playlists: Seq<Playlist>,
    pub library_query: Seq<char>,
    pub catalog_query: Seq<char>,
    pub rows: Seq<Entry>,
    pub album_tiles: Seq<Album>,
    pub artist_tiles: Seq<Artist>,
    pub playlist_tiles: Seq<Playlist>,
    pub built_rows: Option<RowsForView>,
    pub built_albums: Option<Seq<char>>,
    pub built_artists: Option<Seq<char>>,
    pub built_playlists: Option<Seq<char>>,
    pub loading: Each,
    pub tried: Each,
    pub catalog: Seq<Entry>,
    pub catalog_paged: int,
    pub catalog_filter: CatalogFilter,
    pub searching: bool,
    pub exhausted: bool,
    pub search_gen: u64,
    pub marked: Option<Seq<char>>,
    pub todo: Seq<ShelfTaskView>,
}

/// The tasks of a list.
pub open spec fn todo_of(list: Seq<ShelfTask>) -> Seq<ShelfTaskView> {
    list.map_values(|t: ShelfTask| t@)
}

impl vstd::view::View for Shelf {
    type V = ShelfView;

    open spec fn view(&self) -> ShelfView {
        ShelfView {
            view: self.view,
            sorts: self.sorts,
            tracks: self.tracks@,
            albums: self.albums@,
            artists: self.artists@,
            playlists: self.playlists@,
            library_query: self.library_query@,
            catalog_query: self.catalog_query@,
            rows: self.rows@,
            album_tiles: self.album_tiles@,
            artist_tiles: self.artist_tiles@,
            playlist_tiles: self.playlist_tiles@,
            built_rows: match self.built_rows {
                Some(rows) => Some(rows@),
                None => None,
            },
            built_albums: text::text_view(self.built_albums),
            built_artists: text::text_view(self.built_artists),
            built_playlists: text::text_view(self.built_playlists),
            loading: self.loading,
            tried: self.tried,
            catalog: self.catalog@,
            catalog_paged: self.catalog_paged as int,
            catalog_filter: self.catalog_filter,
            searching: self.searching,
            exhausted: self.exhausted,
            search_gen: self.search_gen,
            marked: text::text_view(self.marked),
            todo: todo_of(self.todo@),
        }
    }
}

/// The tracks a query finds: by title, artist or album.
pub open spec fn tracks_found(tracks: Seq<Track>, needle: Seq<char>) -> Seq<Track> {
    tracks.filter(
        |t: Track| library::found_in(needle, seq![t.title@, t.artist@, t.album@]),
    )
}

/// The albums a query finds: by name or artist.
pub open spec fn albums_found(albums: Seq<Album>, needle: Seq<char>) -> Seq<Album> {
    albums.filter(|a: Album| library::found_in(needle, seq![a.name@, a.artist@]))
}

/// The artists a query finds: by name.
pub open spec fn artists_found(artists: Seq<Artist>, needle: Seq<char>) -> Seq<Artist> {
    artists.filter(|a: Artist| library::found_in(needle, seq![a.name@]))
}

/// The playlists a query finds: by name or curator.
pub open spec fn playlists_found(playlists: Seq<Playlist>, needle: Seq<char>) -> Seq<Playlist> {
    playlists.filter(|p: Playlist| library::found_in(needle, seq![p.name@, p.curator@]))
}

/// Whether there is nothing in a text but white space.
pub open spec fn blank(query: Seq<char>) -> bool {
    text::trimmed(query).len() == 0
}

impl ShelfView {
    /// A shelf with nothing on it yet.
    pub open spec fn fresh(view: View, sorts: Sorts) -> ShelfView {
        ShelfView {
            view,
            sorts,
            tracks: Seq::empty(),
            albums: Seq::empty(),
            artists: Seq::empty(),
            playlists: Seq::empty(),
            library_query: Seq::empty(),
            catalog_query: Seq::empty(),
            rows: Seq::empty(),
            album_tiles: Seq::empty(),
            artist_tiles: Seq::empty(),
            playlist_tiles: Seq::empty(),
            built_rows: None,
            built_albums: None,
            built_artists: None,
            built_playlists: None,
            loading: Each { songs: false, albums: false, artists: false, playlists: false },
            tried: Each { songs: false, albums: false, artists: false, playlists: false },
            catalog: Seq::empty(),
            catalog_paged: 0,
            catalog_filter: CatalogFilter::All,
            searching: false,
            exhausted: false,
            search_gen: 0,
            marked: None,
            todo: Seq::empty(),
        }
    }
}

impl ShelfView {
    pub open spec fn doing(self, task: ShelfTaskView) -> ShelfView {
        ShelfView { todo: self.todo.push(task), ..self }
    }

    /// The text of whichever search is showing.
    pub open spec fn query(self) -> Seq<char> {
        match self.view.searches() {
            SearchScope::Library => self.library_query,
            SearchScope::Catalog => self.catalog_query,
        }
    }

    /// What the list shows, in order: the library, filtered and sorted, or what
    /// the catalog answered, as it ranked it.
    pub open spec fn visible(self) -> Seq<Entry> {
        match self.view.searches() {
            SearchScope::Library => library::song_rows(
                sort::displayed(
                    tracks_found(self.tracks, text::folded(self.library_query)),
                    self.sorts.songs.by,
                    self.sorts.songs.reversed,
                ),
            ),
            SearchScope::Catalog => self.catalog,
        }
    }

    /// What rows built now would be built for.
    pub open spec fn rows_for(self) -> RowsForView {
        RowsForView {
            query: self.query(),
            by: self.sorts.songs.by,
            reversed: self.sorts.songs.reversed,
            scope: self.view.searches(),
        }
    }

    /// The shelf with its rows built, unless they are already.
    #[verifier::opaque]
    pub open spec fn with_rows(self, playing: Option<Seq<char>>) -> ShelfView {
        if self.built_rows == Some(self.rows_for()) {
            self
        } else {
            ShelfView {
                built_rows: Some(self.rows_for()),
                rows: self.visible(),
                marked: playing,
                ..self
            }.doing(ShelfTaskView::DrawRows)
        }
    }

    /// The shelf with its albums built, unless they are already.
    #[verifier::opaque]
    pub open spec fn with_albums(self) -> ShelfView {
        let needle = text::folded(self.library_query);
        if self.built_albums == Some(needle) {
            self
        } else {
            ShelfView {
                built_albums: Some(needle),
                album_tiles: sort::displayed(
                    albums_found(self.albums, needle),
                    self.sorts.albums.by,
                    self.sorts.albums.reversed,
                ),
                ..self
            }.doing(ShelfTaskView::DrawAlbums)
        }
    }

    /// The shelf with its artists built, unless they are already.
    #[verifier::opaque]
    pub open spec fn with_artists(self) -> ShelfView {
        let needle = text::folded(self.library_query);
        if self.built_artists == Some(needle) {
            self
        } else {
            ShelfView {
                built_artists: Some(needle),
                artist_tiles: sort::displayed(
                    artists_found(self.artists, needle),
                    self.sorts.artists.by,
                    self.sorts.artists.reversed,
                ),
                ..self
            }.doing(ShelfTaskView::DrawArtists)
        }
    }

    /// The shelf with its playlists built, unless they are already.
    #[verifier::opaque]
    pub open spec fn with_playlists(self) -> ShelfView {
        let needle = text::folded(self.library_query);
        if self.built_playlists == Some(needle) {
            self
        } else {
            ShelfView {
                built_playlists: Some(needle),
                playlist_tiles: sort::displayed(
                    playlists_found(self.playlists, needle),
                    self.sorts.playlists.by,
                    self.sorts.playlists.reversed,
                ),
                ..self
            }.doing(ShelfTaskView::DrawPlaylists)
        }
    }

    /// The shelf with the songs on their way, where they can be had and have
    /// not been tried for.
    #[verifier::opaque]
    pub open spec fn loading_songs(self, access: Access) -> ShelfView {
        if self.tried.songs || access != Access::Member {
            self
        } else {
            ShelfView {
                tried: Each { songs: true, ..self.tried },
                loading: Each { songs: true, ..self.loading },
                ..self
            }.doing(ShelfTaskView::FetchSongs)
        }
    }

    /// The shelf with the albums on their way, once.
    #[verifier::opaque]
    pub open spec fn loading_albums(self, access: Access) -> ShelfView {
        if self.loading.albums || self.tried.albums || self.albums.len() > 0 {
            self
        } else {
            let tried = ShelfView { tried: Each { albums: true, ..self.tried }, ..self };
            if access == Access::Away {
                tried
            } else {
                ShelfView { loading: Each { albums: true, ..self.loading }, ..tried }.doing(
                    ShelfTaskView::FetchAlbums,
                )
            }
        }
    }

    /// The shelf with the artists on their way, once.
    #[verifier::opaque]
    pub open spec fn loading_artists(self, access: Access) -> ShelfView {
        if self.loading.artists || self.tried.artists || self.artists.len() > 0 {
            self
        } else {
            let tried = ShelfView { tried: Each { artists: true, ..self.tried }, ..self };
            if access == Access::Away {
                tried
            } else {
                ShelfView { loading: Each { artists: true, ..self.loading }, ..tried }.doing(
                    ShelfTaskView::FetchArtists,
                )
            }
        }
    }

    /// The shelf with the playlists on their way, once.
    #[verifier::opaque]
    pub open spec fn loading_playlists(self, access: Access) -> ShelfView {
        if self.loading.playlists || self.tried.playlists || self.playlists.len() > 0 {
            self
        } else {
            let tried = ShelfView { tried: Each { playlists: true, ..self.tried }, ..self };
            if access == Access::Away {
                tried
            } else {
                ShelfView { loading: Each { playlists: true, ..self.loading }, ..tried }.doing(
                    ShelfTaskView::FetchPlaylists,
                )
            }
        }
    }

    /// The shelf with a catalog search on its way, where there is something to
    /// ask and someone to ask.
    #[verifier::opaque]
    pub open spec fn asking(self, access: Access, generation: u64, offset: int) -> ShelfView {
        if access == Access::Away || blank(self.catalog_query) {
            self
        } else {
            ShelfView { searching: true, ..self }.doing(
                ShelfTaskView::Search {
                    generation,
                    offset,
                    term: text::trimmed(self.catalog_query),
                    filter: self.catalog_filter,
                },
            )
        }
    }
}

fn find_tracks(tracks: &[Track], needle: &str) -> (r: Vec<Track>)
    ensures
        r@ == tracks_found(tracks@, needle@),
{
    let ghost keep = |t: Track| library::found_in(needle@, seq![t.title@, t.artist@, t.album@]);
    let mut out: Vec<Track> = Vec::new();
    let mut i: usize = 0;
    proof {
        reveal(Seq::filter);
        assert(tracks@.take(0).filter(keep) =~= Seq::empty());
    }
    while i < tracks.len()
        invariant
            i <= tracks@.len(),
            keep == |t: Track| library::found_in(needle@, seq![t.title@, t.artist@, t.album@]),
            out@ == tracks@.take(i as int).filter(keep),
        decreases tracks@.len() - i,
    {
        proof {
            library::filter_grows(tracks@, keep, i as int);
        }
        let fields = [tracks[i].title.as_str(), tracks[i].artist.as_str(), tracks[i].album.as_str()];
        proof {
            let t = tracks@[i as int];
            assert(fields@.map_values(|f: &str| f@) =~= seq![t.title@, t.artist@, t.album@]);
        }
        if library::matches(needle, fields.as_slice()) {
            out.push(tracks[i].clone());
        }
        i += 1;
    }
    proof {
        assert(tracks@.take(i as int) =~= tracks@);
    }
    out
}

fn find_albums(albums: &[Album], needle: &str) -> (r: Vec<Album>)
    ensures
        r@ == albums_found(albums@, needle@),
{
    let ghost keep = |a: Album| library::found_in(needle@, seq![a.name@, a.artist@]);
    let mut out: Vec<Album> = Vec::new();
    let mut i: usize = 0;
    proof {
        reveal(Seq::filter);
        assert(albums@.take(0).filter(keep) =~= Seq::empty());
    }
    while i < albums.len()
        invariant
            i <= albums@.len(),
            keep == |a: Album| library::found_in(needle@, seq![a.name@, a.artist@]),
            out@ == albums@.take(i as int).filter(keep),
        decreases albums@.len() - i,
    {
        proof {
            library::filter_grows(albums@, keep, i as int);
        }
        let fields = [albums[i].name.as_str(), albums[i].artist.as_str()];
        proof {
            let a = albums@[i as int];
            assert(fields@.map_values(|f: &str| f@) =~= seq![a.name@, a.artist@]);
        }
        if library::matches(needle, fields.as_slice()) {
            out.push(albums[i].clone());
        }
        i += 1;
    }
    proof {
        assert(albums@.take(i as int) =~= albums@);
    }
    out
}

fn find_artists(artists: &[Artist], needle: &str) -> (r: Vec<Artist>)
    ensures
        r@ == artists_found(artists@, needle@),
{
    let ghost keep = |a: Artist| library::found_in(needle@, seq![a.name@]);
    let mut out: Vec<Artist> = Vec::new();
    let mut i: usize = 0;
    proof {
        reveal(Seq::filter);
        assert(artists@.take(0).filter(keep) =~= Seq::empty());
    }
    while i < artists.len()
        invariant
            i <= artists@.len(),
            keep == |a: Artist| library::found_in(needle@, seq![a.name@]),
            out@ == artists@.take(i as int).filter(keep),
        decreases artists@.len() - i,
    {
        proof {
            library::filter_grows(artists@, keep, i as int);
        }
        let fields = [artists[i].name.as_str()];
        proof {
            let a = artists@[i as int];
            assert(fields@.map_values(|f: &str| f@) =~= seq![a.name@]);
        }
        if library::matches(needle, fields.as_slice()) {
            out.push(artists[i].clone());
        }
        i += 1;
    }
    proof {
        assert(artists@.take(i as int) =~= artists@);
    }
    out
}

fn find_playlists(playlists: &[Playlist], needle: &str) -> (r: Vec<Playlist>)
    ensures
        r@ == playlists_found(playlists@, needle@),
{
    let ghost keep = |p: Playlist| library::found_in(needle@, seq![p.name@, p.curator@]);
    let mut out: Vec<Playlist> = Vec::new();
    let mut i: usize = 0;
    proof {
        reveal(Seq::filter);
        assert(playlists@.take(0).filter(keep) =~= Seq::empty());
    }
    while i < playlists.len()
        invariant
            i <= playlists@.len(),
            keep == |p: Playlist| library::found_in(needle@, seq![p.name@, p.curator@]),
            out@ == playlists@.take(i as int).filter(keep),
        decreases playlists@.len() - i,
    {
        proof {
            library::filter_grows(playlists@, keep, i as int);
        }
        let fields = [playlists[i].name.as_str(), playlists[i].curator.as_str()];
        proof {
            let p = playlists@[i as int];
            assert(fields@.map_values(|f: &str| f@) =~= seq![p.name@, p.curator@]);
        }
        if library::matches(needle, fields.as_slice()) {
            out.push(playlists[i].clone());
        }
        i += 1;
    }
    proof {
        assert(playlists@.take(i as int) =~= playlists@);
    }
    out
}

impl Shelf {
    /// A shelf with nothing on it yet.
    pub fn new(view: View, sorts: Sorts) -> (r: Self)
        ensures
            r@ == ShelfView::fresh(view, sorts),
    {
        let r = Shelf {
            view,
            sorts,
            tracks: Vec::new(),
            albums: Vec::new(),
            artists: Vec::new(),
            playlists: Vec::new(),
            library_query: String::new(),
            catalog_query: String::new(),
            rows: Vec::new(),
            album_tiles: Vec::new(),
            artist_tiles: Vec::new(),
            playlist_tiles: Vec::new(),
            built_rows: None,
            built_albums: None,
            built_artists: None,
            built_playlists: None,
            loading: Each { songs: false, albums: false, artists: false, playlists: false },
            tried: Each { songs: false, albums: false, artists: false, playlists: false },
            catalog: Vec::new(),
            catalog_paged: 0,
            catalog_filter: CatalogFilter::All,
            searching: false,
            exhausted: false,
            search_gen: 0,
            marked: None,
            todo: Vec::new(),
        };
        proof {
            assert(r@ =~= ShelfView::fresh(view, sorts));
        }
        r
    }

    pub(crate) fn task(&mut self, task: ShelfTask)
        ensures
            final(self)@ == old(self)@.doing(task@),
    {
        let ghost before = todo_of(self.todo@);
        let ghost more = task@;
        self.todo.push(task);
        proof {
            assert(todo_of(self.todo@) =~= before.push(more));
        }
    }

    /// The text of whichever search is showing.
    pub fn query(&self) -> (r: &str)
        ensures
            r@ == self@.query(),
    {
        match self.view.scope() {
            SearchScope::Library => self.library_query.as_str(),
            SearchScope::Catalog => self.catalog_query.as_str(),
        }
    }

    /// What the list shows, in order.
    pub fn visible_entries(&self) -> (r: Vec<Entry>)
        ensures
            r@ == self@.visible(),
    {
        match self.view.scope() {
            SearchScope::Library => {
                let needle = text::fold_query(self.library_query.as_str());
                let found = find_tracks(self.tracks.as_slice(), needle.as_str());
                let shown = sort::display(
                    found.as_slice(),
                    self.sorts.songs.by,
                    self.sorts.songs.reversed,
                );
                let n: usize = shown.len();
                let mut rows: Vec<Entry> = Vec::new();
                library::push_songs(&mut rows, shown.as_slice(), n);
                proof {
                    assert(shown@.take(n as int) =~= shown@);
                    assert(rows@ =~= library::song_rows(shown@));
                }
                rows
            },
            SearchScope::Catalog => music::copy_entries(self.catalog.as_slice()),
        }
    }

    /// Build the rows from the library or the catalog's answer, unless they are
    /// already. A rebuild resets the scroll, so it is the wrong tool for a
    /// change that only adds.
    pub fn rebuild_rows(&mut self, playing: Option<String>)
        ensures
            final(self)@ == old(self)@.with_rows(text::text_view(playing)),
    {
        proof {
            reveal(ShelfView::with_rows);
        }
        let fresh = RowsFor {
            query: self.query().to_string(),
            by: self.sorts.songs.by,
            reversed: self.sorts.songs.reversed,
            scope: self.view.scope(),
        };
        let done = match &self.built_rows {
            Some(built) => text::same(built.query.as_str(), fresh.query.as_str()) && built.by
                == fresh.by && built.reversed == fresh.reversed && built.scope == fresh.scope,
            None => false,
        };
        if done {
            return ;
        }
        self.rows = self.visible_entries();
        self.built_rows = Some(fresh);
        self.marked = playing;
        self.task(ShelfTask::DrawRows);
    }

    /// Load the library's songs, once. Without a user's own token the request
    /// cannot succeed, so it is not made.
    pub fn load_songs(&mut self, access: Access)
        ensures
            final(self)@ == old(self)@.loading_songs(access),
    {
        proof {
            reveal(ShelfView::loading_songs);
        }
        if self.tried.songs || access != Access::Member {
            return ;
        }
        self.tried.songs = true;
        self.loading.songs = true;
        self.task(ShelfTask::FetchSongs);
    }

    /// Ask the catalog, where there is something to ask and someone to ask.
    pub fn run_catalog_search(&mut self, access: Access, generation: u64, offset: usize)
        ensures
            final(self)@ == old(self)@.asking(access, generation, offset as int),
    {
        proof {
            reveal(ShelfView::asking);
        }
        if access == Access::Away {
            return ;
        }
        let term: String = self.catalog_query.as_str().trim().to_string();
        if is_empty(term.as_str()) {
            return ;
        }
        self.searching = true;
        let filter = self.catalog_filter;
        self.task(ShelfTask::Search { generation, offset, term, filter });
    }

    /// Build the albums from the library and the query, unless they are already.
    pub fn rebuild_albums(&mut self)
        ensures
            final(self)@ == old(self)@.with_albums(),
    {
        proof {
            reveal(ShelfView::with_albums);
        }
        let needle = text::fold_query(self.library_query.as_str());
        let done = match &self.built_albums {
            Some(built) => text::same(built.as_str(), needle.as_str()),
            None => false,
        };
        if done {
            return ;
        }
        let found = find_albums(self.albums.as_slice(), needle.as_str());
        self.album_tiles = sort::display(
            found.as_slice(),
            self.sorts.albums.by,
            self.sorts.albums.reversed,
        );
        self.built_albums = Some(needle);
        self.task(ShelfTask::DrawAlbums);
    }

    /// Load the library's albums, once. A load that failed is tried again only
    /// when the section is reloaded.
    pub fn load_albums(&mut self, access: Access)
        ensures
            final(self)@ == old(self)@.loading_albums(access),
    {
        proof {
            reveal(ShelfView::loading_albums);
        }
        if self.loading.albums || self.tried.albums || self.albums.len() > 0 {
            return ;
        }
        self.tried.albums = true;
        if access == Access::Away {
            return ;
        }
        self.loading.albums = true;
        self.task(ShelfTask::FetchAlbums);
    }

    /// Build the artists from the library and the query, unless they are already.
    pub fn rebuild_artists(&mut self)
        ensures
            final(self)@ == old(self)@.with_artists(),
    {
        proof {
            reveal(ShelfView::with_artists);
        }
        let needle = text::fold_query(self.library_query.as_str());
        let done = match &self.built_artists {
            Some(built) => text::same(built.as_str(), needle.as_str()),
            None => false,
        };
        if done {
            return ;
        }
        let found = find_artists(self.artists.as_slice(), needle.as_str());
        self.artist_tiles = sort::display(
            found.as_slice(),
            self.sorts.artists.by,
            self.sorts.artists.reversed,
        );
        self.built_artists = Some(needle);
        self.task(ShelfTask::DrawArtists);
    }

    /// Load the library's artists, once. A load that failed is tried again only
    /// when the section is reloaded.
    pub fn load_artists(&mut self, access: Access)
        ensures
            final(self)@ == old(self)@.loading_artists(access),
    {
        proof {
            reveal(ShelfView::loading_artists);
        }
        if self.loading.artists || self.tried.artists || self.artists.len() > 0 {
            return ;
        }
        self.tried.artists = true;
        if access == Access::Away {
            return ;
        }
        self.loading.artists = true;
        self.task(ShelfTask::FetchArtists);
    }

    /// Build the playlists from the library and the query, unless they are already.
    pub fn rebuild_playlists(&mut self)
        ensures
            final(self)@ == old(self)@.with_playlists(),
    {
        proof {
            reveal(ShelfView::with_playlists);
        }
        let needle = text::fold_query(self.library_query.as_str());
        let done = match &self.built_playlists {
            Some(built) => text::same(built.as_str(), needle.as_str()),
            None => false,
        };
        if done {
            return ;
        }
        let found = find_playlists(self.playlists.as_slice(), needle.as_str());
        self.playlist_tiles = sort::display(
            found.as_slice(),
            self.sorts.playlists.by,
            self.sorts.playlists.reversed,
        );
        self.built_playlists = Some(needle);
        self.task(ShelfTask::DrawPlaylists);
    }

    /// Load the library's playlists, once. A load that failed is tried again only
    /// when the section is reloaded.
    pub fn load_playlists(&mut self, access: Access)
        ensures
            final(self)@ == old(self)@.loading_playlists(access),
    {
        proof {
            reveal(ShelfView::loading_playlists);
        }
        if self.loading.playlists || self.tried.playlists || self.playlists.len() > 0 {
            return ;
        }
        self.tried.playlists = true;
        if access == Access::Away {
            return ;
        }
        self.loading.playlists = true;
        self.task(ShelfTask::FetchPlaylists);
    }
}

fn is_empty(t: &str) -> (r: bool)
    ensures
        r == (t@.len() == 0),
{
    t.is_empty()
}

} // verus!
