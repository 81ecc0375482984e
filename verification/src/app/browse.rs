//! Moving about the content pane: typing, switching, sorting, paging, and
//! taking in what was fetched.

use vstd::prelude::*;
use vstd::view::View as _;

use crate::app::shelf;
use crate::app::shelf::{
    Access,
    Each,
    Shelf,
    ShelfTask,
    ShelfTaskView,
    ShelfView,
    CATALOG_LIMIT,
    CATALOG_MAX,
};
use crate::library;
use crate::music;
use crate::music::{Album, Artist, Entry, Playlist, SearchResults, Track};
use crate::text;
use crate::view::{CatalogFilter, SearchScope, Sort, SortBy, View};

verus! {

/// The generation after this one.
pub open spec fn next_generation(generation: u64) -> u64 {
    if generation == u64::MAX {
        0
    } else {
        (generation + 1) as u64
    }
}

pub(crate) fn generation_after(generation: u64) -> (r: u64)
    ensures
        r == next_generation(generation),
{
    if generation == u64::MAX {
        0
    } else {
        generation + 1
    }
}

impl ShelfView {
    /// The shelf with its section's own query changed.
    pub open spec fn with_query(self, query: Seq<char>) -> ShelfView {
        match self.view.searches() {
            SearchScope::Library => ShelfView { library_query: query, ..self },
            SearchScope::Catalog => ShelfView { catalog_query: query, ..self },
        }
    }

    /// The shelf after something was typed. The library filters at once; the
    /// catalog is asked when the typing stops.
    #[verifier::opaque]
    pub open spec fn typed(self, query: Seq<char>, playing: Option<Seq<char>>) -> ShelfView {
        if query == self.query() {
            self
        } else {
            let changed = self.with_query(query);
            match self.view {
                View::Songs => changed.with_rows(playing),
                View::Albums => changed.with_albums(),
                View::Artists => changed.with_artists(),
                View::Playlists => changed.with_playlists(),
                View::Search => {
                    let generation = next_generation(self.search_gen);
                    let asked = ShelfView {
                        search_gen: generation,
                        exhausted: false,
                        catalog_paged: 0,
                        ..changed
                    };
                    if shelf::blank(query) {
                        ShelfView { catalog: Seq::empty(), searching: false, ..asked }.with_rows(
                            playing,
                        )
                    } else {
                        asked.doing(ShelfTaskView::SearchLater { generation })
                    }
                },
            }
        }
    }

    /// The shelf once the typing has stopped. A later keystroke supersedes it.
    pub open spec fn typing_stopped(self, access: Access, generation: u64) -> ShelfView {
        if generation == self.search_gen {
            self.asking(access, generation, 0)
        } else {
            self
        }
    }

    /// The shelf with its search narrowed or widened. Another filter is another
    /// question, so the previous answer goes whole.
    #[verifier::opaque]
    pub open spec fn filtered(
        self,
        filter: CatalogFilter,
        access: Access,
        playing: Option<Seq<char>>,
    ) -> ShelfView {
        if filter == self.catalog_filter {
            self
        } else {
            let fresh = ShelfView {
                catalog_filter: filter,
                search_gen: next_generation(self.search_gen),
                exhausted: false,
                catalog_paged: 0,
                catalog: Seq::empty(),
                built_rows: None,
                ..self
            };
            if shelf::blank(self.catalog_query) {
                fresh.with_rows(playing)
            } else {
                fresh.asking(access, fresh.search_gen, 0)
            }
        }
    }

    /// The shelf showing another section, which re-reads. The others keep what
    /// they had, so that switching back is instant.
    #[verifier::opaque]
    pub open spec fn showing(
        self,
        view: View,
        access: Access,
        playing: Option<Seq<char>>,
    ) -> ShelfView {
        if view == self.view {
            self
        } else {
            let there = ShelfView { view, ..self };
            match view {
                View::Songs => there.with_rows(playing),
                View::Albums => there.with_albums().loading_albums(access),
                View::Artists => there.with_artists().loading_artists(access),
                View::Playlists => there.with_playlists().loading_playlists(access),
                View::Search => {
                    let asked = ShelfView { search_gen: next_generation(self.search_gen), ..there };
                    if shelf::blank(self.catalog_query) {
                        ShelfView { catalog: Seq::empty(), ..asked }.with_rows(playing)
                    } else {
                        asked.asking(access, asked.search_gen, 0)
                    }
                },
            }
        }
    }

    /// Whether scrolling to the end is to fetch more: in the catalog, with no
    /// page in flight, with more to be had, and up to a ceiling.
    pub open spec fn wants_more(self) -> bool {
        &&& self.view.searches() == SearchScope::Catalog
        &&& !self.searching
        &&& !self.exhausted
        &&& self.catalog.len() > 0
        &&& self.catalog_paged < CATALOG_MAX
    }

    /// The shelf with the next page on its way, if it is wanted.
    pub open spec fn paging(self, access: Access) -> ShelfView {
        if self.wants_more() {
            self.asking(access, self.search_gen, self.catalog_paged)
        } else {
            self
        }
    }

    /// The shelf with its section built anew, in its new order.
    #[verifier::opaque]
    pub open spec fn resorted(self, playing: Option<Seq<char>>) -> ShelfView {
        match self.view {
            View::Albums => ShelfView { built_albums: None, ..self }.with_albums(),
            View::Artists => ShelfView { built_artists: None, ..self }.with_artists(),
            View::Playlists => ShelfView { built_playlists: None, ..self }.with_playlists(),
            View::Songs => ShelfView { built_rows: None, ..self }.with_rows(playing),
            View::Search => ShelfView { built_rows: None, ..self }.with_rows(playing),
        }
    }

    /// The shelf with its section sorted another way.
    pub open spec fn sorted(self, sort: Sort, playing: Option<Seq<char>>) -> ShelfView {
        ShelfView { sorts: self.sorts.with(self.view, sort), ..self }.resorted(playing)
    }

    /// The shelf with its songs, or without: a failure keeps what there was.
    #[verifier::opaque]
    pub open spec fn songs_arrived(
        self,
        tracks: Option<Seq<Track>>,
        playing: Option<Seq<char>>,
    ) -> ShelfView {
        let idle = ShelfView { loading: Each { songs: false, ..self.loading }, ..self };
        match tracks {
            Some(tracks) => ShelfView { tracks, built_rows: None, ..idle }.with_rows(playing),
            None => idle,
        }
    }

    #[verifier::opaque]
    pub open spec fn albums_arrived(self, albums: Option<Seq<Album>>) -> ShelfView {
        let idle = ShelfView { loading: Each { albums: false, ..self.loading }, ..self };
        match albums {
            Some(albums) => ShelfView { albums, built_albums: None, ..idle }.with_albums(),
            None => idle,
        }
    }

    #[verifier::opaque]
    pub open spec fn artists_arrived(self, artists: Option<Seq<Artist>>) -> ShelfView {
        let idle = ShelfView { loading: Each { artists: false, ..self.loading }, ..self };
        match artists {
            Some(artists) => ShelfView { artists, built_artists: None, ..idle }.with_artists(),
            None => idle,
        }
    }

    #[verifier::opaque]
    pub open spec fn playlists_arrived(self, playlists: Option<Seq<Playlist>>) -> ShelfView {
        let idle = ShelfView { loading: Each { playlists: false, ..self.loading }, ..self };
        match playlists {
            Some(playlists) => ShelfView {
                playlists,
                built_playlists: None,
                ..idle
            }.with_playlists(),
            None => idle,
        }
    }

    /// The shelf with rows added below those on screen, which stay as they are.
    pub open spec fn appended(self, rows: Seq<Entry>) -> ShelfView {
        if rows.len() == 0 {
            self
        } else {
            ShelfView { rows: self.rows + rows, ..self }.doing(
                ShelfTaskView::DrawMoreRows { count: rows.len() as int },
            )
        }
    }

    /// The shelf with a new answer: the rows on screen are for a different
    /// question, so they all go. A short page means that there is no more.
    #[verifier::opaque]
    pub open spec fn first_page(
        self,
        rows: Seq<Entry>,
        paged: int,
        playing: Option<Seq<char>>,
    ) -> ShelfView {
        ShelfView {
            exhausted: paged < CATALOG_LIMIT,
            catalog_paged: paged,
            catalog: rows,
            built_rows: None,
            ..self
        }.with_rows(playing)
    }

    /// The shelf with more of the same answer.
    #[verifier::opaque]
    pub open spec fn later_page(self, rows: Seq<Entry>, paged: int) -> ShelfView {
        ShelfView {
            exhausted: paged < CATALOG_LIMIT,
            catalog_paged: self.catalog_paged + paged,
            catalog: self.catalog + rows,
            ..self
        }.appended(rows)
    }

    /// The shelf with a page of catalog results. One that answers an older
    /// question is dropped. A first page replaces; a later one only adds.
    #[verifier::opaque]
    pub open spec fn answered(
        self,
        generation: u64,
        offset: int,
        found: Option<SearchResults>,
        playing: Option<Seq<char>>,
    ) -> ShelfView {
        if generation != self.search_gen {
            self
        } else {
            let idle = ShelfView { searching: false, ..self };
            match found {
                Some(found) => {
                    let rows = library::result_rows(self.catalog_filter, found, offset == 0);
                    let paged = library::paged_by(self.catalog_filter, found) as int;
                    if offset == 0 {
                        idle.first_page(rows, paged, playing)
                    } else {
                        idle.later_page(rows, paged)
                    }
                },
                None => idle,
            }
        }
    }

    /// The shelf as if the songs had never been tried for.
    pub open spec fn without_songs(self) -> ShelfView {
        ShelfView { tried: Each { songs: false, ..self.tried }, ..self }
    }

    /// The shelf as if the albums had never been fetched.
    pub open spec fn without_albums(self) -> ShelfView {
        ShelfView { albums: Seq::empty(), tried: Each { albums: false, ..self.tried }, ..self }
    }

    /// The shelf as if the artists had never been fetched.
    pub open spec fn without_artists(self) -> ShelfView {
        ShelfView { artists: Seq::empty(), tried: Each { artists: false, ..self.tried }, ..self }
    }

    /// The shelf as if the playlists had never been fetched.
    pub open spec fn without_playlists(self) -> ShelfView {
        ShelfView { playlists: Seq::empty(), tried: Each { playlists: false, ..self.tried }, ..self }
    }

    /// The shelf with one section thrown away and on its way again.
    pub open spec fn reloaded(self, view: View, access: Access) -> ShelfView {
        match view {
            View::Songs => self.without_songs().loading_songs(access),
            View::Search => self.without_songs().loading_songs(access),
            View::Albums => self.without_albums().loading_albums(access),
            View::Artists => self.without_artists().loading_artists(access),
            View::Playlists => self.without_playlists().loading_playlists(access),
        }
    }

    /// The shelf with nothing of anyone's on it.
    pub open spec fn emptied(self) -> ShelfView {
        ShelfView {
            tracks: Seq::empty(),
            albums: Seq::empty(),
            artists: Seq::empty(),
            playlists: Seq::empty(),
            tried: Each { songs: false, albums: false, artists: false, playlists: false },
            built_rows: None,
            built_albums: None,
            built_artists: None,
            built_playlists: None,
            catalog: Seq::empty(),
            catalog_paged: 0,
            library_query: Seq::empty(),
            catalog_query: Seq::empty(),
            ..self
        }
    }

    /// The shelf once the one it belonged to has signed out.
    #[verifier::opaque]
    pub open spec fn forgotten(self, playing: Option<Seq<char>>) -> ShelfView {
        self.emptied().with_rows(playing).with_albums().with_artists().with_playlists()
    }
}

impl Shelf {
    /// Type into the search box. Says whether that changed anything.
    pub fn search_changed(&mut self, query: String, playing: Option<String>) -> (r: bool)
        ensures
            r == (query@ != old(self)@.query()),
            final(self)@ == old(self)@.typed(query@, text::text_view(playing)),
    {
        proof {
            reveal(ShelfView::typed);
        }
        if text::same(query.as_str(), self.query()) {
            return false;
        }
        match self.view.scope() {
            SearchScope::Library => {
                self.library_query = query;
            },
            SearchScope::Catalog => {
                self.catalog_query = query;
            },
        }
        match self.view {
            View::Songs => self.rebuild_rows(playing),
            View::Albums => self.rebuild_albums(),
            View::Artists => self.rebuild_artists(),
            View::Playlists => self.rebuild_playlists(),
            View::Search => {
                let generation: u64 = generation_after(self.search_gen);
                self.search_gen = generation;
                self.exhausted = false;
                self.catalog_paged = 0;
                if self.catalog_query.as_str().trim().is_empty() {
                    self.catalog = Vec::new();
                    self.searching = false;
                    self.rebuild_rows(playing);
                } else {
                    self.task(ShelfTask::SearchLater { generation });
                }
            },
        }
        true
    }

    /// The typing has stopped. Only the newest search may fire.
    pub fn search_settled(&mut self, access: Access, generation: u64)
        ensures
            final(self)@ == old(self)@.typing_stopped(access, generation),
    {
        if generation == self.search_gen {
            self.run_catalog_search(access, generation, 0);
        }
    }

    /// Narrow the catalog search to one kind of result, or widen it again.
    pub fn set_catalog_filter(
        &mut self,
        filter: CatalogFilter,
        access: Access,
        playing: Option<String>,
    )
        ensures
            final(self)@ == old(self)@.filtered(filter, access, text::text_view(playing)),
    {
        proof {
            reveal(ShelfView::filtered);
        }
        if filter == self.catalog_filter {
            return ;
        }
        self.catalog_filter = filter;
        self.search_gen = generation_after(self.search_gen);
        self.exhausted = false;
        self.catalog_paged = 0;
        self.catalog = Vec::new();
        self.built_rows = None;
        if self.catalog_query.as_str().trim().is_empty() {
            self.rebuild_rows(playing);
        } else {
            let generation: u64 = self.search_gen;
            self.run_catalog_search(access, generation, 0);
        }
    }

    /// Show another section. Says whether it is another.
    pub fn set_view(&mut self, view: View, access: Access, playing: Option<String>) -> (r: bool)
        ensures
            r == (view != old(self)@.view),
            final(self)@ == old(self)@.showing(view, access, text::text_view(playing)),
    {
        proof {
            reveal(ShelfView::showing);
        }
        if view == self.view {
            return false;
        }
        self.view = view;
        match view {
            View::Songs => self.rebuild_rows(playing),
            View::Albums => {
                self.rebuild_albums();
                self.load_albums(access);
            },
            View::Artists => {
                self.rebuild_artists();
                self.load_artists(access);
            },
            View::Playlists => {
                self.rebuild_playlists();
                self.load_playlists(access);
            },
            View::Search => {
                self.search_gen = generation_after(self.search_gen);
                if self.catalog_query.as_str().trim().is_empty() {
                    self.catalog = Vec::new();
                    self.rebuild_rows(playing);
                } else {
                    let generation: u64 = self.search_gen;
                    self.run_catalog_search(access, generation, 0);
                }
            },
        }
        true
    }

    /// Fetch the next page of results, if it is wanted. Scroll events come in
    /// bursts, so one flick must not ask for the same page several times.
    pub fn load_more(&mut self, access: Access)
        ensures
            final(self)@ == old(self)@.paging(access),
    {
        if self.view.scope() == SearchScope::Catalog && !self.searching && !self.exhausted
            && self.catalog.len() > 0 && self.catalog_paged < CATALOG_MAX {
            let generation: u64 = self.search_gen;
            let offset: usize = self.catalog_paged;
            self.run_catalog_search(access, generation, offset);
        }
    }

    /// Build whichever section is showing anew, in its new order.
    pub fn resort(&mut self, playing: Option<String>)
        ensures
            final(self)@ == old(self)@.resorted(text::text_view(playing)),
    {
        proof {
            reveal(ShelfView::resorted);
        }
        match self.view {
            View::Albums => {
                self.built_albums = None;
                self.rebuild_albums();
            },
            View::Artists => {
                self.built_artists = None;
                self.rebuild_artists();
            },
            View::Playlists => {
                self.built_playlists = None;
                self.rebuild_playlists();
            },
            View::Songs | View::Search => {
                self.built_rows = None;
                self.rebuild_rows(playing);
            },
        }
    }

    /// Sort the section showing by another key. Says whether it is another.
    pub fn set_sort(&mut self, by: SortBy, playing: Option<String>) -> (r: bool)
        ensures
            r == (by != old(self)@.sorts.of(old(self)@.view).by),
            final(self)@ == if r {
                old(self)@.sorted(
                    Sort { by, reversed: old(self)@.sorts.of(old(self)@.view).reversed },
                    text::text_view(playing),
                )
            } else {
                old(self)@
            },
    {
        let current = self.sorts.get(self.view);
        if by == current.by {
            return false;
        }
        self.sorts.set(self.view, Sort { by, reversed: current.reversed });
        self.resort(playing);
        true
    }

    /// Sort the section showing the other way round.
    pub fn toggle_direction(&mut self, playing: Option<String>)
        ensures
            final(self)@ == old(self)@.sorted(
                Sort {
                    by: old(self)@.sorts.of(old(self)@.view).by,
                    reversed: !old(self)@.sorts.of(old(self)@.view).reversed,
                },
                text::text_view(playing),
            ),
    {
        let current = self.sorts.get(self.view);
        self.sorts.set(self.view, Sort { by: current.by, reversed: !current.reversed });
        self.resort(playing);
    }

    pub fn songs_loaded(&mut self, tracks: Option<Vec<Track>>, playing: Option<String>)
        ensures
            final(self)@ == old(self)@.songs_arrived(
                match tracks {
                    Some(tracks) => Some(tracks@),
                    None => None,
                },
                text::text_view(playing),
            ),
    {
        proof {
            reveal(ShelfView::songs_arrived);
        }
        self.loading.songs = false;
        if let Some(tracks) = tracks {
            self.tracks = tracks;
            self.built_rows = None;
            self.rebuild_rows(playing);
        }
    }

    pub fn albums_loaded(&mut self, albums: Option<Vec<Album>>)
        ensures
            final(self)@ == old(self)@.albums_arrived(
                match albums {
                    Some(albums) => Some(albums@),
                    None => None,
                },
            ),
    {
        proof {
            reveal(ShelfView::albums_arrived);
        }
        self.loading.albums = false;
        if let Some(albums) = albums {
            self.albums = albums;
            self.built_albums = None;
            self.rebuild_albums();
        }
    }

    pub fn artists_loaded(&mut self, artists: Option<Vec<Artist>>)
        ensures
            final(self)@ == old(self)@.artists_arrived(
                match artists {
                    Some(artists) => Some(artists@),
                    None => None,
                },
            ),
    {
        proof {
            reveal(ShelfView::artists_arrived);
        }
        self.loading.artists = false;
        if let Some(artists) = artists {
            self.artists = artists;
            self.built_artists = None;
            self.rebuild_artists();
        }
    }

    pub fn playlists_loaded(&mut self, playlists: Option<Vec<Playlist>>)
        ensures
            final(self)@ == old(self)@.playlists_arrived(
                match playlists {
                    Some(playlists) => Some(playlists@),
                    None => None,
                },
            ),
    {
        proof {
            reveal(ShelfView::playlists_arrived);
        }
        self.loading.playlists = false;
        if let Some(playlists) = playlists {
            self.playlists = playlists;
            self.built_playlists = None;
            self.rebuild_playlists();
        }
    }

    /// Add rows to the end, leaving the ones already there alone: the reader
    /// scrolled to the bottom to ask for them.
    pub fn append_rows(&mut self, new: &[Entry])
        ensures
            final(self)@ == old(self)@.appended(new@),
    {
        let count: usize = new.len();
        if count == 0 {
            return ;
        }
        let mut more: Vec<Entry> = music::copy_entries(new);
        self.rows.append(&mut more);
        self.task(ShelfTask::DrawMoreRows { count });
    }

    fn replace_catalog(&mut self, rows: Vec<Entry>, paged: usize, playing: Option<String>)
        ensures
            final(self)@ == old(self)@.first_page(rows@, paged as int, text::text_view(playing)),
    {
        proof {
            reveal(ShelfView::first_page);
        }
        self.exhausted = paged < CATALOG_LIMIT;
        self.catalog_paged = paged;
        self.catalog = rows;
        self.built_rows = None;
        self.rebuild_rows(playing);
    }

    fn extend_catalog(&mut self, rows: Vec<Entry>, paged: usize)
        requires
            old(self)@.catalog_paged + paged <= usize::MAX,
        ensures
            final(self)@ == old(self)@.later_page(rows@, paged as int),
    {
        proof {
            reveal(ShelfView::later_page);
        }
        self.exhausted = paged < CATALOG_LIMIT;
        self.catalog_paged = self.catalog_paged + paged;
        let mut more: Vec<Entry> = music::copy_entries(rows.as_slice());
        self.catalog.append(&mut more);
        self.append_rows(rows.as_slice());
    }

    /// A page of catalog results, or the want of one.
    pub fn catalog_answered(
        &mut self,
        generation: u64,
        offset: usize,
        found: Option<SearchResults>,
        playing: Option<String>,
    )
        requires
            found is Some && offset != 0 && generation == old(self)@.search_gen ==> old(
                self,
            )@.catalog_paged + library::paged_by(old(self)@.catalog_filter, found->0)
                <= usize::MAX,
        ensures
            final(self)@ == old(self)@.answered(
                generation,
                offset as int,
                found,
                text::text_view(playing),
            ),
    {
        proof {
            reveal(ShelfView::answered);
        }
        if generation != self.search_gen {
            return ;
        }
        self.searching = false;
        if let Some(found) = found {
            let (rows, paged) = library::catalog_rows(self.catalog_filter, found, offset == 0);
            if offset == 0 {
                self.replace_catalog(rows, paged, playing);
            } else {
                self.extend_catalog(rows, paged);
            }
        }
    }

    fn drop_songs(&mut self)
        ensures
            final(self)@ == old(self)@.without_songs(),
    {
        self.tried.songs = false;
    }

    fn drop_albums(&mut self)
        ensures
            final(self)@ == old(self)@.without_albums(),
    {
        self.albums = Vec::new();
        self.tried.albums = false;
    }

    fn drop_artists(&mut self)
        ensures
            final(self)@ == old(self)@.without_artists(),
    {
        self.artists = Vec::new();
        self.tried.artists = false;
    }

    fn drop_playlists(&mut self)
        ensures
            final(self)@ == old(self)@.without_playlists(),
    {
        self.playlists = Vec::new();
        self.tried.playlists = false;
    }

    /// Throw one section away and fetch it again. Each loader returns early on
    /// what it already holds, so a reload has to clear first.
    pub fn reload(&mut self, view: View, access: Access)
        ensures
            final(self)@ == old(self)@.reloaded(view, access),
    {
        match view {
            View::Songs | View::Search => {
                self.drop_songs();
                self.load_songs(access);
            },
            View::Albums => {
                self.drop_albums();
                self.load_albums(access);
            },
            View::Artists => {
                self.drop_artists();
                self.load_artists(access);
            },
            View::Playlists => {
                self.drop_playlists();
                self.load_playlists(access);
            },
        }
    }

    /// Take down everything that belonged to whoever was signed in.
    pub fn forget(&mut self, playing: Option<String>)
        ensures
            final(self)@ == old(self)@.forgotten(text::text_view(playing)),
    {
        proof {
            reveal(ShelfView::forgotten);
        }
        self.tracks = Vec::new();
        self.albums = Vec::new();
        self.artists = Vec::new();
        self.playlists = Vec::new();
        self.tried = Each { songs: false, albums: false, artists: false, playlists: false };
        self.built_rows = None;
        self.built_albums = None;
        self.built_artists = None;
        self.built_playlists = None;
        self.catalog = Vec::new();
        self.catalog_paged = 0;
        self.library_query = String::new();
        self.catalog_query = String::new();
        proof {
            assert(self@ =~= old(self)@.emptied());
        }
        self.rebuild_rows(playing);
        self.rebuild_albums();
        self.rebuild_artists();
        self.rebuild_playlists();
    }
}

} // verus!
