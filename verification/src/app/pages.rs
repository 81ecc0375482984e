//! The navigation stack: pushing an album, artist or playlist page, and taking
//! it away.
//!
//! Pages are addressed by **id**, never by their depth in the stack. By the
//! time a fetch lands or a click arrives the stack may have moved.

use vstd::prelude::*;

use crate::library;
use crate::music;
use crate::music::{Album, Artist, Artwork, Entry, Playlist, Track};
use crate::text;

verus! {

/// How many covers a mosaic is made of: two by two.
pub const MOSAIC_TILES: usize = 4;

/// The keys of a list of covers.
pub open spec fn keys(arts: Seq<Artwork>) -> Seq<Seq<char>> {
    arts.map_values(|a: Artwork| a.key())
}

/// The covers of a list that no earlier one repeats, in order.
pub open spec fn unrepeated(arts: Seq<Artwork>) -> Seq<Artwork>
    decreases arts.len(),
{
    if arts.len() == 0 {
        arts
    } else {
        let before = unrepeated(arts.drop_last());
        if keys(before).contains(arts.last().key()) {
            before
        } else {
            before.push(arts.last())
        }
    }
}

/// The first `want` of them, or all where there are fewer.
pub open spec fn covers(arts: Seq<Artwork>, want: nat) -> Seq<Artwork> {
    let all = unrepeated(arts);
    if want < all.len() {
        all.take(want as int)
    } else {
        all
    }
}

/// The first `want` **distinct** covers, in order.
///
/// Distinct by cache key: a playlist drawn from two albums would otherwise tile
/// the same sleeve twice over, which reads as a rendering fault.
pub fn distinct_covers(arts: &[Artwork], want: usize) -> (r: Vec<Artwork>)
    ensures
        r@ == covers(arts@, want as nat),
{
    let mut found: Vec<Artwork> = Vec::new();
    if want == 0 {
        proof {
            assert(found@ =~= covers(arts@, 0));
        }
        return found;
    }
    let mut i: usize = 0;
    while i < arts.len()
        invariant
            i <= arts@.len(),
            found@ == unrepeated(arts@.take(i as int)),
            found@.len() < want,
        decreases arts@.len() - i,
    {
        proof {
            assert(arts@.take(i + 1).drop_last() =~= arts@.take(i as int));
        }
        if !holds_cover(&found, &arts[i]) {
            found.push(arts[i].clone());
            if found.len() == want {
                proof {
                    unrepeated_grows(arts@, i + 1);
                    assert(unrepeated(arts@).take(want as int) =~= found@);
                }
                return found;
            }
        }
        i += 1;
    }
    proof {
        assert(arts@.take(i as int) =~= arts@);
    }
    found
}

fn holds_cover(found: &Vec<Artwork>, art: &Artwork) -> (r: bool)
    ensures
        r == keys(found@).contains(art.key()),
{
    let mut i: usize = 0;
    while i < found.len()
        invariant
            i <= found@.len(),
            forall|j: int| 0 <= j < i ==> keys(found@)[j] != art.key(),
        decreases found@.len() - i,
    {
        if found[i].is(art) {
            proof {
                assert(keys(found@)[i as int] == art.key());
            }
            return true;
        }
        i += 1;
    }
    false
}

/// What a prefix of a list yields, the whole list yields first.
proof fn unrepeated_grows(arts: Seq<Artwork>, n: int)
    requires
        0 <= n <= arts.len(),
    ensures
        unrepeated(arts.take(n)).len() <= unrepeated(arts).len(),
        unrepeated(arts).take(unrepeated(arts.take(n)).len() as int) == unrepeated(arts.take(n)),
    decreases arts.len() - n,
{
    if n == arts.len() {
        assert(arts.take(n) =~= arts);
        assert(unrepeated(arts).take(unrepeated(arts).len() as int) =~= unrepeated(arts));
    } else {
        unrepeated_grows(arts, n + 1);
        assert(arts.take(n + 1).drop_last() =~= arts.take(n));
        let small = unrepeated(arts.take(n));
        let more = unrepeated(arts.take(n + 1));
        assert(more.take(small.len() as int) =~= small);
        assert(unrepeated(arts).take(small.len() as int) =~= unrepeated(arts).take(
            more.len() as int,
        ).take(small.len() as int));
    }
}

/// The covers of a list of tracks, leaving out those that have none.
pub open spec fn track_covers(tracks: Seq<Track>) -> Seq<Artwork>
    decreases tracks.len(),
{
    if tracks.len() == 0 {
        Seq::empty()
    } else {
        match tracks.last().artwork {
            Some(art) => track_covers(tracks.drop_last()).push(art),
            None => track_covers(tracks.drop_last()),
        }
    }
}

/// The covers a playlist's mosaic would be built from. Fewer than a mosaic's
/// worth means no mosaic at all.
pub fn playlist_covers(tracks: &[Track]) -> (r: Vec<Artwork>)
    ensures
        r@ == covers(track_covers(tracks@), MOSAIC_TILES as nat),
{
    let mut arts: Vec<Artwork> = Vec::new();
    let mut i: usize = 0;
    while i < tracks.len()
        invariant
            i <= tracks@.len(),
            arts@ == track_covers(tracks@.take(i as int)),
        decreases tracks@.len() - i,
    {
        proof {
            assert(tracks@.take(i + 1).drop_last() =~= tracks@.take(i as int));
        }
        if let Some(art) = &tracks[i].artwork {
            arts.push(art.clone());
        }
        i += 1;
    }
    proof {
        assert(tracks@.take(i as int) =~= tracks@);
    }
    distinct_covers(arts.as_slice(), MOSAIC_TILES)
}

/// A mosaic never repeats a cover, and leaves none of a list's out before it is
/// full.
pub proof fn a_mosaic_never_repeats_a_cover(arts: Seq<Artwork>, want: nat)
    ensures
        keys(covers(arts, want)).no_duplicates(),
        covers(arts, want).len() <= want,
        covers(arts, want).len() < want ==> forall|k: Seq<char>| #[trigger]
            keys(arts).contains(k) ==> keys(covers(arts, want)).contains(k),
{
    unrepeated_is_distinct(arts);
    let all = unrepeated(arts);
    if all.len() > want {
        assert(keys(all.take(want as int)) =~= keys(all).take(want as int));
    }
}

proof fn unrepeated_is_distinct(arts: Seq<Artwork>)
    ensures
        keys(unrepeated(arts)).no_duplicates(),
        forall|k: Seq<char>| #[trigger]
            keys(arts).contains(k) ==> keys(unrepeated(arts)).contains(k),
    decreases arts.len(),
{
    if arts.len() > 0 {
        let shorter = arts.drop_last();
        let before = unrepeated(shorter);
        let after = unrepeated(arts);
        unrepeated_is_distinct(shorter);
        if !keys(before).contains(arts.last().key()) {
            assert(keys(after) =~= keys(before).push(arts.last().key()));
        }
        assert forall|k: Seq<char>| #[trigger] keys(arts).contains(k) implies keys(
            after,
        ).contains(k) by {
            let i = choose|i: int| 0 <= i < keys(arts).len() && keys(arts)[i] == k;
            if i < shorter.len() {
                assert(keys(shorter)[i] == k);
                assert(keys(shorter).contains(k));
                assert(keys(before).contains(k));
                let j = choose|j: int| 0 <= j < keys(before).len() && keys(before)[j] == k;
                assert(keys(after)[j] == k);
            } else if !keys(before).contains(k) {
                assert(keys(after)[before.len() as int] == k);
            }
        }
    }
}

/// What a page shows, by id. One from the library is asked for there.
#[derive(Debug, PartialEq, Eq)]
pub enum PageKind {
    Album(String),
    LibraryAlbum(String),
    Artist(String),
    LibraryArtist(String),
    Playlist(String),
    LibraryPlaylist(String),
}

/// A [`PageKind`] with its text as a sequence.
#[verifier::ext_equal]
pub enum PageKindView {
    Album(Seq<char>),
    LibraryAlbum(Seq<char>),
    Artist(Seq<char>),
    LibraryArtist(Seq<char>),
    Playlist(Seq<char>),
    LibraryPlaylist(Seq<char>),
}

impl View for PageKind {
    type V = PageKindView;

    open spec fn view(&self) -> PageKindView {
        match *self {
            PageKind::Album(id) => PageKindView::Album(id@),
            PageKind::LibraryAlbum(id) => PageKindView::LibraryAlbum(id@),
            PageKind::Artist(id) => PageKindView::Artist(id@),
            PageKind::LibraryArtist(id) => PageKindView::LibraryArtist(id@),
            PageKind::Playlist(id) => PageKindView::Playlist(id@),
            PageKind::LibraryPlaylist(id) => PageKindView::LibraryPlaylist(id@),
        }
    }
}

/// The page a row opens: none for a song.
pub open spec fn door(entry: Entry) -> Option<PageKindView> {
    match entry {
        Entry::Song(_) => None,
        Entry::Album(a) => Some(
            if a.library {
                PageKindView::LibraryAlbum(a.id@)
            } else {
                PageKindView::Album(a.id@)
            },
        ),
        Entry::Artist(a) => Some(
            if a.library {
                PageKindView::LibraryArtist(a.id@)
            } else {
                PageKindView::Artist(a.id@)
            },
        ),
        Entry::Playlist(p) => Some(
            if p.library {
                PageKindView::LibraryPlaylist(p.id@)
            } else {
                PageKindView::Playlist(p.id@)
            },
        ),
    }
}

impl PageKind {
    pub fn album(album: &Album) -> (r: Self)
        ensures
            Some(r@) == door(Entry::Album(*album)),
    {
        if album.library {
            PageKind::LibraryAlbum(album.id.clone())
        } else {
            PageKind::Album(album.id.clone())
        }
    }

    pub fn artist(artist: &Artist) -> (r: Self)
        ensures
            Some(r@) == door(Entry::Artist(*artist)),
    {
        if artist.library {
            PageKind::LibraryArtist(artist.id.clone())
        } else {
            PageKind::Artist(artist.id.clone())
        }
    }

    pub fn playlist(playlist: &Playlist) -> (r: Self)
        ensures
            Some(r@) == door(Entry::Playlist(*playlist)),
    {
        if playlist.library {
            PageKind::LibraryPlaylist(playlist.id.clone())
        } else {
            PageKind::Playlist(playlist.id.clone())
        }
    }

    /// The page a row opens: none for a song.
    pub fn of(entry: &Entry) -> (r: Option<Self>)
        ensures
            match r {
                Some(kind) => door(*entry) == Some(kind@),
                None => door(*entry) is None,
            },
    {
        match entry {
            Entry::Song(_) => None,
            Entry::Album(album) => Some(PageKind::album(album)),
            Entry::Artist(artist) => Some(PageKind::artist(artist)),
            Entry::Playlist(playlist) => Some(PageKind::playlist(playlist)),
        }
    }
}

/// One page on the stack.
#[derive(Debug, PartialEq, Eq)]
pub struct Page {
    pub id: u64,
    pub entries: Vec<Entry>,
    /// Whether it has been filled, or is still waiting.
    pub loaded: bool,
    /// Why it could not be.
    pub failure: Option<String>,
    /// Its header picture, once there is a file of it.
    pub art: Option<String>,
}

/// A [`Page`] with its texts as sequences.
#[verifier::ext_equal]
pub struct PageView {
    pub id: u64,
    pub entries: Seq<Entry>,
    pub loaded: bool,
    pub failure: Option<Seq<char>>,
    pub art: Option<Seq<char>>,
}

impl View for Page {
    type V = PageView;

    open spec fn view(&self) -> PageView {
        PageView {
            id: self.id,
            entries: self.entries@,
            loaded: self.loaded,
            failure: text::text_view(self.failure),
            art: text::text_view(self.art),
        }
    }
}

/// Something to be done about the stack.
#[derive(Debug, PartialEq, Eq)]
pub enum PageTask {
    /// Put an empty page up, and have it filled.
    Push { page: u64, kind: PageKind },
    /// Take every page down.
    PopAll,
    FetchArt { page: u64, art: Artwork },
    /// Draw a picture from these covers.
    Mosaic { page: u64, covers: Vec<Artwork> },
    /// Draw a page anew.
    Draw { page: u64 },
}

/// A [`PageTask`] with its lists as sequences.
#[verifier::ext_equal]
pub enum PageTaskView {
    Push { page: u64, kind: PageKindView },
    PopAll,
    FetchArt { page: u64, art: Artwork },
    Mosaic { page: u64, covers: Seq<Artwork> },
    Draw { page: u64 },
}

impl View for PageTask {
    type V = PageTaskView;

    open spec fn view(&self) -> PageTaskView {
        match *self {
            PageTask::Push { page, kind } => PageTaskView::Push { page, kind: kind@ },
            PageTask::PopAll => PageTaskView::PopAll,
            PageTask::FetchArt { page, art } => PageTaskView::FetchArt { page, art },
            PageTask::Mosaic { page, covers } => PageTaskView::Mosaic { page, covers: covers@ },
            PageTask::Draw { page } => PageTaskView::Draw { page },
        }
    }
}

/// The stack.
#[derive(Debug)]
pub struct Pages {
    pub stack: Vec<Page>,
    /// Never reused, never reset: a popped page's id must not come back and
    /// collect a response meant for it.
    pub next_id: u64,
    pub todo: Vec<PageTask>,
}

/// A [`Pages`] with its lists as sequences.
#[verifier::ext_equal]
pub struct PagesView {
    pub stack: Seq<PageView>,
    pub next_id: u64,
    pub todo: Seq<PageTaskView>,
}

/// The pages of a stack.
pub open spec fn page_views(stack: Seq<Page>) -> Seq<PageView> {
    stack.map_values(|p: Page| p@)
}

/// The tasks of a list.
pub open spec fn page_tasks(todo: Seq<PageTask>) -> Seq<PageTaskView> {
    todo.map_values(|t: PageTask| t@)
}

impl View for Pages {
    type V = PagesView;

    open spec fn view(&self) -> PagesView {
        PagesView {
            stack: page_views(self.stack@),
            next_id: self.next_id,
            todo: page_tasks(self.todo@),
        }
    }
}

/// Where a page stands in a stack, from `from` up.
pub open spec fn depth_of(stack: Seq<PageView>, id: u64, from: int) -> Option<int>
    decreases stack.len() - from,
{
    if from < 0 || from >= stack.len() {
        None
    } else if stack[from].id == id {
        Some(from)
    } else {
        depth_of(stack, id, from + 1)
    }
}

/// What filled a page.
#[derive(Debug, PartialEq, Eq)]
pub enum PageContent {
    Album { album: Album, tracks: Vec<Track> },
    Artist { artist: Artist, albums: Vec<Album> },
    Playlist { playlist: Playlist, tracks: Vec<Track> },
}

impl PageContent {
    /// The rows of the page.
    pub open spec fn rows(self) -> Seq<Entry> {
        match self {
            PageContent::Album { album, tracks } => library::song_rows(tracks@),
            PageContent::Artist { artist, albums } => library::album_rows(albums@),
            PageContent::Playlist { playlist, tracks } => library::song_rows(tracks@),
        }
    }

    /// What to do about its picture. One that came with the page is fetched.
    /// A playlist someone made has none, and gets a mosaic of its tracks' if
    /// there are enough of them.
    pub open spec fn picture(self, page: u64) -> Option<PageTaskView> {
        match self {
            PageContent::Album { album, tracks } => match album.artwork {
                Some(art) => Some(PageTaskView::FetchArt { page, art }),
                None => None,
            },
            PageContent::Artist { artist, albums } => match artist.artwork {
                Some(art) => Some(PageTaskView::FetchArt { page, art }),
                None => None,
            },
            PageContent::Playlist { playlist, tracks } => match playlist.artwork {
                Some(art) => Some(PageTaskView::FetchArt { page, art }),
                None => {
                    let found = covers(track_covers(tracks@), MOSAIC_TILES as nat);
                    if found.len() < MOSAIC_TILES {
                        None
                    } else {
                        Some(PageTaskView::Mosaic { page, covers: found })
                    }
                },
            },
        }
    }
}

impl PageContent {
    fn entries(&self) -> (r: Vec<Entry>)
        ensures
            r@ == self.rows(),
    {
        let mut rows: Vec<Entry> = Vec::new();
        match self {
            PageContent::Artist { artist: _, albums } => {
                let n: usize = albums.len();
                library::push_albums(&mut rows, albums.as_slice(), n);
                proof {
                    assert(albums@.take(n as int) =~= albums@);
                }
            },
            PageContent::Album { album: _, tracks } => {
                let n: usize = tracks.len();
                library::push_songs(&mut rows, tracks.as_slice(), n);
                proof {
                    assert(tracks@.take(n as int) =~= tracks@);
                }
            },
            PageContent::Playlist { playlist: _, tracks } => {
                let n: usize = tracks.len();
                library::push_songs(&mut rows, tracks.as_slice(), n);
                proof {
                    assert(tracks@.take(n as int) =~= tracks@);
                }
            },
        }
        proof {
            assert(rows@ =~= self.rows());
        }
        rows
    }

    fn picture_task(&self, page: u64) -> (r: Option<PageTask>)
        ensures
            match r {
                Some(task) => self.picture(page) == Some(task@),
                None => self.picture(page) is None,
            },
    {
        let (own, tracks): (&Option<Artwork>, Option<&Vec<Track>>) = match self {
            PageContent::Album { album, tracks: _ } => (&album.artwork, None),
            PageContent::Artist { artist, albums: _ } => (&artist.artwork, None),
            PageContent::Playlist { playlist, tracks } => (&playlist.artwork, Some(tracks)),
        };
        if let Some(art) = own {
            return Some(PageTask::FetchArt { page, art: art.clone() });
        }
        match tracks {
            Some(tracks) => {
                let covers = playlist_covers(tracks.as_slice());
                if covers.len() < MOSAIC_TILES {
                    None
                } else {
                    Some(PageTask::Mosaic { page, covers })
                }
            },
            None => None,
        }
    }
}

impl PagesView {
    pub open spec fn doing(self, task: PageTaskView) -> PagesView {
        PagesView { todo: self.todo.push(task), ..self }
    }

    pub open spec fn find(self, id: u64) -> Option<int> {
        depth_of(self.stack, id, 0)
    }

    /// The stack with a new page on top, waiting to be filled.
    pub open spec fn pushed(self, kind: PageKindView) -> PagesView {
        let id = self.next_id;
        PagesView {
            stack: self.stack.push(
                PageView { id, entries: Seq::empty(), loaded: false, failure: None, art: None },
            ),
            next_id: (id + 1) as u64,
            ..self
        }.doing(PageTaskView::Push { page: id, kind })
    }

    /// The stack without a page.
    pub open spec fn popped(self, id: u64) -> PagesView {
        PagesView { stack: self.stack.filter(|p: PageView| p.id != id), ..self }
    }

    /// The stack on its way to being taken down. Each page says so as it goes.
    pub open spec fn clearing(self) -> PagesView {
        if self.stack.len() == 0 {
            self
        } else {
            self.doing(PageTaskView::PopAll)
        }
    }

    /// The stack with a page filled, or failed. One that is no longer there
    /// takes nothing.
    pub open spec fn filled(
        self,
        id: u64,
        content: Result<PageContent, Seq<char>>,
    ) -> PagesView {
        match self.find(id) {
            Some(at) => match content {
                Ok(content) => {
                    let shown = PagesView {
                        stack: self.stack.update(
                            at,
                            PageView {
                                entries: content.rows(),
                                loaded: true,
                                ..self.stack[at]
                            },
                        ),
                        ..self
                    }.doing(PageTaskView::Draw { page: id });
                    match content.picture(id) {
                        Some(task) => shown.doing(task),
                        None => shown,
                    }
                },
                Err(why) => PagesView {
                    stack: self.stack.update(
                        at,
                        PageView { failure: Some(why), ..self.stack[at] },
                    ),
                    ..self
                }.doing(PageTaskView::Draw { page: id }),
            },
            None => self,
        }
    }

    /// The stack with a page's picture, if both are there.
    pub open spec fn pictured(self, id: u64, path: Option<Seq<char>>) -> PagesView {
        match (path, self.find(id)) {
            (Some(path), Some(at)) => PagesView {
                stack: self.stack.update(at, PageView { art: Some(path), ..self.stack[at] }),
                ..self
            }.doing(PageTaskView::Draw { page: id }),
            _ => self,
        }
    }

    /// Whether every page's id is behind us.
    pub open spec fn ids_are_spent(self) -> bool {
        forall|i: int| 0 <= i < self.stack.len() ==> (#[trigger] self.stack[i]).id < self.next_id
    }

    /// Whether no two pages share an id.
    pub open spec fn ids_differ(self) -> bool {
        forall|i: int, j: int|
            0 <= i < j < self.stack.len() ==> (#[trigger] self.stack[i]).id != (
            #[trigger] self.stack[j]).id
    }
}

impl Pages {
    pub fn new() -> (r: Self)
        ensures
            r@ == (PagesView { stack: Seq::empty(), next_id: 1, todo: Seq::empty() }),
    {
        Pages { stack: Vec::new(), next_id: 1, todo: Vec::new() }
    }

    fn task(&mut self, task: PageTask)
        ensures
            final(self)@ == old(self)@.doing(task@),
    {
        let ghost before = page_tasks(self.todo@);
        let ghost more = task@;
        self.todo.push(task);
        proof {
            assert(page_tasks(self.todo@) =~= before.push(more));
        }
    }

    /// Where a page stands in the stack right now.
    pub fn find(&self, id: u64) -> (r: Option<usize>)
        ensures
            match r {
                Some(i) => self@.find(id) == Some(i as int) && i < self@.stack.len(),
                None => self@.find(id) is None,
            },
    {
        let mut i: usize = 0;
        while i < self.stack.len()
            invariant
                self@.find(id) == depth_of(self@.stack, id, i as int),
                self@.stack.len() == self.stack@.len(),
            decreases self.stack@.len() - i,
        {
            proof {
                assert(self@.stack[i as int] == self.stack@[i as int]@);
            }
            if self.stack[i].id == id {
                return Some(i);
            }
            i += 1;
        }
        None
    }

    /// Push a page and have it filled. It appears at once: a click that does
    /// nothing for a second reads as one that did not register.
    pub fn push_page(&mut self, kind: PageKind)
        requires
            old(self)@.next_id < u64::MAX,
        ensures
            final(self)@ == old(self)@.pushed(kind@),
    {
        let id: u64 = self.next_id;
        let ghost before = page_views(self.stack@);
        self.next_id = id + 1;
        self.stack.push(
            Page { id, entries: Vec::new(), loaded: false, failure: None, art: None },
        );
        proof {
            assert(page_views(self.stack@) =~= before.push(
                PageView { id, entries: Seq::empty(), loaded: false, failure: None, art: None },
            ));
        }
        self.task(PageTask::Push { page: id, kind });
    }

    /// A page left the stack: drop the state behind it.
    pub fn page_popped(&mut self, id: u64)
        ensures
            final(self)@ == old(self)@.popped(id),
    {
        let ghost keep = |p: PageView| p.id != id;
        let ghost all = page_views(self.stack@);
        let mut left: Vec<Page> = Vec::new();
        let mut old_stack: Vec<Page> = Vec::new();
        std::mem::swap(&mut old_stack, &mut self.stack);
        let n: usize = old_stack.len();
        let mut i: usize = 0;
        proof {
            reveal(Seq::filter);
            assert(all.take(0).filter(keep) =~= Seq::empty());
            assert(page_views(old_stack@) =~= all.skip(0));
        }
        while i < n
            invariant
                i <= n,
                n == all.len(),
                keep == |p: PageView| p.id != id,
                page_views(old_stack@) == all.skip(i as int),
                page_views(left@) == all.take(i as int).filter(keep),
            decreases n - i,
        {
            proof {
                library::filter_grows(all, keep, i as int);
                assert(page_views(old_stack@).len() == all.len() - i);
                assert(page_views(old_stack@)[0] == all[i as int]);
            }
            let ghost so_far = page_views(left@);
            let ghost rest = old_stack@;
            let page = old_stack.remove(0);
            proof {
                assert(page@ == all[i as int]);
                assert(page_views(old_stack@) =~= page_views(rest).skip(1));
                assert(page_views(rest).skip(1) =~= all.skip(i + 1));
            }
            if page.id != id {
                let ghost shown = page@;
                left.push(page);
                proof {
                    assert(page_views(left@) =~= so_far.push(shown));
                }
            }
            i += 1;
        }
        self.stack = left;
        proof {
            assert(all.take(i as int) =~= all);
        }
    }

    /// Put a changed page where it stood.
    fn replace(&mut self, at: usize, page: Page)
        requires
            at < old(self)@.stack.len(),
        ensures
            final(self)@ == (PagesView {
                stack: old(self)@.stack.update(at as int, page@),
                ..old(self)@
            }),
    {
        let ghost before = page_views(self.stack@);
        let ghost shown = page@;
        self.stack.set(at, page);
        proof {
            assert(page_views(self.stack@) =~= before.update(at as int, shown));
        }
    }

    /// A page's contents arrived, or could not be had. By now the user may have
    /// gone back, and then there is nothing to fill.
    pub fn page_loaded(&mut self, id: u64, content: Result<PageContent, String>)
        ensures
            final(self)@ == old(self)@.filled(
                id,
                match content {
                    Ok(content) => Ok(content),
                    Err(why) => Err(why@),
                },
            ),
    {
        let at: usize = match self.find(id) {
            Some(at) => at,
            None => {
                return ;
            },
        };
        let failure: Option<String> = self.stack[at].failure.clone();
        let art: Option<String> = self.stack[at].art.clone();
        let loaded = self.stack[at].loaded;
        let own_id: u64 = self.stack[at].id;
        proof {
            assert(self@.stack[at as int] == self.stack@[at as int]@);
        }
        match content {
            Ok(content) => {
                let picture = content.picture_task(id);
                let entries = content.entries();
                self.replace(at, Page { id: own_id, entries, loaded: true, failure, art });
                self.task(PageTask::Draw { page: id });
                if let Some(task) = picture {
                    self.task(task);
                }
            },
            Err(why) => {
                let entries = music::copy_entries(self.stack[at].entries.as_slice());
                self.replace(
                    at,
                    Page { id: own_id, entries, loaded, failure: Some(why), art },
                );
                self.task(PageTask::Draw { page: id });
            },
        }
    }

    /// A page's picture is on disk, or could not be had: it keeps its
    /// placeholder then.
    pub fn page_artwork(&mut self, id: u64, path: Option<String>)
        ensures
            final(self)@ == old(self)@.pictured(id, text::text_view(path)),
    {
        let at: usize = match self.find(id) {
            Some(at) => at,
            None => {
                return ;
            },
        };
        if path.is_none() {
            return ;
        }
        let failure: Option<String> = self.stack[at].failure.clone();
        let entries = music::copy_entries(self.stack[at].entries.as_slice());
        let loaded = self.stack[at].loaded;
        let own_id: u64 = self.stack[at].id;
        proof {
            assert(self@.stack[at as int] == self.stack@[at as int]@);
        }
        self.replace(at, Page { id: own_id, entries, loaded, failure, art: path });
        self.task(PageTask::Draw { page: id });
    }

    /// Return to the results list. Cheap when there is nothing to do.
    pub fn pop_to_results(&mut self)
        ensures
            final(self)@ == old(self)@.clearing(),
    {
        if self.stack.len() > 0 {
            self.task(PageTask::PopAll);
        }
    }
}

/// Ids are never reused: pushing and popping keep every page's id behind the
/// next one, so no two pages ever share one.
pub proof fn page_ids_are_never_reused(pages: PagesView, kind: PageKindView, id: u64)
    requires
        pages.ids_are_spent(),
        pages.ids_differ(),
        pages.next_id < u64::MAX,
    ensures
        pages.pushed(kind).ids_are_spent(),
        pages.pushed(kind).ids_differ(),
        pages.pushed(kind).find(pages.next_id) == Some(pages.stack.len() as int),
        pages.popped(id).ids_are_spent(),
        pages.popped(id).find(id) is None,
{
    let after = pages.pushed(kind);
    assert forall|i: int| 0 <= i < after.stack.len() implies (#[trigger] after.stack[i]).id
        < after.next_id by {
        if i < pages.stack.len() {
            assert(after.stack[i] == pages.stack[i]);
        }
    }
    assert forall|i: int, j: int| 0 <= i < j < after.stack.len() implies (
    #[trigger] after.stack[i]).id != (#[trigger] after.stack[j]).id by {
        assert(after.stack[i] == pages.stack[i]);
        if j < pages.stack.len() {
            assert(after.stack[j] == pages.stack[j]);
        }
    }
    found_last(after.stack, pages.next_id, 0);
    let keep = |p: PageView| p.id != id;
    let left = pages.stack.filter(keep);
    assert forall|i: int| 0 <= i < left.len() implies (#[trigger] left[i]).id < pages.next_id
        && left[i].id != id by {
        pages.stack.lemma_filter_pred(keep, i);
        assert(left.contains(left[i]));
        pages.stack.lemma_filter_contains_rev(keep, left[i]);
        let k = choose|k: int| 0 <= k < pages.stack.len() && pages.stack[k] == left[i];
        assert(pages.stack[k].id < pages.next_id);
    }
    absent(left, id, 0);
}

proof fn found_last(stack: Seq<PageView>, id: u64, from: int)
    requires
        0 <= from < stack.len(),
        stack.last().id == id,
        forall|i: int| 0 <= i < stack.len() - 1 ==> (#[trigger] stack[i]).id != id,
    ensures
        depth_of(stack, id, from) == Some(stack.len() - 1),
    decreases stack.len() - from,
{
    if from < stack.len() - 1 {
        assert(stack[from].id != id);
        found_last(stack, id, from + 1);
    }
}

proof fn absent(stack: Seq<PageView>, id: u64, from: int)
    requires
        0 <= from,
        forall|i: int| 0 <= i < stack.len() ==> (#[trigger] stack[i]).id != id,
    ensures
        depth_of(stack, id, from) is None,
    decreases stack.len() - from,
{
    if from < stack.len() {
        assert(stack[from].id != id);
        absent(stack, id, from + 1);
    }
}

} // verus!
