//! Where the user is: which sidebar section is showing, and what that implies.
//!
//! The section has a *persisted* form ([`Section`]) and a *widget* form (the
//! sidebar row index). Three encodings of one idea is where they drift, so the
//! conversions and the laws that pin them live together.

use vstd::prelude::*;
use vstd::view::View as _;

use crate::text;

verus! {

/// Which sidebar section is showing.
#[derive(Debug, Clone, Copy, PartialEq, Eq, Structural)]
pub enum View {
    Search,
    Songs,
    Albums,
    Artists,
    Playlists,
}

/// The section as it is remembered between two runs.
#[derive(Debug, Clone, Copy, PartialEq, Eq, Structural)]
pub enum Section {
    Library,
    Albums,
    Artists,
    Playlists,
    Catalog,
}

/// One sidebar row: which section, its icon, and what it is called.
#[derive(Debug, Clone, Copy, PartialEq, Eq)]
pub struct Row {
    pub view: View,
    pub icon: &'static str,
    pub label: &'static str,
}

/// What a sidebar row means.
///
/// Rows carry their meaning: a pin pushes a page rather than changing what the
/// pane shows, so a row's position cannot say what the row does.
#[derive(Debug, PartialEq, Eq)]
pub enum SidebarRow {
    /// One of the five fixed sections.
    Section(View),
    /// A pinned playlist, by its id in the library.
    Pinned(String),
}

/// A [`SidebarRow`] with its text as a sequence.
#[verifier::ext_equal]
pub enum SidebarRowView {
    Section(View),
    Pinned(Seq<char>),
}

impl vstd::view::View for SidebarRow {
    type V = SidebarRowView;

    open spec fn view(&self) -> SidebarRowView {
        match *self {
            SidebarRow::Section(view) => SidebarRowView::Section(view),
            SidebarRow::Pinned(id) => SidebarRowView::Pinned(id@),
        }
    }
}

impl Clone for SidebarRow {
    fn clone(&self) -> (r: Self)
        ensures
            r == *self,
    {
        match self {
            SidebarRow::Section(view) => SidebarRow::Section(*view),
            SidebarRow::Pinned(id) => SidebarRow::Pinned(id.clone()),
        }
    }
}

/// The sections, in the order the sidebar shows them.
pub open spec fn sections() -> Seq<View> {
    seq![View::Search, View::Songs, View::Albums, View::Artists, View::Playlists]
}

/// Every row the sidebar shows, in order: the sections, then the pins.
pub open spec fn sidebar(pins: Seq<Seq<char>>) -> Seq<SidebarRowView> {
    sections().map_values(|view: View| SidebarRowView::Section(view)) + pins.map_values(
        |id: Seq<char>| SidebarRowView::Pinned(id),
    )
}

/// What each of a list of rows means.
pub open spec fn meanings(rows: Seq<SidebarRow>) -> Seq<SidebarRowView> {
    rows.map_values(|row: SidebarRow| row@)
}

/// The heading above a row of the sidebar: each of its two parts has one over the
/// row it starts with.
pub fn sidebar_heading(index: usize) -> (r: Option<&'static str>)
    ensures
        match r {
            Some(title) => (index == 0 && title@ == "Apple Music"@) || (index == 1 && title@
                == "Library"@),
            None => index > 1,
        },
{
    if index == 0 {
        Some("Apple Music")
    } else if index == 1 {
        Some("Library")
    } else {
        None
    }
}

/// Every row the sidebar shows, in order: the sections, then the pins.
pub fn sidebar_rows(pins: &[String]) -> (r: Vec<SidebarRow>)
    ensures
        meanings(r@) == sidebar(text::texts(pins@)),
{
    let mut rows: Vec<SidebarRow> = Vec::new();
    rows.push(SidebarRow::Section(View::Search));
    rows.push(SidebarRow::Section(View::Songs));
    rows.push(SidebarRow::Section(View::Albums));
    rows.push(SidebarRow::Section(View::Artists));
    rows.push(SidebarRow::Section(View::Playlists));
    let ghost all = sidebar(text::texts(pins@));
    let mut i: usize = 0;
    proof {
        assert(meanings(rows@) =~= all.take(5));
    }
    while i < pins.len()
        invariant
            i <= pins@.len(),
            all == sidebar(text::texts(pins@)),
            meanings(rows@) == all.take(5 + i),
        decreases pins@.len() - i,
    {
        let ghost so_far = meanings(rows@);
        rows.push(SidebarRow::Pinned(pins[i].clone()));
        proof {
            assert(meanings(rows@) =~= so_far.push(SidebarRowView::Pinned(pins@[i as int]@)));
            assert(all.take(6 + i) =~= so_far.push(SidebarRowView::Pinned(pins@[i as int]@)));
        }
        i += 1;
    }
    proof {
        assert(all.take(5 + i) =~= all);
    }
    rows
}

/// The first row at `from` or after it that is a given section.
pub open spec fn first_section(rows: Seq<SidebarRowView>, view: View, from: int) -> Option<int>
    decreases rows.len() - from,
{
    if from < 0 || from >= rows.len() {
        None
    } else if rows[from] == SidebarRowView::Section(view) {
        Some(from)
    } else {
        first_section(rows, view, from + 1)
    }
}

/// Where a section sits, for selecting the remembered one at startup. A widget
/// counts its rows in an `i32`.
pub fn section_index(rows: &[SidebarRow], view: View) -> (r: Option<i32>)
    ensures
        match first_section(meanings(rows@), view, 0) {
            Some(i) => r == if i <= i32::MAX {
                Some(i as i32)
            } else {
                None
            },
            None => r is None,
        },
{
    let ghost all = meanings(rows@);
    let mut i: usize = 0;
    while i < rows.len()
        invariant
            all == meanings(rows@),
            first_section(all, view, 0) == first_section(all, view, i as int),
        decreases rows@.len() - i,
    {
        let found = match &rows[i] {
            SidebarRow::Section(own) => *own == view,
            SidebarRow::Pinned(_) => false,
        };
        proof {
            assert(all[i as int] == rows@[i as int]@);
        }
        if found {
            return if i <= 0x7fff_ffff {
                Some(i as i32)
            } else {
                None
            };
        }
        i += 1;
    }
    None
}

impl View {
    /// The sections with what the sidebar draws for each, in order.
    pub fn sidebar() -> (r: Vec<Row>)
        ensures
            r@.map_values(|row: Row| row.view) == sections(),
            r@.map_values(|row: Row| row.icon@) == seq![
                "system-search-symbolic"@,
                "folder-music-symbolic"@,
                "media-optical-symbolic"@,
                "avatar-default-symbolic"@,
                "view-grid-symbolic"@,
            ],
            r@.map_values(|row: Row| row.label@) == seq![
                "Search"@,
                "Songs"@,
                "Albums"@,
                "Artists"@,
                "All"@,
            ],
    {
        let mut rows: Vec<Row> = Vec::new();
        rows.push(Row { view: View::Search, icon: "system-search-symbolic", label: "Search" });
        rows.push(Row { view: View::Songs, icon: "folder-music-symbolic", label: "Songs" });
        rows.push(Row { view: View::Albums, icon: "media-optical-symbolic", label: "Albums" });
        rows.push(Row { view: View::Artists, icon: "avatar-default-symbolic", label: "Artists" });
        rows.push(Row { view: View::Playlists, icon: "view-grid-symbolic", label: "All" });
        rows
    }

    /// Which set of music a search here searches.
    pub open spec fn searches(self) -> SearchScope {
        match self {
            View::Search => SearchScope::Catalog,
            _ => SearchScope::Library,
        }
    }

    /// Which set of music a search here searches.
    pub fn scope(self) -> (r: SearchScope)
        ensures
            r == self.searches(),
    {
        match self {
            View::Search => SearchScope::Catalog,
            _ => SearchScope::Library,
        }
    }

    /// What the header says it is showing.
    pub fn title(self) -> (r: &'static str)
        ensures
            r@ == (match self {
                View::Search => "Apple Music"@,
                View::Songs => "Songs"@,
                View::Albums => "Albums"@,
                View::Artists => "Artists"@,
                View::Playlists => "Playlists"@,
            }),
    {
        match self {
            View::Search => "Apple Music",
            View::Songs => "Songs",
            View::Albums => "Albums",
            View::Artists => "Artists",
            View::Playlists => "Playlists",
        }
    }

    /// The section as it is remembered.
    pub open spec fn section(self) -> Section {
        match self {
            View::Songs => Section::Library,
            View::Albums => Section::Albums,
            View::Artists => Section::Artists,
            View::Playlists => Section::Playlists,
            View::Search => Section::Catalog,
        }
    }
}

impl Default for View {
    fn default() -> (r: Self)
        ensures
            r == View::Songs,
    {
        View::Songs
    }
}

impl Section {
    /// The section that was remembered.
    pub open spec fn shown(self) -> View {
        match self {
            Section::Library => View::Songs,
            Section::Albums => View::Albums,
            Section::Artists => View::Artists,
            Section::Playlists => View::Playlists,
            Section::Catalog => View::Search,
        }
    }
}

impl From<Section> for View {
    fn from(section: Section) -> (r: Self) {
        match section {
            Section::Library => View::Songs,
            Section::Albums => View::Albums,
            Section::Artists => View::Artists,
            Section::Playlists => View::Playlists,
            Section::Catalog => View::Search,
        }
    }
}

impl vstd::std_specs::convert::FromSpecImpl<Section> for View {
    open spec fn obeys_from_spec() -> bool {
        true
    }

    open spec fn from_spec(section: Section) -> View {
        section.shown()
    }
}

impl From<View> for Section {
    fn from(view: View) -> (r: Self) {
        match view {
            View::Songs => Section::Library,
            View::Albums => Section::Albums,
            View::Artists => Section::Artists,
            View::Playlists => Section::Playlists,
            View::Search => Section::Catalog,
        }
    }
}

impl vstd::std_specs::convert::FromSpecImpl<View> for Section {
    open spec fn obeys_from_spec() -> bool {
        true
    }

    open spec fn from_spec(view: View) -> Section {
        view.section()
    }
}

/// Which set of music the search box is searching.
#[derive(Debug, Clone, Copy, PartialEq, Eq, Structural)]
pub enum SearchScope {
    /// Filter the tracks already loaded from the user's library, locally.
    Library,
    /// Search the whole catalog, over the network.
    Catalog,
}

impl Default for SearchScope {
    fn default() -> (r: Self)
        ensures
            r == SearchScope::Library,
    {
        SearchScope::Library
    }
}

/// Which kinds of result a catalog search asks for.
///
/// Scope is *where* the search runs; this is *what it looks for*. One offset
/// pages every kind named, so "more albums" cannot be asked until albums are
/// the only thing being requested.
#[derive(Debug, Clone, Copy, PartialEq, Eq, Structural)]
pub enum CatalogFilter {
    All,
    Songs,
    Albums,
    Artists,
    Playlists,
}

impl Default for CatalogFilter {
    fn default() -> (r: Self)
        ensures
            r == CatalogFilter::All,
    {
        CatalogFilter::All
    }
}

impl CatalogFilter {
    pub const ALL: [CatalogFilter; 5] = [
        CatalogFilter::All,
        CatalogFilter::Songs,
        CatalogFilter::Albums,
        CatalogFilter::Artists,
        CatalogFilter::Playlists,
    ];

    pub fn label(self) -> (r: &'static str)
        ensures
            r@ == (match self {
                CatalogFilter::All => "Everything"@,
                CatalogFilter::Songs => "Songs"@,
                CatalogFilter::Albums => "Albums"@,
                CatalogFilter::Artists => "Artists"@,
                CatalogFilter::Playlists => "Playlists"@,
            }),
    {
        match self {
            CatalogFilter::All => "Everything",
            CatalogFilter::Songs => "Songs",
            CatalogFilter::Albums => "Albums",
            CatalogFilter::Artists => "Artists",
            CatalogFilter::Playlists => "Playlists",
        }
    }

    /// The action target.
    pub open spec fn target(self) -> Seq<char> {
        match self {
            CatalogFilter::All => "all"@,
            CatalogFilter::Songs => "songs"@,
            CatalogFilter::Albums => "albums"@,
            CatalogFilter::Artists => "artists"@,
            CatalogFilter::Playlists => "playlists"@,
        }
    }

    /// The action target. Not persisted: a filter is what you want of *this*
    /// search.
    pub fn id(self) -> (r: &'static str)
        ensures
            r@ == self.target(),
    {
        match self {
            CatalogFilter::All => "all",
            CatalogFilter::Songs => "songs",
            CatalogFilter::Albums => "albums",
            CatalogFilter::Artists => "artists",
            CatalogFilter::Playlists => "playlists",
        }
    }

    /// The filter an action target names. One it does not know widens the
    /// search rather than showing nothing.
    pub open spec fn named(s: Seq<char>) -> CatalogFilter {
        if s == "songs"@ {
            CatalogFilter::Songs
        } else if s == "albums"@ {
            CatalogFilter::Albums
        } else if s == "artists"@ {
            CatalogFilter::Artists
        } else if s == "playlists"@ {
            CatalogFilter::Playlists
        } else {
            CatalogFilter::All
        }
    }

    /// The filter an action target names. One it does not know widens the
    /// search rather than showing nothing.
    pub fn parse(s: &str) -> (r: Self)
        ensures
            r == CatalogFilter::named(s@),
    {
        if text::same(s, "songs") {
            CatalogFilter::Songs
        } else if text::same(s, "albums") {
            CatalogFilter::Albums
        } else if text::same(s, "artists") {
            CatalogFilter::Artists
        } else if text::same(s, "playlists") {
            CatalogFilter::Playlists
        } else {
            CatalogFilter::All
        }
    }

    /// The kinds to ask for, parted by commas.
    pub open spec fn kinds(self) -> Seq<char> {
        match self {
            CatalogFilter::All => "songs,albums,artists,playlists"@,
            CatalogFilter::Songs => "songs"@,
            CatalogFilter::Albums => "albums"@,
            CatalogFilter::Artists => "artists"@,
            CatalogFilter::Playlists => "playlists"@,
        }
    }

    /// The kinds to ask for, parted by commas.
    pub fn types(self) -> (r: &'static str)
        ensures
            r@ == self.kinds(),
    {
        match self {
            CatalogFilter::All => "songs,albums,artists,playlists",
            CatalogFilter::Songs => "songs",
            CatalogFilter::Albums => "albums",
            CatalogFilter::Artists => "artists",
            CatalogFilter::Playlists => "playlists",
        }
    }
}

/// How a list is ordered.
#[derive(Debug, Clone, Copy, PartialEq, Eq, Structural)]
pub enum SortBy {
    /// Alphabetical, which is the order the service gives.
    Title,
    Artist,
    Album,
    Year,
    /// When it was saved to the library. Offered only where the data has it.
    Added,
    /// When a playlist was last edited.
    Updated,
}

impl Default for SortBy {
    fn default() -> (r: Self)
        ensures
            r == SortBy::Title,
    {
        SortBy::Title
    }
}

impl SortBy {
    /// What each section can honestly be sorted by.
    pub open spec fn offered(view: View) -> Seq<SortBy> {
        match view {
            View::Songs => seq![SortBy::Title, SortBy::Artist, SortBy::Album, SortBy::Year],
            View::Search => seq![SortBy::Title, SortBy::Artist, SortBy::Album, SortBy::Year],
            View::Albums => seq![SortBy::Title, SortBy::Artist, SortBy::Year, SortBy::Added],
            View::Playlists => seq![SortBy::Title, SortBy::Added, SortBy::Updated],
            View::Artists => seq![SortBy::Title],
        }
    }

    /// What each section can honestly be sorted by. The keys differ because the
    /// *data* differs: a library artist carries only a name.
    pub fn for_view(view: View) -> (r: Vec<Self>)
        ensures
            r@ == SortBy::offered(view),
    {
        match view {
            View::Songs | View::Search => vec![
                SortBy::Title,
                SortBy::Artist,
                SortBy::Album,
                SortBy::Year,
            ],
            View::Albums => vec![SortBy::Title, SortBy::Artist, SortBy::Year, SortBy::Added],
            View::Playlists => vec![SortBy::Title, SortBy::Added, SortBy::Updated],
            View::Artists => vec![SortBy::Title],
        }
    }

    /// This sort where the section offers it, else the section's first.
    pub open spec fn fitting(self, view: View) -> SortBy {
        if SortBy::offered(view).contains(self) {
            self
        } else {
            SortBy::offered(view)[0]
        }
    }

    /// This key, or the first the section offers when it does not offer this.
    pub fn valid_for(self, view: View) -> (r: Self)
        ensures
            r == self.fitting(view),
    {
        let allowed = SortBy::for_view(view);
        let mut i: usize = 0;
        while i < allowed.len()
            invariant
                i <= allowed@.len(),
                allowed@ == SortBy::offered(view),
                forall|j: int| 0 <= j < i ==> allowed@[j] != self,
            decreases allowed@.len() - i,
        {
            if allowed[i] == self {
                return self;
            }
            i += 1;
        }
        allowed[0]
    }

    pub fn label(self) -> (r: &'static str)
        ensures
            r@ == (match self {
                SortBy::Title => "Title"@,
                SortBy::Artist => "Artist"@,
                SortBy::Album => "Album"@,
                SortBy::Year => "Year"@,
                SortBy::Added => "Recently Added"@,
                SortBy::Updated => "Recently Updated"@,
            }),
    {
        match self {
            SortBy::Title => "Title",
            SortBy::Artist => "Artist",
            SortBy::Album => "Album",
            SortBy::Year => "Year",
            SortBy::Added => "Recently Added",
            SortBy::Updated => "Recently Updated",
        }
    }

    /// The action target, and what is remembered.
    pub open spec fn target(self) -> Seq<char> {
        match self {
            SortBy::Title => "title"@,
            SortBy::Artist => "artist"@,
            SortBy::Album => "album"@,
            SortBy::Year => "year"@,
            SortBy::Added => "added"@,
            SortBy::Updated => "updated"@,
        }
    }

    /// The action target, and what is remembered.
    pub fn id(self) -> (r: &'static str)
        ensures
            r@ == self.target(),
    {
        match self {
            SortBy::Title => "title",
            SortBy::Artist => "artist",
            SortBy::Album => "album",
            SortBy::Year => "year",
            SortBy::Added => "added",
            SortBy::Updated => "updated",
        }
    }

    /// The key a target names; the title for one it does not know.
    pub open spec fn named(s: Seq<char>) -> SortBy {
        if s == "artist"@ {
            SortBy::Artist
        } else if s == "album"@ {
            SortBy::Album
        } else if s == "year"@ {
            SortBy::Year
        } else if s == "added"@ {
            SortBy::Added
        } else if s == "updated"@ {
            SortBy::Updated
        } else {
            SortBy::Title
        }
    }

    /// The key a target names; the title for one it does not know.
    pub fn parse(s: &str) -> (r: Self)
        ensures
            r == SortBy::named(s@),
    {
        if text::same(s, "artist") {
            SortBy::Artist
        } else if text::same(s, "album") {
            SortBy::Album
        } else if text::same(s, "year") {
            SortBy::Year
        } else if text::same(s, "added") {
            SortBy::Added
        } else if text::same(s, "updated") {
            SortBy::Updated
        } else {
            SortBy::Title
        }
    }

    /// Whether this sort reads newest first before anyone flips it.
    pub open spec fn descends(self) -> bool {
        self == SortBy::Year || self == SortBy::Added || self == SortBy::Updated
    }

    /// Which way round this sort reads *naturally*: A to Z for names, newest
    /// first for dates.
    pub fn descends_by_default(self) -> (r: bool)
        ensures
            r == self.descends(),
    {
        match self {
            SortBy::Year | SortBy::Added | SortBy::Updated => true,
            _ => false,
        }
    }
}

/// What one section is sorted by, and whether the user flipped it.
#[derive(Debug, Clone, Copy, PartialEq, Eq, Structural)]
pub struct Sort {
    pub by: SortBy,
    pub reversed: bool,
}

/// Every section's sort, kept apart on purpose: the keys differ because the
/// data does, so the choices do too.
#[derive(Debug, Clone, Copy, PartialEq, Eq, Structural)]
pub struct Sorts {
    pub songs: Sort,
    pub albums: Sort,
    pub artists: Sort,
    pub playlists: Sort,
}

impl Default for Sort {
    fn default() -> (r: Self)
        ensures
            r == (Sort { by: SortBy::Title, reversed: false }),
    {
        Sort { by: SortBy::Title, reversed: false }
    }
}

impl Default for Sorts {
    fn default() -> (r: Self)
        ensures
            forall|view: View|
                #[trigger] r.of(view) == (Sort { by: SortBy::Title, reversed: false }),
    {
        Sorts {
            songs: Sort::default(),
            albums: Sort::default(),
            artists: Sort::default(),
            playlists: Sort::default(),
        }
    }
}

impl Sorts {
    /// The sort in force for a section. Search shares the songs list's, because
    /// it *is* the songs list showing other results.
    pub open spec fn of(self, view: View) -> Sort {
        match view {
            View::Albums => self.albums,
            View::Artists => self.artists,
            View::Playlists => self.playlists,
            View::Songs => self.songs,
            View::Search => self.songs,
        }
    }

    /// These sorts with one section's changed.
    pub open spec fn with(self, view: View, sort: Sort) -> Sorts {
        match view {
            View::Albums => Sorts { albums: sort, ..self },
            View::Artists => Sorts { artists: sort, ..self },
            View::Playlists => Sorts { playlists: sort, ..self },
            View::Songs => Sorts { songs: sort, ..self },
            View::Search => Sorts { songs: sort, ..self },
        }
    }

    /// The sort in force for `view`.
    pub fn get(&self, view: View) -> (r: Sort)
        ensures
            r == self.of(view),
    {
        match view {
            View::Albums => self.albums,
            View::Artists => self.artists,
            View::Playlists => self.playlists,
            View::Songs | View::Search => self.songs,
        }
    }

    pub fn set(&mut self, view: View, sort: Sort)
        ensures
            *final(self) == old(self).with(view, sort),
    {
        match view {
            View::Albums => {
                self.albums = sort;
            },
            View::Artists => {
                self.artists = sort;
            },
            View::Playlists => {
                self.playlists = sort;
            },
            View::Songs | View::Search => {
                self.songs = sort;
            },
        }
    }
}

} // verus!
