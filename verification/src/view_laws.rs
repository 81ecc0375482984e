//! What holds of every section, filter and sort.

use vstd::prelude::*;
use vstd::view::View as _;

use crate::view;
use crate::view::{
    CatalogFilter,
    SearchScope,
    Section,
    SidebarRowView,
    Sort,
    SortBy,
    Sorts,
    View,
};

verus! {

/// A section survives being remembered, and what is remembered survives being
/// shown.
pub proof fn a_view_round_trips_through_its_section(view: View, section: Section)
    ensures
        view.section().shown() == view,
        section.shown().section() == section,
{
}

/// Every filter is named by its own target.
pub proof fn a_filter_round_trips_through_its_id(filter: CatalogFilter)
    ensures
        CatalogFilter::named(filter.target()) == filter,
{
    reveal_strlit("all");
    reveal_strlit("songs");
    reveal_strlit("albums");
    reveal_strlit("artists");
    reveal_strlit("playlists");
    assert("albums"@[0] == 'a' && "albums"@.len() == 6);
    assert("all"@.len() == 3 && "songs"@.len() == 5);
    assert("artists"@.len() == 7 && "playlists"@.len() == 9);
}

/// Every sort is named by what is remembered of it.
pub proof fn a_sort_round_trips_through_its_id(sort: SortBy)
    ensures
        SortBy::named(sort.target()) == sort,
{
    reveal_strlit("title");
    reveal_strlit("artist");
    reveal_strlit("album");
    reveal_strlit("year");
    reveal_strlit("added");
    reveal_strlit("updated");
    assert("title"@[0] == 't' && "title"@.len() == 5);
    assert("album"@[1] == 'l' && "album"@.len() == 5);
    assert("added"@[1] == 'd' && "added"@.len() == 5);
    assert("artist"@.len() == 6 && "year"@.len() == 4 && "updated"@.len() == 7);
}

/// A narrowed search asks for exactly one kind: no comma parts it.
pub proof fn a_narrowed_search_asks_for_one_kind(filter: CatalogFilter)
    requires
        filter != CatalogFilter::All,
    ensures
        !filter.kinds().contains(','),
        filter.kinds() == filter.target(),
{
    reveal_strlit("songs");
    reveal_strlit("albums");
    reveal_strlit("artists");
    reveal_strlit("playlists");
}

/// A search of everything asks for every kind a filter can narrow it to.
pub proof fn an_unfiltered_search_asks_for_every_kind()
    ensures
        CatalogFilter::All.kinds() == CatalogFilter::Songs.kinds().push(',')
            + CatalogFilter::Albums.kinds().push(',') + CatalogFilter::Artists.kinds().push(',')
            + CatalogFilter::Playlists.kinds(),
{
    reveal_strlit("songs,albums,artists,playlists");
    reveal_strlit("songs");
    reveal_strlit("albums");
    reveal_strlit("artists");
    reveal_strlit("playlists");
    assert(CatalogFilter::All.kinds() =~= CatalogFilter::Songs.kinds().push(',')
        + CatalogFilter::Albums.kinds().push(',') + CatalogFilter::Artists.kinds().push(',')
        + CatalogFilter::Playlists.kinds());
}

/// A section's sort is its own: setting one shows there, and only there. The
/// songs list and a search are one list.
pub proof fn each_section_keeps_its_own_sort(sorts: Sorts, changed: View, sort: Sort, other: View)
    ensures
        sorts.with(changed, sort).of(changed) == sort,
        other != changed && !(other == View::Songs && changed == View::Search) && !(other
            == View::Search && changed == View::Songs) ==> sorts.with(changed, sort).of(other)
            == sorts.of(other),
        sorts.of(View::Songs) == sorts.of(View::Search),
{
}

/// Every section offers the title first, so there is always a key to fall back
/// to.
pub proof fn every_section_offers_the_title(view: View)
    ensures
        SortBy::offered(view).len() > 0,
        SortBy::offered(view)[0] == SortBy::Title,
{
}

/// Each section is found at its own row, whatever is pinned below, and its
/// place does not move when a pin is added.
pub proof fn every_section_is_found_at_its_own_row(pins: Seq<Seq<char>>, at: int)
    requires
        0 <= at < view::sections().len(),
    ensures
        view::first_section(view::sidebar(pins), view::sections()[at], 0) == Some(at),
        view::sidebar(pins)[at] == SidebarRowView::Section(view::sections()[at]),
{
    let rows = view::sidebar(pins);
    assert(rows[0] == SidebarRowView::Section(View::Search));
    assert(rows[1] == SidebarRowView::Section(View::Songs));
    assert(rows[2] == SidebarRowView::Section(View::Albums));
    assert(rows[3] == SidebarRowView::Section(View::Artists));
    assert(rows[4] == SidebarRowView::Section(View::Playlists));
    reveal_with_fuel(view::first_section, 6);
}

/// A pin is never mistaken for a section: the rows below the sections are the
/// pins, in order.
pub proof fn a_pin_is_never_a_section(pins: Seq<Seq<char>>, k: int)
    requires
        0 <= k < pins.len(),
    ensures
        view::sidebar(pins)[view::sections().len() + k] == SidebarRowView::Pinned(pins[k]),
        view::sidebar(pins).len() == view::sections().len() + pins.len(),
{
}

/// Each section is remembered under its own name, and only the search looks at the
/// catalog.
pub proof fn each_view_has_its_own_section(view: View)
    ensures
        View::Songs.section() == Section::Library,
        View::Albums.section() == Section::Albums,
        View::Artists.section() == Section::Artists,
        View::Playlists.section() == Section::Playlists,
        View::Search.section() == Section::Catalog,
        view.searches() == SearchScope::Catalog <==> view == View::Search,
{
}

/// A section is sorted by what its items have: songs and results by title, artist,
/// album and year, albums by title, artist, year and when they were added, playlists by
/// title and by their two dates, and artists by name alone.
pub proof fn a_section_offers_what_its_items_have(by: SortBy)
    ensures
        SortBy::offered(View::Songs).contains(by) <==> by == SortBy::Title || by == SortBy::Artist
            || by == SortBy::Album || by == SortBy::Year,
        SortBy::offered(View::Search) == SortBy::offered(View::Songs),
        SortBy::offered(View::Albums).contains(by) <==> by == SortBy::Title || by == SortBy::Artist
            || by == SortBy::Year || by == SortBy::Added,
        SortBy::offered(View::Playlists).contains(by) <==> by == SortBy::Title || by
            == SortBy::Added || by == SortBy::Updated,
        SortBy::offered(View::Artists).contains(by) <==> by == SortBy::Title,
{
    let songs = SortBy::offered(View::Songs);
    let albums = SortBy::offered(View::Albums);
    let playlists = SortBy::offered(View::Playlists);
    let artists = SortBy::offered(View::Artists);
    assert(songs[0] == SortBy::Title && songs[1] == SortBy::Artist && songs[2] == SortBy::Album
        && songs[3] == SortBy::Year);
    assert(albums[0] == SortBy::Title && albums[1] == SortBy::Artist && albums[2] == SortBy::Year
        && albums[3] == SortBy::Added);
    assert(playlists[0] == SortBy::Title && playlists[1] == SortBy::Added && playlists[2]
        == SortBy::Updated);
    assert(artists[0] == SortBy::Title);
}

/// A key that a section offers is kept there, and any other gives way to the title.
pub proof fn a_key_that_does_not_fit_gives_way_to_the_title(by: SortBy, view: View)
    ensures
        SortBy::offered(view).contains(by) ==> by.fitting(view) == by,
        !SortBy::offered(view).contains(by) ==> by.fitting(view) == SortBy::Title,
{
    every_section_offers_the_title(view);
}

/// Dates come newest first, and names in their own order.
pub proof fn dates_come_newest_first(by: SortBy)
    ensures
        by.descends() <==> by == SortBy::Year || by == SortBy::Added || by == SortBy::Updated,
{
}

/// The sidebar lists the search first, then the sections of the library, then what was
/// pinned, in the order it was.
pub proof fn the_sidebar_lists_sections_then_pins(pins: Seq<Seq<char>>, k: int)
    requires
        0 <= k < pins.len(),
    ensures
        ({
            let rows = view::sidebar(pins);
            &&& rows.len() == 5 + pins.len()
            &&& rows[0] == SidebarRowView::Section(View::Search)
            &&& rows[1] == SidebarRowView::Section(View::Songs)
            &&& rows[2] == SidebarRowView::Section(View::Albums)
            &&& rows[3] == SidebarRowView::Section(View::Artists)
            &&& rows[4] == SidebarRowView::Section(View::Playlists)
            &&& rows[5 + k] == SidebarRowView::Pinned(pins[k])
        }),
{
}

/// A filter asks for its own kind by its own name.
pub proof fn a_filter_is_called_after_its_kind()
    ensures
        CatalogFilter::Songs.target() == "songs"@,
        CatalogFilter::Albums.target() == "albums"@,
        CatalogFilter::Artists.target() == "artists"@,
        CatalogFilter::Playlists.target() == "playlists"@,
        CatalogFilter::All.target() == "all"@,
        CatalogFilter::All.kinds() == "songs,albums,artists,playlists"@,
{
}

/// A key is kept under its own name.
pub proof fn a_key_is_called_after_what_it_sorts_by()
    ensures
        SortBy::Title.target() == "title"@,
        SortBy::Artist.target() == "artist"@,
        SortBy::Album.target() == "album"@,
        SortBy::Year.target() == "year"@,
        SortBy::Added.target() == "added"@,
        SortBy::Updated.target() == "updated"@,
{
}

/// Each section's sort is its own: songs and results share one, and the others have one each.
pub proof fn each_section_has_its_own_sort(sorts: Sorts)
    ensures
        sorts.of(View::Songs) == sorts.songs,
        sorts.of(View::Search) == sorts.songs,
        sorts.of(View::Albums) == sorts.albums,
        sorts.of(View::Artists) == sorts.artists,
        sorts.of(View::Playlists) == sorts.playlists,
{
}

} // verus!
