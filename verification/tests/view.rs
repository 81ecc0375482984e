use std::cmp::Ordering;

use slipmat::music::{Album, Artist, Playlist, Track, TrackId};
use slipmat::sort::{display, sort_list};
use slipmat::view::{
    section_index, sidebar_heading, sidebar_rows, CatalogFilter, SearchScope, Section, SidebarRow,
    Sort, SortBy, Sorts, View,
};

#[test]
fn every_section_can_be_found_again_by_the_row_it_built() {
    let rows = sidebar_rows(&[]);
    for row in &View::sidebar() {
        let index = section_index(&rows, row.view)
            .unwrap_or_else(|| panic!("{} has no row", row.label));
        assert_eq!(
            rows[index as usize],
            SidebarRow::Section(row.view),
            "{} was found at somebody else's row",
            row.label
        );
    }
}

#[test]
fn the_sections_come_first_and_keep_their_order() {
    let rows = sidebar_rows(&["p.one".to_owned(), "p.two".to_owned()]);
    let sections: Vec<_> =
        View::sidebar().iter().map(|row| SidebarRow::Section(row.view)).collect();
    assert_eq!(&rows[..sections.len()], &sections[..]);
    assert_eq!(
        &rows[sections.len()..],
        &[
            SidebarRow::Pinned("p.one".to_owned()),
            SidebarRow::Pinned("p.two".to_owned()),
        ]
    );
}

#[test]
fn a_pin_is_never_mistaken_for_a_section() {
    let rows = sidebar_rows(&["p.one".to_owned()]);
    assert!(section_index(&rows, View::Playlists).is_some());
    assert!(matches!(rows.last(), Some(SidebarRow::Pinned(_))));
}

#[test]
fn a_section_only_offers_keys_its_data_has() {
    assert!(!SortBy::for_view(View::Songs).contains(&SortBy::Added));
    assert!(SortBy::for_view(View::Albums).contains(&SortBy::Added));
    assert!(SortBy::for_view(View::Playlists).contains(&SortBy::Added));
    assert!(SortBy::for_view(View::Playlists).contains(&SortBy::Updated));
    assert!(!SortBy::for_view(View::Albums).contains(&SortBy::Updated));
    assert_eq!(SortBy::for_view(View::Artists), &[SortBy::Title]);
}

#[test]
fn a_restored_sort_a_section_cannot_honour_falls_back() {
    assert_eq!(SortBy::Updated.valid_for(View::Albums), SortBy::Title);
    assert_eq!(SortBy::Artist.valid_for(View::Playlists), SortBy::Title);
    assert_eq!(SortBy::Added.valid_for(View::Albums), SortBy::Added);
}

#[test]
fn each_section_keeps_its_own_sort() {
    let mut sorts = Sorts::default();
    sorts.set(View::Albums, Sort { by: SortBy::Added, reversed: true });
    assert_eq!(sorts.get(View::Albums).by, SortBy::Added);
    assert_eq!(sorts.get(View::Songs).by, SortBy::Title);
    sorts.set(View::Songs, Sort { by: SortBy::Artist, reversed: false });
    assert_eq!(sorts.get(View::Search).by, SortBy::Artist);
}

#[test]
fn a_position_outside_the_list_names_no_row() {
    let rows = sidebar_rows(&[]);
    assert!(rows.get(99).is_none());
    assert!(section_index(&[], View::Songs).is_none());
}

#[test]
fn the_view_round_trips_through_the_persisted_section() {
    for view in [View::Search, View::Songs, View::Albums, View::Artists, View::Playlists] {
        assert_eq!(View::from(Section::from(view)), view);
    }
}

#[test]
fn only_search_looks_at_the_catalog() {
    assert_eq!(View::Search.scope(), SearchScope::Catalog);
    for view in [View::Songs, View::Albums, View::Artists, View::Playlists] {
        assert_eq!(view.scope(), SearchScope::Library);
    }
}

#[test]
fn every_catalog_filter_round_trips_through_its_id() {
    for filter in CatalogFilter::ALL {
        assert_eq!(CatalogFilter::parse(filter.id()), filter);
    }
    // A future version's id, or a typo, must widen rather than show nothing.
    assert_eq!(CatalogFilter::parse("music-videos"), CatalogFilter::All);
    assert_eq!(CatalogFilter::parse(""), CatalogFilter::All);
}

#[test]
fn unfiltered_asks_for_every_kind_the_app_can_show() {
    let all = CatalogFilter::All.types();
    for filter in CatalogFilter::ALL {
        if filter == CatalogFilter::All {
            continue;
        }
        assert!(
            all.split(',').any(|kind| kind == filter.types()),
            "{:?} is offered as a filter but absent from the unfiltered search",
            filter
        );
    }
}

#[test]
fn a_narrowed_search_asks_for_exactly_one_kind() {
    for filter in CatalogFilter::ALL {
        if filter == CatalogFilter::All {
            continue;
        }
        assert!(!filter.types().contains(','), "{filter:?}");
    }
}

fn track(title: &str, album: &str, n: u32, added: &str, year: &str) -> Track {
    Track {
        id: TrackId(title.into()),
        catalog_id: Some(title.into()),
        title: title.into(),
        artist: String::new(),
        album: album.into(),
        favorite: false,
        in_library: false,
        library_id: None,
        date_added: added.into(),
        year: year.into(),
        duration_ms: 0,
        track_number: n,
        artwork: None,
    }
}

#[test]
fn every_sort_round_trips_through_its_persisted_id() {
    for sort in [
        SortBy::Title,
        SortBy::Artist,
        SortBy::Album,
        SortBy::Year,
        SortBy::Added,
        SortBy::Updated,
    ] {
        assert_eq!(SortBy::parse(sort.id()), sort);
    }
    // A hand-edited or future-version ini must not break startup.
    assert_eq!(SortBy::parse("bpm"), SortBy::Title);
    assert_eq!(SortBy::parse(""), SortBy::Title);
}

/// What the list actually shows.
fn displayed(sort: SortBy, reversed: bool, v: &mut [Track]) -> Vec<String> {
    display(v, sort, reversed).iter().map(|t| t.title.clone()).collect()
}

#[test]
fn year_reads_newest_first_and_flips_on_request() {
    let mut v = vec![
        track("old", "", 0, "", "1999"),
        track("undated", "", 0, "", ""),
        track("new", "", 0, "", "2026"),
    ];
    assert_eq!(displayed(SortBy::Year, false, &mut v), ["new", "old", "undated"]);
    assert_eq!(displayed(SortBy::Year, true, &mut v), ["undated", "old", "new"]);
}

#[test]
fn alphabetical_reads_a_to_z_without_asking() {
    let mut v = vec![track("Zebra", "", 0, "", ""), track("Apple", "", 0, "", "")];
    assert_eq!(displayed(SortBy::Title, false, &mut v), ["Apple", "Zebra"]);
    assert_eq!(displayed(SortBy::Title, true, &mut v), ["Zebra", "Apple"]);
}

#[test]
fn sorting_by_album_keeps_album_order_within_an_album() {
    let mut v = [
        track("Zebra", "Fragile", 1, "", ""),
        track("Apple", "Fragile", 2, "", ""),
        track("Mango", "Aqualung", 1, "", ""),
    ];
    v.sort_by(|a, b| SortBy::Album.compare(a, b));
    let order: Vec<&str> = v.iter().map(|t| t.title.as_str()).collect();
    assert_eq!(order, ["Mango", "Zebra", "Apple"]);
}

#[test]
fn the_library_s_own_sort_agrees_with_its_comparator() {
    let v = vec![
        track("Zebra", "Fragile", 1, "", "1971"),
        track("Apple", "Fragile", 2, "", "1971"),
        track("mango", "Aqualung", 1, "", ""),
        track("Árbol", "Aqualung", 2, "", "2020"),
    ];
    for by in [SortBy::Title, SortBy::Artist, SortBy::Album, SortBy::Year] {
        let mut up = v.clone();
        up.sort_by(|a, b| by.compare(a, b));
        assert_eq!(sort_list(&v, by, false), up, "{by:?}");
        let mut down = v.clone();
        down.sort_by(|a, b| by.compare(b, a));
        assert_eq!(sort_list(&v, by, true), down, "{by:?}");
        let (plain, flipped) =
            if by.descends_by_default() { (down, up) } else { (up, down) };
        assert_eq!(display(&v, by, false), plain, "{by:?}");
        assert_eq!(display(&v, by, true), flipped, "{by:?}");
    }
}

#[test]
fn turning_a_sort_round_does_not_swap_what_ties() {
    let v = vec![
        track("Same", "first", 0, "", ""),
        track("Other", "", 0, "", ""),
        track("same", "second", 0, "", ""),
    ];
    let albums = |reversed: bool| -> Vec<String> {
        display(&v, SortBy::Title, reversed).iter().map(|t| t.album.clone()).collect()
    };
    assert_eq!(albums(false), ["", "first", "second"]);
    assert_eq!(albums(true), ["first", "second", ""]);
}

#[test]
fn a_sort_is_without_regard_to_case() {
    let v = vec![track("banana", "", 0, "", ""), track("APPLE", "", 0, "", "")];
    let titles: Vec<String> =
        display(&v, SortBy::Title, false).iter().map(|t| t.title.clone()).collect();
    assert_eq!(titles, ["APPLE", "banana"]);
}

#[test]
fn each_part_of_the_sidebar_has_a_heading() {
    assert_eq!(sidebar_heading(0), Some("Apple Music"));
    assert_eq!(sidebar_heading(1), Some("Library"));
    assert_eq!(sidebar_heading(2), None);
}

fn album(name: &str, artist: &str, year: &str, added: &str) -> Album {
    Album {
        id: name.into(),
        name: name.into(),
        artist: artist.into(),
        artwork: None,
        year: year.into(),
        library: true,
        track_count: 0,
        date_added: added.into(),
    }
}

#[test]
fn albums_order_by_each_of_their_keys() {
    let a = album("alpha", "Zed", "2001", "2020-01-02");
    let b = album("Beta", "abe", "1999", "2020-01-02");
    assert_eq!(SortBy::Title.compare_album(&a, &b), Ordering::Less);
    assert_eq!(SortBy::Artist.compare_album(&a, &b), Ordering::Greater);
    assert_eq!(SortBy::Year.compare_album(&a, &b), Ordering::Greater);
    assert_eq!(SortBy::Added.compare_album(&a, &b), Ordering::Less, "a tie falls to the title");
    assert_eq!(SortBy::Updated.compare_album(&a, &b), Ordering::Less);
    assert_eq!(SortBy::Title.compare_album(&a, &a), Ordering::Equal);
}

#[test]
fn playlists_and_artists_order_by_what_they_have() {
    let list = |name: &str, added: &str, edited: &str| Playlist {
        id: name.into(),
        name: name.into(),
        curator: String::new(),
        description: String::new(),
        artwork: None,
        library: true,
        date_added: added.into(),
        last_modified: edited.into(),
    };
    let a = list("Alpha", "2021", "2022");
    let b = list("beta", "2020", "2023");
    assert_eq!(SortBy::Title.compare_playlist(&a, &b), Ordering::Less);
    assert_eq!(SortBy::Added.compare_playlist(&a, &b), Ordering::Greater);
    assert_eq!(SortBy::Updated.compare_playlist(&a, &b), Ordering::Less);
    assert_eq!(SortBy::Artist.compare_playlist(&b, &a), Ordering::Greater);

    let artist = |name: &str| Artist {
        id: name.into(),
        name: name.into(),
        artwork: None,
        genres: String::new(),
        library: true,
    };
    assert_eq!(SortBy::compare_artist(&artist("ABBA"), &artist("abba")), Ordering::Equal);
    assert_eq!(SortBy::compare_artist(&artist("Yes"), &artist("abba")), Ordering::Greater);
}
