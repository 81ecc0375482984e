use slipmat::app::pages::{distinct_covers, playlist_covers, MOSAIC_TILES};
use slipmat::ipc;
use slipmat::library::{
    catalog_rows, matches_track, Cached, Library, CATALOG_BROWSE_ROWS,
};
use slipmat::music::{
    Album, Artist, Artwork, Entry, Playlist, SearchResults, Track, TrackId,
};
use slipmat::view::CatalogFilter;

fn track(title: &str, catalog: Option<&str>) -> Track {
    Track {
        id: TrackId(format!("i.{title}")),
        catalog_id: catalog.map(str::to_owned),
        title: title.into(),
        favorite: false,
        in_library: false,
        library_id: None,
        date_added: String::new(),
        year: String::new(),
        artist: "Aitana".into(),
        album: "Superestrella".into(),
        duration_ms: 200_000,
        track_number: 1,
        artwork: None,
    }
}

/// A page of results with a distinct count per kind, so that reading the wrong
/// one fails loudly.
fn page(songs: usize, albums: usize, artists: usize, playlists: usize) -> SearchResults {
    SearchResults {
        songs: (0..songs).map(|i| track(&format!("s{i}"), Some("1"))).collect(),
        albums: (0..albums)
            .map(|i| Album {
                id: format!("al{i}"),
                name: format!("al{i}"),
                artist: String::new(),
                artwork: None,
                year: String::new(),
                library: false,
                track_count: 1,
                date_added: String::new(),
            })
            .collect(),
        artists: (0..artists)
            .map(|i| Artist {
                id: format!("ar{i}"),
                name: format!("ar{i}"),
                artwork: None,
                genres: String::new(),
                library: false,
            })
            .collect(),
        playlists: (0..playlists)
            .map(|i| Playlist {
                id: format!("pl{i}"),
                name: format!("pl{i}"),
                curator: String::new(),
                description: String::new(),
                artwork: None,
                library: false,
                date_added: String::new(),
                last_modified: String::new(),
            })
            .collect(),
    }
}

fn kinds(rows: &[Entry]) -> Vec<&'static str> {
    rows.iter()
        .map(|e| match e {
            Entry::Song(_) => "song",
            Entry::Album(_) => "album",
            Entry::Artist(_) => "artist",
            Entry::Playlist(_) => "playlist",
        })
        .collect()
}

#[test]
fn unfiltered_results_lead_with_trimmed_browse_rows() {
    let (rows, paged) = catalog_rows(CatalogFilter::All, page(5, 9, 9, 9), true);
    let k = kinds(&rows);
    assert_eq!(k.iter().filter(|k| **k == "artist").count(), CATALOG_BROWSE_ROWS);
    assert_eq!(k.iter().filter(|k| **k == "album").count(), CATALOG_BROWSE_ROWS);
    assert_eq!(k.iter().filter(|k| **k == "playlist").count(), CATALOG_BROWSE_ROWS);
    assert_eq!(k.iter().filter(|k| **k == "song").count(), 5);
    // Songs last, browse rows first: never interleaved.
    assert_eq!(k[k.len() - 5..], ["song"; 5]);
    // Songs are what pages when nothing is filtered.
    assert_eq!(paged, 5);
}

#[test]
fn later_pages_carry_songs_only() {
    let (rows, paged) = catalog_rows(CatalogFilter::All, page(25, 9, 9, 9), false);
    assert_eq!(kinds(&rows), ["song"; 25]);
    assert_eq!(paged, 25);
}

#[test]
fn a_filtered_page_counts_its_own_kind_not_songs() {
    for (filter, kind, expected) in [
        (CatalogFilter::Songs, "song", 5),
        (CatalogFilter::Albums, "album", 6),
        (CatalogFilter::Artists, "artist", 7),
        (CatalogFilter::Playlists, "playlist", 8),
    ] {
        let (rows, paged) = catalog_rows(filter, page(5, 6, 7, 8), true);
        assert_eq!(kinds(&rows), vec![kind; expected], "{filter:?} rows");
        assert_eq!(paged, expected, "{filter:?} offset");
    }
}

#[test]
fn a_filtered_page_never_trims() {
    let (rows, paged) = catalog_rows(CatalogFilter::Albums, page(0, 25, 0, 0), true);
    assert_eq!(rows.len(), 25);
    assert_eq!(paged, 25);
}

#[test]
fn search_matches_title_artist_and_album_case_insensitively() {
    let t = track("SUPERESTRELLA", Some("1"));
    assert!(matches_track(&t, "superestrella"), "title");
    assert!(matches_track(&t, "aitana"), "artist");
    assert!(!matches_track(&t, "superstrella"), "not fuzzy, by design");
    assert!(!matches_track(&t, "rosalia"));
}

fn art(n: &str) -> Artwork {
    Artwork::new(format!("https://is1.mzstatic.com/{n}/{{w}}x{{h}}bb.jpg"))
}

#[test]
fn a_mosaic_never_repeats_a_cover() {
    let arts = [art("a"), art("a"), art("b"), art("a"), art("b")];
    let picked = distinct_covers(&arts, MOSAIC_TILES);

    assert_eq!(picked.len(), 2, "two albums can only give two quadrants");
    assert_eq!(picked[0].cache_key(), art("a").cache_key());
    assert_eq!(picked[1].cache_key(), art("b").cache_key());
}

#[test]
fn it_stops_at_four_however_long_the_playlist() {
    let arts: Vec<_> = (0..200).map(|i| art(&i.to_string())).collect();
    assert_eq!(distinct_covers(&arts, MOSAIC_TILES).len(), MOSAIC_TILES);
}

#[test]
fn order_follows_the_playlist() {
    let arts = [art("z"), art("y"), art("x"), art("w")];
    let picked = distinct_covers(&arts, MOSAIC_TILES);
    let keys: Vec<_> = picked.iter().map(Artwork::cache_key).collect();
    let want: Vec<_> = arts.iter().map(Artwork::cache_key).collect();
    assert_eq!(keys, want);
}

#[test]
fn too_few_covers_yields_too_few() {
    assert!(distinct_covers(&[art("a")], MOSAIC_TILES).len() < MOSAIC_TILES);
    assert!(distinct_covers(&[], MOSAIC_TILES).is_empty());
}

#[test]
fn a_playlist_takes_its_covers_from_its_tracks() {
    let mut a = track("a", Some("1"));
    a.artwork = Some(art("one"));
    let b = track("b", Some("2"));
    let mut c = track("c", Some("3"));
    c.artwork = Some(art("two"));
    let covers = playlist_covers(&[a, b, c]);
    assert_eq!(covers, vec![art("one"), art("two")]);
}

fn owned(title: &str, artist: &str) -> Track {
    Track {
        date_added: String::new(),
        year: String::new(),
        favorite: false,
        in_library: true,
        library_id: None,
        id: TrackId(title.into()),
        catalog_id: Some(title.into()),
        title: title.into(),
        artist: artist.into(),
        album: String::new(),
        duration_ms: 0,
        track_number: 0,
        artwork: None,
    }
}

fn library() -> Library {
    Library {
        tracks: vec![
            owned("Wind Shear", "Pierce Fulton"),
            owned("A Moment Apart", "ODESZA"),
            owned("Colors", "Beck"),
        ],
        ..Default::default()
    }
}

#[test]
fn a_window_reports_the_total_before_it_was_windowed() {
    let (rows, total) = library().browse(ipc::View::Songs, "", 1, 1);
    assert_eq!(rows.len(), 1);
    assert_eq!(total, 3);
}

#[test]
fn a_zero_limit_means_the_rest_rather_than_nothing() {
    let (rows, _) = library().browse(ipc::View::Songs, "", 0, 0);
    assert_eq!(rows.len(), 3);
}

#[test]
fn the_query_reaches_past_the_title() {
    let (rows, total) = library().browse(ipc::View::Songs, "odesza", 0, 0);
    assert_eq!(total, 1);
    assert!(matches!(&rows[0], Entry::Song(t) if t.title == "A Moment Apart"));
}

#[test]
fn an_offset_past_the_end_is_empty_rather_than_a_panic() {
    let (rows, total) = library().browse(ipc::View::Songs, "", 99, 10);
    assert!(rows.is_empty());
    assert_eq!(total, 3, "the total still describes the library");
}

#[test]
fn windows_of_a_section_lie_end_to_end() {
    let whole = library().browse(ipc::View::Songs, "", 0, 0).0;
    let mut pieces = library().browse(ipc::View::Songs, "", 0, 2).0;
    pieces.extend(library().browse(ipc::View::Songs, "", 2, 2).0);
    assert_eq!(pieces, whole);
}

#[test]
fn a_query_is_trimmed_before_it_is_asked() {
    assert_eq!(library().browse(ipc::View::Songs, "  beck\t", 0, 0).1, 1);
    assert_eq!(library().browse(ipc::View::Songs, "   ", 0, 0).1, 3);
}

#[test]
fn what_was_on_disk_is_what_is_browsed() {
    let cached = Cached {
        songs: vec![owned("a", "b")],
        albums: page(0, 2, 0, 0).albums,
        artists: page(0, 0, 3, 0).artists,
        playlists: page(0, 0, 0, 4).playlists,
    };
    let library = Library::from_cache(cached);
    assert_eq!(library.browse(ipc::View::Songs, "", 0, 0).1, 1);
    assert_eq!(library.browse(ipc::View::Albums, "", 0, 0).1, 2);
    assert_eq!(library.browse(ipc::View::Artists, "", 0, 0).1, 3);
    assert_eq!(library.browse(ipc::View::Playlists, "", 0, 0).1, 4);
}

#[test]
fn no_covers_are_wanted_and_none_come() {
    assert!(distinct_covers(&[art("a")], 0).is_empty());
    assert_eq!(distinct_covers(&[art("a"), art("b")], 1).len(), 1);
}
