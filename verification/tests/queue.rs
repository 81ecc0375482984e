use slipmat::ids::IdSet;
use slipmat::music::{Album, Artist, Entry, Track, TrackId};
use slipmat::protocol::Item;
use slipmat::queue::{
    holds, index_at, playable_rows, queue_from, queue_from_ids, start_index, unresolvable_ids,
    Start,
};

/// A queue holding `ids` in order, duplicates included.
fn queue(ids: &[&str]) -> Vec<Item> {
    ids.iter()
        .map(|id| Item { catalog_id: Some((*id).to_owned()), ..Default::default() })
        .collect()
}

fn song(title: &str, catalog: Option<&str>) -> Entry {
    Entry::Song(track(title, catalog))
}

fn track(title: &str, catalog: Option<&str>) -> Track {
    Track {
        id: TrackId(format!("i.{title}")),
        catalog_id: catalog.map(str::to_owned),
        title: title.into(),
        favorite: false,
        in_library: false,
        library_id: None,
        date_added: String::new(),
        year: String::new(),
        artist: "Aitana".into(),
        album: "Superestrella".into(),
        duration_ms: 200_000,
        track_number: 1,
        artwork: None,
    }
}

fn album() -> Entry {
    Entry::Album(Album {
        date_added: String::new(),
        id: "al1".into(),
        name: "Superestrella".into(),
        artist: "Aitana".into(),
        artwork: None,
        year: "2020".into(),
        library: false,
        track_count: 12,
    })
}

fn dead(ids: &[&str]) -> IdSet {
    let list: Vec<String> = ids.iter().map(|s| s.to_string()).collect();
    IdSet::of(&list)
}

#[test]
fn a_duplicated_track_resolves_to_the_copy_that_was_clicked() {
    let q = queue(&["a", "b", "a", "c"]);
    assert_eq!(index_at(&q, 2, "a"), Some(2), "clicked the second");
    assert_eq!(index_at(&q, 0, "a"), Some(0), "clicked the first");
    assert_eq!(index_at(&q, usize::MAX, "a"), Some(0), "id alone finds one");
}

#[test]
fn a_moved_queue_falls_back_to_searching_by_id() {
    let q = queue(&["b", "a", "c"]);
    assert_eq!(index_at(&q, 2, "a"), Some(1));
}

#[test]
fn a_position_past_the_end_does_not_panic() {
    let q = queue(&["a"]);
    assert_eq!(index_at(&q, 99, "a"), Some(0));
    assert_eq!(index_at(&q, 99, "gone"), None);
}

#[test]
fn clicking_a_row_enqueues_the_whole_visible_list() {
    let visible = vec![song("a", Some("1")), song("b", Some("2")), song("c", Some("3"))];

    let (songs, start_id) = queue_from(&visible, 1, &dead(&[]));
    assert_eq!(songs, vec!["1", "2", "3"]);
    assert_eq!(start_index(&songs, start_id.as_ref()), 1);
}

#[test]
fn unplayable_rows_do_not_shift_the_chosen_track() {
    let visible = vec![
        song("a", Some("1")),
        song("b", None),
        song("c", Some("3")),
        song("d", Some("4")),
    ];

    let (songs, start_id) = queue_from(&visible, 3, &dead(&[]));
    assert_eq!(songs, vec!["1", "3", "4"]);
    assert_eq!(songs[start_index(&songs, start_id.as_ref())], "4");
}

#[test]
fn known_dead_ids_never_reach_the_queue_and_do_not_shift_it() {
    let visible = vec![song("a", Some("1")), song("b", Some("2")), song("c", Some("3"))];

    let (songs, start_id) = queue_from(&visible, 2, &dead(&["2"]));
    assert_eq!(songs, vec!["1", "3"], "dead id must not be sent");
    assert_eq!(songs[start_index(&songs, start_id.as_ref())], "3");
}

#[test]
fn clicking_a_dead_row_starts_the_next_streamable_track() {
    let visible = vec![song("a", Some("1")), song("b", Some("2")), song("c", Some("3"))];

    let (songs, start_id) = queue_from(&visible, 1, &dead(&["2"]));
    assert_eq!(songs[start_index(&songs, start_id.as_ref())], "3");
}

#[test]
fn album_and_artist_rows_are_not_enqueued() {
    let visible = vec![
        Entry::Artist(Artist {
            id: "a1".into(),
            name: "Aitana".into(),
            artwork: None,
            genres: String::new(),
            library: false,
        }),
        album(),
        song("a", Some("1")),
        song("b", Some("2")),
    ];

    let (songs, start_id) = queue_from(&visible, 3, &dead(&[]));
    assert_eq!(songs, vec!["1", "2"], "browse rows are not tracks");
    assert_eq!(songs[start_index(&songs, start_id.as_ref())], "2");
}

#[test]
fn a_shuffle_can_start_on_any_streamable_row_and_only_those() {
    let visible = vec![
        song("a", Some("1")),
        song("b", None), // no catalog id
        song("c", Some("3")),
        song("d", Some("4")), // dead
        song("e", Some("5")),
    ];
    assert_eq!(playable_rows(&visible, &dead(&["4"])), vec![0, 2, 4]);
}

#[test]
fn a_shuffle_never_starts_on_a_row_that_would_fall_back_to_the_top() {
    let visible = vec![song("a", Some("1")), song("b", None)];
    let rows = playable_rows(&visible, &dead(&[]));
    assert_eq!(rows, vec![0], "row 1 would have fallen back to the top");

    for row in rows {
        let (songs, start_id) = queue_from(&visible, row, &dead(&[]));
        assert!(start_id.is_some(), "row {row} names no track");
        assert_eq!(songs[start_index(&songs, start_id.as_ref())], "1");
    }
}

#[test]
fn browse_rows_are_not_somewhere_a_shuffle_can_start() {
    let visible = vec![album(), song("a", Some("1"))];
    assert_eq!(playable_rows(&visible, &dead(&[])), vec![1]);
}

#[test]
fn a_list_with_nothing_playable_offers_no_shuffle_start() {
    assert!(playable_rows(&[song("a", None)], &dead(&[])).is_empty());
}

#[test]
fn a_row_click_states_sequential_when_it_builds_a_queue() {
    assert_eq!(Start::Clicked.mode(true), Some(false));
}

#[test]
fn a_row_click_leaves_the_mode_alone_when_it_only_moves_within_a_queue() {
    assert_eq!(Start::Clicked.mode(false), None);
}

#[test]
fn both_buttons_state_a_mode_either_way() {
    for creating in [true, false] {
        assert_eq!(Start::Shuffled.mode(creating), Some(true));
        assert_eq!(Start::InOrder.mode(creating), Some(false));
    }
}

#[test]
fn a_list_with_nothing_playable_produces_no_queue() {
    let (songs, _) = queue_from(&[song("a", None)], 0, &dead(&[]));
    assert!(songs.is_empty(), "caller must toast rather than enqueue");
}

#[test]
fn clicking_past_the_last_streamable_track_falls_back_to_the_top() {
    let visible = vec![song("a", Some("1")), song("b", None)];
    let (songs, start_id) = queue_from(&visible, 1, &dead(&[]));
    assert_eq!(start_index(&songs, start_id.as_ref()), 0);
}

/// An item of the player's queue, as the mirror holds it.
fn item(catalog: &str) -> Item {
    Item {
        id: None,
        catalog_id: Some(catalog.into()),
        title: catalog.into(),
        artist: String::new(),
        album: String::new(),
        duration_ms: 0,
        track_number: 0,
        artwork_template: None,
    }
}

#[test]
fn a_shuffled_queue_is_still_the_same_queue() {
    let queue = [item("3"), item("1"), item("2")];
    assert!(holds(&queue, &["1".into(), "2".into(), "3".into()]));
}

#[test]
fn a_different_list_is_not_the_same_queue() {
    let queue = [item("1"), item("2")];
    assert!(!holds(&queue, &["1".into(), "3".into()]));
    assert!(!holds(&queue, &["1".into(), "2".into(), "3".into()]));
    assert!(!holds(&queue, &[]));
}

#[test]
fn a_repeat_counts_when_two_queues_are_held_against_each_other() {
    let queue = [item("1"), item("1"), item("2")];
    assert!(!holds(&queue, &["1".into(), "2".into(), "2".into()]));
    assert!(holds(&queue, &["1".into(), "2".into(), "1".into()]));
}

#[test]
fn ids_without_rows_queue_like_rows_do() {
    let listed = [Some("1".to_string()), None, Some("2".to_string()), Some("1".to_string())];
    let (songs, start) = queue_from_ids(&listed, 1, &dead(&[]));
    assert_eq!(start, Some("2".to_string()));
    assert_eq!(start_index(&songs, start.as_ref()), songs.iter().position(|s| s == "2").unwrap());
}

#[test]
fn a_start_that_is_not_in_the_queue_is_the_top() {
    let songs = ["1".to_string(), "2".to_string()];
    assert_eq!(start_index(&songs, Some(&"9".to_string())), 0);
    assert_eq!(start_index(&songs, None), 0);
}

#[test]
fn only_a_refusal_that_names_ids_names_dead_ones() {
    assert!(unresolvable_ids("the network is down").is_empty());
    assert!(unresolvable_ids("").is_empty());
}
