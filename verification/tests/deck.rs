use slipmat::deck::{Deck, Retry, Sent, Session};
use slipmat::ids::IdSet;
use slipmat::music::{Entry, Track, TrackId};
use slipmat::protocol::{Command, Item, PlayerState};
use slipmat::queue::{unresolvable_ids, Start};

fn deck() -> Deck {
    Deck::new(IdSet::new(), true)
}

fn sent(deck: &mut Deck) -> Vec<Command> {
    std::mem::take(&mut deck.outbox)
}

fn item(id: &str) -> Item {
    Item { catalog_id: Some(id.into()), ..Default::default() }
}

fn song(id: &str) -> Entry {
    Entry::Song(Track {
        id: TrackId(id.into()),
        catalog_id: Some(id.into()),
        title: id.into(),
        artist: String::new(),
        album: String::new(),
        favorite: false,
        in_library: false,
        library_id: None,
        date_added: String::new(),
        year: String::new(),
        duration_ms: 0,
        track_number: 0,
        artwork: None,
    })
}

fn ids(list: &[&str]) -> Vec<String> {
    list.iter().map(|s| s.to_string()).collect()
}

fn queue_of(list: &[&str], start: usize, playing: bool, at_ms: u64) -> Command {
    Command::SetQueue {
        songs: ids(list),
        start_position: start,
        start_playing: playing,
        start_time_ms: at_ms,
    }
}

#[test]
fn a_refusal_names_the_ids_it_was_over() {
    let detail = "NOT_FOUND; One or more items could not be resolved: 1550626760, 1526511025";
    assert_eq!(unresolvable_ids(detail), ids(&["1550626760", "1526511025"]));
    // A stray number is not an id, and what stands before the marker is not read.
    assert_eq!(
        unresolvable_ids("1550626760 could not be resolved: 12, 1526511025 (404)"),
        ids(&["1526511025"])
    );
    assert!(unresolvable_ids("NOT_FOUND 1550626760").is_empty());
}

#[test]
fn a_click_starts_the_list_in_order() {
    let mut deck = deck();
    let rows = [song("100001"), song("100002"), song("100003")];
    assert!(deck.play_entries(&rows, 1, Start::Clicked));
    assert_eq!(
        sent(&mut deck),
        [
            Command::SetShuffle { shuffle: false },
            queue_of(&["100001", "100002", "100003"], 1, true, 0),
        ]
    );
    assert_eq!(deck.pending_start, Some("100002".to_string()));
}

#[test]
fn a_click_in_the_loaded_queue_only_moves() {
    let mut deck = deck();
    deck.player.queue = vec![item("3"), item("1"), item("2")];
    let rows = [song("1"), song("2"), song("3")];
    assert!(deck.play_entries(&rows, 1, Start::Clicked));
    assert_eq!(sent(&mut deck), [Command::ChangeToIndex { index: 2 }]);
    assert_eq!(deck.pending_start, None);
}

#[test]
fn a_shuffled_queue_has_no_wrong_start() {
    let mut deck = deck();
    assert!(deck.play_ids(&ids(&["1", "2"]), 1, Start::Shuffled));
    assert_eq!(deck.pending_start, None);
    assert_eq!(
        sent(&mut deck),
        [Command::SetShuffle { shuffle: true }, queue_of(&["1", "2"], 1, true, 0)]
    );
}

#[test]
fn a_refused_queue_is_sent_again_without_its_dead() {
    let mut deck = deck();
    let list = ids(&["1000001", "1000002", "1000003"]);
    deck.play_ids(&list, 1, Start::InOrder);
    sent(&mut deck);
    let why = "could not be resolved: 1000002";
    assert_eq!(deck.retry_without_dead_tracks(why, true), Retry::Resent);
    assert!(deck.dead_ids.contains("1000002"));
    assert_eq!(sent(&mut deck), [queue_of(&["1000001", "1000003"], 1, true, 0)]);
    assert_eq!(deck.pending_start, Some("1000003".to_string()));
    // The same refusal again is not answered again.
    deck.last_queue = Some(Sent { songs: list, wanted: None });
    assert_eq!(deck.retry_without_dead_tracks(why, true), Retry::NotOurs);
}

#[test]
fn a_queue_with_no_survivors_is_given_up() {
    let mut deck = deck();
    deck.play_ids(&ids(&["1000001"]), 0, Start::InOrder);
    sent(&mut deck);
    assert_eq!(
        deck.retry_without_dead_tracks("could not be resolved: 1000001", false),
        Retry::NothingLeft
    );
    assert!(sent(&mut deck).is_empty());
    assert_eq!(
        deck.retry_without_dead_tracks("some other error", false),
        Retry::NotOurs
    );
}

#[test]
fn a_session_comes_back_loaded_and_not_playing() {
    let mut deck = deck();
    deck.player.queue = vec![item("1"), item("2"), item("3")];
    deck.player.queue_position = 2;
    deck.player.position_ms = 42_000;
    let session = deck.save_session().expect("a queue to remember");
    assert_eq!(
        session,
        Session { songs: ids(&["1", "2", "3"]), start: 2, position_ms: 42_000 }
    );

    let mut later = Deck::new(IdSet::new(), true);
    later.restore_session(session);
    assert_eq!(
        sent(&mut later),
        [
            Command::SetShuffle { shuffle: false },
            queue_of(&["1", "2", "3"], 2, false, 42_000),
        ]
    );
    assert_eq!(Deck::new(IdSet::new(), true).save_session(), None);
}

#[test]
fn a_wrong_start_is_corrected_once() {
    let mut deck = deck();
    deck.play_ids(&ids(&["1", "2", "3"]), 2, Start::InOrder);
    sent(&mut deck);
    deck.player.queue = vec![item("1"), item("2"), item("3")];
    deck.player.queue_position = 0;
    deck.verify_start();
    assert!(sent(&mut deck).is_empty(), "the item has not arrived yet");
    deck.player.now_playing = Some(item("1"));
    deck.verify_start();
    assert_eq!(sent(&mut deck), [Command::ChangeToIndex { index: 2 }]);
    deck.verify_start();
    assert!(sent(&mut deck).is_empty(), "one shot");
}

#[test]
fn a_play_that_made_no_sound_is_healed_once() {
    let mut deck = deck();
    deck.player.queue = vec![item("1"), item("2")];
    deck.player.queue_position = 1;
    deck.player.interpolated_ms = 9_000;
    deck.play_did_nothing("next");
    assert!(sent(&mut deck).is_empty(), "only a play is judged");
    deck.play_did_nothing("play");
    assert_eq!(sent(&mut deck), [Command::ChangeToIndex { index: 1 }]);
    deck.play_did_nothing("play");
    assert!(sent(&mut deck).is_empty(), "and only once");
    deck.resume_position();
    assert_eq!(sent(&mut deck), [Command::Seek { position_ms: 9_000 }]);
    deck.player.playing = true;
    deck.play_did_nothing("playPause");
    assert!(!deck.healed, "a play that worked may be healed again");
}

#[test]
fn one_track_joins_the_queue_or_starts_one() {
    let mut deck = deck();
    deck.enqueue("1".into(), true);
    assert_eq!(sent(&mut deck), [queue_of(&["1"], 0, true, 0)]);
    assert_eq!(deck.pending_start, Some("1".to_string()));
    deck.player.queue = vec![item("1")];
    deck.enqueue("2".into(), true);
    deck.enqueue("3".into(), false);
    assert_eq!(
        sent(&mut deck),
        [
            Command::PlayNext { songs: ids(&["2"]) },
            Command::PlayLater { songs: ids(&["3"]) },
        ]
    );
}

#[test]
fn a_jump_plays_what_stood_still() {
    let mut deck = deck();
    deck.jump(4);
    assert_eq!(sent(&mut deck), [Command::ChangeToIndex { index: 4 }, Command::Play]);
    deck.player.playing = true;
    deck.jump(5);
    assert_eq!(sent(&mut deck), [Command::ChangeToIndex { index: 5 }]);
}

#[test]
fn a_move_can_be_moved_back() {
    let mut player = PlayerState::new();
    player.queue = vec![item("a"), item("b"), item("c"), item("d")];
    player.queue_position = 1;
    assert!(player.move_item(1, 3));
    assert_eq!(player.queue_position, 3, "the playing item keeps playing");
    assert_eq!(player.queue[3].catalog_id, Some("b".to_string()));
    assert!(player.move_item(3, 1));
    assert_eq!(player.queue_position, 1);
    assert_eq!(player.queue[1].catalog_id, Some("b".to_string()));
    assert!(!player.move_item(4, 0));
    assert!(!player.move_item(0, 4));
}

#[test]
fn a_set_of_ids_holds_each_once() {
    let mut set = IdSet::new();
    assert!(set.insert("a".into()));
    assert!(!set.insert("a".into()));
    set.extend(&ids(&["b", "a", "c"]));
    assert_eq!(set.list(), ids(&["a", "b", "c"]));
    assert!(set.contains("c"));
    assert!(!set.contains("d"));
}
