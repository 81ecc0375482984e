use slipmat::daemon::Model;
use slipmat::deck::Session;
use slipmat::ids::IdSet;
use slipmat::ipc::{Event, PageKind, PlayMode, Request, Stage, Transport, View, WriteAction};
use slipmat::library::Library;
use slipmat::mpris::MprisCommand;
use slipmat::music::{SearchResults, Track, TrackId};
use slipmat::protocol::{event_name, Command, Item, PlayerEvent, PlayerState, Tokens};
use slipmat::rest::IDLE_MS;
use slipmat::serve::{random_row, unreadable, Daemon, Engine, Task};
use slipmat::supervise::{claim, restart_delay, Claim, FetchedPage};
use slipmat::view::CatalogFilter;
use slipmat::volume::FULL_VOLUME;

fn track(title: &str) -> Track {
    Track {
        id: TrackId(title.into()),
        catalog_id: Some(title.into()),
        title: title.into(),
        artist: String::new(),
        album: String::new(),
        favorite: false,
        in_library: true,
        library_id: None,
        date_added: String::new(),
        year: String::new(),
        duration_ms: 0,
        track_number: 0,
        artwork: None,
    }
}

fn tokens() -> Tokens {
    Tokens {
        developer_token: "dev".into(),
        music_user_token: None,
        storefront: "es".into(),
        authorized: true,
    }
}

fn daemon() -> Daemon {
    let library = Library { tracks: vec![track("one"), track("two")], ..Default::default() };
    Daemon::new(Model::new(IdSet::new(), library))
}

fn item(id: &str) -> Item {
    Item { catalog_id: Some(id.into()), title: id.into(), ..Default::default() }
}

fn tasks(daemon: &mut Daemon) -> Vec<Task> {
    std::mem::take(&mut daemon.tasks)
}

fn sent(daemon: &mut Daemon) -> Vec<Command> {
    std::mem::take(&mut daemon.model.deck.outbox)
}

fn ids(list: &[&str]) -> Vec<String> {
    list.iter().map(|s| s.to_string()).collect()
}

fn error(words: &str) -> Event {
    Event::Error { detail: words.into() }
}

fn ask(daemon: &mut Daemon, request: Request) -> Option<Event> {
    let mut feed = false;
    daemon.answer(request, &mut feed, 0, true)
}

#[test]
fn a_subscriber_is_fed_and_shown_the_state_at_once() {
    let mut d = daemon();
    let mut feed = false;
    let answer = d.answer(Request::Subscribe, &mut feed, 0, true);
    assert!(feed);
    assert_eq!(answer, Some(Event::Snapshot(d.model.snapshot())));
    assert_eq!(d.model.snapshot().volume, FULL_VOLUME);
}

#[test]
fn a_browse_is_answered_from_the_cache() {
    let mut d = daemon();
    let answer = ask(
        &mut d,
        Request::Browse { view: View::Songs, query: "TWO".into(), offset: 0, limit: 0 },
    );
    match answer {
        Some(Event::Rows { view: View::Songs, entries, total: 1 }) => {
            assert_eq!(entries[0].title(), "two");
        }
        other => panic!("{other:?}"),
    }
    assert!(tasks(&mut d).is_empty());
}

#[test]
fn transport_goes_to_the_player_and_a_volume_is_remembered() {
    let mut d = daemon();
    assert_eq!(ask(&mut d, Request::Transport(Transport::Next)), None);
    assert_eq!(ask(&mut d, Request::Transport(Transport::SetVolume { volume: 7 })), None);
    assert_eq!(sent(&mut d), [Command::Next, Command::SetVolume { volume: 7 }]);
    assert_eq!(d.model.snapshot().volume, 7);
}

#[test]
fn playing_a_list_nobody_can_stream_says_so() {
    let mut d = daemon();
    ask(&mut d, Request::Play { ids: vec![], index: 0, start: PlayMode::Clicked });
    assert_eq!(tasks(&mut d), [Task::Publish(error("Nothing here can be streamed"))]);
    assert!(sent(&mut d).is_empty());
}

#[test]
fn a_list_is_played_from_the_row_asked_for() {
    let mut d = daemon();
    ask(&mut d, Request::Play { ids: ids(&["1", "2"]), index: 1, start: PlayMode::InOrder });
    assert_eq!(
        sent(&mut d),
        [
            Command::SetShuffle { shuffle: false },
            Command::SetQueue {
                songs: ids(&["1", "2"]),
                start_position: 1,
                start_playing: true,
                start_time_ms: 0,
            },
        ]
    );
}

#[test]
fn a_shuffle_opens_on_a_row_drawn_from_the_clock() {
    assert_eq!(random_row(0, 5), 0);
    assert_eq!(random_row(3, 7), 1);
    let mut d = daemon();
    let mut feed = false;
    d.answer(
        Request::Play { ids: ids(&["1", "2", "3"]), index: 0, start: PlayMode::Shuffled },
        &mut feed,
        7,
        true,
    );
    match &sent(&mut d)[1] {
        Command::SetQueue { start_position, .. } => assert_eq!(*start_position, 1),
        other => panic!("{other:?}"),
    }
}

#[test]
fn the_playing_track_is_not_removed() {
    let mut d = daemon();
    d.model.deck.player.queue = vec![item("1"), item("2")];
    d.model.deck.player.queue_position = 1;
    assert_eq!(
        ask(&mut d, Request::RemoveFromQueue { index: 1 }),
        Some(error("Can't remove the track that's playing"))
    );
    assert!(sent(&mut d).is_empty());
    assert_eq!(ask(&mut d, Request::RemoveFromQueue { index: 0 }), None);
    assert_eq!(sent(&mut d), [Command::RemoveFromQueue { index: 0 }]);
}

#[test]
fn a_move_is_shown_before_the_player_answers() {
    let mut d = daemon();
    d.model.deck.player.queue = vec![item("1"), item("2"), item("3")];
    match ask(&mut d, Request::MoveInQueue { from: 0, to: 2 }) {
        Some(Event::Queue { items, position }) => {
            let order: Vec<_> = items.iter().map(|i| i.title.clone()).collect();
            assert_eq!(order, ["2", "3", "1"]);
            assert_eq!(position, 2);
        }
        other => panic!("{other:?}"),
    }
    assert_eq!(sent(&mut d), [Command::MoveInQueue { from: 0, to: 2 }]);
    assert_eq!(ask(&mut d, Request::MoveInQueue { from: 0, to: 9 }), None);
    assert!(sent(&mut d).is_empty());
}

#[test]
fn what_needs_the_service_waits_for_a_session() {
    let mut d = daemon();
    for request in [
        Request::Open { kind: PageKind::Album, id: "a".into() },
        Request::Write { action: WriteAction::Favorite, id: "a".into() },
        Request::Search { query: "q".into(), filter: CatalogFilter::All, offset: 0 },
    ] {
        ask(&mut d, request);
        assert_eq!(tasks(&mut d), [Task::Publish(error("Not signed in yet"))]);
    }
    d.model.tokens = Some(tokens());
    ask(&mut d, Request::Write { action: WriteAction::Favorite, id: "a".into() });
    assert_eq!(
        tasks(&mut d),
        [Task::WriteLibrary { action: WriteAction::Favorite, id: "a".into() }]
    );
    // A removal only the player itself can do.
    ask(&mut d, Request::Write { action: WriteAction::RemoveFromLibrary, id: "i.1".into() });
    assert_eq!(sent(&mut d), [Command::RemoveFromLibrary { id: "i.1".into() }]);
}

#[test]
fn a_reload_button_cannot_stack_fetches() {
    let mut d = daemon();
    ask(&mut d, Request::Refresh);
    assert!(tasks(&mut d).is_empty(), "nobody to ask yet");
    d.model.tokens = Some(tokens());
    ask(&mut d, Request::Refresh);
    ask(&mut d, Request::Refresh);
    assert_eq!(tasks(&mut d), [Task::FetchLibrary]);
    d.library_fetched(None);
    ask(&mut d, Request::Refresh);
    assert_eq!(tasks(&mut d), [Task::FetchLibrary], "a failed one can be tried again");
}

#[test]
fn a_fetched_library_is_kept_and_announced_without_its_rows() {
    let mut d = daemon();
    d.library_fetched(Some(Library { tracks: vec![track("new")], ..Default::default() }));
    assert_eq!(tasks(&mut d), [Task::SaveLibrary, Task::Publish(Event::LibraryChanged)]);
    assert_eq!(d.model.library.tracks.len(), 1);
}

#[test]
fn attaching_puts_the_session_back_once() {
    let mut d = daemon();
    let ready = || PlayerEvent::HookReady { authorized: true };
    assert!(d.wants_session(&ready()));
    let session = || Some(Session { songs: ids(&["1"]), start: 0, position_ms: 3 });
    d.on_event(ready(), PlayerState::new(), session(), None);
    assert_eq!(sent(&mut d).len(), 2);
    assert_eq!(d.model.stage, Stage::Ready);
    assert!(!d.wants_session(&ready()));
    d.on_event(ready(), PlayerState::new(), session(), None);
    assert!(sent(&mut d).is_empty());
}

#[test]
fn a_new_queue_is_told_and_remembered() {
    let mut d = daemon();
    let mut player = PlayerState::new();
    player.queue = vec![item("1")];
    d.on_event(PlayerEvent::Queue, player, None, None);
    let done = tasks(&mut d);
    assert!(matches!(&done[0], Task::Publish(Event::Queue { items, position: 0 }) if items.len() == 1));
    assert_eq!(
        done[1],
        Task::SaveSession(Session { songs: ids(&["1"]), start: 0, position_ms: 0 })
    );
    assert!(matches!(done[2], Task::Publish(Event::Snapshot(_))));
    assert!(matches!(done[3], Task::TellBus(_)));
}

#[test]
fn a_cover_is_fetched_once_per_template() {
    let mut d = daemon();
    let playing = || {
        let mut player = PlayerState::new();
        let mut now = item("1");
        now.artwork_template = Some("t".into());
        player.now_playing = Some(now);
        player
    };
    d.on_event(PlayerEvent::NowPlaying, playing(), None, None);
    assert!(tasks(&mut d).contains(&Task::FetchArtwork { template: "t".into() }));
    d.on_event(PlayerEvent::NowPlaying, playing(), None, None);
    assert!(!tasks(&mut d).contains(&Task::FetchArtwork { template: "t".into() }));
    d.artwork_fetched(Some("/tmp/cover.jpg".into()));
    assert_eq!(d.model.snapshot().art_path, Some("/tmp/cover.jpg".to_string()));
}

#[test]
fn a_refusal_that_is_not_ours_is_passed_on() {
    let mut d = daemon();
    d.on_event(
        PlayerEvent::Error { detail: "the network is down".into() },
        PlayerState::new(),
        None,
        None,
    );
    assert_eq!(tasks(&mut d)[0], Task::Publish(error("the network is down")));
}

#[test]
fn the_daemon_outlives_the_player_s_process() {
    let mut d = daemon();
    d.sidecar_died("gone".into());
    assert_eq!(
        tasks(&mut d),
        [Task::Publish(Event::Stage(Stage::Broken { detail: "gone".into() }))]
    );
    assert_eq!(d.restart(), 0);
    assert_eq!(d.restart(), 1);
    d.sidecar_respawned();
    assert_eq!(d.model.stage, Stage::Connecting);
    d.on_event(
        PlayerEvent::HookReady { authorized: false },
        PlayerState::new(),
        None,
        None,
    );
    assert_eq!(d.restarts, 0, "something attached");
    assert_eq!(d.model.stage, Stage::SignedOut);
}

#[test]
fn leaving_saves_first() {
    let mut d = daemon();
    d.leave();
    assert_eq!(tasks(&mut d), [Task::ClearSession, Task::Exit]);
}

#[test]
fn pages_and_searches_are_told_when_they_arrive() {
    let mut d = daemon();
    let page = FetchedPage { title: "T".into(), tracks: vec![track("a")], albums: vec![] };
    d.page_fetched(PageKind::Album, "id".into(), Ok(page));
    d.page_fetched(PageKind::Artist, "id".into(), Err("no".into()));
    d.catalog_fetched(
        "q".into(),
        CatalogFilter::Songs,
        0,
        Ok(SearchResults {
            songs: vec![track("found")],
            albums: vec![],
            artists: vec![],
            playlists: vec![],
        }),
    );
    d.catalog_fetched("q".into(), CatalogFilter::All, 0, Err("off".into()));
    let done = tasks(&mut d);
    assert!(matches!(
        &done[0],
        Task::Publish(Event::Page { title, entries, .. }) if title == "T" && entries.len() == 1
    ));
    assert_eq!(done[1], Task::Publish(error("no")));
    assert!(matches!(
        &done[2],
        Task::Publish(Event::Results { query, entries }) if query == "q" && entries.len() == 1
    ));
    assert_eq!(done[3], Task::Publish(error("off")));
}

#[test]
fn a_controller_on_the_bus_drives_the_daemon() {
    let mut d = daemon();
    d.on_command(MprisCommand::PlayPause);
    d.on_command(MprisCommand::Seek(5));
    assert_eq!(sent(&mut d), [Command::PlayPause, Command::Seek { position_ms: 5 }]);
    d.on_command(MprisCommand::Raise);
    assert!(sent(&mut d).is_empty(), "there is no window");
}

#[test]
fn a_socket_is_asked_before_it_is_removed() {
    assert_eq!(claim(false, false), Claim::Listen);
    assert_eq!(claim(true, false), Claim::RemoveStale);
    assert_eq!(claim(true, true), Claim::AlreadyRunning);
}

#[test]
fn an_unreadable_request_is_answered() {
    assert_eq!(unreadable("EOF"), error("unreadable request: EOF"));
}

#[test]
fn events_are_named_as_the_wire_names_them() {
    assert_eq!(event_name(&PlayerEvent::NowPlaying), "nowPlaying");
    assert_eq!(event_name(&PlayerEvent::Queue), "queue");
}

#[test]
fn a_track_that_ends_is_not_driven() {
    let mut d = daemon();
    let mut player = PlayerState::new();
    player.queue = vec![item("1"), item("2")];
    player.now_playing = Some(item("2"));
    player.queue_position = 1;
    player.playing = true;
    d.on_event(PlayerEvent::NowPlaying, player, None, None);
    assert!(sent(&mut d).is_empty(), "the player advances by itself");
}

#[test]
fn a_daemon_others_are_attached_to_is_not_quit() {
    let mut d = daemon();
    let mut feed = true;
    let refusal = d.answer(Request::Quit, &mut feed, 0, false);
    assert_eq!(refusal, Some(error("Another window is still open")));
    assert!(tasks(&mut d).is_empty());
    assert_eq!(d.answer(Request::Quit, &mut feed, 0, true), None);
    assert_eq!(tasks(&mut d), [Task::ClearSession, Task::Exit]);
}

/// A daemon whose player is up, signed in, and stopped in the middle of a queue.
fn paused() -> Daemon {
    let mut d = daemon();
    d.restored = true;
    d.model.stage = Stage::Ready;
    d.model.deck.player.queue = vec![item("1"), item("2")];
    d.model.deck.player.now_playing = Some(item("2"));
    d.model.deck.player.queue_position = 1;
    d.model.deck.player.position_ms = 700;
    d
}

fn remembered() -> Session {
    Session { songs: ids(&["1", "2"]), start: 1, position_ms: 700 }
}

#[test]
fn five_idle_minutes_put_the_player_down() {
    let mut d = paused();
    d.rest(1_000);
    d.rest(1_000 + IDLE_MS - 1);
    assert_eq!(d.engine, Engine::Up);
    assert!(tasks(&mut d).is_empty());
    d.rest(301_000);
    assert_eq!(d.engine, Engine::Down);
    assert_eq!(tasks(&mut d), [Task::SaveSession(remembered()), Task::StopPlayer]);
    d.rest(900_000);
    assert!(tasks(&mut d).is_empty(), "it is put down once");
    assert!(d.outgoing().is_empty());
    assert_eq!(d.engine, Engine::Down, "nothing was asked of it");
}

#[test]
fn a_player_in_use_is_not_put_down() {
    let mut d = paused();
    d.rest(0);
    d.model.deck.player.playing = true;
    d.rest(900_000);
    assert_eq!((d.engine, d.quiet_since), (Engine::Up, None));
    d.model.deck.player.playing = false;
    d.rest(900_001);
    ask(&mut d, Request::Transport(Transport::Next));
    assert_eq!(d.outgoing(), [Command::Next]);
    d.rest(900_001 + IDLE_MS);
    assert_eq!(d.engine, Engine::Up, "asking starts the wait anew");
    d.model.stage = Stage::Connecting;
    d.rest(5_000_000);
    assert_eq!((d.engine, d.quiet_since), (Engine::Up, None));
}

#[test]
fn asking_wakes_the_player_and_the_queue_comes_back_first() {
    let mut d = paused();
    d.rest(0);
    d.rest(IDLE_MS);
    tasks(&mut d);
    d.send(Command::Play);
    assert!(d.outgoing().is_empty());
    assert_eq!(tasks(&mut d), [Task::StartPlayer]);
    d.send(Command::Next);
    assert!(d.outgoing().is_empty());
    assert!(tasks(&mut d).is_empty(), "it is started once");
    d.sidecar_respawned();
    let event = PlayerEvent::HookReady { authorized: true };
    assert!(d.wants_session(&event));
    let mirror = d.model.deck.player.clone();
    d.on_event(event, mirror, Some(remembered()), None);
    assert_eq!(d.engine, Engine::Up);
    assert_eq!(
        d.outgoing(),
        [
            Command::SetShuffle { shuffle: false },
            Command::SetQueue {
                songs: ids(&["1", "2"]),
                start_position: 1,
                start_playing: false,
                start_time_ms: 700,
            },
            Command::Play,
            Command::Next,
        ]
    );
    assert!(d.outgoing().is_empty());
}

#[test]
fn a_new_queue_is_not_put_behind_the_old_one() {
    let mut d = paused();
    d.rest(0);
    d.rest(IDLE_MS);
    d.send(Command::ClearQueue);
    d.outgoing();
    d.sidecar_respawned();
    let mirror = d.model.deck.player.clone();
    d.on_event(
        PlayerEvent::HookReady { authorized: true },
        mirror,
        Some(remembered()),
        None,
    );
    assert_eq!(d.outgoing(), [Command::ClearQueue]);
}

#[test]
fn a_start_waits_twice_as_long_each_time_up_to_half_a_minute() {
    let waits: Vec<u64> = [0, 1, 2, 3, 4, 5, 6, u32::MAX].map(restart_delay).into();
    assert_eq!(waits, [1, 2, 4, 8, 16, 30, 30, 30]);
}

#[test]
fn a_position_is_carried_forward_to_the_end_of_the_track() {
    let mut player = PlayerState::new();
    player.position_ms = 1_000;
    player.duration_ms = 5_000;
    player.carry(700);
    assert_eq!(player.interpolated_ms, 1_000, "a paused player stays where it is");
    player.playing = true;
    player.carry(700);
    assert_eq!(player.interpolated_ms, 1_700);
    player.carry(4_000);
    assert_eq!(player.interpolated_ms, 5_000);
    player.carry(u64::MAX);
    assert_eq!(player.interpolated_ms, 5_000);
    player.duration_ms = 0;
    player.carry(9_000);
    assert_eq!(player.interpolated_ms, 10_000, "a length that is not known bounds nothing");
    player.carry(u64::MAX);
    assert_eq!(player.interpolated_ms, u64::MAX);
    assert_eq!(player.position_ms, 1_000);
}
