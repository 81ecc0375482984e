use slipmat::app::commands::CommandMsg;
use slipmat::app::handle::AppMsg;
use slipmat::app::model::{AppModel, Effect, LibraryAction, Settings, Stage, Theme};
use slipmat::app::pages::{PageContent, PageKind, PageTask};
use slipmat::app::shelf::ShelfTask;
use slipmat::app::status::startup_page;
use slipmat::app::writes::{Patch, Pending, PendingWrite};
use slipmat::deck::Session;
use slipmat::ids::IdSet;
use slipmat::markup::escape;
use slipmat::music::{Album, Artwork, Entry, Playlist, SearchResults, Track, TrackId};
use slipmat::protocol::{Command, Item, PlayerEvent, PlayerState, RepeatMode, Tokens};
use slipmat::view::{sidebar_rows, CatalogFilter, Section, SortBy, View};

fn settings() -> Settings {
    Settings {
        section: Section::Library,
        show_sidebar: true,
        sort: "title".into(),
        sort_reversed: false,
        album_sort: "updated".into(),
        album_sort_reversed: true,
        artist_sort: String::new(),
        artist_sort_reversed: false,
        playlist_sort: "added".into(),
        playlist_sort_reversed: false,
        notify_track_change: true,
        theme: Theme::System,
        accent: "red".into(),
    }
}

fn app() -> AppModel {
    AppModel::new(settings(), IdSet::new())
}

fn tokens() -> Tokens {
    Tokens {
        developer_token: "dev".into(),
        music_user_token: Some("user".into()),
        storefront: "es".into(),
        authorized: true,
    }
}

/// An application that is signed in.
fn ready() -> AppModel {
    let mut app = app();
    app.handle_cmd(CommandMsg::Spawned);
    app.on_event(PlayerEvent::Tokens(tokens()), PlayerState::new(), false, false, None);
    app.effects.clear();
    app.deck.outbox.clear();
    app.shelf.todo.clear();
    app
}

fn track(title: &str, catalog: Option<&str>) -> Track {
    Track {
        id: TrackId(format!("i.{title}")),
        catalog_id: catalog.map(str::to_owned),
        title: title.into(),
        favorite: false,
        in_library: false,
        library_id: None,
        date_added: String::new(),
        year: String::new(),
        artist: "Aitana".into(),
        album: "Superestrella".into(),
        duration_ms: 200_000,
        track_number: 1,
        artwork: None,
    }
}

fn album(id: &str) -> Album {
    Album {
        id: id.into(),
        name: id.into(),
        artist: String::new(),
        artwork: None,
        year: String::new(),
        library: true,
        track_count: 1,
        date_added: String::new(),
    }
}

fn found(songs: Vec<Track>) -> SearchResults {
    SearchResults { songs, albums: vec![], artists: vec![], playlists: vec![] }
}

fn item(id: &str) -> Item {
    Item { catalog_id: Some(id.into()), title: id.into(), ..Default::default() }
}

fn playing(id: &str) -> PlayerState {
    let mut player = PlayerState::new();
    player.queue = vec![item(id)];
    player.now_playing = Some(item(id));
    player.playing = true;
    player
}

fn effects(app: &mut AppModel) -> Vec<Effect> {
    std::mem::take(&mut app.effects)
}

fn sent(app: &mut AppModel) -> Vec<Command> {
    std::mem::take(&mut app.deck.outbox)
}

fn todo(app: &mut AppModel) -> Vec<ShelfTask> {
    std::mem::take(&mut app.shelf.todo)
}

fn toast(words: &str) -> Effect {
    Effect::Toast(words.into())
}

#[test]
fn a_stale_catalog_response_is_discarded() {
    let mut app = ready();
    app.handle(AppMsg::SetView(View::Search));
    app.handle(AppMsg::SearchChanged("aita".into()));
    let older = app.shelf.search_gen;
    app.handle(AppMsg::SearchChanged("aitana".into()));
    let current = app.shelf.search_gen;
    assert!(older != current, "an older generation is stale");
    app.handle_cmd(CommandMsg::Catalog {
        generation: older,
        offset: 0,
        result: Ok(found(vec![track("old", Some("1"))])),
    });
    assert!(app.shelf.catalog.is_empty());
    app.handle_cmd(CommandMsg::Catalog {
        generation: current,
        offset: 0,
        result: Ok(found(vec![track("new", Some("1"))])),
    });
    assert_eq!(app.shelf.catalog.len(), 1, "the newest generation is the one to keep");
}

#[test]
fn catalog_results_are_shown_unfiltered() {
    let mut app = ready();
    app.handle(AppMsg::SetView(View::Search));
    app.handle(AppMsg::SearchChanged("queen".into()));
    let generation = app.shelf.search_gen;
    app.handle_cmd(CommandMsg::Catalog {
        generation,
        offset: 0,
        result: Ok(found(vec![track("Bohemian Rhapsody", Some("1"))])),
    });
    let shown = app.visible_entries();
    assert_eq!(shown.len(), 1);
}

#[test]
fn only_stages_that_resolve_themselves_get_a_spinner() {
    for stage in [Stage::Starting, Stage::InstallingWidevine, Stage::Connecting] {
        assert_eq!(startup_page(&stage), "loading", "{stage:?}");
    }
    for stage in [
        Stage::SignedOut,
        Stage::Broken("Apple changed the page".into()),
        Stage::Restarting(2),
    ] {
        assert_eq!(startup_page(&stage), "status", "{stage:?}");
    }
}

#[test]
fn the_model_opens_as_it_was_left() {
    let app = app();
    assert_eq!(app.shelf.view, View::Songs);
    assert_eq!(app.shelf.sorts.get(View::Songs).by, SortBy::Title);
    // Albums cannot be sorted by when they were edited.
    assert_eq!(app.shelf.sorts.get(View::Albums).by, SortBy::Title);
    assert!(app.shelf.sorts.get(View::Albums).reversed);
    assert_eq!(app.shelf.sorts.get(View::Playlists).by, SortBy::Added);
    assert_eq!(app.page(), "loading");
    assert_eq!(app.headline(), "Starting the playback engine");
}

#[test]
fn the_words_of_each_stage() {
    let mut app = app();
    app.stage = Stage::Restarting(3);
    assert_eq!(app.headline(), "Reconnecting (attempt 3)");
    assert_eq!(app.icon(), "content-loading-symbolic");
    app.stage = Stage::SignedOut;
    assert_eq!(app.headline(), "Welcome to Tonearm");
    assert_eq!(app.icon(), "dev.miguelrincon.Slipmat");
    app.stage = Stage::Broken("why".into());
    assert_eq!(app.detail(), "why");
    assert_eq!(app.icon(), "dialog-warning-symbolic");
    let mut app = ready();
    assert_eq!(app.subtitle(), "ES");
    assert_eq!(app.detail(), "Nothing playing");
    app.deck.player = playing("Roundabout");
    assert_eq!(app.headline(), "Roundabout");
    assert_eq!(app.waiting_for(), "Loading your library");
    // The page takes markup, and a name may look like some.
    app.deck.player.now_playing = Some(Item {
        artist: "Imagine <Dragons>".into(),
        album: "Mercury - Acts 1 & 2".into(),
        ..Default::default()
    });
    assert_eq!(app.detail(), "Imagine &lt;Dragons&gt; — Mercury - Acts 1 &amp; 2");
}

#[test]
fn a_text_is_escaped_where_markup_is_taken() {
    assert_eq!(escape("A – ñ\t\n."), "A – ñ\t\n.");
    assert_eq!(escape("\"it's\""), "&quot;it&apos;s&quot;");
    assert_eq!(escape("&amp;"), "&amp;amp;");
    assert_eq!(escape("\u{1}\u{1f}\u{7f}\u{85}\u{9f}"), "&#x1;&#x1f;&#x7f;\u{85}&#x9f;");
    assert_eq!(escape("cut\0off"), "cut");
    assert_eq!(escape(""), "");
}

#[test]
fn two_writes_in_flight_are_not_confused() {
    let write = |sent: &str, catalog_id: &str| PendingWrite {
        sent: sent.into(),
        catalog_id: catalog_id.into(),
        undo: Patch::InLibrary(true),
    };
    let mut pending = Pending::new();
    pending.record(write("a", "1"));
    pending.record(write("b", "2"));
    pending.record(write("a", "3"));
    assert_eq!(pending.settle("c"), None);
    assert_eq!(pending.settle("a"), Some(write("a", "3")), "one record to an id");
    assert_eq!(pending.settle("a"), None);
    assert_eq!(pending.settle("b"), Some(write("b", "2")));

    let mut app = ready();
    app.shelf.tracks = vec![track("a", Some("1")), track("b", Some("2"))];
    for (library_id, catalog_id) in [("i.a", "1"), ("i.b", "2")] {
        app.handle(AppMsg::RemoveFromLibrary {
            library_id: library_id.into(),
            catalog_id: catalog_id.into(),
        });
    }
    app.settle_library_write("i.a", false);
    assert_eq!(
        app.shelf.tracks.iter().map(|t| t.in_library).collect::<Vec<_>>(),
        [true, false],
        "only the refused one is put back"
    );
    app.settle_library_write("i.b", true);
    assert_eq!(app.shelf.tracks.len(), 1);
    assert_eq!(app.shelf.tracks[0].title, "a");
}

#[test]
fn a_token_that_is_good_makes_the_library_load() {
    let mut app = app();
    app.on_event(PlayerEvent::Tokens(tokens()), PlayerState::new(), false, false, None);
    assert_eq!(app.stage, Stage::Ready);
    assert!(todo(&mut app).contains(&ShelfTask::FetchSongs));
    // A load that failed is not tried again on the next event.
    app.handle_cmd(CommandMsg::Library(Err("403".into())));
    assert!(effects(&mut app).contains(&toast("Couldn't load your library: 403")));
    app.on_event(PlayerEvent::Position, PlayerState::new(), false, false, None);
    assert!(!todo(&mut app).contains(&ShelfTask::FetchSongs));
    app.handle(AppMsg::ReloadSection(View::Songs));
    assert!(todo(&mut app).contains(&ShelfTask::FetchSongs));
}

#[test]
fn a_session_is_put_back_once() {
    let mut app = app();
    app.handle_cmd(CommandMsg::Spawned);
    assert!(app.awaits_session());
    let saved = || Some(Session { songs: vec!["1".into()], start: 0, position_ms: 9 });
    app.on_event(PlayerEvent::Tokens(tokens()), PlayerState::new(), false, false, saved());
    assert_eq!(sent(&mut app).len(), 2);
    assert!(!app.awaits_session());
    app.on_event(PlayerEvent::Tokens(tokens()), PlayerState::new(), false, false, saved());
    assert!(sent(&mut app).is_empty());
}

#[test]
fn a_song_plays_and_anything_else_is_a_door() {
    let mut app = ready();
    app.shelf.view = View::Search;
    app.shelf.catalog = vec![Entry::Album(album("al")), Entry::Song(track("s", Some("1")))];
    app.handle(AppMsg::LibraryActivated(0));
    app.handle(AppMsg::LibraryActivated(1));
    app.handle(AppMsg::LibraryActivated(2));
    assert_eq!(
        effects(&mut app),
        [Effect::OpenPage(PageKind::LibraryAlbum("al".into())), Effect::PlayFrom(1)]
    );
    app.handle(AppMsg::PlayFrom(1));
    assert_eq!(
        sent(&mut app),
        [
            Command::SetShuffle { shuffle: false },
            Command::SetQueue {
                songs: vec!["1".into()],
                start_position: 0,
                start_playing: true,
                start_time_ms: 0,
            },
        ]
    );
}

#[test]
fn a_list_nothing_can_be_played_of_is_toasted() {
    let mut app = ready();
    app.shelf.tracks = vec![track("s", None)];
    app.handle(AppMsg::PlayFrom(0));
    assert_eq!(effects(&mut app), [toast("Nothing here can be streamed")]);
}

#[test]
fn a_page_takes_what_it_was_opened_for_and_no_other() {
    let mut app = app();
    app.handle(AppMsg::OpenPage(PageKind::Album("al".into())));
    assert_eq!(effects(&mut app), [toast("Not connected yet")]);

    let mut app = ready();
    app.handle(AppMsg::OpenPage(PageKind::Album("al".into())));
    assert_eq!(
        app.pages.todo,
        [PageTask::Push { page: 1, kind: PageKind::Album("al".into()) }]
    );
    app.handle_cmd(CommandMsg::Page {
        page: 1,
        result: Ok(PageContent::Album {
            album: album("al"),
            tracks: vec![track("a", Some("1")), track("b", Some("2"))],
        }),
    });
    app.handle_cmd(CommandMsg::Page { page: 7, result: Err("late".into()) });
    assert_eq!(app.pages.stack.len(), 1);
    assert_eq!(app.pages.stack[0].entries.len(), 2);
    app.handle(AppMsg::PlayPage { page: 1, shuffle: true, drawn: 3 });
    match &sent(&mut app)[..] {
        [Command::SetShuffle { shuffle: true }, Command::SetQueue { start_position, .. }] => {
            assert_eq!(*start_position, 1)
        }
        other => panic!("{other:?}"),
    }
    app.handle(AppMsg::DetailActivated { page: 1, row: 0 });
    assert_eq!(sent(&mut app).len(), 2);
    app.handle(AppMsg::PagePopped(1));
    app.handle(AppMsg::DetailActivated { page: 1, row: 0 });
    assert!(sent(&mut app).is_empty(), "the page is gone");
    app.handle(AppMsg::OpenPage(PageKind::Album("al".into())));
    assert_eq!(app.pages.stack[0].id, 2, "an id never comes back");
}

#[test]
fn a_made_playlist_gets_a_mosaic() {
    let mut app = ready();
    app.handle(AppMsg::OpenPage(PageKind::LibraryPlaylist("p".into())));
    let tracks: Vec<Track> = (0..5)
        .map(|i| {
            let mut t = track("t", Some("1"));
            t.artwork = Some(Artwork::new(format!("cover {i}")));
            t
        })
        .collect();
    let playlist = Playlist {
        id: "p".into(),
        name: "P".into(),
        curator: String::new(),
        description: String::new(),
        artwork: None,
        library: true,
        date_added: String::new(),
        last_modified: String::new(),
    };
    app.pages.todo.clear();
    app.handle_cmd(CommandMsg::Page {
        page: 1,
        result: Ok(PageContent::Playlist { playlist, tracks }),
    });
    assert!(matches!(
        app.pages.todo.last(),
        Some(PageTask::Mosaic { page: 1, covers }) if covers.len() == 4
    ));
}

#[test]
fn a_removal_is_shown_at_once_and_taken_back_if_refused() {
    let mut app = ready();
    let mut mine = track("a", Some("1"));
    mine.in_library = true;
    app.shelf.tracks = vec![mine];
    app.handle(AppMsg::RemoveFromLibrary { library_id: "i.a".into(), catalog_id: "1".into() });
    assert!(!app.shelf.tracks[0].in_library);
    assert_eq!(sent(&mut app), [Command::RemoveFromLibrary { id: "i.a".into() }]);
    assert_eq!(effects(&mut app), [toast("Removing from your library…")]);
    app.settle_library_write("i.other", false);
    assert!(!app.shelf.tracks[0].in_library, "another write's answer is not this one's");
    app.settle_library_write("i.a", false);
    assert!(app.shelf.tracks[0].in_library);
    assert_eq!(effects(&mut app), [toast("Couldn't remove it from your library")]);

    app.handle(AppMsg::RemoveFromLibrary { library_id: "i.a".into(), catalog_id: "1".into() });
    app.settle_library_write("i.a", true);
    assert!(app.shelf.tracks.is_empty(), "confirmed, so the row may leave");
}

#[test]
fn a_star_comes_off_and_the_song_stays() {
    let mut app = ready();
    let mut mine = track("a", Some("1"));
    mine.in_library = true;
    mine.favorite = true;
    app.shelf.tracks = vec![mine];
    app.handle(AppMsg::Unfavorite { catalog_id: "1".into() });
    assert!(!app.shelf.tracks[0].favorite);
    assert!(app.shelf.tracks[0].in_library);
    app.settle_library_write("1", true);
    assert_eq!(app.shelf.tracks.len(), 1);
    app.handle(AppMsg::Unfavorite { catalog_id: "1".into() });
    effects(&mut app);
    app.settle_library_write("1", false);
    assert!(app.shelf.tracks[0].favorite);
    assert_eq!(effects(&mut app), [toast("Couldn't remove that favourite")]);
}

#[test]
fn favouriting_adds_to_the_library_too() {
    let mut app = ready();
    app.shelf.tracks = vec![track("a", Some("1"))];
    app.handle(AppMsg::LibraryWrite {
        catalog_id: "1".into(),
        action: LibraryAction::Favorite,
    });
    assert_eq!(
        effects(&mut app),
        [
            toast("Favouriting…"),
            Effect::WriteLibrary { catalog_id: "1".into(), action: LibraryAction::Favorite },
        ]
    );
    app.handle_cmd(CommandMsg::LibraryWritten {
        catalog_id: "1".into(),
        action: LibraryAction::Favorite,
        result: Ok(()),
    });
    assert!(app.shelf.tracks[0].favorite);
    assert!(app.shelf.tracks[0].in_library);
    assert_eq!(effects(&mut app), [toast("Favourited")]);
    app.handle_cmd(CommandMsg::LibraryWritten {
        catalog_id: "1".into(),
        action: LibraryAction::AddToLibrary,
        result: Err("no".into()),
    });
    assert_eq!(effects(&mut app), [toast("no")]);
}

#[test]
fn a_row_of_the_queue_that_moved_is_found_and_one_that_left_is_not() {
    let mut app = ready();
    app.deck.player.queue = vec![item("a"), item("b")];
    app.handle(AppMsg::JumpTo { at: 0, id: "b".into() });
    assert_eq!(sent(&mut app), [Command::ChangeToIndex { index: 1 }, Command::Play]);
    app.handle(AppMsg::RemoveFromQueue { at: 0, id: "gone".into() });
    assert_eq!(effects(&mut app), [toast("That track is no longer in the queue")]);
    app.handle(AppMsg::RemoveFromQueue { at: 0, id: "a".into() });
    assert_eq!(sent(&mut app), [Command::RemoveFromQueue { index: 0 }]);
}

#[test]
fn previous_restarts_and_then_goes_back() {
    let mut app = ready();
    app.deck.player.interpolated_ms = 3_000;
    app.handle(AppMsg::Previous);
    assert_eq!(sent(&mut app), [Command::Seek { position_ms: 0 }]);
    assert_eq!(effects(&mut app), [Effect::Seeked(0)]);
    app.deck.player.interpolated_ms = 0;
    app.handle(AppMsg::Previous);
    assert_eq!(sent(&mut app), [Command::Previous]);
}

#[test]
fn signing_out_asks_first_and_leaves_nothing() {
    let mut signed_out = app();
    signed_out.handle(AppMsg::SignOut);
    assert!(effects(&mut signed_out).is_empty());

    let mut app = ready();
    app.shelf.tracks = vec![track("a", Some("1"))];
    app.shelf.rebuild_rows(None);
    app.handle(AppMsg::SignOut);
    assert_eq!(effects(&mut app), [Effect::ConfirmSignOut]);
    app.update(AppMsg::SignOutConfirmed);
    assert_eq!(sent(&mut app), [Command::SignOut]);
    assert_eq!(app.stage, Stage::SignedOut);
    assert!(app.tokens.is_none());
    assert!(app.shelf.tracks.is_empty());
    assert!(app.shelf.rows.is_empty());
    let done = effects(&mut app);
    assert!(done.contains(&Effect::ClearSession));
    assert!(done.contains(&Effect::PresentOnboarding));
}

#[test]
fn animations_start_on_edges_only() {
    let mut app = app();
    app.update(AppMsg::WindowShown);
    assert_eq!(
        effects(&mut app),
        [Effect::SetSidebar(true), Effect::SetQueue(false), Effect::SetBottomBar(false)]
    );
    app.update(AppMsg::WindowShown);
    assert!(effects(&mut app).is_empty());
    app.update(AppMsg::ToggleSidebar);
    assert_eq!(effects(&mut app), [Effect::SaveSettings, Effect::SetSidebar(false)]);
    assert!(!app.settings.show_sidebar);
}

#[test]
fn opening_the_queue_goes_onto_the_queue() {
    let mut app = ready();
    app.handle(AppMsg::ToggleQueue);
    let done = effects(&mut app);
    assert!(matches!(&done[0], Effect::Show(shown) if shown.bar.queue_open));
    assert_eq!(&done[1..], [Effect::QueuePane(true), Effect::ScrollToPlaying]);
    app.handle(AppMsg::PlayerDrawer(true));
    assert!(effects(&mut app).is_empty(), "our own write coming back");
    app.handle(AppMsg::PlayerDrawer(false));
    assert!(!app.window.show_queue);
}

#[test]
fn a_collapsed_sidebar_goes_away_once_used() {
    let mut app = app();
    app.handle(AppMsg::SectionChosen);
    assert!(app.window.show_sidebar);
    app.handle(AppMsg::SidebarCollapsed(true));
    app.handle(AppMsg::SectionChosen);
    assert!(!app.window.show_sidebar);
    assert!(app.settings.show_sidebar, "not a preference");
}

#[test]
fn a_volume_key_shows_the_volume_and_only_the_last_hides_it() {
    let mut app = ready();
    let half = (0.5f64).to_bits();
    app.handle(AppMsg::VolumeUp { volume: half, moved: true });
    assert_eq!(sent(&mut app), [Command::SetVolume { volume: half }]);
    let first = app.window.osd_generation;
    app.handle(AppMsg::VolumeUp { volume: half, moved: false });
    assert!(sent(&mut app).is_empty());
    app.handle(AppMsg::HideVolumeOsd(first));
    assert!(app.window.osd_shown);
    let last = app.window.osd_generation;
    app.handle(AppMsg::HideVolumeOsd(last));
    assert!(!app.window.osd_shown);
}

#[test]
fn a_track_is_announced_once_and_with_its_own_cover() {
    let mut app = ready();
    let mut player = playing("1");
    player.now_playing.as_mut().unwrap().artwork_template = Some("t".into());
    app.on_event(PlayerEvent::NowPlaying, player, true, false, None);
    let done = effects(&mut app);
    assert!(done.contains(&Effect::FetchCover { template: "t".into() }));
    assert!(!done.iter().any(|e| matches!(e, Effect::Notify { .. })), "waits for the cover");
    assert!(done.contains(&Effect::StartTicking));
    app.handle_cmd(CommandMsg::Artwork {
        path: Some("/c.jpg".into()),
        backdrop: Some("/b.jpg".into()),
    });
    let done = effects(&mut app);
    assert_eq!(done[0], Effect::Backdrop(Some("/b.jpg".into())));
    assert_eq!(
        done[2],
        Effect::Notify {
            title: "1".into(),
            artist: String::new(),
            art_path: Some("/c.jpg".into())
        }
    );
    let mut again = playing("1");
    again.now_playing.as_mut().unwrap().artwork_template = Some("t".into());
    app.on_event(PlayerEvent::NowPlaying, again, true, false, None);
    assert!(!effects(&mut app).iter().any(|e| matches!(e, Effect::Notify { .. })));
}

#[test]
fn a_tile_is_fetched_once_until_it_lands() {
    let mut app = ready();
    let need = || AppMsg::NeedTileArt { key: "k".into(), art: Artwork::new("k".into()) };
    app.handle(need());
    app.handle(need());
    assert_eq!(
        effects(&mut app),
        [Effect::FetchTile { key: "k".into(), art: Artwork::new("k".into()) }]
    );
    app.handle_cmd(CommandMsg::TileArt { key: "k".into(), decoded: true });
    assert_eq!(effects(&mut app), [Effect::DrawTile { key: "k".into() }]);
    app.handle(need());
    assert_eq!(effects(&mut app).len(), 1);
}

#[test]
fn a_dead_player_is_started_again() {
    let mut app = ready();
    app.handle_cmd(CommandMsg::Died);
    assert_eq!(app.stage, Stage::Restarting(1));
    assert_eq!(
        effects(&mut app),
        [toast("Playback engine stopped — restarting"), Effect::Respawn { attempt: 1 }]
    );
    app.handle_cmd(CommandMsg::Spawned);
    assert_eq!(app.stage, Stage::InstallingWidevine);
    app.on_event(PlayerEvent::Ready { debug: false }, PlayerState::new(), false, false, None);
    assert_eq!(app.restarts, 0);
}

#[test]
fn a_page_that_changed_is_named_as_the_cause() {
    let mut app = app();
    app.on_event(
        PlayerEvent::HookFailed { detail: "no hook".into() },
        PlayerState::new(),
        false,
        false,
        None,
    );
    assert_eq!(
        app.stage,
        Stage::Broken(
            "Apple Music changed and Tonearm can't attach to its player (no hook). Tonearm needs an update."
                .into()
        )
    );
}

#[test]
fn choosing_a_section_takes_what_was_pushed_off_it() {
    let mut app = ready();
    app.handle(AppMsg::OpenPage(PageKind::Artist("a".into())));
    app.update(AppMsg::SetView(View::Albums));
    assert_eq!(app.pages.todo.last(), Some(&PageTask::PopAll));
    assert_eq!(app.settings.section, Section::Albums);
    assert!(todo(&mut app).contains(&ShelfTask::FetchAlbums));
    let done = effects(&mut app);
    assert!(done.contains(&Effect::SaveSettings));
    assert!(done.contains(&Effect::SearchText(String::new())));
}

#[test]
fn a_sort_is_applied_and_kept() {
    let mut app = ready();
    app.shelf.tracks = vec![track("b", Some("1")), track("a", Some("2"))];
    app.handle(AppMsg::ToggleSortDirection);
    assert!(app.settings.sort_reversed);
    assert_eq!(app.shelf.rows[0].title(), "b");
    app.handle(AppMsg::SetSort(SortBy::Artist));
    assert_eq!(app.settings.sort, "artist");
    effects(&mut app);
    app.handle(AppMsg::SetSort(SortBy::Artist));
    assert!(effects(&mut app).is_empty(), "nothing changed");
}

#[test]
fn scrolling_asks_for_the_next_page_once() {
    let mut app = ready();
    app.handle(AppMsg::SetView(View::Search));
    app.handle(AppMsg::SearchChanged("q".into()));
    let generation = app.shelf.search_gen;
    app.handle(AppMsg::RunCatalogSearch(generation));
    let page: Vec<Track> = (0..25).map(|i| track(&format!("s{i}"), Some("1"))).collect();
    app.handle_cmd(CommandMsg::Catalog { generation, offset: 0, result: Ok(found(page)) });
    todo(&mut app);
    app.handle(AppMsg::LoadMoreCatalog);
    app.handle(AppMsg::LoadMoreCatalog);
    assert_eq!(
        todo(&mut app),
        [ShelfTask::Search {
            generation,
            offset: 25,
            term: "q".into(),
            filter: CatalogFilter::All,
        }]
    );
    app.handle_cmd(CommandMsg::Catalog {
        generation,
        offset: 25,
        result: Ok(found(vec![track("last", Some("1"))])),
    });
    assert_eq!(app.shelf.catalog_paged, 26);
    todo(&mut app);
    app.handle(AppMsg::LoadMoreCatalog);
    assert!(todo(&mut app).is_empty(), "a short page was the last");
    app.handle_cmd(CommandMsg::Catalog { generation, offset: 0, result: Err("down".into()) });
    assert!(effects(&mut app).contains(&toast("Search failed: down")));
}

#[test]
fn a_sidebar_row_means_a_section_or_a_page() {
    let mut app = ready();
    let rows = sidebar_rows(&["p.1".into()]);
    app.sidebar_row_chosen(&rows, 0);
    assert_eq!(effects(&mut app), [Effect::GoTo(View::Search)]);
    app.sidebar_row_chosen(&rows, 5);
    assert_eq!(
        app.pages.todo,
        [PageTask::Push { page: 1, kind: PageKind::LibraryPlaylist("p.1".into()) }]
    );
    app.sidebar_row_chosen(&rows, -1);
    app.sidebar_row_chosen(&rows, 99);
    assert!(effects(&mut app).is_empty());
    assert_eq!(app.pinned_name("p.1"), None);
}

#[test]
fn a_refused_reorder_is_put_back() {
    let mut app = ready();
    app.deck.player.queue = vec![item("a"), item("b"), item("c")];
    app.handle(AppMsg::MoveInQueue { from: 0, to: 2 });
    assert_eq!(app.deck.player.queue[2].catalog_id, Some("a".into()));
    assert!(app.undo_move());
    assert_eq!(app.deck.player.queue[0].catalog_id, Some("a".into()));
    assert!(effects(&mut app).contains(&toast("Couldn't reorder the queue")));
    assert!(!app.undo_move());
}

#[test]
fn repeat_and_shuffle_are_sent_and_forgotten() {
    let mut app = ready();
    app.handle(AppMsg::SetShuffle(true));
    app.handle(AppMsg::SetRepeat(RepeatMode::One));
    assert_eq!(
        sent(&mut app),
        [
            Command::SetShuffle { shuffle: true },
            Command::SetRepeat { mode: RepeatMode::One },
        ]
    );
    assert!(!app.deck.player.shuffle, "the mirror waits for the echo");
}

#[test]
fn leaving_remembers_the_queue() {
    let mut app = ready();
    app.deck.player = playing("1");
    app.shutdown();
    assert_eq!(
        effects(&mut app),
        [
            Effect::WithdrawNotification,
            Effect::SaveSession(Session { songs: vec!["1".into()], start: 0, position_ms: 0 }),
        ]
    );
}

#[test]
fn what_is_said_before_there_is_a_player_is_dropped() {
    let mut app = app();
    app.handle(AppMsg::SetShuffle(true));
    assert!(sent(&mut app).is_empty());
    app.handle_cmd(CommandMsg::Spawned);
    assert!(sent(&mut app).is_empty(), "what was dropped does not come back");
    app.handle(AppMsg::SetShuffle(true));
    assert_eq!(sent(&mut app), [Command::SetShuffle { shuffle: true }]);
}

#[test]
fn a_window_with_a_queue_is_hidden_and_one_without_is_closed() {
    let mut app = ready();
    app.handle(AppMsg::WindowCloseRequested);
    assert_eq!(effects(&mut app), [Effect::CloseWindow]);
    app.deck.player = playing("1");
    app.handle(AppMsg::WindowCloseRequested);
    assert_eq!(effects(&mut app), [Effect::HideWindow]);
    assert!(app.window.background);
    assert_eq!(app.deck.player, playing("1"));
    assert!(sent(&mut app).is_empty(), "the music goes on");
}

#[test]
fn a_dead_player_s_queue_is_put_back_into_the_next_one() {
    let mut app = ready();
    app.deck.player = playing("1");
    app.deck.player.position_ms = 1_200;
    app.handle_cmd(CommandMsg::Died);
    let saved = match effects(&mut app).into_iter().next() {
        Some(Effect::SaveSession(session)) => session,
        other => panic!("nothing was remembered: {other:?}"),
    };
    assert_eq!(saved.songs, ["1"]);
    app.handle(AppMsg::SetShuffle(true));
    assert!(sent(&mut app).is_empty(), "nobody is there to be told");
    app.handle_cmd(CommandMsg::Spawned);
    assert!(app.awaits_session());
    app.on_event(PlayerEvent::Tokens(tokens()), PlayerState::new(), false, false, Some(saved));
    assert_eq!(
        sent(&mut app),
        [
            Command::SetShuffle { shuffle: false },
            Command::SetQueue {
                songs: vec!["1".into()],
                start_position: 0,
                start_playing: false,
                start_time_ms: 1_200,
            },
        ]
    );
}

#[test]
fn a_change_of_track_is_remembered() {
    let mut app = ready();
    app.on_event(PlayerEvent::NowPlaying, playing("2"), true, false, None);
    let saved = Session { songs: vec!["2".into()], start: 0, position_ms: 0 };
    assert!(effects(&mut app).contains(&Effect::SaveSession(saved)));
    app.on_event(PlayerEvent::NowPlaying, playing("2"), true, false, None);
    assert!(!effects(&mut app).iter().any(|e| matches!(e, Effect::SaveSession(_))));
}

#[test]
fn a_theme_is_drawn_before_it_is_kept() {
    let mut app = ready();
    app.handle(AppMsg::SetTheme(2));
    assert_eq!(effects(&mut app), [Effect::ApplyTheme, Effect::SaveSettings]);
}

#[test]
fn the_window_does_not_drive_a_track_that_ends() {
    let mut app = ready();
    app.on_event(PlayerEvent::NowPlaying, playing("2"), true, false, None);
    assert!(sent(&mut app).is_empty(), "the player advances by itself");
}

#[test]
fn an_answer_and_an_event_are_drawn_like_a_message() {
    let mut app = app();
    app.update(AppMsg::WindowShown);
    effects(&mut app);
    app.update_event(
        PlayerEvent::HookReady { authorized: false },
        PlayerState::new(),
        false,
        false,
        None,
    );
    assert!(effects(&mut app).contains(&Effect::PresentOnboarding));
    app.update_cmd(CommandMsg::Died);
    assert_eq!(app.stage, Stage::Restarting(1));
    assert!(
        effects(&mut app).iter().all(|e| *e != Effect::PresentOnboarding),
        "nobody is asked to sign in twice"
    );
}
