use slipmat::climat::browser::{Browser, Showing};
use slipmat::climat::client::{next_repeat, wait_for_quit, App, Heard, Key, Waiting};
use slipmat::climat::line::{bars, blend, clock, columns, fit, meter, rest, Span, ACCENT, PEAK};
use slipmat::climat::panes::{header, row};
use slipmat::climat::queue::Queue;
use slipmat::climat::screen::{draw, key_hints, rooms, Area, Room};
use slipmat::climat::ui::{bar_width, now_playing, repeat_text, stage_text, Focus, Look};
use slipmat::ipc::{
    Event, PageKind, PlayMode, QueueItem, Request, Snapshot, Stage, Transport, View,
};
use slipmat::music::{Album, Entry, Track, TrackId};
use slipmat::protocol::RepeatMode;
use slipmat::view::CatalogFilter;

fn song(id: Option<&str>) -> Entry {
    Entry::Song(Track {
        date_added: String::new(),
        year: String::new(),
        favorite: false,
        in_library: true,
        library_id: None,
        id: TrackId(String::from("l.1")),
        catalog_id: id.map(String::from),
        title: "A Song".into(),
        artist: "Someone".into(),
        album: "An Album".into(),
        duration_ms: 180_000,
        track_number: 1,
        artwork: None,
    })
}

fn album(id: &str, name: &str) -> Entry {
    Entry::Album(Album {
        id: id.into(),
        name: name.into(),
        artist: "Someone".into(),
        artwork: None,
        year: String::new(),
        library: true,
        track_count: 1,
        date_added: String::new(),
    })
}

fn text(line: &[Span]) -> String {
    line.iter().map(|s| s.text.clone()).collect()
}

/// A level in sixteenths, as the bars take it.
fn sixteenths(level: f32) -> u8 {
    (level.clamp(0.0, 1.0) * 16.0).round() as u8
}

#[test]
fn unplayable_rows_do_not_shift_the_starting_track() {
    let mut b = Browser::default();
    b.replace(vec![song(None), song(Some("c1")), song(None), song(Some("c2"))], 4);
    b.cursor = 3;
    let (ids, index) = b.queue_from_here();
    assert_eq!(ids, vec!["c1", "c2"]);
    assert_eq!(index, 1, "counted rows the daemon is about to discard");
}

#[test]
fn a_shorter_list_cannot_strand_the_cursor() {
    let mut b = Browser::default();
    b.replace((0..10).map(|_| song(Some("c"))).collect(), 10);
    b.cursor = 9;
    b.replace(vec![song(Some("c"))], 1);
    assert_eq!(b.cursor, 0);
}

#[test]
fn the_cursor_stays_on_screen() {
    let mut b = Browser::default();
    b.replace((0..200).map(|_| song(Some("c"))).collect(), 200);
    for target in [0usize, 120, 199, 7] {
        b.cursor = target;
        b.scroll(12);
        assert!((b.offset..b.offset + 12).contains(&b.cursor), "{target}");
    }
}

#[test]
fn a_silent_bar_is_a_space_rather_than_a_stub() {
    let glyphs = |(up, low): (Vec<Span>, Vec<Span>)| (text(&up), text(&low));
    let level = sixteenths;
    assert_eq!(
        glyphs(bars(&[level(0.0), level(0.0)], 2)),
        ("  ".to_string(), "  ".to_string())
    );
    // Full height fills both rows; half fills only the lower one.
    assert_eq!(glyphs(bars(&[level(1.0)], 1)), ("█".to_string(), "█".to_string()));
    assert_eq!(glyphs(bars(&[level(0.5)], 1)), (" ".to_string(), "█".to_string()));
}

#[test]
fn the_bars_take_the_width_they_are_given() {
    // Both directions: more columns than bands, and fewer.
    let bands: Vec<u8> = [0.1, 0.9, 0.2, 0.8].iter().map(|v| sixteenths(*v)).collect();
    for width in [1usize, 3, 4, 12, 80] {
        let (up, low) = bars(&bands, width);
        assert_eq!(up.len(), width, "upper row at {width}");
        assert_eq!(low.len(), width, "lower row at {width}");
    }
}

#[test]
fn folding_bands_keeps_the_peak_rather_than_the_average() {
    let bands: Vec<u8> = [0.0, 1.0, 0.0, 0.0].iter().map(|v| sixteenths(*v)).collect();
    assert_eq!(columns(&bands, 2), vec![sixteenths(1.0), sixteenths(0.0)]);
}

#[test]
fn a_clock_grows_a_field_only_when_it_needs_one() {
    assert_eq!(clock(0), "0:00");
    assert_eq!(clock(63_000), "1:03");
    assert_eq!(clock(3_723_000), "1:02:03");
}

#[test]
fn a_meter_and_its_remainder_always_fill_the_width() {
    for width in [8usize, 25, 60, 137] {
        for pct in 0..=100 {
            let f = pct as f64 / 100.0;
            let filled = (f * width as f64).round() as usize;
            assert_eq!(
                meter(filled, width).chars().count() + rest(filled, width).chars().count(),
                width,
                "at {pct}% and width {width}"
            );
        }
    }
}

#[test]
fn a_colour_is_mixed_from_two() {
    assert_eq!(blend(ACCENT, PEAK, 0), ACCENT);
    assert_eq!(blend(ACCENT, PEAK, 8), PEAK);
    assert_eq!(blend(0x000000, 0x102030, 4), 0x081018);
    assert_eq!(blend(0xFF0000, 0x0000FF, 2), 0xBF003F);
}

#[test]
fn a_column_stays_a_column() {
    assert_eq!(fit("abc", 5), "abc  ");
    assert_eq!(fit("abc", 3), "abc");
    assert_eq!(fit("abcd", 3), "ab…");
    assert_eq!(fit("Rosalía", 7), "Rosalía");
    assert_eq!(fit("anything", 0), "");
    for width in 0..12 {
        assert_eq!(fit("a title of some length", width).chars().count(), width);
    }
}

#[test]
fn repeat_goes_off_all_one() {
    assert_eq!(next_repeat(RepeatMode::Off), RepeatMode::All);
    assert_eq!(next_repeat(RepeatMode::All), RepeatMode::One);
    assert_eq!(next_repeat(RepeatMode::One), RepeatMode::Off);
}

#[test]
fn the_header_lights_the_section_it_is_on() {
    let mut b = Browser::default();
    b.view = View::Albums;
    let line = header(&b);
    assert_eq!(text(&line), "songs   ALBUMS   artists   playlists   ");
    assert_eq!(line[2].style.color, Some(ACCENT));

    b.filter = "bo".into();
    b.typing = true;
    assert_eq!(text(&header(&b)), "songs   ALBUMS   artists   playlists   /bo▌");
}

#[test]
fn an_opened_page_is_named_in_the_header() {
    let mut b = Browser::default();
    b.showing = Showing::Page {
        title: "Fragile".into(),
        subtitle: "Yes".into(),
        loading: true,
    };
    assert_eq!(text(&header(&b)), "FRAGILE   Yes   opening…");
}

#[test]
fn a_row_that_leads_somewhere_shows_it() {
    let line = row(&album("a", "Fragile"), false, 60);
    assert!(text(&line).starts_with("▸ Fragile"));
    assert!(text(&row(&song(Some("c")), false, 60)).starts_with("  A Song"));
    assert!(row(&song(Some("c")), true, 60)[1].style.reversed);
}

#[test]
fn hints_give_way_but_the_ways_out_do_not() {
    let narrow = text(&key_hints(0, Focus::Browser, false, false));
    assert_eq!(narrow, "_ hide   q quit   ");
    let wide = text(&key_hints(200, Focus::Browser, false, false));
    assert!(wide.starts_with("space play/pause   ↑↓ move   "));
    assert!(wide.ends_with("_ hide   q quit   "));
    let typing = text(&key_hints(200, Focus::Browser, true, true));
    assert!(typing.starts_with("↵ search Apple Music   "));
    assert!(!typing.contains("play/pause"));
    let queue = text(&key_hints(200, Focus::Queue, false, false));
    assert!(queue.contains("KJ reorder"));
}

#[test]
fn the_words_of_each_stage_and_mode() {
    assert_eq!(stage_text(&Stage::Connecting), "Starting the playback engine…");
    assert_eq!(stage_text(&Stage::SignedOut), "Not signed in — open Slipmat to sign in");
    assert_eq!(
        stage_text(&Stage::Broken { detail: "no key".into() }),
        "Playback unavailable: no key"
    );
    assert_eq!(stage_text(&Stage::Ready), "");
    assert_eq!(repeat_text(RepeatMode::Off), "off");
    assert_eq!(repeat_text(RepeatMode::All), "all");
    assert_eq!(repeat_text(RepeatMode::One), "one");
}

#[test]
fn the_player_says_what_it_is_doing_before_it_can_play() {
    let snap = Snapshot::default();
    let look = |stage| Look {
        snap: &snap,
        stage,
        focus: Focus::Browser,
        bars: &[],
        sounding: false,
        played: 0,
        volume: 0,
        message: None,
    };
    let waiting = now_playing(&look(&Stage::Connecting), 80);
    assert_eq!(text(&waiting[0]), "Starting the playback engine…");
    let idle = now_playing(&look(&Stage::Ready), 80);
    assert_eq!(text(&idle[0]), "Nothing playing");
}

#[test]
fn the_player_draws_its_five_lines() {
    let mut snap = Snapshot::default();
    snap.title = "Roundabout".into();
    snap.artist = "Yes".into();
    snap.playing = true;
    snap.position_ms = 63_000;
    snap.duration_ms = 511_000;
    let bar = bar_width(30);
    assert_eq!(bar, 8);
    let look = Look {
        snap: &snap,
        stage: &Stage::Ready,
        focus: Focus::Browser,
        bars: &[16],
        sounding: true,
        played: 3,
        volume: 5,
        message: None,
    };
    let lines = now_playing(&look, 30);
    assert_eq!(lines.len(), 5);
    assert_eq!(text(&lines[0]), "Roundabout  —  Yes");
    assert_eq!(text(&lines[1]), "█".repeat(30));
    assert_eq!(text(&lines[2]), "█".repeat(30));
    assert_eq!(text(&lines[3]), "▶   ███░░░░░   1:03 / 8:31");
    assert_eq!(
        text(&lines[4]),
        "    shuffle off   repeat off   vol █████░░░░░"
    );
}

#[test]
fn every_pane_lies_within_the_margins() {
    let mut b = Browser::default();
    b.replace((0..50).map(|_| song(Some("c"))).collect(), 50);
    b.cursor = 49;
    let mut q = Queue::default();
    let snap = Snapshot::default();
    let look = Look {
        snap: &snap,
        stage: &Stage::Ready,
        focus: Focus::Browser,
        bars: &[],
        sounding: false,
        played: 0,
        volume: 0,
        message: Some("no"),
    };
    let frame = Area { x: 0, y: 0, width: 80, height: 40 };
    let drawn = draw(frame, &look, &mut b, &mut q);
    assert_eq!(drawn.len(), 7);
    for pane in &drawn {
        assert_eq!(pane.area.x, 2);
        assert_eq!(pane.area.width, 76);
        assert!(pane.area.y >= 1);
        assert!(pane.area.y + pane.area.height <= 39);
    }
    // The five rows of the player, the two of the refusal, and what is left.
    assert_eq!(drawn[0].area.height, 5);
    assert_eq!(drawn[1].area.height, 2);
    assert_eq!(text(&drawn[1].lines[1]), fit("no", 76));
    // The last row is selected, and on screen.
    let rows = &drawn[5];
    assert_eq!(rows.lines.len(), rows.area.height as usize);
    assert!(rows.lines.last().unwrap()[1].style.reversed);
    assert_eq!(rooms(false)[1], Room::Length(0));
}

fn requests(app: &mut App) -> Vec<Request> {
    std::mem::take(&mut app.outbox)
}

#[test]
fn keys_become_requests() {
    let mut app = App::default();
    app.snap.position_ms = 12_000;
    for key in [
        Key::Char(' '),
        Key::Char('z'),
        Key::Char('b'),
        Key::Left,
        Key::Right,
        Key::Char('s'),
        Key::Char('r'),
    ] {
        assert!(app.on_key(key, 0));
    }
    assert_eq!(
        requests(&mut app),
        [
            Request::Transport(Transport::PlayPause),
            Request::Transport(Transport::Previous),
            Request::Transport(Transport::Next),
            Request::Transport(Transport::Seek { position_ms: 7_000 }),
            Request::Transport(Transport::Seek { position_ms: 17_000 }),
            Request::Transport(Transport::SetShuffle { shuffle: true }),
            Request::Transport(Transport::SetRepeat { mode: RepeatMode::All }),
        ]
    );
    app.snap.position_ms = 1_000;
    app.on_key(Key::Left, 0);
    assert_eq!(
        requests(&mut app),
        [Request::Transport(Transport::Seek { position_ms: 0 })]
    );
}

#[test]
fn the_two_ways_out() {
    let mut app = App::default();
    assert!(!app.on_key(Key::Char('_'), 0));
    assert!(!app.quit_daemon, "hiding leaves the music playing");
    assert!(!app.on_key(Key::Char('q'), 0));
    assert!(app.quit_daemon);
}

#[test]
fn a_letter_in_the_filter_is_a_letter() {
    let mut app = App::default();
    app.on_key(Key::Char('/'), 0);
    assert!(app.browser.typing);
    assert!(app.on_key(Key::Char('q'), 0));
    assert!(app.on_key(Key::Char('d'), 0));
    assert!(!app.quit_daemon);
    assert_eq!(app.browser.filter, "qd");
    assert_eq!(
        requests(&mut app),
        [
            Request::Browse { view: View::Songs, query: "q".into(), offset: 0, limit: 0 },
            Request::Browse { view: View::Songs, query: "qd".into(), offset: 0, limit: 0 },
        ]
    );
    app.on_key(Key::Backspace, 0);
    assert_eq!(app.browser.filter, "q");
    app.on_key(Key::Esc, 0);
    assert_eq!(app.browser.filter, "");
    assert!(!app.browser.typing);
}

#[test]
fn the_catalog_is_asked_when_the_box_is_sent() {
    let mut app = App::default();
    app.on_key(Key::Char('5'), 0);
    assert!(app.browser.typing);
    assert!(app.browser.showing.is_catalog());
    for c in " yes ".chars() {
        app.on_key(Key::Char(c), 0);
    }
    assert!(requests(&mut app).is_empty(), "nothing is asked per keystroke");
    app.on_key(Key::Enter, 0);
    assert_eq!(
        requests(&mut app),
        [Request::Search { query: "yes".into(), filter: CatalogFilter::All, offset: 0 }]
    );
    // A late answer from the library must not land on it.
    app.on_event(
        Event::Rows { view: View::Songs, entries: vec![song(Some("c"))], total: 1 },
        0,
    );
    assert!(app.browser.rows.is_empty());
    // Nor the answer to another question.
    app.on_event(Event::Results { query: "no".into(), entries: vec![song(Some("c"))] }, 0);
    assert!(app.browser.rows.is_empty());
    app.on_event(
        Event::Results { query: "yes".into(), entries: vec![album("al", "Fragile")] },
        0,
    );
    assert_eq!(app.browser.rows.len(), 1);

    // Into the album, and back to the search it came from.
    app.on_key(Key::Enter, 0);
    assert_eq!(
        requests(&mut app),
        [Request::Open { kind: PageKind::Album, id: "al".into() }]
    );
    assert_eq!(
        app.browser.showing,
        Showing::Page { title: "Fragile".into(), subtitle: "Someone".into(), loading: true }
    );
    app.on_event(
        Event::Page {
            kind: PageKind::Album,
            id: "al".into(),
            title: "Fragile".into(),
            entries: vec![song(Some("c"))],
        },
        0,
    );
    assert_eq!(
        app.browser.showing,
        Showing::Page { title: "Fragile".into(), subtitle: "Someone".into(), loading: false }
    );
    app.on_key(Key::Esc, 0);
    assert_eq!(
        requests(&mut app),
        [Request::Search { query: "yes".into(), filter: CatalogFilter::All, offset: 0 }]
    );
}

#[test]
fn enter_plays_the_list_from_the_selected_row() {
    let mut app = App::default();
    app.browser.replace(vec![song(None), song(Some("1")), song(Some("2"))], 3);
    app.on_key(Key::Down, 0);
    app.on_key(Key::Down, 0);
    app.on_key(Key::Enter, 0);
    assert_eq!(
        requests(&mut app),
        [Request::Play {
            ids: vec!["1".into(), "2".into()],
            index: 1,
            start: PlayMode::InOrder
        }]
    );
}

#[test]
fn a_list_nothing_can_be_played_of_says_so_and_fades() {
    let mut app = App::default();
    app.browser.replace(vec![song(None)], 1);
    app.on_key(Key::Enter, 1_000);
    assert_eq!(
        app.message.as_ref().map(|m| m.words.as_str()),
        Some("Nothing here can be streamed")
    );
    assert!(!app.tick(6_000));
    assert!(app.message.is_some());
    assert!(app.tick(6_001));
    assert!(app.message.is_none());
}

#[test]
fn the_queue_is_reordered_by_asking() {
    let mut app = App::default();
    app.on_event(
        Event::Queue {
            items: vec![QueueItem::default(), QueueItem::default(), QueueItem::default()],
            position: 2,
        },
        0,
    );
    app.on_key(Key::Tab, 0);
    assert_eq!(app.focus, Focus::Queue);
    app.on_key(Key::Char('J'), 0);
    assert_eq!(app.queue.cursor, 1);
    app.on_key(Key::Char('K'), 0);
    assert_eq!(app.queue.cursor, 0);
    app.on_key(Key::Char('K'), 0);
    app.on_key(Key::Home, 0);
    assert_eq!(app.queue.cursor, 2);
    app.on_key(Key::Char('d'), 0);
    app.on_key(Key::Enter, 0);
    assert_eq!(
        requests(&mut app),
        [
            Request::MoveInQueue { from: 0, to: 1 },
            Request::MoveInQueue { from: 1, to: 0 },
            Request::RemoveFromQueue { index: 2 },
            Request::JumpTo { index: 2 },
        ]
    );
}

#[test]
fn the_clock_runs_between_snapshots_and_stops_at_the_end() {
    let mut app = App::default();
    app.snap.playing = true;
    app.snap.duration_ms = 150;
    assert!(app.tick(0));
    assert_eq!(app.snap.position_ms, 100);
    app.tick(0);
    assert_eq!(app.snap.position_ms, 150);
    app.tick(0);
    assert_eq!(app.snap.position_ms, 150);
    app.snap.playing = false;
    assert!(!app.tick(0), "a still screen is not drawn again");
}

#[test]
fn a_section_key_shows_the_section() {
    let mut app = App::default();
    app.on_key(Key::Tab, 0);
    app.on_key(Key::Char('3'), 0);
    assert_eq!(app.focus, Focus::Browser);
    assert_eq!(app.browser.view, View::Artists);
    assert_eq!(
        requests(&mut app),
        [Request::Browse { view: View::Artists, query: String::new(), offset: 0, limit: 0 }]
    );
}

#[test]
fn waiting_for_the_daemon_to_go() {
    assert!(matches!(wait_for_quit(Heard::Lost), Waiting::Gone));
    assert!(matches!(wait_for_quit(Heard::Event(Event::LibraryChanged)), Waiting::On));
    assert!(matches!(
        wait_for_quit(Heard::Event(Event::Error { detail: "busy".into() })),
        Waiting::Refused(why) if why == "busy"
    ));
    assert!(matches!(
        wait_for_quit(Heard::Deadline),
        Waiting::Refused(why) if why == "the daemon did not answer"
    ));
}

#[test]
fn a_pane_keeps_its_width_at_the_far_corner() {
    let mut b = Browser::default();
    let mut q = Queue::default();
    let snap = Snapshot::default();
    let look = Look {
        snap: &snap,
        stage: &Stage::Ready,
        focus: Focus::Queue,
        bars: &[],
        sounding: false,
        played: 0,
        volume: 0,
        message: None,
    };
    let frame = Area { x: 65_000, y: 65_500, width: 1_000, height: 100 };
    let drawn = draw(frame, &look, &mut b, &mut q);
    assert_eq!(drawn.len(), 6);
    for pane in &drawn {
        assert_eq!(pane.area.x, 65_002);
        assert_eq!(pane.area.width, 996);
        assert!(pane.area.y >= 65_501);
    }
}

#[test]
fn a_narrow_window_loses_the_least_useful_hints() {
    let at = |width: usize| text(&key_hints(width, Focus::Browser, false, false));
    // A shorter hint would fit here, but it is a less useful one.
    assert_eq!(at(30), "_ hide   q quit   ");
    assert_eq!(at(37), "space play/pause   _ hide   q quit   ");
    assert_eq!(at(46), "space play/pause   _ hide   q quit   ");
    assert_eq!(at(47), "space play/pause   ↑↓ move   _ hide   q quit   ");
    for width in 18..120 {
        assert!(at(width).chars().count() <= width, "{width}");
    }
}

#[test]
fn the_library_gets_the_larger_share_of_what_is_left() {
    let snap = Snapshot::default();
    for message in [None, Some("no")] {
        for height in 0..90u16 {
            let mut b = Browser::default();
            let mut q = Queue::default();
            let look = Look {
                snap: &snap,
                stage: &Stage::Ready,
                focus: Focus::Queue,
                bars: &[],
                sounding: false,
                played: 0,
                volume: 0,
                message,
            };
            let frame = Area { x: 0, y: 3, width: 80, height };
            let drawn = draw(frame, &look, &mut b, &mut q);
            for pair in drawn.windows(2) {
                assert!(pair[0].area.y + pair[0].area.height <= pair[1].area.y, "{height}");
            }
            let asked = if message.is_some() { 12 } else { 10 };
            if height < asked + 2 {
                continue;
            }
            let left = height - 2 - asked;
            let queue = (4 * left + 5) / 10;
            let heights: Vec<u16> = drawn.iter().map(|pane| pane.area.height).collect();
            if message.is_some() {
                assert_eq!(heights, [5, 2, 2, queue, 2, left - queue, 1], "{height}");
            } else {
                assert_eq!(heights, [5, 2, queue, 2, left - queue, 1], "{height}");
            }
            assert!(queue <= left - queue);
            assert_eq!(drawn[0].area.y, 4);
        }
    }
}
