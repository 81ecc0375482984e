use slipmat::app::handle::{into_msg, map_player_output, AppMsg, NowPlayingOutput};
use slipmat::app::playback::{previous_means, Previous};
use slipmat::mpris::{
    changed_player_properties, track_id, Capabilities, LoopStatus, MprisCommand, MprisState,
    PlaybackStatus, Property,
};
use slipmat::mpris_player::{Mpris, SlipmatPlayer};
use slipmat::protocol::RepeatMode;

fn bits(volume: f64) -> u64 {
    volume.to_bits()
}

fn local_player(state: MprisState) -> SlipmatPlayer {
    SlipmatPlayer::new(state, Capabilities::windowed())
}

#[test]
fn track_ids_are_valid_object_paths() {
    let id = track_id(Some("1049009209")).expect("numeric id");
    assert_eq!(id.as_str(), "/dev/miguelrincon/Slipmat/track/1049009209");
}

#[test]
fn library_ids_with_illegal_characters_are_sanitised() {
    let id = track_id(Some("i.AbCd-123")).expect("sanitised id");
    assert_eq!(id.as_str(), "/dev/miguelrincon/Slipmat/track/i_AbCd_123");
}

#[test]
fn no_track_means_no_id() {
    assert!(track_id(None).is_none());
    assert!(track_id(Some("")).is_none());
}

#[test]
fn status_maps_the_three_mpris_states() {
    let playing = MprisState { playing: true, ..Default::default() };
    assert_eq!(playing.status(), PlaybackStatus::Playing);

    let paused = MprisState::default();
    assert_eq!(paused.status(), PlaybackStatus::Paused);

    let stopped = MprisState {
        stopped: true,
        playing: true, // stopped wins
        ..Default::default()
    };
    assert_eq!(stopped.status(), PlaybackStatus::Stopped);
}

#[test]
fn position_is_not_part_of_the_metadata_diff() {
    let a = MprisState { title: "Roundabout".into(), position_ms: 1_000, ..Default::default() };
    let b = MprisState { position_ms: 90_000, ..a.clone() };
    assert!(a.metadata_fields(&b));
    assert!(changed_player_properties(Some(&a), &b, false).is_empty());
}

#[test]
fn player_property_changes_match_the_existing_export() {
    let previous = MprisState::default();
    let state = MprisState {
        title: "Roundabout".into(),
        playing: true,
        can_next: true,
        can_previous: true,
        volume: bits(0.4),
        shuffle: true,
        repeat: RepeatMode::One,
        ..Default::default()
    };

    let changed = changed_player_properties(Some(&previous), &state, true);
    let named: Vec<&str> = changed.iter().map(|p| p.name()).collect();
    assert_eq!(
        named,
        [
            "metadata",
            "playback status",
            "can-go-next",
            "can-go-previous",
            "volume",
            "shuffle",
            "loop status",
        ]
    );
    assert_eq!(
        changed,
        [
            Property::Metadata(state.metadata()),
            Property::PlaybackStatus(PlaybackStatus::Playing),
            Property::CanGoNext(true),
            Property::CanGoPrevious(true),
            Property::Volume(bits(0.4)),
            Property::Shuffle(true),
            Property::LoopStatus(LoopStatus::Track),
        ]
    );
}

#[test]
fn art_url_is_a_file_uri() {
    let state = MprisState {
        art_path: Some("/home/x/.cache/slipmat/artwork/ab-512.jpg".into()),
        ..Default::default()
    };
    let art = state.metadata().art_url.expect("art url");
    assert!(art.starts_with("file:///"), "GNOME Shell needs a file:// path, got {art}");
}

#[test]
fn repeat_maps_onto_the_loop_status_that_means_the_same_thing() {
    let mode = |repeat| MprisState { repeat, ..Default::default() }.loop_status();

    assert_eq!(mode(RepeatMode::Off), LoopStatus::Off);
    assert_eq!(mode(RepeatMode::All), LoopStatus::Playlist);
    assert_eq!(mode(RepeatMode::One), LoopStatus::Track);
}

#[test]
fn shuffle_and_repeat_are_not_part_of_the_metadata_diff() {
    let off = MprisState { title: "Roundabout".into(), ..Default::default() };
    let on = MprisState { shuffle: true, repeat: RepeatMode::One, ..off.clone() };
    assert!(off.metadata_fields(&on));
    assert_ne!(off.loop_status(), on.loop_status());
}

#[test]
fn an_unknown_length_is_omitted_rather_than_sent_as_zero() {
    let state = MprisState::default();
    assert!(
        state.metadata().length_ms.is_none(),
        "a zero length would render as a 0:00 track"
    );
}

#[test]
fn local_root_matches_the_existing_export() {
    let mut player = local_player(MprisState::default());

    assert!(player.can_raise());
    assert!(player.can_quit());
    assert!(!player.fullscreen());
    assert!(!player.can_set_fullscreen());
    assert!(!player.has_track_list());
    assert_eq!(player.identity(), "Slipmat");
    assert_eq!(player.desktop_entry(), "dev.miguelrincon.Slipmat");
    assert!(player.supported_uri_schemes().is_empty());
    assert!(player.supported_mime_types().is_empty());

    player.raise();
    player.quit();
    assert_eq!(player.asked, [MprisCommand::Raise, MprisCommand::Quit]);

    let headless = SlipmatPlayer::new(MprisState::default(), Capabilities::headless());
    assert!(!headless.can_raise());
    assert!(!headless.can_quit());
}

#[test]
fn local_player_reports_the_current_state() {
    let state = MprisState {
        track_id: Some("1049009209".into()),
        title: "Roundabout".into(),
        position_ms: 12_345,
        playing: true,
        can_next: true,
        can_previous: true,
        volume: bits(0.4),
        shuffle: true,
        repeat: RepeatMode::One,
        ..Default::default()
    };
    let player = local_player(state.clone());

    assert_eq!(player.playback_status(), state.status());
    assert_eq!(player.loop_status(), state.loop_status());
    assert_eq!(f64::from_bits(player.rate()), 1.0);
    assert_eq!(f64::from_bits(player.minimum_rate()), 1.0);
    assert_eq!(f64::from_bits(player.maximum_rate()), 1.0);
    assert!(player.shuffle());
    assert_eq!(player.metadata(), state.metadata());
    assert_eq!(player.volume(), bits(0.4));
    assert_eq!(player.position(), 12_345);
    assert!(player.can_go_next());
    assert!(player.can_go_previous());
    assert!(player.can_play());
    assert!(player.can_pause());
    assert!(player.can_seek());
    assert!(player.can_control());
}

#[test]
fn local_controls_map_to_existing_commands() {
    let state = MprisState {
        track_id: Some("1049009209".into()),
        position_ms: 5_000,
        ..Default::default()
    };
    let mut player = local_player(state);

    player.play();
    player.pause();
    player.play_pause();
    player.stop();
    player.next();
    player.previous();
    player.seek(-2_000);
    player.set_position(&track_id(Some("1049009209")).expect("track id"), 4_000);
    player.set_shuffle(true);
    player.set_loop_status(LoopStatus::Playlist);
    player.set_volume(bits(2.0));

    assert_eq!(
        player.asked,
        [
            MprisCommand::Play,
            MprisCommand::Pause,
            MprisCommand::PlayPause,
            MprisCommand::Pause,
            MprisCommand::Next,
            MprisCommand::Previous,
            MprisCommand::Seek(3_000),
            MprisCommand::Seek(4_000),
            MprisCommand::SetShuffle(true),
            MprisCommand::SetRepeat(RepeatMode::All),
            MprisCommand::SetVolume(bits(1.0)),
        ]
    );
}

#[test]
fn set_position_ignores_a_stale_track_id() {
    let state = MprisState { track_id: Some("current".into()), ..Default::default() };
    let mut player = local_player(state);

    player.set_position(&track_id(Some("stale")).expect("track id"), 9_000);

    assert!(player.asked.is_empty());
}

#[test]
fn a_seek_stays_within_the_range_of_a_position() {
    let mut player = local_player(MprisState { position_ms: 1_000, ..Default::default() });
    player.seek(-5_000);
    assert_eq!(player.asked, [MprisCommand::Seek(0)]);
}

#[test]
fn a_player_that_was_not_exported_says_nothing() {
    let mut bus = Mpris::start();
    let state = MprisState { title: "Roundabout".into(), ..Default::default() };
    assert!(bus.update(state.clone(), true).is_empty());
    assert_eq!(bus.seeked(10), None);

    bus.exported(Capabilities::headless());
    assert!(!bus.update(state.clone(), true).is_empty());
    assert!(bus.update(state, false).is_empty(), "nothing changed since");
    assert_eq!(bus.seeked(10), Some(10));
}

#[test]
fn metadata_leaves_out_what_is_not_known() {
    let state = MprisState {
        title: "Roundabout".into(),
        track_number: 1,
        length_ms: 511_000,
        ..Default::default()
    };
    let told = state.metadata();
    assert_eq!(told.title, "Roundabout");
    assert_eq!(told.artist, None);
    assert_eq!(told.album, None);
    assert_eq!(told.track_number, Some(1));
    assert_eq!(told.length_ms, Some(511_000));
    assert_eq!(told.art_url, None);
    assert_eq!(told.track_id, None);
}

#[test]
fn a_press_early_in_a_track_goes_back_one() {
    assert_eq!(previous_means(0), Previous::Track);
    assert_eq!(previous_means(2_999), Previous::Track);
}

#[test]
fn a_press_later_in_a_track_restarts_it() {
    assert_eq!(previous_means(3_000), Previous::Restart);
    assert_eq!(previous_means(120_000), Previous::Restart);
}

#[test]
fn what_a_controller_asks_becomes_a_message() {
    assert_eq!(into_msg(MprisCommand::Play, false), AppMsg::Play);
    assert_eq!(into_msg(MprisCommand::Quit, false), AppMsg::Pause);
    assert_eq!(into_msg(MprisCommand::Seek(7), false), AppMsg::Seek(7));
    assert_eq!(
        into_msg(MprisCommand::SetVolume(3), true),
        AppMsg::SetVolume { volume: 3, moved: true }
    );
}

#[test]
fn the_bar_and_the_drawer_mean_the_same_by_a_button() {
    assert_eq!(map_player_output(NowPlayingOutput::ToggleQueue, false), AppMsg::ToggleQueue);
    assert_eq!(map_player_output(NowPlayingOutput::Seek(9), false), AppMsg::Seek(9));
    assert_eq!(
        map_player_output(NowPlayingOutput::SetRepeat(RepeatMode::All), false),
        AppMsg::SetRepeat(RepeatMode::All)
    );
}
