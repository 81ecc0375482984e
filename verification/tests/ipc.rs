use slipmat::ipc::{
    command_for, connect_or_spawn, frame, socket_path, Dial, DialEvent, DialStep, PlayMode,
    QueueItem, Transport,
};
use slipmat::protocol::{Command, Item, RepeatMode};
use slipmat::queue::Start;
use slipmat::text::{contains, fold_query, push_decimal, same};

#[test]
fn every_transport_verb_has_a_sidecar_command() {
    let volume = (0.5f64).to_bits();
    let verbs = [
        Transport::Play,
        Transport::Pause,
        Transport::PlayPause,
        Transport::Next,
        Transport::Previous,
        Transport::Seek { position_ms: 1 },
        Transport::SetVolume { volume },
        Transport::SetShuffle { shuffle: true },
        Transport::SetRepeat { mode: RepeatMode::All },
    ];
    for verb in verbs {
        let _ = command_for(verb);
    }
    assert_eq!(command_for(Transport::Seek { position_ms: 1 }), Command::Seek { position_ms: 1 });
    assert_eq!(command_for(Transport::SetVolume { volume }), Command::SetVolume { volume });
}

#[test]
fn the_socket_lives_under_the_runtime_dir() {
    assert_eq!(
        socket_path(Some("/run/user/1000".into())).unwrap(),
        "/run/user/1000/slipmat.sock"
    );
    assert_eq!(
        socket_path(Some("/run/user/1000/".into())).unwrap(),
        "/run/user/1000/slipmat.sock"
    );
    assert_eq!(socket_path(None), None);
    assert_eq!(socket_path(Some(String::new())), None);
}

#[test]
fn a_line_of_the_wire_ends_in_a_newline() {
    assert_eq!(frame(b"{}".to_vec()), b"{}\n");
}

#[test]
fn a_daemon_that_is_not_there_is_started_and_waited_for() {
    let (dial, step) = connect_or_spawn(Dial::Asking, DialEvent::Refused { now_ms: 0 });
    assert_eq!(step, DialStep::Start);
    let (dial, step) = connect_or_spawn(dial, DialEvent::Started { now_ms: 5 });
    assert_eq!(step, DialStep::AskAfter { ms: 50 });
    let (dial, step) = connect_or_spawn(dial, DialEvent::Refused { now_ms: 10_004 });
    assert_eq!(step, DialStep::AskAfter { ms: 50 });
    let (_, late) = connect_or_spawn(dial, DialEvent::Refused { now_ms: 10_005 });
    assert_eq!(late, DialStep::TimedOut);
    assert_eq!(connect_or_spawn(dial, DialEvent::Connected).1, DialStep::Done);
}

#[test]
fn each_way_a_daemon_can_fail_to_be_reached() {
    assert_eq!(
        connect_or_spawn(Dial::Asking, DialEvent::NoSocket).1,
        DialStep::NowhereToListen
    );
    assert_eq!(
        connect_or_spawn(Dial::Starting, DialEvent::NotStarted).1,
        DialStep::CannotStart
    );
}

#[test]
fn a_queue_row_takes_the_catalog_id_first() {
    let mut item = Item::default();
    item.id = Some("i.1".into());
    assert_eq!(QueueItem::from(&item).id, Some("i.1".to_string()));
    item.catalog_id = Some("1".into());
    item.title = "Roundabout".into();
    let row = QueueItem::from(&item);
    assert_eq!(row.id, Some("1".to_string()));
    assert_eq!(row.title, "Roundabout");
}

#[test]
fn a_play_mode_means_its_start() {
    assert_eq!(Start::from(PlayMode::Clicked), Start::Clicked);
    assert_eq!(Start::from(PlayMode::InOrder), Start::InOrder);
    assert_eq!(Start::from(PlayMode::Shuffled), Start::Shuffled);
}

#[test]
fn a_query_is_folded_before_it_is_looked_for() {
    assert_eq!(fold_query("  BOHEMIAN \u{3000}"), "bohemian");
    assert_eq!(fold_query("ÁRBOL"), "árbol");
    assert_eq!(fold_query(" \t\n"), "");
}

#[test]
fn texts_are_searched_by_character() {
    assert!(contains("naïve", "ïv"));
    assert!(contains("anything", ""));
    assert!(!contains("abc", "abcd"));
    assert!(same("Señor", "Señor"));
    assert!(!same("a", "b"));
}

#[test]
fn numbers_are_written_in_decimal() {
    for (n, words) in [(0u64, "0"), (7, "7"), (10, "10"), (18446744073709551615, "18446744073709551615")] {
        let mut out = String::from("n=");
        push_decimal(&mut out, n);
        assert_eq!(out, format!("n={words}"));
    }
}
