//! The daemon's mirror, and how it becomes something a client can draw.

use vstd::prelude::*;

use crate::deck::{Deck, DeckView};
use crate::ids::IdSet;
use crate::ipc;
use crate::ipc::{QueueItem, Snapshot, SnapshotView, Stage, StageView};
use crate::library::{Library, LibraryView};
use crate::mpris::{MprisState, MprisView};
use crate::protocol::{Item, Tokens};
use crate::text;
use crate::volume::FULL_VOLUME;

verus! {

/// Everything the daemon knows, in one place.
#[derive(Debug)]
pub struct Model {
    pub deck: Deck,
    pub stage: Stage,
    /// The bits of an `f64`. The player is told the volume and does not report
    /// one back, so this is the only record of it.
    pub volume: u64,
    /// Live for the process lifetime, never persisted.
    pub tokens: Option<Tokens>,
    pub library: Library,
    /// The current track's cover, once there is a file of it.
    pub art_path: Option<String>,
}

/// A [`Model`] with its texts as sequences.
#[verifier::ext_equal]
pub struct ModelView {
    pub deck: DeckView,
    pub stage: StageView,
    pub volume: u64,
    pub tokens: Option<Tokens>,
    pub library: LibraryView,
    pub art_path: Option<Seq<char>>,
}

impl View for Model {
    type V = ModelView;

    open spec fn view(&self) -> ModelView {
        ModelView {
            deck: self.deck@,
            stage: self.stage@,
            volume: self.volume,
            tokens: self.tokens,
            library: self.library@,
            art_path: text::text_view(self.art_path),
        }
    }
}

/// The title of the current item, or nothing.
pub open spec fn title_of(item: Option<Item>) -> Seq<char> {
    match item {
        Some(item) => item.title@,
        None => Seq::empty(),
    }
}

/// The artist of the current item, or nothing.
pub open spec fn artist_of(item: Option<Item>) -> Seq<char> {
    match item {
        Some(item) => item.artist@,
        None => Seq::empty(),
    }
}

/// The album of the current item, or nothing.
pub open spec fn album_of(item: Option<Item>) -> Seq<char> {
    match item {
        Some(item) => item.album@,
        None => Seq::empty(),
    }
}

/// The rows a queue draws.
pub open spec fn queue_rows(queue: Seq<Item>) -> Seq<QueueItem> {
    queue.map_values(|item: Item| ipc::row_of(item))
}

impl ModelView {
    /// What a client draws from.
    pub open spec fn snap(self) -> SnapshotView {
        let player = self.deck.player;
        let item = player.now_playing;
        SnapshotView {
            title: title_of(item),
            artist: artist_of(item),
            album: album_of(item),
            art_path: self.art_path,
            position_ms: player.interpolated_ms,
            duration_ms: player.duration_ms,
            playing: player.playing,
            busy: player.busy,
            volume: self.volume,
            shuffle: player.shuffle,
            repeat: player.repeat,
            can_next: player.has_next,
            can_previous: player.has_previous,
        }
    }

    /// What the bus is told. No cover: the bus takes only what it is given a
    /// file of.
    pub open spec fn bus(self) -> MprisView {
        let player = self.deck.player;
        let item = player.now_playing;
        MprisView {
            track_id: player.playing_key(),
            title: title_of(item),
            artist: artist_of(item),
            album: album_of(item),
            track_number: match item {
                Some(i) => i.track_number,
                None => 0,
            },
            art_path: None,
            length_ms: player.duration_ms,
            position_ms: player.interpolated_ms,
            playing: player.playing,
            stopped: player.queue.len() == 0,
            can_next: player.has_next,
            can_previous: player.has_previous,
            volume: self.volume,
            shuffle: player.shuffle,
            repeat: player.repeat,
        }
    }
}

impl Model {
    /// A daemon that has heard nothing yet.
    pub fn new(dead_ids: IdSet, library: Library) -> (r: Self)
        ensures
            r@ == (ModelView {
                deck: DeckView::fresh(dead_ids@, true),
                stage: StageView::Connecting,
                volume: FULL_VOLUME,
                tokens: None,
                library: library@,
                art_path: None,
            }),
    {
        Model {
            deck: Deck::new(dead_ids, true),
            stage: Stage::Connecting,
            volume: FULL_VOLUME,
            tokens: None,
            library,
            art_path: None,
        }
    }

    /// What a client draws from. The position is carried forward to now: the
    /// player reports about once a second, and a bar redrawing at that rate
    /// visibly steps.
    pub fn snapshot(&self) -> (r: Snapshot)
        ensures
            r@ == self@.snap(),
    {
        let player = &self.deck.player;
        let (title, artist, album) = item_texts(&player.now_playing);
        Snapshot {
            title,
            artist,
            album,
            art_path: self.art_path.clone(),
            position_ms: player.interpolated_ms,
            duration_ms: player.duration_ms,
            playing: player.playing,
            busy: player.busy,
            volume: self.volume,
            shuffle: player.shuffle,
            repeat: player.repeat,
            can_next: player.has_next,
            can_previous: player.has_previous,
        }
    }

    /// The queue as a client draws it, and where the player is in it.
    pub fn queue(&self) -> (r: (Vec<QueueItem>, usize))
        ensures
            r.0@ == queue_rows(self@.deck.player.queue),
            r.1 == self@.deck.player.queue_position,
    {
        let items = &self.deck.player.queue;
        let mut rows: Vec<QueueItem> = Vec::new();
        let mut i: usize = 0;
        while i < items.len()
            invariant
                i <= items@.len(),
                rows@ == queue_rows(items@).take(i as int),
            decreases items@.len() - i,
        {
            rows.push(QueueItem::from(&items[i]));
            proof {
                assert(rows@ =~= queue_rows(items@).take(i + 1));
            }
            i += 1;
        }
        proof {
            assert(queue_rows(items@).take(i as int) =~= queue_rows(items@));
        }
        (rows, self.deck.player.queue_position)
    }

    /// What the bus should be showing.
    pub fn state(&self) -> (r: MprisState)
        ensures
            r@ == self@.bus(),
    {
        let player = &self.deck.player;
        let (title, artist, album) = item_texts(&player.now_playing);
        let track_number: u32 = match &player.now_playing {
            Some(item) => item.track_number,
            None => 0,
        };
        MprisState {
            track_id: player.playing_catalog_id(),
            title,
            artist,
            album,
            track_number,
            art_path: None,
            length_ms: player.duration_ms,
            position_ms: player.interpolated_ms,
            playing: player.playing,
            stopped: player.queue.len() == 0,
            can_next: player.has_next,
            can_previous: player.has_previous,
            volume: self.volume,
            shuffle: player.shuffle,
            repeat: player.repeat,
        }
    }
}

/// The title, artist and album of an item, or nothing of each.
pub fn item_texts(item: &Option<Item>) -> (r: (String, String, String))
    ensures
        r.0@ == title_of(*item),
        r.1@ == artist_of(*item),
        r.2@ == album_of(*item),
{
    match item {
        Some(item) => (item.title.clone(), item.artist.clone(), item.album.clone()),
        None => (String::new(), String::new(), String::new()),
    }
}

} // verus!
