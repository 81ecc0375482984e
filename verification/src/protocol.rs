//! What is said to the player, and what is known of it: the commands it takes,
//! the items its queue holds, and the mirror kept of its state.

use vstd::prelude::*;

use crate::text;

verus! {

/// One item of the player's queue.
#[derive(Debug, PartialEq, Eq)]
pub struct Item {
    pub id: Option<String>,
    pub catalog_id: Option<String>,
    pub title: String,
    pub artist: String,
    pub album: String,
    pub duration_ms: u64,
    pub track_number: u32,
    pub artwork_template: Option<String>,
}

#[derive(Debug, Clone, Copy, PartialEq, Eq, Structural)]
pub enum RepeatMode {
    Off,
    One,
    All,
}

/// The mirror kept of the player.
///
/// The player owns its queue and its clock; this is what it last said. Where a
/// fact is derived by whatever keeps the mirror (`interpolated_ms`, `has_next`)
/// it is held here as that fact.
#[derive(Debug, Clone, PartialEq, Eq)]
pub struct PlayerState {
    pub now_playing: Option<Item>,
    pub queue: Vec<Item>,
    pub queue_position: usize,
    /// The position as last reported.
    pub position_ms: u64,
    /// The position carried forward to now.
    pub interpolated_ms: u64,
    pub duration_ms: u64,
    pub playing: bool,
    /// Still working towards audio: neither playing nor stopped.
    pub busy: bool,
    pub shuffle: bool,
    pub repeat: RepeatMode,
    pub has_next: bool,
    pub has_previous: bool,
}

/// A [`PlayerState`] with its queue as a sequence.
#[verifier::ext_equal]
pub struct PlayerView {
    pub now_playing: Option<Item>,
    pub queue: Seq<Item>,
    pub queue_position: int,
    pub position_ms: u64,
    pub interpolated_ms: u64,
    pub duration_ms: u64,
    pub playing: bool,
    pub busy: bool,
    pub shuffle: bool,
    pub repeat: RepeatMode,
    pub has_next: bool,
    pub has_previous: bool,
}

/// Something to tell the player.
///
/// A volume is the bits of an `f64`: it is carried here, never computed with.
#[derive(Debug, PartialEq, Eq)]
pub enum Command {
    Play,
    Pause,
    PlayPause,
    Next,
    Previous,
    Seek { position_ms: u64 },
    SetVolume { volume: u64 },
    SetShuffle { shuffle: bool },
    SetRepeat { mode: RepeatMode },
    SetQueue { songs: Vec<String>, start_position: usize, start_playing: bool, start_time_ms: u64 },
    ChangeToIndex { index: usize },
    PlayNext { songs: Vec<String> },
    PlayLater { songs: Vec<String> },
    RemoveFromQueue { index: usize },
    MoveInQueue { from: usize, to: usize },
    ClearQueue,
    RemoveFromLibrary { id: String },
    Unfavorite { id: String },
    ShowLogin,
    SignOut,
    Hide,
}

/// What lets this side talk to the music service itself.
#[derive(Debug, PartialEq, Eq)]
pub struct Tokens {
    pub developer_token: String,
    pub music_user_token: Option<String>,
    pub storefront: String,
    pub authorized: bool,
}

/// Something the player's process reports.
///
/// What it says of the queue and the current item reaches the mirror first, so
/// the events that carry those say here only that they did.
#[derive(Debug, PartialEq, Eq)]
pub enum PlayerEvent {
    Ready { debug: bool },
    WidevineReady,
    HookBoot,
    HookReady { authorized: bool },
    HookFailed { detail: String },
    HookWarning { detail: String },
    CmdRecv { cmd: String },
    CmdQueued { cmd: String },
    /// A command ran to its end.
    CmdDone { cmd: String },
    Tokens(Tokens),
    Authorization { authorized: bool },
    PlaybackState,
    NowPlaying,
    Queue,
    /// The bits of an `f64`.
    Volume { volume: u64 },
    LibraryWrite { kind: String, id: String, ok: bool, detail: String },
    Error { detail: String },
    Position,
}

/// The event's kind, for a log line that stays one line.
pub fn event_name(event: &PlayerEvent) -> (r: &'static str)
    ensures
        r@ == (match *event {
            PlayerEvent::NowPlaying => "nowPlaying"@,
            PlayerEvent::Queue => "queue"@,
            PlayerEvent::PlaybackState => "playbackState"@,
            PlayerEvent::CmdRecv { .. } => "cmdRecv"@,
            PlayerEvent::CmdDone { .. } => "cmdDone"@,
            PlayerEvent::Tokens(_) => "tokens"@,
            PlayerEvent::Error { .. } => "error"@,
            _ => "other"@,
        }),
{
    match event {
        PlayerEvent::NowPlaying => "nowPlaying",
        PlayerEvent::Queue => "queue",
        PlayerEvent::PlaybackState => "playbackState",
        PlayerEvent::CmdRecv { .. } => "cmdRecv",
        PlayerEvent::CmdDone { .. } => "cmdDone",
        PlayerEvent::Tokens(_) => "tokens",
        PlayerEvent::Error { .. } => "error",
        _ => "other",
    }
}

impl Clone for Tokens {
    fn clone(&self) -> (r: Self)
        ensures
            r == *self,
    {
        Tokens {
            developer_token: self.developer_token.clone(),
            music_user_token: self.music_user_token.clone(),
            storefront: self.storefront.clone(),
            authorized: self.authorized,
        }
    }
}

/// A [`Command`] with its texts as sequences.
#[verifier::ext_equal]
pub enum CommandView {
    Play,
    Pause,
    PlayPause,
    Next,
    Previous,
    Seek { position_ms: u64 },
    SetVolume { volume: u64 },
    SetShuffle { shuffle: bool },
    SetRepeat { mode: RepeatMode },
    SetQueue {
        songs: Seq<Seq<char>>,
        start_position: int,
        start_playing: bool,
        start_time_ms: u64,
    },
    ChangeToIndex { index: int },
    PlayNext { songs: Seq<Seq<char>> },
    PlayLater { songs: Seq<Seq<char>> },
    RemoveFromQueue { index: int },
    MoveInQueue { from: int, to: int },
    ClearQueue,
    RemoveFromLibrary { id: Seq<char> },
    Unfavorite { id: Seq<char> },
    ShowLogin,
    SignOut,
    Hide,
}

impl View for PlayerState {
    type V = PlayerView;

    open spec fn view(&self) -> PlayerView {
        PlayerView {
            now_playing: self.now_playing,
            queue: self.queue@,
            queue_position: self.queue_position as int,
            position_ms: self.position_ms,
            interpolated_ms: self.interpolated_ms,
            duration_ms: self.duration_ms,
            playing: self.playing,
            busy: self.busy,
            shuffle: self.shuffle,
            repeat: self.repeat,
            has_next: self.has_next,
            has_previous: self.has_previous,
        }
    }
}

impl View for Command {
    type V = CommandView;

    open spec fn view(&self) -> CommandView {
        match *self {
            Command::Play => CommandView::Play,
            Command::Pause => CommandView::Pause,
            Command::PlayPause => CommandView::PlayPause,
            Command::Next => CommandView::Next,
            Command::Previous => CommandView::Previous,
            Command::Seek { position_ms } => CommandView::Seek { position_ms },
            Command::SetVolume { volume } => CommandView::SetVolume { volume },
            Command::SetShuffle { shuffle } => CommandView::SetShuffle { shuffle },
            Command::SetRepeat { mode } => CommandView::SetRepeat { mode },
            Command::SetQueue { songs, start_position, start_playing, start_time_ms } =>
                CommandView::SetQueue {
                songs: text::texts(songs@),
                start_position: start_position as int,
                start_playing,
                start_time_ms,
            },
            Command::ChangeToIndex { index } => CommandView::ChangeToIndex { index: index as int },
            Command::PlayNext { songs } => CommandView::PlayNext { songs: text::texts(songs@) },
            Command::PlayLater { songs } => CommandView::PlayLater { songs: text::texts(songs@) },
            Command::RemoveFromQueue { index } => CommandView::RemoveFromQueue {
                index: index as int,
            },
            Command::MoveInQueue { from, to } => CommandView::MoveInQueue {
                from: from as int,
                to: to as int,
            },
            Command::ClearQueue => CommandView::ClearQueue,
            Command::RemoveFromLibrary { id } => CommandView::RemoveFromLibrary { id: id@ },
            Command::Unfavorite { id } => CommandView::Unfavorite { id: id@ },
            Command::ShowLogin => CommandView::ShowLogin,
            Command::SignOut => CommandView::SignOut,
            Command::Hide => CommandView::Hide,
        }
    }
}

impl Clone for Item {
    fn clone(&self) -> (r: Self)
        ensures
            r == *self,
    {
        Item {
            id: self.id.clone(),
            catalog_id: self.catalog_id.clone(),
            title: self.title.clone(),
            artist: self.artist.clone(),
            album: self.album.clone(),
            duration_ms: self.duration_ms,
            track_number: self.track_number,
            artwork_template: self.artwork_template.clone(),
        }
    }
}

impl Default for Item {
    fn default() -> (r: Self)
        ensures
            r.id is None,
            r.catalog_id is None,
            r.title@.len() == 0,
            r.artist@.len() == 0,
            r.album@.len() == 0,
            r.duration_ms == 0,
            r.track_number == 0,
            r.artwork_template is None,
    {
        Item {
            id: None,
            catalog_id: None,
            title: String::new(),
            artist: String::new(),
            album: String::new(),
            duration_ms: 0,
            track_number: 0,
            artwork_template: None,
        }
    }
}

impl Item {
    /// What the item is asked for by: its catalog id, or failing that its own.
    pub open spec fn key(self) -> Option<Seq<char>> {
        match self.catalog_id {
            Some(id) => Some(id@),
            None => text::text_view(self.id),
        }
    }

    /// What the item is asked for by: its catalog id, or failing that its own.
    pub fn song_id(&self) -> (r: Option<&String>)
        ensures
            match r {
                Some(id) => self.key() == Some(id@),
                None => self.key() is None,
            },
    {
        match &self.catalog_id {
            Some(id) => Some(id),
            None => self.id.as_ref(),
        }
    }

    /// Whether either of the item's ids is `id`.
    pub open spec fn answers_to(self, id: Seq<char>) -> bool {
        text::text_view(self.catalog_id) == Some(id) || text::text_view(self.id) == Some(id)
    }

    /// Whether either of the item's ids is `id`.
    pub fn is_called(&self, id: &str) -> (r: bool)
        ensures
            r == self.answers_to(id@),
    {
        let by_catalog = match &self.catalog_id {
            Some(own) => text::same(own.as_str(), id),
            None => false,
        };
        let by_id = match &self.id {
            Some(own) => text::same(own.as_str(), id),
            None => false,
        };
        by_catalog || by_id
    }
}

/// A queue with the item at `from` taken out and put back so that it lands at
/// `to`. A move off either end leaves the queue as it is.
pub open spec fn moved<T>(queue: Seq<T>, from: int, to: int) -> Seq<T> {
    if 0 <= from < queue.len() && 0 <= to < queue.len() {
        queue.remove(from).insert(to, queue[from])
    } else {
        queue
    }
}

/// Where the item that stood at `at` stands once `from` has moved to `to`.
pub open spec fn moved_index(at: int, from: int, to: int) -> int {
    if at == from {
        to
    } else if from < at <= to {
        at - 1
    } else if to <= at < from {
        at + 1
    } else {
        at
    }
}

impl PlayerView {
    /// Nothing loaded, nothing playing.
    pub open spec fn idle() -> PlayerView {
        PlayerView {
            now_playing: None,
            queue: Seq::empty(),
            queue_position: 0,
            position_ms: 0,
            interpolated_ms: 0,
            duration_ms: 0,
            playing: false,
            busy: false,
            shuffle: false,
            repeat: RepeatMode::Off,
            has_next: false,
            has_previous: false,
        }
    }

    /// Where the player is a while after it said where it was. Only one that
    /// plays moves, and not beyond the end of a track whose length is known.
    pub open spec fn position_after(self, elapsed_ms: u64) -> int {
        let at = self.position_ms + elapsed_ms;
        if !self.playing || self.position_ms >= self.duration_ms > 0 {
            self.position_ms as int
        } else if self.duration_ms > 0 && at > self.duration_ms {
            self.duration_ms as int
        } else if at > u64::MAX {
            u64::MAX as int
        } else {
            at
        }
    }
}

impl PlayerState {
    /// Nothing loaded, nothing playing.
    pub fn new() -> (r: Self)
        ensures
            r@ == PlayerView::idle(),
    {
        PlayerState {
            now_playing: None,
            queue: Vec::new(),
            queue_position: 0,
            position_ms: 0,
            interpolated_ms: 0,
            duration_ms: 0,
            playing: false,
            busy: false,
            shuffle: false,
            repeat: RepeatMode::Off,
            has_next: false,
            has_previous: false,
        }
    }

    /// Carry the position forward, a while after it was reported.
    pub fn carry(&mut self, elapsed_ms: u64)
        ensures
            final(self)@ == (PlayerView {
                interpolated_ms: old(self)@.position_after(elapsed_ms) as u64,
                ..old(self)@
            }),
    {
        let known = self.duration_ms > 0;
        self.interpolated_ms = if !self.playing || (known && self.position_ms >= self.duration_ms) {
            self.position_ms
        } else {
            let at: u64 = self.position_ms.saturating_add(elapsed_ms);
            if known && at > self.duration_ms {
                self.duration_ms
            } else {
                at
            }
        };
    }

    /// Reorder the mirror ahead of the player's own answer.
    ///
    /// `to` is where the item lands after it has been taken out. The playing
    /// item keeps playing, so the position follows it.
    ///
    /// Says whether there was anything to move.
    pub fn move_item(&mut self, from: usize, to: usize) -> (r: bool)
        ensures
            r == (from < old(self)@.queue.len() && to < old(self)@.queue.len()),
            final(self)@ == old(self)@.after_move(from as int, to as int),
            !r ==> final(self)@ == old(self)@,
    {
        proof {
            reveal(PlayerView::after_move);
        }
        if from < self.queue.len() && to < self.queue.len() {
            let item = self.queue.remove(from);
            self.queue.insert(to, item);
            let at: usize = self.queue_position;
            if at == from {
                self.queue_position = to;
            } else if from < at && at <= to {
                self.queue_position = at - 1;
            } else if to <= at && at < from {
                self.queue_position = at + 1;
            }
            true
        } else {
            false
        }
    }
}

impl PlayerView {
    /// The mirror after a move within the queue.
    #[verifier::opaque]
    pub open spec fn after_move(self, from: int, to: int) -> PlayerView {
        if 0 <= from < self.queue.len() && 0 <= to < self.queue.len() {
            PlayerView {
                queue: moved(self.queue, from, to),
                queue_position: moved_index(self.queue_position, from, to),
                ..self
            }
        } else {
            self
        }
    }

    /// What the player is on: its own answer, or nothing.
    pub open spec fn playing_key(self) -> Option<Seq<char>> {
        match self.now_playing {
            Some(item) => item.key(),
            None => None,
        }
    }
}

impl PlayerState {
    /// The id of the track the player is on, if any.
    pub fn playing_catalog_id(&self) -> (r: Option<String>)
        ensures
            text::text_view(r) == self@.playing_key(),
    {
        match &self.now_playing {
            Some(item) => match item.song_id() {
                Some(id) => Some(id.clone()),
                None => None,
            },
            None => None,
        }
    }
}

/// A move is undone by moving the item back.
pub proof fn a_move_is_undone_by_moving_back(player: PlayerView, from: int, to: int)
    ensures
        player.after_move(from, to).after_move(to, from) == player,
{
    reveal(PlayerView::after_move);
    if 0 <= from < player.queue.len() && 0 <= to < player.queue.len() {
        let there = player.after_move(from, to);
        assert(there.queue.len() == player.queue.len());
        assert(there.after_move(to, from).queue =~= player.queue);
    }
}

} // verus!
