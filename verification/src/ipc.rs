//! The contract between the daemon and its clients.
//!
//! A client sends intent, never state: it asks for things and is told what
//! happened. Requests and events travel one to a line.

use vstd::prelude::*;
use vstd::view::View as _;

use crate::music::Entry;
use crate::protocol::{Command, CommandView, Item, RepeatMode};
use crate::queue::Start;
use crate::text;
use crate::view::CatalogFilter;

verus! {

/// Client to daemon.
#[derive(Debug, PartialEq, Eq)]
pub enum Request {
    /// Drive playback.
    Transport(Transport),
    /// Move within the queue the daemon already holds.
    JumpTo { index: usize },
    /// Everything the daemon is holding, once.
    Snapshot,
    /// The queue as the daemon mirrors it.
    Queue,
    /// Start receiving events on this connection. Idempotent.
    Subscribe,
    /// A window of the library. A `limit` of zero means "the rest".
    Browse { view: View, query: String, offset: usize, limit: usize },
    /// Open an album, artist or playlist.
    Open { kind: PageKind, id: String },
    /// Grow the queue already loaded, without rebuilding it.
    Enqueue { ids: Vec<String>, next: bool },
    /// Drop one track from the loaded queue, by its position.
    RemoveFromQueue { index: usize },
    /// Move one track within the loaded queue. `to` is where it lands *after*
    /// it has been taken out.
    MoveInQueue { from: usize, to: usize },
    /// Empty the queue and stop.
    ClearQueue,
    /// Change what the service holds for this account.
    Write { action: WriteAction, id: String },
    /// Read the library again.
    Refresh,
    /// Search the catalog, from a place in its results on.
    Search { query: String, filter: CatalogFilter, offset: usize },
    /// Build a queue from these ids and start playing. Ids, not indices into
    /// something the daemon remembers.
    Play { ids: Vec<String>, index: usize, start: PlayMode },
    /// Stop the daemon.
    Quit,
}

/// A [`Request`] with its texts as sequences.
#[verifier::ext_equal]
pub enum RequestView {
    Transport(Transport),
    JumpTo { index: int },
    Snapshot,
    Queue,
    Subscribe,
    Browse { view: View, query: Seq<char>, offset: int, limit: int },
    Open { kind: PageKind, id: Seq<char> },
    Enqueue { ids: Seq<Seq<char>>, next: bool },
    RemoveFromQueue { index: int },
    MoveInQueue { from: int, to: int },
    ClearQueue,
    Write { action: WriteAction, id: Seq<char> },
    Refresh,
    Search { query: Seq<char>, filter: CatalogFilter, offset: int },
    Play { ids: Seq<Seq<char>>, index: int, start: PlayMode },
    Quit,
}

impl vstd::view::View for Request {
    type V = RequestView;

    open spec fn view(&self) -> RequestView {
        match *self {
            Request::Transport(transport) => RequestView::Transport(transport),
            Request::JumpTo { index } => RequestView::JumpTo { index: index as int },
            Request::Snapshot => RequestView::Snapshot,
            Request::Queue => RequestView::Queue,
            Request::Subscribe => RequestView::Subscribe,
            Request::Browse { view, query, offset, limit } => RequestView::Browse {
                view,
                query: query@,
                offset: offset as int,
                limit: limit as int,
            },
            Request::Open { kind, id } => RequestView::Open { kind, id: id@ },
            Request::Enqueue { ids, next } => RequestView::Enqueue {
                ids: text::texts(ids@),
                next,
            },
            Request::RemoveFromQueue { index } => RequestView::RemoveFromQueue {
                index: index as int,
            },
            Request::MoveInQueue { from, to } => RequestView::MoveInQueue {
                from: from as int,
                to: to as int,
            },
            Request::ClearQueue => RequestView::ClearQueue,
            Request::Write { action, id } => RequestView::Write { action, id: id@ },
            Request::Refresh => RequestView::Refresh,
            Request::Search { query, filter, offset } => RequestView::Search {
                query: query@,
                filter,
                offset: offset as int,
            },
            Request::Play { ids, index, start } => RequestView::Play {
                ids: text::texts(ids@),
                index: index as int,
                start,
            },
            Request::Quit => RequestView::Quit,
        }
    }
}

/// Something the service can be asked to do to this account.
#[derive(Debug, Clone, Copy, PartialEq, Eq, Structural)]
pub enum WriteAction {
    Favorite,
    Unfavorite,
    AddToLibrary,
    RemoveFromLibrary,
}

/// Which library section to browse.
#[derive(Debug, Clone, Copy, PartialEq, Eq, Structural)]
pub enum View {
    Songs,
    Albums,
    Artists,
    Playlists,
}

/// What a [`Request::Open`] is opening.
#[derive(Debug, Clone, Copy, PartialEq, Eq, Structural)]
pub enum PageKind {
    Album,
    Artist,
    Playlist,
}

/// The mode a queue is *created* in, on the wire.
#[derive(Debug, Clone, Copy, PartialEq, Eq, Structural)]
pub enum PlayMode {
    /// A row click: this list, from here, in order.
    Clicked,
    /// A Play button: in order, whatever mode was on before.
    InOrder,
    /// A Shuffle button.
    Shuffled,
}

impl Default for PlayMode {
    fn default() -> (r: Self)
        ensures
            r == PlayMode::Clicked,
    {
        PlayMode::Clicked
    }
}

impl PlayMode {
    /// The mode the arithmetic uses.
    pub open spec fn means(self) -> Start {
        match self {
            PlayMode::Clicked => Start::Clicked,
            PlayMode::InOrder => Start::InOrder,
            PlayMode::Shuffled => Start::Shuffled,
        }
    }
}

impl From<PlayMode> for Start {
    fn from(mode: PlayMode) -> (r: Self) {
        match mode {
            PlayMode::Clicked => Start::Clicked,
            PlayMode::InOrder => Start::InOrder,
            PlayMode::Shuffled => Start::Shuffled,
        }
    }
}

impl vstd::std_specs::convert::FromSpecImpl<PlayMode> for Start {
    open spec fn obeys_from_spec() -> bool {
        true
    }

    open spec fn from_spec(mode: PlayMode) -> Start {
        mode.means()
    }
}

/// The transport verbs. A volume is the bits of an `f64`.
#[derive(Debug, Clone, Copy, PartialEq, Eq, Structural)]
pub enum Transport {
    Play,
    Pause,
    PlayPause,
    Next,
    Previous,
    /// Absolute, in milliseconds.
    Seek { position_ms: u64 },
    SetVolume { volume: u64 },
    SetShuffle { shuffle: bool },
    SetRepeat { mode: RepeatMode },
}

impl Transport {
    /// What the player is told.
    pub open spec fn command(self) -> CommandView {
        match self {
            Transport::Play => CommandView::Play,
            Transport::Pause => CommandView::Pause,
            Transport::PlayPause => CommandView::PlayPause,
            Transport::Next => CommandView::Next,
            Transport::Previous => CommandView::Previous,
            Transport::Seek { position_ms } => CommandView::Seek { position_ms },
            Transport::SetVolume { volume } => CommandView::SetVolume { volume },
            Transport::SetShuffle { shuffle } => CommandView::SetShuffle { shuffle },
            Transport::SetRepeat { mode } => CommandView::SetRepeat { mode },
        }
    }
}

/// What the player is told for each verb.
pub fn command_for(transport: Transport) -> (r: Command)
    ensures
        r@ == transport.command(),
{
    match transport {
        Transport::Play => Command::Play,
        Transport::Pause => Command::Pause,
        Transport::PlayPause => Command::PlayPause,
        Transport::Next => Command::Next,
        Transport::Previous => Command::Previous,
        Transport::Seek { position_ms } => Command::Seek { position_ms },
        Transport::SetVolume { volume } => Command::SetVolume { volume },
        Transport::SetShuffle { shuffle } => Command::SetShuffle { shuffle },
        Transport::SetRepeat { mode } => Command::SetRepeat { mode },
    }
}

/// Daemon to client.
#[derive(Debug, PartialEq, Eq)]
pub enum Event {
    /// What is playing and how.
    Snapshot(Snapshot),
    /// The queue changed. Carries the whole list.
    Queue { items: Vec<QueueItem>, position: usize },
    /// Where the daemon is in its own startup, or why it is not playable.
    Stage(Stage),
    /// A window of the library. `total` is how many matched before it was cut.
    Rows { view: View, entries: Vec<Entry>, total: usize },
    /// What a catalog search found.
    Results { query: String, entries: Vec<Entry> },
    /// An opened album, artist or playlist.
    Page { kind: PageKind, id: String, title: String, entries: Vec<Entry> },
    /// The library changed under a client. An invalidation, not the rows.
    LibraryChanged,
    /// Something went wrong that a person should see.
    Error { detail: String },
}

/// An [`Event`] with its texts as sequences.
#[verifier::ext_equal]
pub enum EventView {
    Snapshot(SnapshotView),
    Queue { items: Seq<QueueItem>, position: int },
    Stage(StageView),
    Rows { view: View, entries: Seq<Entry>, total: int },
    Results { query: Seq<char>, entries: Seq<Entry> },
    Page { kind: PageKind, id: Seq<char>, title: Seq<char>, entries: Seq<Entry> },
    LibraryChanged,
    Error { detail: Seq<char> },
}

/// One row of the queue: what it needs to draw itself and to be jumped to.
#[derive(Debug, PartialEq, Eq)]
pub struct QueueItem {
    /// Whichever id the daemon can act on.
    pub id: Option<String>,
    pub title: String,
    pub artist: String,
    pub album: String,
    pub duration_ms: u64,
}

impl Clone for QueueItem {
    fn clone(&self) -> (r: Self)
        ensures
            r == *self,
    {
        QueueItem {
            id: self.id.clone(),
            title: self.title.clone(),
            artist: self.artist.clone(),
            album: self.album.clone(),
            duration_ms: self.duration_ms,
        }
    }
}

impl Default for QueueItem {
    fn default() -> (r: Self)
        ensures
            r.id is None,
            r.title@.len() == 0,
            r.artist@.len() == 0,
            r.album@.len() == 0,
            r.duration_ms == 0,
    {
        QueueItem {
            id: None,
            title: String::new(),
            artist: String::new(),
            album: String::new(),
            duration_ms: 0,
        }
    }
}

/// The row a queue item draws.
pub open spec fn row_of(item: Item) -> QueueItem {
    QueueItem {
        id: match item.catalog_id {
            Some(id) => Some(id),
            None => item.id,
        },
        title: item.title,
        artist: item.artist,
        album: item.album,
        duration_ms: item.duration_ms,
    }
}

impl From<&Item> for QueueItem {
    fn from(item: &Item) -> (r: Self) {
        let id: Option<String> = match &item.catalog_id {
            Some(id) => Some(id.clone()),
            None => item.id.clone(),
        };
        QueueItem {
            id,
            title: item.title.clone(),
            artist: item.artist.clone(),
            album: item.album.clone(),
            duration_ms: item.duration_ms,
        }
    }
}

impl vstd::std_specs::convert::FromSpecImpl<&Item> for QueueItem {
    open spec fn obeys_from_spec() -> bool {
        true
    }

    open spec fn from_spec(item: &Item) -> QueueItem {
        row_of(*item)
    }
}

/// What is playing, flattened for a client that only draws. A volume is the
/// bits of an `f64`.
#[derive(Debug, PartialEq, Eq)]
pub struct Snapshot {
    pub title: String,
    pub artist: String,
    pub album: String,
    /// A local file, already fetched.
    pub art_path: Option<String>,
    pub position_ms: u64,
    pub duration_ms: u64,
    pub playing: bool,
    /// Still working towards audio. Not to be read as paused.
    pub busy: bool,
    pub volume: u64,
    pub shuffle: bool,
    pub repeat: RepeatMode,
    pub can_next: bool,
    pub can_previous: bool,
}

/// A [`Snapshot`] with its texts as sequences.
#[verifier::ext_equal]
pub struct SnapshotView {
    pub title: Seq<char>,
    pub artist: Seq<char>,
    pub album: Seq<char>,
    pub art_path: Option<Seq<char>>,
    pub position_ms: u64,
    pub duration_ms: u64,
    pub playing: bool,
    pub busy: bool,
    pub volume: u64,
    pub shuffle: bool,
    pub repeat: RepeatMode,
    pub can_next: bool,
    pub can_previous: bool,
}

impl SnapshotView {
    /// Nothing known yet.
    pub open spec fn unknown() -> SnapshotView {
        SnapshotView {
            title: Seq::empty(),
            artist: Seq::empty(),
            album: Seq::empty(),
            art_path: None,
            position_ms: 0,
            duration_ms: 0,
            playing: false,
            busy: false,
            volume: 0,
            shuffle: false,
            repeat: RepeatMode::Off,
            can_next: false,
            can_previous: false,
        }
    }
}

impl Default for Snapshot {
    fn default() -> (r: Self)
        ensures
            r@ == SnapshotView::unknown(),
    {
        let r = Snapshot {
            title: String::new(),
            artist: String::new(),
            album: String::new(),
            art_path: None,
            position_ms: 0,
            duration_ms: 0,
            playing: false,
            busy: false,
            volume: 0,
            shuffle: false,
            repeat: RepeatMode::Off,
            can_next: false,
            can_previous: false,
        };
        proof {
            assert(r@ =~= SnapshotView::unknown());
        }
        r
    }
}

/// How far along the daemon is. A client draws something different for each.
#[derive(Debug, PartialEq, Eq)]
pub enum Stage {
    /// The player's process is up but nothing has attached to it yet.
    Connecting,
    /// Ready to play.
    Ready,
    /// No session. A client cannot fix this: signing in needs a window.
    SignedOut,
    /// Broken in a way a restart will not fix.
    Broken { detail: String },
}

/// A [`Stage`] with its texts as sequences.
#[verifier::ext_equal]
pub enum StageView {
    Connecting,
    Ready,
    SignedOut,
    Broken { detail: Seq<char> },
}

impl Clone for Stage {
    fn clone(&self) -> (r: Self)
        ensures
            r == *self,
    {
        match self {
            Stage::Connecting => Stage::Connecting,
            Stage::Ready => Stage::Ready,
            Stage::SignedOut => Stage::SignedOut,
            Stage::Broken { detail } => Stage::Broken { detail: detail.clone() },
        }
    }
}

impl vstd::view::View for Stage {
    type V = StageView;

    open spec fn view(&self) -> StageView {
        match *self {
            Stage::Connecting => StageView::Connecting,
            Stage::Ready => StageView::Ready,
            Stage::SignedOut => StageView::SignedOut,
            Stage::Broken { detail } => StageView::Broken { detail: detail@ },
        }
    }
}

impl vstd::view::View for Snapshot {
    type V = SnapshotView;

    open spec fn view(&self) -> SnapshotView {
        SnapshotView {
            title: self.title@,
            artist: self.artist@,
            album: self.album@,
            art_path: text::text_view(self.art_path),
            position_ms: self.position_ms,
            duration_ms: self.duration_ms,
            playing: self.playing,
            busy: self.busy,
            volume: self.volume,
            shuffle: self.shuffle,
            repeat: self.repeat,
            can_next: self.can_next,
            can_previous: self.can_previous,
        }
    }
}

impl vstd::view::View for Event {
    type V = EventView;

    open spec fn view(&self) -> EventView {
        match *self {
            Event::Snapshot(snapshot) => EventView::Snapshot(snapshot@),
            Event::Queue { items, position } => EventView::Queue {
                items: items@,
                position: position as int,
            },
            Event::Stage(stage) => EventView::Stage(stage@),
            Event::Rows { view, entries, total } => EventView::Rows {
                view,
                entries: entries@,
                total: total as int,
            },
            Event::Results { query, entries } => EventView::Results {
                query: query@,
                entries: entries@,
            },
            Event::Page { kind, id, title, entries } => EventView::Page {
                kind,
                id: id@,
                title: title@,
                entries: entries@,
            },
            Event::LibraryChanged => EventView::LibraryChanged,
            Event::Error { detail } => EventView::Error { detail: detail@ },
        }
    }
}

/// Where the daemon listens, given the per-user runtime directory.
pub open spec fn socket_in(dir: Seq<char>) -> Seq<char> {
    if dir.last() == '/' {
        dir + "slipmat.sock"@
    } else {
        dir.push('/') + "slipmat.sock"@
    }
}

/// Where the daemon listens. The runtime directory is per user and cleared on
/// logout; unset or empty, there is nowhere to put a socket.
pub fn socket_path(runtime_dir: Option<String>) -> (r: Option<String>)
    ensures
        text::text_view(r) == (match runtime_dir {
            Some(dir) => if dir@.len() > 0 {
                Some(socket_in(dir@))
            } else {
                None
            },
            None => None,
        }),
{
    let dir: String = match runtime_dir {
        Some(dir) => dir,
        None => {
            return None;
        },
    };
    let chars: Vec<char> = text::chars_of(dir.as_str());
    if chars.len() == 0 {
        return None;
    }
    let mut path: String = dir;
    if chars[chars.len() - 1] != '/' {
        path.push('/');
    }
    path.append("slipmat.sock");
    Some(path)
}

/// One line of the wire: what was said, ended by a newline.
pub fn frame(said: Vec<u8>) -> (r: Vec<u8>)
    ensures
        r@ == said@.push(10u8),
{
    let mut line: Vec<u8> = said;
    line.push(10u8);
    line
}

/// How long a daemon that was started has to begin listening.
pub const START_LIMIT_MS: u64 = 10_000;

/// How long to wait between two tries.
pub const RETRY_EVERY_MS: u64 = 50;

/// How far along a client is in reaching a daemon.
#[derive(Debug, Clone, Copy, PartialEq, Eq, Structural)]
pub enum Dial {
    /// Asking whether one is listening.
    Asking,
    /// Starting one.
    Starting,
    /// Waiting for the one that was started, until a moment.
    Waiting { deadline_ms: u64 },
    /// Over, one way or the other.
    Over,
}

/// What came of the last step.
#[derive(Debug, Clone, Copy, PartialEq, Eq, Structural)]
pub enum DialEvent {
    /// There is nowhere to put a socket.
    NoSocket,
    /// Something answers on the socket.
    Connected,
    /// Nothing answers.
    Refused { now_ms: u64 },
    /// The daemon's process was started.
    Started { now_ms: u64 },
    /// It could not be.
    NotStarted,
}

/// The next step.
#[derive(Debug, Clone, Copy, PartialEq, Eq, Structural)]
pub enum DialStep {
    /// Start a daemon.
    Start,
    /// Wait a moment, then ask again.
    AskAfter { ms: u64 },
    /// The connection stands.
    Done,
    /// The runtime directory is not set, so there is nowhere to put a socket.
    NowhereToListen,
    /// The daemon could not be started.
    CannotStart,
    /// The daemon did not begin to listen in time.
    TimedOut,
}

/// Until when to wait, and what to do until then.
pub open spec fn waiting(deadline_ms: u64, now_ms: u64) -> (Dial, DialStep) {
    if now_ms < deadline_ms {
        (Dial::Waiting { deadline_ms }, DialStep::AskAfter { ms: RETRY_EVERY_MS })
    } else {
        (Dial::Over, DialStep::TimedOut)
    }
}

/// What follows a step on the way to a daemon.
pub open spec fn dialled(dial: Dial, event: DialEvent) -> (Dial, DialStep) {
    match event {
        DialEvent::NoSocket => (Dial::Over, DialStep::NowhereToListen),
        DialEvent::Connected => (Dial::Over, DialStep::Done),
        DialEvent::NotStarted => (Dial::Over, DialStep::CannotStart),
        DialEvent::Started { now_ms } => waiting((now_ms + START_LIMIT_MS) as u64, now_ms),
        DialEvent::Refused { now_ms } => match dial {
            Dial::Asking => (Dial::Starting, DialStep::Start),
            Dial::Waiting { deadline_ms } => waiting(deadline_ms, now_ms),
            _ => (Dial::Over, DialStep::TimedOut),
        },
    }
}

fn wait(deadline_ms: u64, now_ms: u64) -> (r: (Dial, DialStep))
    ensures
        r == waiting(deadline_ms, now_ms),
{
    if now_ms < deadline_ms {
        (Dial::Waiting { deadline_ms }, DialStep::AskAfter { ms: RETRY_EVERY_MS })
    } else {
        (Dial::Over, DialStep::TimedOut)
    }
}

/// Reach the daemon, starting it if it is not there: one step.
///
/// The first client to arrive starts the daemon and the rest find it running.
/// Two that start one at once do no harm: binding the socket settles who owns
/// it.
pub fn connect_or_spawn(dial: Dial, event: DialEvent) -> (r: (Dial, DialStep))
    requires
        event matches DialEvent::Started { now_ms } ==> now_ms <= u64::MAX - START_LIMIT_MS,
    ensures
        r == dialled(dial, event),
{
    match event {
        DialEvent::NoSocket => (Dial::Over, DialStep::NowhereToListen),
        DialEvent::Connected => (Dial::Over, DialStep::Done),
        DialEvent::NotStarted => (Dial::Over, DialStep::CannotStart),
        DialEvent::Started { now_ms } => wait(now_ms + START_LIMIT_MS, now_ms),
        DialEvent::Refused { now_ms } => match dial {
            Dial::Asking => (Dial::Starting, DialStep::Start),
            Dial::Waiting { deadline_ms } => wait(deadline_ms, now_ms),
            _ => (Dial::Over, DialStep::TimedOut),
        },
    }
}

/// A daemon is started at most once on the way to one: whatever follows the
/// start, no further step is to start another.
pub proof fn a_daemon_is_started_once(dial: Dial, event: DialEvent)
    requires
        !(dial is Asking),
    ensures
        dialled(dial, event).1 != DialStep::Start,
        !(dialled(dial, event).0 is Asking),
{
}

/// A client that nobody answers starts a daemon, then asks again every so often until
/// it is answered or has waited long enough. Being answered ends it well, and nowhere
/// to listen, or a daemon that cannot be started, ends it at once.
pub proof fn a_client_waits_for_the_daemon_it_started(dial: Dial, now_ms: u64, later_ms: u64)
    requires
        now_ms + 10_000 <= u64::MAX,
    ensures
        dialled(Dial::Asking, DialEvent::Refused { now_ms }) == (Dial::Starting, DialStep::Start),
        dialled(dial, DialEvent::Started { now_ms }) == (
            Dial::Waiting { deadline_ms: (now_ms + 10_000) as u64 },
            DialStep::AskAfter { ms: 50 },
        ),
        ({
            let waiting = Dial::Waiting { deadline_ms: (now_ms + 10_000) as u64 };
            let next = dialled(waiting, DialEvent::Refused { now_ms: later_ms });
            &&& later_ms < now_ms + 10_000 ==> next == (waiting, DialStep::AskAfter { ms: 50 })
            &&& later_ms >= now_ms + 10_000 ==> next == (Dial::Over, DialStep::TimedOut)
        }),
        dialled(dial, DialEvent::Connected) == (Dial::Over, DialStep::Done),
        dialled(dial, DialEvent::NoSocket) == (Dial::Over, DialStep::NowhereToListen),
        dialled(dial, DialEvent::NotStarted) == (Dial::Over, DialStep::CannotStart),
{
}

/// The socket lies in the directory it is asked for in, with one slash between.
pub proof fn the_socket_lies_in_its_directory(dir: Seq<char>)
    requires
        dir.len() > 0,
    ensures
        dir.last() == '/' ==> socket_in(dir) == dir + "slipmat.sock"@,
        dir.last() != '/' ==> socket_in(dir) == dir + "/slipmat.sock"@,
{
    reveal_strlit("/slipmat.sock");
    reveal_strlit("slipmat.sock");
    assert(dir.push('/') + "slipmat.sock"@ =~= dir + "/slipmat.sock"@);
}

/// A queue's item is shown by what it is asked for by, and with its own words.
pub proof fn an_item_is_shown_as_it_is(item: Item)
    ensures
        ({
            let row = row_of(item);
            &&& text::text_view(row.id) == item.key()
            &&& row.title == item.title
            &&& row.artist == item.artist
            &&& row.album == item.album
            &&& row.duration_ms == item.duration_ms
        }),
{
}

} // verus!
