//! Everything the application knows, apart from its widgets.

use vstd::prelude::*;
use vstd::view::View as _;

use crate::app::pages::{PageKind, PageKindView, Pages, PagesView};
use crate::app::shelf::{Shelf, ShelfView};
use crate::app::writes::{Pending, PendingView};
use crate::deck::{Deck, DeckView, Session, SessionView};
use crate::mpris::{MprisState, MprisView};
use crate::music::Artwork;
use crate::protocol::{Item, RepeatMode, Tokens};
use crate::text;
use crate::view::{Section, View};

verus! {

/// Where we are in bringing the player up. Each is a page of its own, because
/// "it's just spinning" is the failure to avoid.
#[derive(Debug, PartialEq, Eq)]
pub enum Stage {
    Starting,
    /// What protected playback needs is being fetched. First run only.
    InstallingWidevine,
    /// Waiting for something to attach to the player.
    Connecting,
    SignedOut,
    Ready,
    /// The player's process died; a restart is scheduled.
    Restarting(u32),
    /// Says what is wrong, and names the fix.
    Broken(String),
}

/// A [`Stage`] with its text as a sequence.
#[verifier::ext_equal]
pub enum StageView {
    Starting,
    InstallingWidevine,
    Connecting,
    SignedOut,
    Ready,
    Restarting(u32),
    Broken(Seq<char>),
}

impl vstd::view::View for Stage {
    type V = StageView;

    open spec fn view(&self) -> StageView {
        match *self {
            Stage::Starting => StageView::Starting,
            Stage::InstallingWidevine => StageView::InstallingWidevine,
            Stage::Connecting => StageView::Connecting,
            Stage::SignedOut => StageView::SignedOut,
            Stage::Ready => StageView::Ready,
            Stage::Restarting(n) => StageView::Restarting(n),
            Stage::Broken(why) => StageView::Broken(why@),
        }
    }
}

impl Default for Stage {
    fn default() -> (r: Self)
        ensures
            r == Stage::Starting,
    {
        Stage::Starting
    }
}

impl Stage {
    pub fn is_ready(&self) -> (r: bool)
        ensures
            r == (self@ == StageView::Ready),
    {
        match self {
            Stage::Ready => true,
            _ => false,
        }
    }
}

#[derive(Debug, Clone, Copy, PartialEq, Eq, Structural)]
pub enum Theme {
    System,
    Light,
    Dark,
}

/// What is remembered of how the user likes the application.
#[derive(Debug, PartialEq, Eq)]
pub struct Settings {
    pub section: Section,
    pub show_sidebar: bool,
    pub sort: String,
    pub sort_reversed: bool,
    pub album_sort: String,
    pub album_sort_reversed: bool,
    pub artist_sort: String,
    pub artist_sort_reversed: bool,
    pub playlist_sort: String,
    pub playlist_sort_reversed: bool,
    pub notify_track_change: bool,
    pub theme: Theme,
    pub accent: String,
}

/// A [`Settings`] with its texts as sequences.
#[verifier::ext_equal]
pub struct SettingsView {
    pub section: Section,
    pub show_sidebar: bool,
    pub sort: Seq<char>,
    pub sort_reversed: bool,
    pub album_sort: Seq<char>,
    pub album_sort_reversed: bool,
    pub artist_sort: Seq<char>,
    pub artist_sort_reversed: bool,
    pub playlist_sort: Seq<char>,
    pub playlist_sort_reversed: bool,
    pub notify_track_change: bool,
    pub theme: Theme,
    pub accent: Seq<char>,
}

impl vstd::view::View for Settings {
    type V = SettingsView;

    open spec fn view(&self) -> SettingsView {
        SettingsView {
            section: self.section,
            show_sidebar: self.show_sidebar,
            sort: self.sort@,
            sort_reversed: self.sort_reversed,
            album_sort: self.album_sort@,
            album_sort_reversed: self.album_sort_reversed,
            artist_sort: self.artist_sort@,
            artist_sort_reversed: self.artist_sort_reversed,
            playlist_sort: self.playlist_sort@,
            playlist_sort_reversed: self.playlist_sort_reversed,
            notify_track_change: self.notify_track_change,
            theme: self.theme,
            accent: self.accent@,
        }
    }
}

/// What is drawn with an animation, sampled together.
#[derive(Debug, Clone, Copy, PartialEq, Eq, Structural)]
pub struct Animated {
    pub sidebar: bool,
    pub queue: bool,
    pub bottom_bar: bool,
}

/// The window around the content.
#[derive(Debug, Clone, Copy, PartialEq, Eq, Structural)]
pub struct Window {
    pub show_queue: bool,
    pub show_sidebar: bool,
    /// Whether the sidebar is an overlay rather than a pane.
    pub sidebar_collapsed: bool,
    pub narrow: bool,
    /// Whether the process is kept alive without a window.
    pub background: bool,
    /// Whether the first-run gate is up.
    pub onboarding: bool,
    /// What was last pushed to the animated widgets.
    pub shown: Option<Animated>,
    pub osd_shown: bool,
    pub osd_generation: u64,
}

/// What goes with the current track: its cover, its notification, the volume it
/// plays at.
#[derive(Debug)]
pub struct Card {
    /// The bits of an `f64`.
    pub volume: u64,
    /// Where the current cover lies on disk.
    pub art_path: Option<String>,
    /// The artwork template last fetched.
    pub art_for: Option<String>,
    /// The last item the player reported, kept through a queue reload.
    pub last_item: Option<Item>,
    /// The track the last notification was sent for.
    pub notified_for: Option<String>,
    /// A track whose notification waits on its cover.
    pub notify_when_art_lands: Option<String>,
    pub ticking: bool,
    /// A reorder that was sent and not confirmed.
    pub pending_move: Option<(usize, usize)>,
}

/// A [`Card`] with its texts as sequences.
#[verifier::ext_equal]
pub struct CardView {
    pub volume: u64,
    pub art_path: Option<Seq<char>>,
    pub art_for: Option<Seq<char>>,
    pub last_item: Option<Item>,
    pub notified_for: Option<Seq<char>>,
    pub notify_when_art_lands: Option<Seq<char>>,
    pub ticking: bool,
    pub pending_move: Option<(usize, usize)>,
}

impl vstd::view::View for Card {
    type V = CardView;

    open spec fn view(&self) -> CardView {
        CardView {
            volume: self.volume,
            art_path: text::text_view(self.art_path),
            art_for: text::text_view(self.art_for),
            last_item: self.last_item,
            notified_for: text::text_view(self.notified_for),
            notify_when_art_lands: text::text_view(self.notify_when_art_lands),
            ticking: self.ticking,
            pending_move: self.pending_move,
        }
    }
}

/// What the bar and the drawer draw. A volume is the bits of an `f64`.
#[derive(Debug, PartialEq, Eq)]
pub struct Bar {
    pub shuffle: bool,
    pub queue_open: bool,
    pub narrow: bool,
    pub repeat: RepeatMode,
    pub volume: u64,
    pub title: String,
    pub artist: String,
    pub album: String,
    /// As reported: the bar carries it forward itself.
    pub position_ms: u64,
    pub duration_ms: u64,
    pub playing: bool,
    pub busy: bool,
    pub has_next: bool,
    pub has_previous: bool,
    /// Whether anything is loaded, playing or not.
    pub active: bool,
}

/// A [`Bar`] with its texts as sequences.
#[verifier::ext_equal]
pub struct BarView {
    pub shuffle: bool,
    pub queue_open: bool,
    pub narrow: bool,
    pub repeat: RepeatMode,
    pub volume: u64,
    pub title: Seq<char>,
    pub artist: Seq<char>,
    pub album: Seq<char>,
    pub position_ms: u64,
    pub duration_ms: u64,
    pub playing: bool,
    pub busy: bool,
    pub has_next: bool,
    pub has_previous: bool,
    pub active: bool,
}

impl vstd::view::View for Bar {
    type V = BarView;

    open spec fn view(&self) -> BarView {
        BarView {
            shuffle: self.shuffle,
            queue_open: self.queue_open,
            narrow: self.narrow,
            repeat: self.repeat,
            volume: self.volume,
            title: self.title@,
            artist: self.artist@,
            album: self.album@,
            position_ms: self.position_ms,
            duration_ms: self.duration_ms,
            playing: self.playing,
            busy: self.busy,
            has_next: self.has_next,
            has_previous: self.has_previous,
            active: self.active,
        }
    }
}

/// One row of the queue.
#[derive(Debug, PartialEq, Eq)]
pub struct QueueEntry {
    /// Where it stands.
    pub at: usize,
    pub id: String,
    pub catalog_id: Option<String>,
    pub title: String,
    pub artist: String,
    pub duration_ms: u64,
}

/// A [`QueueEntry`] with its texts as sequences.
#[verifier::ext_equal]
pub struct QueueEntryView {
    pub at: int,
    pub id: Seq<char>,
    pub catalog_id: Option<Seq<char>>,
    pub title: Seq<char>,
    pub artist: Seq<char>,
    pub duration_ms: u64,
}

impl vstd::view::View for QueueEntry {
    type V = QueueEntryView;

    open spec fn view(&self) -> QueueEntryView {
        QueueEntryView {
            at: self.at as int,
            id: self.id@,
            catalog_id: text::text_view(self.catalog_id),
            title: self.title@,
            artist: self.artist@,
            duration_ms: self.duration_ms,
        }
    }
}

/// The player as every part of the window and the bus is shown it.
#[derive(Debug, PartialEq, Eq)]
pub struct Shown {
    pub bar: Bar,
    pub queue: Vec<QueueEntry>,
    /// What the player is on. `None` means that nothing is loaded at all.
    pub current: Option<usize>,
    pub bus: MprisState,
}

/// A [`Shown`] with its texts as sequences.
#[verifier::ext_equal]
pub struct ShownView {
    pub bar: BarView,
    pub queue: Seq<QueueEntryView>,
    pub current: Option<int>,
    pub bus: MprisView,
}

/// The rows of a list.
pub open spec fn queue_entries(list: Seq<QueueEntry>) -> Seq<QueueEntryView> {
    list.map_values(|e: QueueEntry| e@)
}

impl vstd::view::View for Shown {
    type V = ShownView;

    open spec fn view(&self) -> ShownView {
        ShownView {
            bar: self.bar@,
            queue: queue_entries(self.queue@),
            current: match self.current {
                Some(at) => Some(at as int),
                None => None,
            },
            bus: self.bus@,
        }
    }
}

/// Something the service can be asked to do to the user's account.
#[derive(Debug, Clone, Copy, PartialEq, Eq, Structural)]
pub enum LibraryAction {
    AddToLibrary,
    Favorite,
}

impl LibraryAction {
    /// What is said when it goes out.
    pub open spec fn sent_text(self) -> Seq<char> {
        match self {
            LibraryAction::AddToLibrary => "Adding to your library…"@,
            LibraryAction::Favorite => "Favouriting…"@,
        }
    }

    /// What is said when it was taken.
    pub open spec fn done_text(self) -> Seq<char> {
        match self {
            LibraryAction::AddToLibrary => "Sent to your library"@,
            LibraryAction::Favorite => "Favourited"@,
        }
    }

    pub fn sent(self) -> (r: &'static str)
        ensures
            r@ == self.sent_text(),
    {
        match self {
            LibraryAction::AddToLibrary => "Adding to your library…",
            LibraryAction::Favorite => "Favouriting…",
        }
    }

    pub fn done(self) -> (r: &'static str)
        ensures
            r@ == self.done_text(),
    {
        match self {
            LibraryAction::AddToLibrary => "Sent to your library",
            LibraryAction::Favorite => "Favourited",
        }
    }
}

/// Something to be done outside of the model.
#[derive(Debug, PartialEq, Eq)]
pub enum Effect {
    /// Say something for a moment.
    Toast(String),
    /// Draw the player.
    Show(Shown),
    /// Tell the bus about a jump.
    Seeked(u64),
    SaveSettings,
    ApplyTheme,
    ApplyAccent,
    SaveSession(Session),
    ClearSession,
    /// Remember which tracks are dead.
    SaveDead,
    /// Draw the rows of dead tracks as such, without rebuilding the list.
    DrawDead,
    /// Move the play marker from one row to another.
    Mark { from: Option<String>, to: Option<String> },
    /// Put a cover behind the player, or take it away.
    Backdrop(Option<String>),
    /// Show a cover on the bar and the drawer, or none.
    Cover(Option<String>),
    FetchCover { template: String },
    FetchTile { key: String, art: Artwork },
    /// Draw the tile that shows this cover now.
    DrawTile { key: String },
    /// Announce the track, unless the window has focus.
    Notify { title: String, artist: String, art_path: Option<String> },
    /// Take back what announced the last track.
    WithdrawNotification,
    StartTicking,
    StopTicking,
    WriteLibrary { catalog_id: String, action: LibraryAction },
    ConfirmSignOut,
    ShowPreferences,
    ShowShortcuts,
    ShowAbout,
    CloseWindow,
    /// Take the window away and stay, so that the music goes on.
    HideWindow,
    RaiseWindow,
    /// Show or hide the queue inside the drawer.
    QueuePane(bool),
    ScrollToPlaying,
    /// Open a page, in its turn.
    OpenPage(PageKind),
    /// Show a section, in its turn.
    GoTo(View),
    /// Play the visible list from a row, in its turn.
    PlayFrom(usize),
    /// Start the player's process again, after a pause that grows with the
    /// attempts.
    Respawn { attempt: u32 },
    PresentOnboarding,
    CloseOnboarding,
    SetSidebar(bool),
    SetQueue(bool),
    SetBottomBar(bool),
    /// Put a text into the search box.
    SearchText(String),
    /// Show the volume for a moment, then hide it under this generation.
    FlashVolume { generation: u64 },
}

/// An [`Effect`] with its texts as sequences.
#[verifier::ext_equal]
pub enum EffectView {
    Toast(Seq<char>),
    Show(ShownView),
    Seeked(u64),
    SaveSettings,
    ApplyTheme,
    ApplyAccent,
    SaveSession(SessionView),
    ClearSession,
    SaveDead,
    DrawDead,
    Mark { from: Option<Seq<char>>, to: Option<Seq<char>> },
    Backdrop(Option<Seq<char>>),
    Cover(Option<Seq<char>>),
    FetchCover { template: Seq<char> },
    FetchTile { key: Seq<char>, art: Artwork },
    DrawTile { key: Seq<char> },
    Notify { title: Seq<char>, artist: Seq<char>, art_path: Option<Seq<char>> },
    WithdrawNotification,
    StartTicking,
    StopTicking,
    WriteLibrary { catalog_id: Seq<char>, action: LibraryAction },
    ConfirmSignOut,
    ShowPreferences,
    ShowShortcuts,
    ShowAbout,
    CloseWindow,
    HideWindow,
    RaiseWindow,
    QueuePane(bool),
    ScrollToPlaying,
    OpenPage(PageKindView),
    GoTo(View),
    PlayFrom(int),
    Respawn { attempt: u32 },
    PresentOnboarding,
    CloseOnboarding,
    SetSidebar(bool),
    SetQueue(bool),
    SetBottomBar(bool),
    SearchText(Seq<char>),
    FlashVolume { generation: u64 },
}

impl vstd::view::View for Effect {
    type V = EffectView;

    open spec fn view(&self) -> EffectView {
        match *self {
            Effect::Toast(t) => EffectView::Toast(t@),
            Effect::Show(shown) => EffectView::Show(shown@),
            Effect::Seeked(ms) => EffectView::Seeked(ms),
            Effect::SaveSettings => EffectView::SaveSettings,
            Effect::ApplyTheme => EffectView::ApplyTheme,
            Effect::ApplyAccent => EffectView::ApplyAccent,
            Effect::SaveSession(session) => EffectView::SaveSession(session@),
            Effect::ClearSession => EffectView::ClearSession,
            Effect::SaveDead => EffectView::SaveDead,
            Effect::DrawDead => EffectView::DrawDead,
            Effect::Mark { from, to } => EffectView::Mark {
                from: text::text_view(from),
                to: text::text_view(to),
            },
            Effect::Backdrop(path) => EffectView::Backdrop(text::text_view(path)),
            Effect::Cover(path) => EffectView::Cover(text::text_view(path)),
            Effect::FetchCover { template } => EffectView::FetchCover { template: template@ },
            Effect::FetchTile { key, art } => EffectView::FetchTile { key: key@, art },
            Effect::DrawTile { key } => EffectView::DrawTile { key: key@ },
            Effect::Notify { title, artist, art_path } => EffectView::Notify {
                title: title@,
                artist: artist@,
                art_path: text::text_view(art_path),
            },
            Effect::WithdrawNotification => EffectView::WithdrawNotification,
            Effect::StartTicking => EffectView::StartTicking,
            Effect::StopTicking => EffectView::StopTicking,
            Effect::WriteLibrary { catalog_id, action } => EffectView::WriteLibrary {
                catalog_id: catalog_id@,
                action,
            },
            Effect::ConfirmSignOut => EffectView::ConfirmSignOut,
            Effect::ShowPreferences => EffectView::ShowPreferences,
            Effect::ShowShortcuts => EffectView::ShowShortcuts,
            Effect::ShowAbout => EffectView::ShowAbout,
            Effect::CloseWindow => EffectView::CloseWindow,
            Effect::HideWindow => EffectView::HideWindow,
            Effect::RaiseWindow => EffectView::RaiseWindow,
            Effect::QueuePane(shown) => EffectView::QueuePane(shown),
            Effect::ScrollToPlaying => EffectView::ScrollToPlaying,
            Effect::OpenPage(kind) => EffectView::OpenPage(kind@),
            Effect::GoTo(view) => EffectView::GoTo(view),
            Effect::PlayFrom(row) => EffectView::PlayFrom(row as int),
            Effect::Respawn { attempt } => EffectView::Respawn { attempt },
            Effect::PresentOnboarding => EffectView::PresentOnboarding,
            Effect::CloseOnboarding => EffectView::CloseOnboarding,
            Effect::SetSidebar(on) => EffectView::SetSidebar(on),
            Effect::SetQueue(on) => EffectView::SetQueue(on),
            Effect::SetBottomBar(on) => EffectView::SetBottomBar(on),
            Effect::SearchText(query) => EffectView::SearchText(query@),
            Effect::FlashVolume { generation } => EffectView::FlashVolume { generation },
        }
    }
}

/// The application.
#[derive(Debug)]
pub struct AppModel {
    pub stage: Stage,
    pub deck: Deck,
    pub shelf: Shelf,
    pub pages: Pages,
    pub pending: Pending,
    pub window: Window,
    pub card: Card,
    pub settings: Settings,
    /// Live for the process lifetime, never persisted.
    pub tokens: Option<Tokens>,
    pub restarts: u32,
    /// Whether the last session has been put back, or there was none to put.
    pub restored: bool,
    /// Covers of tiles that are on their way.
    pub tiles_pending: Vec<String>,
    /// What to do, in order.
    pub effects: Vec<Effect>,
}

/// An [`AppModel`] with its texts as sequences.
pub struct AppView {
    pub stage: StageView,
    pub deck: DeckView,
    pub shelf: ShelfView,
    pub pages: PagesView,
    pub pending: Seq<PendingView>,
    pub window: Window,
    pub card: CardView,
    pub settings: SettingsView,
    pub tokens: Option<Tokens>,
    pub restarts: u32,
    pub restored: bool,
    pub tiles_pending: Seq<Seq<char>>,
    pub effects: Seq<EffectView>,
}

/// The effects of a list.
#[verifier::opaque]
pub open spec fn effects_of(list: Seq<Effect>) -> Seq<EffectView> {
    list.map_values(|e: Effect| e@)
}

impl AppModel {
    /// The model with its texts as sequences.
    #[verifier::opaque]
    pub open spec fn seen(self) -> AppView {
        AppView {
            stage: self.stage@,
            deck: self.deck@,
            shelf: self.shelf@,
            pages: self.pages@,
            pending: self.pending@,
            window: self.window,
            card: self.card@,
            settings: self.settings@,
            tokens: self.tokens,
            restarts: self.restarts,
            restored: self.restored,
            tiles_pending: text::texts(self.tiles_pending@),
            effects: effects_of(self.effects@),
        }
    }
}

impl vstd::view::View for AppModel {
    type V = AppView;

    open spec fn view(&self) -> AppView {
        self.seen()
    }
}

} // verus!
