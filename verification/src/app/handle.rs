//! Everything the window can ask for, and where it goes.

use vstd::prelude::*;
use vstd::view::View as _;

use crate::app::actions;
use crate::app::model::{
    AppModel,
    AppView,
    Effect,
    EffectView,
    LibraryAction,
    SettingsView,
    Theme,
    Window,
};
use crate::app::pages::PageKind;
use crate::mpris::MprisCommand;
use crate::music::Artwork;
use crate::protocol::{Command, CommandView, RepeatMode};
use crate::queue::Start;
use crate::view::{CatalogFilter, SortBy, View};

verus! {

/// Something the window, the bus or a timer asks for. A volume is the bits of an
/// `f64`, and `moved` is whether it differs from ours by more than rounding, once
/// it is brought into its range.
#[derive(Debug, PartialEq, Eq)]
pub enum AppMsg {
    SignIn,
    /// Asks first.
    SignOut,
    SignOutConfirmed,
    PlayPause,
    /// Explicit, not a toggle: a controller that asked to play must not pause.
    Play,
    Pause,
    Next,
    Previous,
    Seek(u64),
    SetVolume { volume: u64, moved: bool },
    /// The volume one step up, from the keyboard.
    VolumeUp { volume: u64, moved: bool },
    /// The volume one step down, from the keyboard.
    VolumeDown { volume: u64, moved: bool },
    /// The volume panel's time is up, if no press came since.
    HideVolumeOsd(u64),
    SetShuffle(bool),
    SetRepeat(RepeatMode),
    SetSort(SortBy),
    SetCatalogFilter(CatalogFilter),
    ToggleSortDirection,
    /// Take a song out of the library. That needs the library's own id; the
    /// other is for the row.
    RemoveFromLibrary { library_id: String, catalog_id: String },
    /// Un-star a song, and nothing else: it stays in the library.
    Unfavorite { catalog_id: String },
    WindowCloseRequested,
    WindowShown,
    /// The drawer opened or closed by its own devices.
    PlayerDrawer(bool),
    ClearQueue,
    /// Show or hide the queue inside the drawer.
    ShowQueuePane(bool),
    /// Grow the queue the player already holds.
    Enqueue { catalog_id: String, next: bool },
    LibraryWrite { catalog_id: String, action: LibraryAction },
    /// Draw the player again.
    Tick,
    /// Play the visible list, starting at this row.
    PlayFrom(usize),
    SearchChanged(String),
    /// The search box sat still for this generation.
    RunCatalogSearch(u64),
    SetView(View),
    AlbumActivated(u32),
    ArtistActivated(u32),
    PlaylistActivated(u32),
    /// A tile is on screen and its cover is not here yet.
    NeedTileArt { key: String, art: Artwork },
    ToggleSidebar,
    /// The sidebar came or went by itself. A fact, not a request.
    SidebarShown(bool),
    SectionChosen,
    /// The sidebar became an overlay, or a pane again.
    SidebarCollapsed(bool),
    /// The results are near their end.
    LoadMoreCatalog,
    ReloadSection(View),
    ShowPreferences,
    ShowShortcuts,
    ShowAbout,
    SetTheme(u32),
    SetAccent(String),
    SetNotifyTrackChange(bool),
    ToggleQueue,
    LibraryActivated(u32),
    /// A row of a pushed page was clicked. The page is named by its id.
    DetailActivated { page: u64, row: usize },
    /// Play everything on a page. `drawn` picks the row a shuffle starts on.
    PlayPage { page: u64, shuffle: bool, drawn: u32 },
    OpenPage(PageKind),
    PagePopped(u64),
    /// Act on a row of the queue: where it sat, and what it was.
    JumpTo { at: usize, id: String },
    RemoveFromQueue { at: usize, id: String },
    MoveInQueue { from: usize, to: usize },
    Raise,
}

impl AppView {
    /// The model after a message about playback.
    #[verifier::opaque]
    pub open spec fn after_transport(self, msg: AppMsg) -> AppView {
        match msg {
            AppMsg::PlayPause => self.sending(CommandView::PlayPause),
            AppMsg::Play => self.sending(CommandView::Play),
            AppMsg::Pause => self.sending(CommandView::Pause),
            AppMsg::Next => self.sending(CommandView::Next),
            AppMsg::Previous => self.went_previous(),
            AppMsg::Seek(position_ms) => self.sought(position_ms),
            AppMsg::SetVolume { volume, moved } => self.at_volume(volume, moved),
            AppMsg::VolumeUp { volume, moved } => self.at_volume(volume, moved).flashed(),
            AppMsg::VolumeDown { volume, moved } => self.at_volume(volume, moved).flashed(),
            AppMsg::HideVolumeOsd(generation) => self.unflashed(generation),
            AppMsg::SetShuffle(shuffle) => self.sending(CommandView::SetShuffle { shuffle }),
            AppMsg::SetRepeat(mode) => self.sending(CommandView::SetRepeat { mode }),
            AppMsg::Tick => self.pushed(),
            _ => self,
        }
    }

    /// The model after a message about the queue.
    #[verifier::opaque]
    pub open spec fn after_queueing(self, msg: AppMsg) -> AppView {
        match msg {
            AppMsg::ClearQueue => self.queue_cleared(),
            AppMsg::Enqueue { catalog_id, next } => self.with_deck(
                self.deck.enqueued(catalog_id@, next),
            ),
            AppMsg::PlayFrom(row) => self.playing_list(
                self.shelf.visible(),
                row as int,
                Start::Clicked,
            ),
            AppMsg::DetailActivated { page, row } => self.page_row_activated(page, row as int),
            AppMsg::PlayPage { page, shuffle, drawn } => self.page_played(page, shuffle, drawn),
            AppMsg::JumpTo { at, id } => self.jumped_to(at as int, id@),
            AppMsg::RemoveFromQueue { at, id } => self.removing(at as int, id@),
            AppMsg::MoveInQueue { from, to } => self.reordered(from, to),
            _ => self,
        }
    }

    /// The model after a message about what the content pane shows.
    #[verifier::opaque]
    pub open spec fn after_browsing(self, msg: AppMsg) -> AppView {
        match msg {
            AppMsg::SetSort(by) => self.sorted_by(by),
            AppMsg::ToggleSortDirection => self.flipped(),
            AppMsg::SetCatalogFilter(filter) => self.with_shelf(
                self.shelf.filtered(filter, self.access(), self.playing()),
            ),
            AppMsg::SearchChanged(query) => self.searched(query@),
            AppMsg::RunCatalogSearch(generation) => self.with_shelf(
                self.shelf.typing_stopped(self.access(), generation),
            ),
            AppMsg::SetView(view) => self.sectioned(view),
            AppMsg::AlbumActivated(position) => self.tile_activated(self.album_door(position)),
            AppMsg::ArtistActivated(position) => self.tile_activated(self.artist_door(position)),
            AppMsg::PlaylistActivated(position) => self.tile_activated(
                self.playlist_door(position),
            ),
            AppMsg::NeedTileArt { key, art } => self.tile_wanted(key@, art),
            AppMsg::LoadMoreCatalog => self.with_shelf(self.shelf.paging(self.access())),
            AppMsg::ReloadSection(view) => self.section_reloaded(view),
            AppMsg::LibraryActivated(position) => self.row_activated(position),
            AppMsg::OpenPage(kind) => self.opening(kind@),
            AppMsg::PagePopped(id) => self.with_pages(self.pages.popped(id)),
            _ => self,
        }
    }

    /// The model after a message about the account.
    #[verifier::opaque]
    pub open spec fn after_account(self, msg: AppMsg) -> AppView {
        match msg {
            AppMsg::SignIn => self.sending(CommandView::ShowLogin),
            AppMsg::SignOut => self.asked_to_sign_out(),
            AppMsg::SignOutConfirmed => self.sending(CommandView::SignOut).session_forgotten(),
            AppMsg::RemoveFromLibrary { library_id, catalog_id } => self.unlisted(
                library_id@,
                catalog_id@,
            ),
            AppMsg::Unfavorite { catalog_id } => self.unstarred(catalog_id@),
            AppMsg::LibraryWrite { catalog_id, action } => self.writing(catalog_id@, action),
            _ => self,
        }
    }

    /// The model after a message about the window.
    #[verifier::opaque]
    pub open spec fn after_window(self, msg: AppMsg) -> AppView {
        match msg {
            AppMsg::WindowCloseRequested => self.close_asked(),
            AppMsg::WindowShown => self.with_window(Window { background: false, ..self.window }),
            AppMsg::PlayerDrawer(open) => self.drawer_moved(open),
            AppMsg::ShowQueuePane(shown) => self.effecting(EffectView::QueuePane(shown)),
            AppMsg::ToggleQueue => self.queue_toggled(),
            AppMsg::ToggleSidebar => self.sidebar_toggled(),
            AppMsg::SidebarShown(shown) => self.with_window(
                Window { show_sidebar: shown, ..self.window },
            ),
            AppMsg::SectionChosen => self.section_chosen(),
            AppMsg::SidebarCollapsed(collapsed) => self.with_window(
                Window { sidebar_collapsed: collapsed, ..self.window },
            ),
            AppMsg::ShowPreferences => self.effecting(EffectView::ShowPreferences),
            AppMsg::ShowShortcuts => self.effecting(EffectView::ShowShortcuts),
            AppMsg::ShowAbout => self.effecting(EffectView::ShowAbout),
            AppMsg::SetTheme(index) => self.themed(actions::theme_at(index)),
            AppMsg::SetAccent(accent) => self.accented(accent@),
            AppMsg::SetNotifyTrackChange(on) => self.with_settings(
                SettingsView { notify_track_change: on, ..self.settings },
            ),
            AppMsg::Raise => self.effecting(EffectView::RaiseWindow),
            _ => self,
        }
    }

    /// The model after a message. Each message is about one of the five.
    pub open spec fn handling(self, msg: AppMsg) -> AppView {
        match topic_of(msg) {
            Topic::Transport => self.after_transport(msg),
            Topic::Queueing => self.after_queueing(msg),
            Topic::Browsing => self.after_browsing(msg),
            Topic::Account => self.after_account(msg),
            Topic::Window => self.after_window(msg),
        }
    }
}

/// What a message is about.
#[derive(Debug, Clone, Copy, PartialEq, Eq, Structural)]
pub enum Topic {
    Transport,
    Queueing,
    Browsing,
    Account,
    Window,
}

/// What a message is about.
pub open spec fn topic_of(msg: AppMsg) -> Topic {
    match msg {
        AppMsg::PlayPause => Topic::Transport,
        AppMsg::Play => Topic::Transport,
        AppMsg::Pause => Topic::Transport,
        AppMsg::Next => Topic::Transport,
        AppMsg::Previous => Topic::Transport,
        AppMsg::Seek(_) => Topic::Transport,
        AppMsg::SetVolume { .. } => Topic::Transport,
        AppMsg::VolumeUp { .. } => Topic::Transport,
        AppMsg::VolumeDown { .. } => Topic::Transport,
        AppMsg::HideVolumeOsd(_) => Topic::Transport,
        AppMsg::SetShuffle(_) => Topic::Transport,
        AppMsg::SetRepeat(_) => Topic::Transport,
        AppMsg::Tick => Topic::Transport,
        AppMsg::ClearQueue => Topic::Queueing,
        AppMsg::Enqueue { .. } => Topic::Queueing,
        AppMsg::PlayFrom(_) => Topic::Queueing,
        AppMsg::DetailActivated { .. } => Topic::Queueing,
        AppMsg::PlayPage { .. } => Topic::Queueing,
        AppMsg::JumpTo { .. } => Topic::Queueing,
        AppMsg::RemoveFromQueue { .. } => Topic::Queueing,
        AppMsg::MoveInQueue { .. } => Topic::Queueing,
        AppMsg::SetSort(_) => Topic::Browsing,
        AppMsg::ToggleSortDirection => Topic::Browsing,
        AppMsg::SetCatalogFilter(_) => Topic::Browsing,
        AppMsg::SearchChanged(_) => Topic::Browsing,
        AppMsg::RunCatalogSearch(_) => Topic::Browsing,
        AppMsg::SetView(_) => Topic::Browsing,
        AppMsg::AlbumActivated(_) => Topic::Browsing,
        AppMsg::ArtistActivated(_) => Topic::Browsing,
        AppMsg::PlaylistActivated(_) => Topic::Browsing,
        AppMsg::NeedTileArt { .. } => Topic::Browsing,
        AppMsg::LoadMoreCatalog => Topic::Browsing,
        AppMsg::ReloadSection(_) => Topic::Browsing,
        AppMsg::LibraryActivated(_) => Topic::Browsing,
        AppMsg::OpenPage(_) => Topic::Browsing,
        AppMsg::PagePopped(_) => Topic::Browsing,
        AppMsg::SignIn => Topic::Account,
        AppMsg::SignOut => Topic::Account,
        AppMsg::SignOutConfirmed => Topic::Account,
        AppMsg::RemoveFromLibrary { .. } => Topic::Account,
        AppMsg::Unfavorite { .. } => Topic::Account,
        AppMsg::LibraryWrite { .. } => Topic::Account,
        _ => Topic::Window,
    }
}

impl AppModel {
    fn handle_transport(&mut self, msg: AppMsg)
        ensures
            final(self)@ == old(self)@.after_transport(msg),
    {
        proof {
            reveal(AppView::after_transport);
        }
        match msg {
            AppMsg::PlayPause => self.send(Command::PlayPause),
            AppMsg::Play => self.send(Command::Play),
            AppMsg::Pause => self.send(Command::Pause),
            AppMsg::Next => self.send(Command::Next),
            AppMsg::Previous => self.go_previous(),
            AppMsg::Seek(position_ms) => self.seek(position_ms),
            AppMsg::SetVolume { volume, moved } => self.set_volume(volume, moved),
            AppMsg::VolumeUp { volume, moved } => {
                self.set_volume(volume, moved);
                self.flash_volume();
            },
            AppMsg::VolumeDown { volume, moved } => {
                self.set_volume(volume, moved);
                self.flash_volume();
            },
            AppMsg::HideVolumeOsd(generation) => self.hide_volume_osd(generation),
            AppMsg::SetShuffle(shuffle) => self.send(Command::SetShuffle { shuffle }),
            AppMsg::SetRepeat(mode) => self.send(Command::SetRepeat { mode }),
            AppMsg::Tick => self.push_snapshot(),
            _ => {},
        }
    }

    fn handle_queueing(&mut self, msg: AppMsg)
        ensures
            final(self)@ == old(self)@.after_queueing(msg),
    {
        proof {
            reveal(AppView::after_queueing);
        }
        match msg {
            AppMsg::ClearQueue => self.clear_queue(),
            AppMsg::Enqueue { catalog_id, next } => self.enqueue(catalog_id, next),
            AppMsg::PlayFrom(row) => {
                let visible = self.visible_entries();
                self.play_entries(visible.as_slice(), row, Start::Clicked);
            },
            AppMsg::DetailActivated { page, row } => self.activate_page_row(page, row),
            AppMsg::PlayPage { page, shuffle, drawn } => self.play_page(page, shuffle, drawn),
            AppMsg::JumpTo { at, id } => self.jump_to(at, id.as_str()),
            AppMsg::RemoveFromQueue { at, id } => self.remove_from_queue(at, id.as_str()),
            AppMsg::MoveInQueue { from, to } => self.move_in_queue(from, to),
            _ => {},
        }
    }

    fn handle_browsing(&mut self, msg: AppMsg)
        requires
            msg is OpenPage ==> old(self)@.pages.next_id < u64::MAX,
        ensures
            final(self)@ == old(self)@.after_browsing(msg),
    {
        proof {
            reveal(AppView::after_browsing);
        }
        match msg {
            AppMsg::SetSort(by) => self.sort_by(by),
            AppMsg::ToggleSortDirection => self.flip_direction(),
            AppMsg::SetCatalogFilter(filter) => self.filter_catalog(filter),
            AppMsg::SearchChanged(query) => self.search(query),
            AppMsg::RunCatalogSearch(generation) => self.settle_search(generation),
            AppMsg::SetView(view) => self.show_section(view),
            AppMsg::AlbumActivated(position) => self.activate_album(position),
            AppMsg::ArtistActivated(position) => self.activate_artist(position),
            AppMsg::PlaylistActivated(position) => self.activate_playlist(position),
            AppMsg::NeedTileArt { key, art } => self.need_tile(key, art),
            AppMsg::LoadMoreCatalog => self.more_catalog(),
            AppMsg::ReloadSection(view) => self.reload_section(view),
            AppMsg::LibraryActivated(position) => self.activate_row(position),
            AppMsg::OpenPage(kind) => self.push_page(kind),
            AppMsg::PagePopped(id) => self.drop_page(id),
            _ => {},
        }
    }

    fn handle_account(&mut self, msg: AppMsg)
        ensures
            final(self)@ == old(self)@.after_account(msg),
    {
        proof {
            reveal(AppView::after_account);
        }
        match msg {
            AppMsg::SignIn => self.send(Command::ShowLogin),
            AppMsg::SignOut => self.confirm_sign_out(),
            AppMsg::SignOutConfirmed => {
                self.send(Command::SignOut);
                self.forget_session();
            },
            AppMsg::RemoveFromLibrary { library_id, catalog_id } => self.remove_from_library(
                library_id,
                catalog_id,
            ),
            AppMsg::Unfavorite { catalog_id } => self.unfavorite(catalog_id),
            AppMsg::LibraryWrite { catalog_id, action } => self.write_library(catalog_id, action),
            _ => {},
        }
    }

    fn handle_window(&mut self, msg: AppMsg)
        ensures
            final(self)@ == old(self)@.after_window(msg),
    {
        proof {
            reveal(AppView::after_window);
        }
        match msg {
            AppMsg::WindowCloseRequested => self.close_window(),
            AppMsg::WindowShown => self.window_shown(),
            AppMsg::PlayerDrawer(open) => self.move_drawer(open),
            AppMsg::ShowQueuePane(shown) => self.effect(Effect::QueuePane(shown)),
            AppMsg::ToggleQueue => self.toggle_queue(),
            AppMsg::ToggleSidebar => self.toggle_sidebar(),
            AppMsg::SidebarShown(shown) => self.show_sidebar(shown),
            AppMsg::SectionChosen => self.choose_section(),
            AppMsg::SidebarCollapsed(collapsed) => self.collapse_sidebar(collapsed),
            AppMsg::ShowPreferences => self.effect(Effect::ShowPreferences),
            AppMsg::ShowShortcuts => self.effect(Effect::ShowShortcuts),
            AppMsg::ShowAbout => self.effect(Effect::ShowAbout),
            AppMsg::SetTheme(index) => self.set_theme(Theme::from_index(index)),
            AppMsg::SetAccent(accent) => self.set_accent(accent),
            AppMsg::SetNotifyTrackChange(on) => self.set_notify(on),
            AppMsg::Raise => self.effect(Effect::RaiseWindow),
            _ => {},
        }
    }

    /// Do what a message asks. The only other writers of the model are the
    /// player's events and the answers to what was fetched.
    pub fn handle(&mut self, msg: AppMsg)
        requires
            msg is OpenPage ==> old(self)@.pages.next_id < u64::MAX,
        ensures
            final(self)@ == old(self)@.handling(msg),
    {
        match topic(&msg) {
            Topic::Transport => self.handle_transport(msg),
            Topic::Queueing => self.handle_queueing(msg),
            Topic::Browsing => self.handle_browsing(msg),
            Topic::Account => self.handle_account(msg),
            Topic::Window => self.handle_window(msg),
        }
    }
}

fn topic(msg: &AppMsg) -> (r: Topic)
    ensures
        r == topic_of(*msg),
{
    match msg {
        AppMsg::PlayPause | AppMsg::Play | AppMsg::Pause | AppMsg::Next | AppMsg::Previous
        | AppMsg::Seek(_) | AppMsg::SetVolume { .. } | AppMsg::VolumeUp { .. }
        | AppMsg::VolumeDown { .. } | AppMsg::HideVolumeOsd(_) | AppMsg::SetShuffle(_)
        | AppMsg::SetRepeat(_) | AppMsg::Tick => Topic::Transport,
        AppMsg::ClearQueue | AppMsg::Enqueue { .. } | AppMsg::PlayFrom(_)
        | AppMsg::DetailActivated { .. } | AppMsg::PlayPage { .. } | AppMsg::JumpTo { .. }
        | AppMsg::RemoveFromQueue { .. } | AppMsg::MoveInQueue { .. } => Topic::Queueing,
        AppMsg::SetSort(_) | AppMsg::ToggleSortDirection | AppMsg::SetCatalogFilter(_)
        | AppMsg::SearchChanged(_) | AppMsg::RunCatalogSearch(_) | AppMsg::SetView(_)
        | AppMsg::AlbumActivated(_) | AppMsg::ArtistActivated(_) | AppMsg::PlaylistActivated(_)
        | AppMsg::NeedTileArt { .. } | AppMsg::LoadMoreCatalog | AppMsg::ReloadSection(_)
        | AppMsg::LibraryActivated(_) | AppMsg::OpenPage(_) | AppMsg::PagePopped(_) =>
            Topic::Browsing,
        AppMsg::SignIn | AppMsg::SignOut | AppMsg::SignOutConfirmed
        | AppMsg::RemoveFromLibrary { .. } | AppMsg::Unfavorite { .. }
        | AppMsg::LibraryWrite { .. } => Topic::Account,
        _ => Topic::Window,
    }
}

/// What a controller on the bus asks of the window. Quitting goes straight to
/// the way out; should it come here, the least it can mean is a pause.
pub open spec fn asked_on_the_bus(command: MprisCommand, moved: bool) -> AppMsg {
    match command {
        MprisCommand::Play => AppMsg::Play,
        MprisCommand::Pause => AppMsg::Pause,
        MprisCommand::Quit => AppMsg::Pause,
        MprisCommand::PlayPause => AppMsg::PlayPause,
        MprisCommand::Next => AppMsg::Next,
        MprisCommand::Previous => AppMsg::Previous,
        MprisCommand::Seek(ms) => AppMsg::Seek(ms),
        MprisCommand::SetShuffle(on) => AppMsg::SetShuffle(on),
        MprisCommand::SetVolume(volume) => AppMsg::SetVolume { volume, moved },
        MprisCommand::Raise => AppMsg::Raise,
        MprisCommand::SetRepeat(mode) => AppMsg::SetRepeat(mode),
    }
}

/// What a controller on the bus asks of the window. `moved` is whether a volume
/// it asks for differs from ours by more than rounding.
pub fn into_msg(command: MprisCommand, moved: bool) -> (r: AppMsg)
    ensures
        r == asked_on_the_bus(command, moved),
{
    match command {
        MprisCommand::Play => AppMsg::Play,
        MprisCommand::Pause | MprisCommand::Quit => AppMsg::Pause,
        MprisCommand::PlayPause => AppMsg::PlayPause,
        MprisCommand::Next => AppMsg::Next,
        MprisCommand::Previous => AppMsg::Previous,
        MprisCommand::Seek(ms) => AppMsg::Seek(ms),
        MprisCommand::SetShuffle(on) => AppMsg::SetShuffle(on),
        MprisCommand::SetVolume(volume) => AppMsg::SetVolume { volume, moved },
        MprisCommand::Raise => AppMsg::Raise,
        MprisCommand::SetRepeat(mode) => AppMsg::SetRepeat(mode),
    }
}

/// What the bar and the drawer can ask for.
#[derive(Debug, Clone, Copy, PartialEq, Eq, Structural)]
pub enum NowPlayingOutput {
    PlayPause,
    Next,
    Previous,
    Seek(u64),
    SetVolume(u64),
    SetShuffle(bool),
    SetRepeat(RepeatMode),
    ToggleQueue,
}

/// What the bar or the drawer asks for. Both mean the same by it: two players
/// disagreeing about one queue is what this avoids.
pub open spec fn asked_on_the_bar(out: NowPlayingOutput, moved: bool) -> AppMsg {
    match out {
        NowPlayingOutput::PlayPause => AppMsg::PlayPause,
        NowPlayingOutput::Next => AppMsg::Next,
        NowPlayingOutput::Previous => AppMsg::Previous,
        NowPlayingOutput::Seek(ms) => AppMsg::Seek(ms),
        NowPlayingOutput::SetVolume(volume) => AppMsg::SetVolume { volume, moved },
        NowPlayingOutput::SetShuffle(on) => AppMsg::SetShuffle(on),
        NowPlayingOutput::SetRepeat(mode) => AppMsg::SetRepeat(mode),
        NowPlayingOutput::ToggleQueue => AppMsg::ToggleQueue,
    }
}

pub fn map_player_output(out: NowPlayingOutput, moved: bool) -> (r: AppMsg)
    ensures
        r == asked_on_the_bar(out, moved),
{
    match out {
        NowPlayingOutput::PlayPause => AppMsg::PlayPause,
        NowPlayingOutput::Next => AppMsg::Next,
        NowPlayingOutput::Previous => AppMsg::Previous,
        NowPlayingOutput::Seek(ms) => AppMsg::Seek(ms),
        NowPlayingOutput::SetVolume(volume) => AppMsg::SetVolume { volume, moved },
        NowPlayingOutput::SetShuffle(on) => AppMsg::SetShuffle(on),
        NowPlayingOutput::SetRepeat(mode) => AppMsg::SetRepeat(mode),
        NowPlayingOutput::ToggleQueue => AppMsg::ToggleQueue,
    }
}

} // verus!
