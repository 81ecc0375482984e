//! What each thing the user can do does to the model.

use vstd::prelude::*;
use vstd::view::View as _;

use crate::app::model::{
    AppModel,
    AppView,
    CardView,
    Effect,
    EffectView,
    LibraryAction,
    Settings,
    SettingsView,
    Stage,
    StageView,
    Theme,
    Window,
};
use crate::app::browse;
use crate::app::pages;
use crate::app::pages::{PageKind, PageKindView, PagesView};
use crate::app::shelf::Access;
use crate::app::writes;
use crate::app::writes::{Patch, PendingView, PendingWrite};
use crate::ids;
use crate::music;
use crate::music::{Artwork, Entry, Playlist};
use crate::protocol::{Command, CommandView};
use crate::queue;
use crate::queue::Start;
use crate::text;
use crate::view;
use crate::view::{CatalogFilter, Section, SidebarRow, SidebarRowView, Sort, SortBy, Sorts, View};

verus! {

/// What is said where there is nobody to ask yet.
pub open spec fn not_connected() -> Seq<char> {
    "Not connected yet"@
}

/// Where a playlist stands in a list, by id, from `from` on.
pub open spec fn playlist_of(list: Seq<Playlist>, id: Seq<char>, from: int) -> Option<int>
    decreases list.len() - from,
{
    if from < 0 || from >= list.len() {
        None
    } else if list[from].id@ == id {
        Some(from)
    } else {
        playlist_of(list, id, from + 1)
    }
}

/// The settings with every section's sort written down.
pub open spec fn sorts_written(settings: SettingsView, sorts: Sorts) -> SettingsView {
    SettingsView {
        sort: sorts.songs.by.target(),
        sort_reversed: sorts.songs.reversed,
        album_sort: sorts.albums.by.target(),
        album_sort_reversed: sorts.albums.reversed,
        artist_sort: sorts.artists.by.target(),
        artist_sort_reversed: sorts.artists.reversed,
        playlist_sort: sorts.playlists.by.target(),
        playlist_sort_reversed: sorts.playlists.reversed,
        ..settings
    }
}

/// The theme a position in the preferences stands for.
pub open spec fn theme_at(index: u32) -> Theme {
    if index == 1 {
        Theme::Light
    } else if index == 2 {
        Theme::Dark
    } else {
        Theme::System
    }
}

impl Theme {
    pub fn from_index(index: u32) -> (r: Self)
        ensures
            r == theme_at(index),
    {
        if index == 1 {
            Theme::Light
        } else if index == 2 {
            Theme::Dark
        } else {
            Theme::System
        }
    }
}

impl AppView {
    pub open spec fn with_pages(self, pages: PagesView) -> AppView {
        AppView { pages, ..self }
    }

    pub open spec fn with_window(self, window: Window) -> AppView {
        AppView { window, ..self }
    }

    /// The model with other settings, on their way to being written.
    pub open spec fn with_settings(self, settings: SettingsView) -> AppView {
        AppView { settings, ..self }.effecting(EffectView::SaveSettings)
    }

    /// The model about to ask whether to sign out, where there is anyone to
    /// sign out.
    pub open spec fn asked_to_sign_out(self) -> AppView {
        if self.stage == StageView::Ready {
            self.effecting(EffectView::ConfirmSignOut)
        } else {
            self
        }
    }

    /// The model with everything dropped that belonged to one account. What is
    /// known to be dead stays: that is about the catalog.
    #[verifier::opaque]
    pub open spec fn session_forgotten(self) -> AppView {
        AppView {
            stage: StageView::SignedOut,
            tokens: None,
            shelf: self.shelf.forgotten(self.playing()),
            pages: self.pages.clearing(),
            window: Window { show_queue: false, ..self.window },
            card: CardView { last_item: None, ..self.card },
            deck: self.deck.forgotten(),
            ..self
        }.effecting(EffectView::ClearSession).effecting(EffectView::Backdrop(None)).pushed()
    }

    /// The model after a jump. The bus is told at once: a controller that goes
    /// on counting from the old position drifts.
    pub open spec fn sought(self, position_ms: u64) -> AppView {
        self.sending(CommandView::Seek { position_ms }).effecting(EffectView::Seeked(position_ms))
    }

    /// The model with its volume panel up. Only the newest press may take it
    /// down.
    #[verifier::opaque]
    pub open spec fn flashed(self) -> AppView {
        let generation = browse::next_generation(self.window.osd_generation);
        self.with_window(
            Window { osd_shown: true, osd_generation: generation, ..self.window },
        ).effecting(EffectView::FlashVolume { generation })
    }

    /// The model with its volume panel down, if no press came since.
    pub open spec fn unflashed(self, generation: u64) -> AppView {
        if generation == self.window.osd_generation {
            self.with_window(Window { osd_shown: false, ..self.window })
        } else {
            self
        }
    }

    /// The model with another text in the search box. Typing is a request to
    /// see results, and those are under every page.
    #[verifier::opaque]
    pub open spec fn searched(self, query: Seq<char>) -> AppView {
        if query == self.shelf.query() {
            self
        } else {
            self.with_pages(self.pages.clearing()).with_shelf(
                self.shelf.typed(query, self.playing()),
            )
        }
    }

    /// The model on another section. What was pushed on top of the old one goes.
    #[verifier::opaque]
    pub open spec fn sectioned(self, view: View) -> AppView {
        if view == self.shelf.view {
            self
        } else {
            self.with_shelf(self.shelf.showing(view, self.access(), self.playing())).with_pages(
                self.pages.clearing(),
            ).with_settings(SettingsView { section: view.section(), ..self.settings })
        }
    }

    /// The model with a section thrown away and on its way again.
    #[verifier::opaque]
    pub open spec fn section_reloaded(self, view: View) -> AppView {
        let after = self.with_shelf(self.shelf.reloaded(view, self.access()));
        if self.access() == Access::Away && (view == View::Songs || view == View::Search) {
            after.toasting(not_connected())
        } else {
            after
        }
    }

    /// The model with its sorts on the way to being remembered.
    pub open spec fn sorts_kept(self) -> AppView {
        self.with_settings(sorts_written(self.settings, self.shelf.sorts))
    }

    /// The model with the shown section sorted by something else.
    #[verifier::opaque]
    pub open spec fn sorted_by(self, by: SortBy) -> AppView {
        let now = self.shelf.sorts.of(self.shelf.view);
        if by == now.by {
            self
        } else {
            self.with_shelf(
                self.shelf.sorted(Sort { by, ..now }, self.playing()),
            ).sorts_kept()
        }
    }

    /// The model with the shown section turned round.
    #[verifier::opaque]
    pub open spec fn flipped(self) -> AppView {
        let now = self.shelf.sorts.of(self.shelf.view);
        self.with_shelf(
            self.shelf.sorted(Sort { reversed: !now.reversed, ..now }, self.playing()),
        ).sorts_kept()
    }

    /// The model with a page on its way, where there is someone to ask for it.
    #[verifier::opaque]
    pub open spec fn opening(self, kind: PageKindView) -> AppView {
        if self.tokens is None {
            self.toasting(not_connected())
        } else {
            self.with_pages(self.pages.pushed(kind))
        }
    }

    /// The model after a row of the visible list was activated: a song plays,
    /// anything else is a door.
    #[verifier::opaque]
    pub open spec fn row_activated(self, position: u32) -> AppView {
        let rows = self.shelf.visible();
        if position < rows.len() {
            match pages::door(rows[position as int]) {
                Some(kind) => self.effecting(EffectView::OpenPage(kind)),
                None => self.effecting(EffectView::PlayFrom(position as int)),
            }
        } else {
            self
        }
    }

    /// The model after a row of a pushed page was activated. A page that is gone
    /// answers nothing.
    #[verifier::opaque]
    pub open spec fn page_row_activated(self, page: u64, row: int) -> AppView {
        match self.pages.find(page) {
            Some(at) => {
                let rows = self.pages.stack[at].entries;
                if row < rows.len() {
                    match pages::door(rows[row]) {
                        Some(kind) => self.effecting(EffectView::OpenPage(kind)),
                        None => self.playing_list(rows, row, Start::Clicked),
                    }
                } else {
                    self
                }
            },
            None => self,
        }
    }

    /// The model with a whole page played: from its top, or shuffled from a row
    /// drawn among those that can be played.
    #[verifier::opaque]
    pub open spec fn page_played(self, page: u64, shuffle: bool, drawn: u32) -> AppView {
        match self.pages.find(page) {
            Some(at) => {
                let rows = self.pages.stack[at].entries;
                if shuffle {
                    self.playing_list(
                        rows,
                        super::playback::shuffled_start(rows, self.deck.dead, drawn),
                        Start::Shuffled,
                    )
                } else {
                    self.playing_list(rows, 0, Start::InOrder)
                }
            },
            None => self,
        }
    }

    /// The model after a tile was activated.
    pub open spec fn tile_activated(self, kind: Option<PageKindView>) -> AppView {
        match kind {
            Some(kind) => self.effecting(EffectView::OpenPage(kind)),
            None => self,
        }
    }

    /// The door behind an album tile.
    pub open spec fn album_door(self, position: u32) -> Option<PageKindView> {
        if position < self.shelf.album_tiles.len() {
            pages::door(Entry::Album(self.shelf.album_tiles[position as int]))
        } else {
            None
        }
    }

    /// The door behind an artist tile.
    pub open spec fn artist_door(self, position: u32) -> Option<PageKindView> {
        if position < self.shelf.artist_tiles.len() {
            pages::door(Entry::Artist(self.shelf.artist_tiles[position as int]))
        } else {
            None
        }
    }

    /// The door behind a playlist tile.
    pub open spec fn playlist_door(self, position: u32) -> Option<PageKindView> {
        if position < self.shelf.playlist_tiles.len() {
            pages::door(Entry::Playlist(self.shelf.playlist_tiles[position as int]))
        } else {
            None
        }
    }

    /// The model with a tile's cover on its way, once however often the tile is
    /// scrolled past.
    #[verifier::opaque]
    pub open spec fn tile_wanted(self, key: Seq<char>, art: Artwork) -> AppView {
        if self.tiles_pending.contains(key) {
            self
        } else {
            AppView { tiles_pending: self.tiles_pending.push(key), ..self }.effecting(
                EffectView::FetchTile { key, art },
            )
        }
    }

    /// The model with its queue given up. The mirror follows the player; what is
    /// dropped here is what the player cannot know about.
    #[verifier::opaque]
    pub open spec fn queue_cleared(self) -> AppView {
        let said = self.sending(CommandView::ClearQueue);
        said.with_deck(said.deck.forgotten()).with_card(
            CardView { last_item: None, ..self.card },
        ).effecting(EffectView::ClearSession).effecting(EffectView::Backdrop(None))
    }

    /// The model after a row of the queue was clicked.
    #[verifier::opaque]
    pub open spec fn jumped_to(self, at: int, id: Seq<char>) -> AppView {
        match queue::place_at(self.deck.player.queue, at, id) {
            Some(index) => self.with_deck(self.deck.jumped(index)),
            None => self.toasting("That track is no longer in the queue"@),
        }
    }

    /// The model with a row of the queue on its way out.
    #[verifier::opaque]
    pub open spec fn removing(self, at: int, id: Seq<char>) -> AppView {
        match queue::place_at(self.deck.player.queue, at, id) {
            Some(index) => self.sending(CommandView::RemoveFromQueue { index }),
            None => self.toasting("That track is no longer in the queue"@),
        }
    }

    /// The model with a write remembered until it is confirmed.
    pub open spec fn awaiting(self, write: PendingView) -> AppView {
        AppView { pending: writes::recorded(self.pending, write), ..self }
    }

    /// The model with a song on its way out of the library. The row says so at
    /// once, and the record is what takes that back.
    #[verifier::opaque]
    pub open spec fn unlisted(self, library_id: Seq<char>, catalog_id: Seq<char>) -> AppView {
        self.awaiting(
            PendingView { sent: library_id, catalog_id, undo: Patch::InLibrary(true) },
        ).sending(CommandView::RemoveFromLibrary { id: library_id }).patched(
            catalog_id,
            Patch::InLibrary(false),
        ).toasting("Removing from your library…"@)
    }

    /// The model with a star on its way off a song, and nothing else.
    #[verifier::opaque]
    pub open spec fn unstarred(self, catalog_id: Seq<char>) -> AppView {
        self.awaiting(
            PendingView { sent: catalog_id, catalog_id, undo: Patch::Favorite(true) },
        ).sending(CommandView::Unfavorite { id: catalog_id }).patched(
            catalog_id,
            Patch::Favorite(false),
        ).toasting("Removing favourite…"@)
    }

    /// The model with a write to the account on its way.
    #[verifier::opaque]
    pub open spec fn writing(self, catalog_id: Seq<char>, action: LibraryAction) -> AppView {
        if self.access() == Access::Away {
            self.toasting(not_connected())
        } else {
            self.toasting(action.sent_text()).effecting(
                EffectView::WriteLibrary { catalog_id, action },
            )
        }
    }

    /// The model with its queue opened or closed from the bar. Opening it means
    /// the queue itself, not merely the drawer it lives in.
    #[verifier::opaque]
    pub open spec fn queue_toggled(self) -> AppView {
        let open = !self.window.show_queue;
        let shown = self.with_window(Window { show_queue: open, ..self.window }).pushed();
        if open {
            shown.effecting(EffectView::QueuePane(true)).effecting(EffectView::ScrollToPlaying)
        } else {
            shown
        }
    }

    /// The model once the drawer moved by its own devices.
    #[verifier::opaque]
    pub open spec fn drawer_moved(self, open: bool) -> AppView {
        if self.window.show_queue == open {
            self
        } else {
            self.with_window(Window { show_queue: open, ..self.window }).pushed()
        }
    }

    /// The model with its sidebar opened or closed on purpose, which is a
    /// preference.
    pub open spec fn sidebar_toggled(self) -> AppView {
        let open = !self.window.show_sidebar;
        self.with_window(Window { show_sidebar: open, ..self.window }).with_settings(
            SettingsView { show_sidebar: open, ..self.settings },
        )
    }

    /// The model with its window asked to close. Closing a player in the middle of
    /// a song does not stop the music: with a queue loaded, only the window goes.
    pub open spec fn close_asked(self) -> AppView {
        if self.deck.player.queue.len() > 0 {
            self.with_window(Window { background: true, ..self.window }).effecting(
                EffectView::HideWindow,
            )
        } else {
            self.effecting(EffectView::CloseWindow)
        }
    }

    /// The model in another theme, drawn at once.
    pub open spec fn themed(self, theme: Theme) -> AppView {
        self.effecting(EffectView::ApplyTheme).with_settings(
            SettingsView { theme, ..self.settings },
        )
    }

    /// The model with another accent, drawn at once.
    pub open spec fn accented(self, accent: Seq<char>) -> AppView {
        self.with_settings(SettingsView { accent, ..self.settings }).effecting(
            EffectView::ApplyAccent,
        )
    }

    /// The model after a row of the sidebar was chosen. A position with no row means
    /// nothing.
    pub open spec fn row_chosen(self, rows: Seq<SidebarRowView>, index: int) -> AppView {
        if 0 <= index < rows.len() {
            match rows[index] {
                SidebarRowView::Section(view) => self.effecting(EffectView::GoTo(view)),
                SidebarRowView::Pinned(id) => self.opening(PageKindView::LibraryPlaylist(id)),
            }
        } else {
            self
        }
    }

    /// The model once a section was chosen: an overlay has done its job.
    pub open spec fn section_chosen(self) -> AppView {
        if self.window.sidebar_collapsed {
            self.with_window(Window { show_sidebar: false, ..self.window })
        } else {
            self
        }
    }
}

impl AppModel {
    pub(crate) fn set_window(&mut self, window: Window)
        ensures
            final(self)@ == old(self)@.with_window(window),
    {
        proof {
            reveal(AppModel::seen);
        }
        self.window = window;
    }

    pub(crate) fn window(&self) -> (r: Window)
        ensures
            r == self@.window,
    {
        proof {
            reveal(AppModel::seen);
        }
        self.window
    }

    fn clear_pages(&mut self)
        ensures
            final(self)@ == old(self)@.with_pages(old(self)@.pages.clearing()),
    {
        proof {
            reveal(AppModel::seen);
        }
        self.pages.pop_to_results();
    }

    pub(crate) fn set_last_item_gone(&mut self)
        ensures
            final(self)@ == old(self)@.with_card(
                CardView { last_item: None, ..old(self)@.card },
            ),
    {
        proof {
            reveal(AppModel::seen);
        }
        self.card.last_item = None;
    }

    fn forget_queue(&mut self)
        ensures
            final(self)@ == old(self)@.with_deck(old(self)@.deck.forgotten()),
    {
        proof {
            reveal(AppModel::seen);
        }
        self.deck.forget_queue();
    }

    fn save_settings(&mut self, settings: Settings)
        ensures
            final(self)@ == old(self)@.with_settings(settings@),
    {
        proof {
            reveal(AppModel::seen);
        }
        self.settings = settings;
        let ghost kept = self@;
        self.effect(Effect::SaveSettings);
        proof {
            assert(kept == (AppView { settings: settings@, ..old(self)@ }));
        }
    }

    fn settings_copy(&self) -> (r: Settings)
        ensures
            r@ == self@.settings,
    {
        proof {
            reveal(AppModel::seen);
        }
        Settings {
            section: self.settings.section,
            show_sidebar: self.settings.show_sidebar,
            sort: self.settings.sort.clone(),
            sort_reversed: self.settings.sort_reversed,
            album_sort: self.settings.album_sort.clone(),
            album_sort_reversed: self.settings.album_sort_reversed,
            artist_sort: self.settings.artist_sort.clone(),
            artist_sort_reversed: self.settings.artist_sort_reversed,
            playlist_sort: self.settings.playlist_sort.clone(),
            playlist_sort_reversed: self.settings.playlist_sort_reversed,
            notify_track_change: self.settings.notify_track_change,
            theme: self.settings.theme,
            accent: self.settings.accent.clone(),
        }
    }

    pub(crate) fn confirm_sign_out(&mut self)
        ensures
            final(self)@ == old(self)@.asked_to_sign_out(),
    {
        if self.is_ready() {
            self.effect(Effect::ConfirmSignOut);
        }
    }

    fn drop_account(&mut self)
        ensures
            final(self)@ == (AppView {
                stage: StageView::SignedOut,
                tokens: None,
                shelf: old(self)@.shelf.forgotten(old(self)@.playing()),
                ..old(self)@
            }),
    {
        proof {
            reveal(AppModel::seen);
        }
        let playing = self.playing_catalog_id();
        self.stage = Stage::SignedOut;
        self.tokens = None;
        self.shelf.forget(playing);
    }

    /// Drop everything that belonged to the signed-in user.
    ///
    /// Not just the tokens: leaving the library on screen would show one
    /// person's music to whoever signs in next.
    pub fn forget_session(&mut self)
        ensures
            final(self)@ == old(self)@.session_forgotten(),
    {
        proof {
            reveal(AppView::session_forgotten);
        }
        self.drop_account();
        self.clear_pages();
        let window = self.window();
        self.set_window(Window { show_queue: false, ..window });
        self.set_last_item_gone();
        self.forget_queue();
        self.effect(Effect::ClearSession);
        self.effect(Effect::Backdrop(None));
        self.push_snapshot();
    }

    pub(crate) fn seek(&mut self, position_ms: u64)
        ensures
            final(self)@ == old(self)@.sought(position_ms),
    {
        self.send(Command::Seek { position_ms });
        self.effect(Effect::Seeked(position_ms));
    }

    /// Raise the volume panel, and arrange for it to go away again.
    ///
    /// Called for every press, also at either end of the range: a shortcut that
    /// shows nothing reads as a dropped keypress.
    pub fn flash_volume(&mut self)
        ensures
            final(self)@ == old(self)@.flashed(),
    {
        proof {
            reveal(AppView::flashed);
        }
        let window = self.window();
        let generation: u64 = browse::generation_after(window.osd_generation);
        self.set_window(Window { osd_shown: true, osd_generation: generation, ..window });
        self.effect(Effect::FlashVolume { generation });
    }

    pub fn hide_volume_osd(&mut self, generation: u64)
        ensures
            final(self)@ == old(self)@.unflashed(generation),
    {
        let window = self.window();
        if generation == window.osd_generation {
            self.set_window(Window { osd_shown: false, ..window });
        }
    }

    fn retype(&mut self, query: String)
        ensures
            final(self)@ == old(self)@.with_shelf(
                old(self)@.shelf.typed(query@, old(self)@.playing()),
            ),
    {
        proof {
            reveal(AppModel::seen);
        }
        let playing = self.playing_catalog_id();
        let _ = self.shelf.search_changed(query, playing);
    }

    fn is_query(&self, query: &str) -> (r: bool)
        ensures
            r == (query@ == self@.shelf.query()),
    {
        proof {
            reveal(AppModel::seen);
        }
        text::same(query, self.shelf.query())
    }

    pub(crate) fn search(&mut self, query: String)
        ensures
            final(self)@ == old(self)@.searched(query@),
    {
        proof {
            reveal(AppView::searched);
        }
        if self.is_query(query.as_str()) {
            return ;
        }
        self.clear_pages();
        self.retype(query);
    }

    pub(crate) fn settle_search(&mut self, generation: u64)
        ensures
            final(self)@ == old(self)@.with_shelf(
                old(self)@.shelf.typing_stopped(old(self)@.access(), generation),
            ),
    {
        proof {
            reveal(AppModel::seen);
        }
        let access = self.access();
        self.shelf.search_settled(access, generation);
    }

    pub(crate) fn filter_catalog(&mut self, filter: CatalogFilter)
        ensures
            final(self)@ == old(self)@.with_shelf(
                old(self)@.shelf.filtered(filter, old(self)@.access(), old(self)@.playing()),
            ),
    {
        proof {
            reveal(AppModel::seen);
        }
        let access = self.access();
        let playing = self.playing_catalog_id();
        self.shelf.set_catalog_filter(filter, access, playing);
    }

    fn shelve(&mut self, view: View)
        ensures
            final(self)@ == old(self)@.with_shelf(
                old(self)@.shelf.showing(view, old(self)@.access(), old(self)@.playing()),
            ),
    {
        proof {
            reveal(AppModel::seen);
        }
        let access = self.access();
        let playing = self.playing_catalog_id();
        let _ = self.shelf.set_view(view, access, playing);
    }

    pub(crate) fn section(&self) -> (r: View)
        ensures
            r == self@.shelf.view,
    {
        proof {
            reveal(AppModel::seen);
        }
        self.shelf.view
    }

    pub(crate) fn show_section(&mut self, view: View)
        ensures
            final(self)@ == old(self)@.sectioned(view),
    {
        proof {
            reveal(AppView::sectioned);
        }
        if view == self.section() {
            return ;
        }
        self.shelve(view);
        self.clear_pages();
        let mut settings = self.settings_copy();
        settings.section = Section::from(view);
        self.save_settings(settings);
    }

    pub(crate) fn more_catalog(&mut self)
        ensures
            final(self)@ == old(self)@.with_shelf(
                old(self)@.shelf.paging(old(self)@.access()),
            ),
    {
        proof {
            reveal(AppModel::seen);
        }
        let access = self.access();
        self.shelf.load_more(access);
    }

    fn reshelve(&mut self, view: View)
        ensures
            final(self)@ == old(self)@.with_shelf(
                old(self)@.shelf.reloaded(view, old(self)@.access()),
            ),
    {
        proof {
            reveal(AppModel::seen);
        }
        let access = self.access();
        self.shelf.reload(view, access);
    }

    pub(crate) fn reload_section(&mut self, view: View)
        ensures
            final(self)@ == old(self)@.section_reloaded(view),
    {
        proof {
            reveal(AppView::section_reloaded);
        }
        let away = self.access() == Access::Away;
        self.reshelve(view);
        if away && (view == View::Songs || view == View::Search) {
            self.toast("Not connected yet");
        }
    }

    fn sorts(&self) -> (r: Sorts)
        ensures
            r == self@.shelf.sorts,
    {
        proof {
            reveal(AppModel::seen);
        }
        self.shelf.sorts
    }

    /// Remember every section's sort. All four together: picking out the one
    /// that changed is a chance to forget one.
    pub fn persist_sorts(&mut self)
        ensures
            final(self)@ == old(self)@.sorts_kept(),
    {
        let sorts = self.sorts();
        let mut settings = self.settings_copy();
        settings.sort = sorts.songs.by.id().to_string();
        settings.sort_reversed = sorts.songs.reversed;
        settings.album_sort = sorts.albums.by.id().to_string();
        settings.album_sort_reversed = sorts.albums.reversed;
        settings.artist_sort = sorts.artists.by.id().to_string();
        settings.artist_sort_reversed = sorts.artists.reversed;
        settings.playlist_sort = sorts.playlists.by.id().to_string();
        settings.playlist_sort_reversed = sorts.playlists.reversed;
        proof {
            assert(settings@ =~= sorts_written(self@.settings, self@.shelf.sorts));
        }
        self.save_settings(settings);
    }

    fn sort_shelf(&mut self, by: SortBy) -> (r: bool)
        ensures
            r == (by != old(self)@.shelf.sorts.of(old(self)@.shelf.view).by),
            final(self)@ == if r {
                old(self)@.with_shelf(
                    old(self)@.shelf.sorted(
                        Sort { by, ..old(self)@.shelf.sorts.of(old(self)@.shelf.view) },
                        old(self)@.playing(),
                    ),
                )
            } else {
                old(self)@
            },
    {
        proof {
            reveal(AppModel::seen);
        }
        let playing = self.playing_catalog_id();
        self.shelf.set_sort(by, playing)
    }

    pub(crate) fn sort_by(&mut self, by: SortBy)
        ensures
            final(self)@ == old(self)@.sorted_by(by),
    {
        proof {
            reveal(AppView::sorted_by);
        }
        if self.sort_shelf(by) {
            self.persist_sorts();
        }
    }

    fn flip_shelf(&mut self)
        ensures
            final(self)@ == old(self)@.with_shelf(
                old(self)@.shelf.sorted(
                    Sort {
                        reversed: !old(self)@.shelf.sorts.of(old(self)@.shelf.view).reversed,
                        ..old(self)@.shelf.sorts.of(old(self)@.shelf.view)
                    },
                    old(self)@.playing(),
                ),
            ),
    {
        proof {
            reveal(AppModel::seen);
        }
        let playing = self.playing_catalog_id();
        self.shelf.toggle_direction(playing);
    }

    pub(crate) fn flip_direction(&mut self)
        ensures
            final(self)@ == old(self)@.flipped(),
    {
        proof {
            reveal(AppView::flipped);
        }
        self.flip_shelf();
        self.persist_sorts();
    }

    fn stack_page(&mut self, kind: PageKind)
        requires
            old(self)@.pages.next_id < u64::MAX,
        ensures
            final(self)@ == old(self)@.with_pages(old(self)@.pages.pushed(kind@)),
    {
        proof {
            reveal(AppModel::seen);
        }
        self.pages.push_page(kind);
    }

    /// Open a page, where there is someone to ask for it.
    pub fn push_page(&mut self, kind: PageKind)
        requires
            old(self)@.pages.next_id < u64::MAX,
        ensures
            final(self)@ == old(self)@.opening(kind@),
    {
        proof {
            reveal(AppView::opening);
        }
        if self.access() == Access::Away {
            self.toast("Not connected yet");
        } else {
            self.stack_page(kind);
        }
    }

    pub(crate) fn drop_page(&mut self, id: u64)
        ensures
            final(self)@ == old(self)@.with_pages(old(self)@.pages.popped(id)),
    {
        proof {
            reveal(AppModel::seen);
        }
        self.pages.page_popped(id);
    }

    /// The list on screen, as it is right now.
    pub fn visible_entries(&self) -> (r: Vec<Entry>)
        ensures
            r@ == self@.shelf.visible(),
    {
        proof {
            reveal(AppModel::seen);
        }
        self.shelf.visible_entries()
    }

    pub(crate) fn activate_row(&mut self, position: u32)
        ensures
            final(self)@ == old(self)@.row_activated(position),
    {
        proof {
            reveal(AppView::row_activated);
        }
        let rows = self.visible_entries();
        let at: usize = position as usize;
        if at < rows.len() {
            match PageKind::of(&rows[at]) {
                Some(kind) => self.effect(Effect::OpenPage(kind)),
                None => self.effect(Effect::PlayFrom(at)),
            }
        }
    }

    fn page_rows(&self, page: u64) -> (r: Option<Vec<Entry>>)
        ensures
            match r {
                Some(rows) => match self@.pages.find(page) {
                    Some(at) => rows@ == self@.pages.stack[at].entries,
                    None => false,
                },
                None => self@.pages.find(page) is None,
            },
    {
        proof {
            reveal(AppModel::seen);
        }
        match self.pages.find(page) {
            Some(at) => {
                proof {
                    assert(self.pages@.stack[at as int] == self.pages.stack@[at as int]@);
                }
                Some(music::copy_entries(self.pages.stack[at].entries.as_slice()))
            },
            None => None,
        }
    }

    pub(crate) fn activate_page_row(&mut self, page: u64, row: usize)
        ensures
            final(self)@ == old(self)@.page_row_activated(page, row as int),
    {
        proof {
            reveal(AppView::page_row_activated);
        }
        if let Some(rows) = self.page_rows(page) {
            if row < rows.len() {
                match PageKind::of(&rows[row]) {
                    Some(kind) => self.effect(Effect::OpenPage(kind)),
                    None => self.play_entries(rows.as_slice(), row, Start::Clicked),
                }
            }
        }
    }

    pub(crate) fn play_page(&mut self, page: u64, shuffle: bool, drawn: u32)
        ensures
            final(self)@ == old(self)@.page_played(page, shuffle, drawn),
    {
        proof {
            reveal(AppView::page_played);
        }
        if let Some(rows) = self.page_rows(page) {
            if shuffle {
                let row: usize = self.shuffle_start(rows.as_slice(), drawn);
                self.play_entries(rows.as_slice(), row, Start::Shuffled);
            } else {
                self.play_entries(rows.as_slice(), 0, Start::InOrder);
            }
        }
    }

    fn album_kind(&self, position: u32) -> (r: Option<PageKind>)
        ensures
            match r {
                Some(kind) => self@.album_door(position) == Some(kind@),
                None => self@.album_door(position) is None,
            },
    {
        proof {
            reveal(AppModel::seen);
        }
        let at: usize = position as usize;
        if at < self.shelf.album_tiles.len() {
            Some(PageKind::album(&self.shelf.album_tiles[at]))
        } else {
            None
        }
    }

    fn artist_kind(&self, position: u32) -> (r: Option<PageKind>)
        ensures
            match r {
                Some(kind) => self@.artist_door(position) == Some(kind@),
                None => self@.artist_door(position) is None,
            },
    {
        proof {
            reveal(AppModel::seen);
        }
        let at: usize = position as usize;
        if at < self.shelf.artist_tiles.len() {
            Some(PageKind::artist(&self.shelf.artist_tiles[at]))
        } else {
            None
        }
    }

    fn playlist_kind(&self, position: u32) -> (r: Option<PageKind>)
        ensures
            match r {
                Some(kind) => self@.playlist_door(position) == Some(kind@),
                None => self@.playlist_door(position) is None,
            },
    {
        proof {
            reveal(AppModel::seen);
        }
        let at: usize = position as usize;
        if at < self.shelf.playlist_tiles.len() {
            Some(PageKind::playlist(&self.shelf.playlist_tiles[at]))
        } else {
            None
        }
    }

    pub(crate) fn activate_album(&mut self, position: u32)
        ensures
            final(self)@ == old(self)@.tile_activated(old(self)@.album_door(position)),
    {
        if let Some(kind) = self.album_kind(position) {
            self.effect(Effect::OpenPage(kind));
        }
    }

    pub(crate) fn activate_artist(&mut self, position: u32)
        ensures
            final(self)@ == old(self)@.tile_activated(old(self)@.artist_door(position)),
    {
        if let Some(kind) = self.artist_kind(position) {
            self.effect(Effect::OpenPage(kind));
        }
    }

    pub(crate) fn activate_playlist(&mut self, position: u32)
        ensures
            final(self)@ == old(self)@.tile_activated(old(self)@.playlist_door(position)),
    {
        if let Some(kind) = self.playlist_kind(position) {
            self.effect(Effect::OpenPage(kind));
        }
    }

    fn is_tile_pending(&self, key: &str) -> (r: bool)
        ensures
            r == self@.tiles_pending.contains(key@),
    {
        proof {
            reveal(AppModel::seen);
        }
        ids::lists(self.tiles_pending.as_slice(), key)
    }

    fn await_tile(&mut self, key: String)
        ensures
            final(self)@ == (AppView {
                tiles_pending: old(self)@.tiles_pending.push(key@),
                ..old(self)@
            }),
    {
        proof {
            reveal(AppModel::seen);
        }
        let ghost before = text::texts(self.tiles_pending@);
        self.tiles_pending.push(key);
        proof {
            assert(text::texts(self.tiles_pending@) =~= before.push(key@));
        }
    }

    pub(crate) fn need_tile(&mut self, key: String, art: Artwork)
        ensures
            final(self)@ == old(self)@.tile_wanted(key@, art),
    {
        proof {
            reveal(AppView::tile_wanted);
        }
        if self.is_tile_pending(key.as_str()) {
            return ;
        }
        self.await_tile(key.clone());
        self.effect(Effect::FetchTile { key, art });
    }

    pub(crate) fn clear_queue(&mut self)
        ensures
            final(self)@ == old(self)@.queue_cleared(),
    {
        proof {
            reveal(AppView::queue_cleared);
        }
        self.send(Command::ClearQueue);
        self.forget_queue();
        self.set_last_item_gone();
        self.effect(Effect::ClearSession);
        self.effect(Effect::Backdrop(None));
    }

    /// Where a clicked row is in the queue *right now*, from where it was and
    /// what it was.
    pub fn queue_index_at(&self, at: usize, id: &str) -> (r: Option<usize>)
        ensures
            match r {
                Some(index) => queue::place_at(self@.deck.player.queue, at as int, id@) == Some(
                    index as int,
                ),
                None => queue::place_at(self@.deck.player.queue, at as int, id@) is None,
            },
    {
        proof {
            reveal(AppModel::seen);
        }
        self.deck.index_at(at, id)
    }

    fn jump(&mut self, index: usize)
        ensures
            final(self)@ == old(self)@.with_deck(old(self)@.deck.jumped(index as int)),
    {
        proof {
            reveal(AppModel::seen);
        }
        self.deck.jump(index);
    }

    pub(crate) fn jump_to(&mut self, at: usize, id: &str)
        ensures
            final(self)@ == old(self)@.jumped_to(at as int, id@),
    {
        proof {
            reveal(AppView::jumped_to);
        }
        match self.queue_index_at(at, id) {
            Some(index) => self.jump(index),
            None => self.toast("That track is no longer in the queue"),
        }
    }

    pub(crate) fn remove_from_queue(&mut self, at: usize, id: &str)
        ensures
            final(self)@ == old(self)@.removing(at as int, id@),
    {
        proof {
            reveal(AppView::removing);
        }
        match self.queue_index_at(at, id) {
            Some(index) => self.send(Command::RemoveFromQueue { index }),
            None => self.toast("That track is no longer in the queue"),
        }
    }

    fn await_write(&mut self, write: PendingWrite)
        ensures
            final(self)@ == old(self)@.awaiting(write@),
    {
        proof {
            reveal(AppModel::seen);
        }
        self.pending.record(write);
    }

    pub(crate) fn remove_from_library(&mut self, library_id: String, catalog_id: String)
        ensures
            final(self)@ == old(self)@.unlisted(library_id@, catalog_id@),
    {
        proof {
            reveal(AppView::unlisted);
        }
        self.await_write(
            PendingWrite {
                sent: library_id.clone(),
                catalog_id: catalog_id.clone(),
                undo: Patch::InLibrary(true),
            },
        );
        self.send(Command::RemoveFromLibrary { id: library_id });
        self.patch(catalog_id.as_str(), Patch::InLibrary(false));
        self.toast("Removing from your library…");
    }

    pub(crate) fn unfavorite(&mut self, catalog_id: String)
        ensures
            final(self)@ == old(self)@.unstarred(catalog_id@),
    {
        proof {
            reveal(AppView::unstarred);
        }
        self.await_write(
            PendingWrite {
                sent: catalog_id.clone(),
                catalog_id: catalog_id.clone(),
                undo: Patch::Favorite(true),
            },
        );
        self.send(Command::Unfavorite { id: catalog_id.clone() });
        self.patch(catalog_id.as_str(), Patch::Favorite(false));
        self.toast("Removing favourite…");
    }

    /// Write to the account. Said out loud before it goes: a click with no
    /// feedback at all reads as a click that did not register.
    pub fn write_library(&mut self, catalog_id: String, action: LibraryAction)
        ensures
            final(self)@ == old(self)@.writing(catalog_id@, action),
    {
        proof {
            reveal(AppView::writing);
        }
        if self.access() == Access::Away {
            self.toast("Not connected yet");
            return ;
        }
        self.toast(action.sent());
        self.effect(Effect::WriteLibrary { catalog_id, action });
    }

    pub(crate) fn enqueue(&mut self, catalog_id: String, next: bool)
        ensures
            final(self)@ == old(self)@.with_deck(old(self)@.deck.enqueued(catalog_id@, next)),
    {
        proof {
            reveal(AppModel::seen);
        }
        self.deck.enqueue(catalog_id, next);
    }

    pub(crate) fn toggle_queue(&mut self)
        ensures
            final(self)@ == old(self)@.queue_toggled(),
    {
        proof {
            reveal(AppView::queue_toggled);
        }
        let window = self.window();
        self.set_window(Window { show_queue: !window.show_queue, ..window });
        self.push_snapshot();
        if !window.show_queue {
            self.effect(Effect::QueuePane(true));
            self.effect(Effect::ScrollToPlaying);
        }
    }

    pub(crate) fn move_drawer(&mut self, open: bool)
        ensures
            final(self)@ == old(self)@.drawer_moved(open),
    {
        proof {
            reveal(AppView::drawer_moved);
        }
        let window = self.window();
        if window.show_queue != open {
            self.set_window(Window { show_queue: open, ..window });
            self.push_snapshot();
        }
    }

    pub(crate) fn show_sidebar(&mut self, shown: bool)
        ensures
            final(self)@ == old(self)@.with_window(
                Window { show_sidebar: shown, ..old(self)@.window },
            ),
    {
        let window = self.window();
        self.set_window(Window { show_sidebar: shown, ..window });
    }

    pub(crate) fn collapse_sidebar(&mut self, collapsed: bool)
        ensures
            final(self)@ == old(self)@.with_window(
                Window { sidebar_collapsed: collapsed, ..old(self)@.window },
            ),
    {
        let window = self.window();
        self.set_window(Window { sidebar_collapsed: collapsed, ..window });
    }

    pub(crate) fn choose_section(&mut self)
        ensures
            final(self)@ == old(self)@.section_chosen(),
    {
        let window = self.window();
        if window.sidebar_collapsed {
            self.set_window(Window { show_sidebar: false, ..window });
        }
    }

    pub(crate) fn toggle_sidebar(&mut self)
        ensures
            final(self)@ == old(self)@.sidebar_toggled(),
    {
        let window = self.window();
        let open = !window.show_sidebar;
        self.set_window(Window { show_sidebar: open, ..window });
        let mut settings = self.settings_copy();
        settings.show_sidebar = open;
        self.save_settings(settings);
    }

    pub(crate) fn window_shown(&mut self)
        ensures
            final(self)@ == old(self)@.with_window(
                Window { background: false, ..old(self)@.window },
            ),
    {
        let window = self.window();
        self.set_window(Window { background: false, ..window });
    }

    fn holds_queue(&self) -> (r: bool)
        ensures
            r == (self@.deck.player.queue.len() > 0),
    {
        proof {
            reveal(AppModel::seen);
        }
        self.deck.player.queue.len() > 0
    }

    /// Hide the window or close it, by whether anything is loaded.
    pub(crate) fn close_window(&mut self)
        ensures
            final(self)@ == old(self)@.close_asked(),
    {
        if self.holds_queue() {
            let window = self.window();
            self.set_window(Window { background: true, ..window });
            self.effect(Effect::HideWindow);
        } else {
            self.effect(Effect::CloseWindow);
        }
    }

    pub(crate) fn set_theme(&mut self, theme: Theme)
        ensures
            final(self)@ == old(self)@.themed(theme),
    {
        let mut settings = self.settings_copy();
        settings.theme = theme;
        self.effect(Effect::ApplyTheme);
        self.save_settings(settings);
    }

    pub(crate) fn set_accent(&mut self, accent: String)
        ensures
            final(self)@ == old(self)@.accented(accent@),
    {
        let mut settings = self.settings_copy();
        settings.accent = accent;
        self.save_settings(settings);
        self.effect(Effect::ApplyAccent);
    }

    pub(crate) fn set_notify(&mut self, on: bool)
        ensures
            final(self)@ == old(self)@.with_settings(
                SettingsView { notify_track_change: on, ..old(self)@.settings },
            ),
    {
        let mut settings = self.settings_copy();
        settings.notify_track_change = on;
        self.save_settings(settings);
    }

    /// What a sidebar row means. A position with no row means nothing: rows are
    /// rebuilt while one is still selected.
    pub fn sidebar_row_chosen(&mut self, rows: &[SidebarRow], index: i32)
        requires
            old(self)@.pages.next_id < u64::MAX,
        ensures
            final(self)@ == old(self)@.row_chosen(view::meanings(rows@), index as int),
    {
        proof {
            if 0 <= index < rows@.len() {
                assert(view::meanings(rows@)[index as int] == rows@[index as int]@);
            }
        }
        if index < 0 {
            return ;
        }
        let at: usize = index as usize;
        if at >= rows.len() {
            return ;
        }
        match &rows[at] {
            SidebarRow::Section(view) => self.effect(Effect::GoTo(*view)),
            SidebarRow::Pinned(id) => self.push_page(PageKind::LibraryPlaylist(id.clone())),
        }
    }

    /// The name to draw for a pin. `None` is a playlist deleted elsewhere, or a
    /// library that has not loaded yet; nothing is pruned on its account.
    pub fn pinned_name(&self, id: &str) -> (r: Option<&str>)
        ensures
            match r {
                Some(name) => match playlist_of(self@.shelf.playlists, id@, 0) {
                    Some(at) => name@ == self@.shelf.playlists[at].name@,
                    None => false,
                },
                None => playlist_of(self@.shelf.playlists, id@, 0) is None,
            },
    {
        proof {
            reveal(AppModel::seen);
        }
        let list = &self.shelf.playlists;
        let mut i: usize = 0;
        while i < list.len()
            invariant
                list@ == self@.shelf.playlists,
                playlist_of(list@, id@, 0) == playlist_of(list@, id@, i as int),
            decreases list@.len() - i,
        {
            if text::same(list[i].id.as_str(), id) {
                return Some(list[i].name.as_str());
            }
            i += 1;
        }
        None
    }
}

} // verus!
