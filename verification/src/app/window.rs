//! Bringing the model up, and what is drawn after each step it takes.

use vstd::prelude::*;
use vstd::view::View as _;

use crate::app::commands::CommandMsg;
use crate::app::handle::AppMsg;
use crate::app::model;
use crate::app::model::{
    Animated,
    AppModel,
    AppView,
    Card,
    CardView,
    Effect,
    EffectView,
    Settings,
    SettingsView,
    Stage,
    StageView,
    Window,
};
use crate::app::pages::{Pages, PagesView};
use crate::app::shelf::{Shelf, ShelfView};
use crate::app::writes::Pending;
use crate::deck::{Deck, DeckView, Session};
use crate::ids::IdSet;
use crate::library;
use crate::protocol::{PlayerEvent, PlayerState};
use crate::view::{Sort, SortBy, Sorts, View};
use crate::volume::FULL_VOLUME;

verus! {

/// The sorts a settings file stands for. One that a section does not offer
/// falls back to that section's first.
pub open spec fn sorts_read(settings: SettingsView) -> Sorts {
    Sorts {
        songs: Sort {
            by: SortBy::named(settings.sort).fitting(View::Songs),
            reversed: settings.sort_reversed,
        },
        albums: Sort {
            by: SortBy::named(settings.album_sort).fitting(View::Albums),
            reversed: settings.album_sort_reversed,
        },
        artists: Sort {
            by: SortBy::named(settings.artist_sort).fitting(View::Artists),
            reversed: settings.artist_sort_reversed,
        },
        playlists: Sort {
            by: SortBy::named(settings.playlist_sort).fitting(View::Playlists),
            reversed: settings.playlist_sort_reversed,
        },
    }
}

/// The window as it opens.
pub open spec fn first_window(settings: SettingsView) -> Window {
    Window {
        show_queue: false,
        show_sidebar: settings.show_sidebar,
        sidebar_collapsed: false,
        narrow: false,
        background: false,
        onboarding: false,
        shown: None,
        osd_shown: false,
        osd_generation: 0,
    }
}

/// What goes with the current track, before there is one.
pub open spec fn first_card() -> CardView {
    CardView {
        volume: FULL_VOLUME,
        art_path: None,
        art_for: None,
        last_item: None,
        notified_for: None,
        notify_when_art_lands: None,
        ticking: false,
        pending_move: None,
    }
}

impl AppView {
    /// The model as it starts.
    pub open spec fn fresh(settings: SettingsView, dead: Set<Seq<char>>) -> AppView {
        AppView {
            stage: StageView::Starting,
            deck: DeckView::fresh(dead, false),
            shelf: ShelfView::fresh(settings.section.shown(), sorts_read(settings)),
            pages: PagesView { stack: Seq::empty(), next_id: 1, todo: Seq::empty() },
            pending: Seq::empty(),
            window: first_window(settings),
            card: first_card(),
            settings,
            tokens: None,
            restarts: 0,
            restored: false,
            tiles_pending: Seq::empty(),
            effects: Seq::empty(),
        }
    }

    /// What is drawn with an animation, as it should be.
    pub open spec fn animated(self) -> Animated {
        Animated {
            sidebar: self.window.show_sidebar,
            queue: self.window.show_queue,
            bottom_bar: self.stage == StageView::Ready,
        }
    }

    /// The model with its animated widgets told, each only where it changed
    /// since it was last told.
    #[verifier::opaque]
    pub open spec fn animating(self) -> AppView {
        let now = self.animated();
        let last = self.window.shown;
        let sidebar = if last is None || last->0.sidebar != now.sidebar {
            self.effecting(EffectView::SetSidebar(now.sidebar))
        } else {
            self
        };
        let queue = if last is None || last->0.queue != now.queue {
            sidebar.effecting(EffectView::SetQueue(now.queue))
        } else {
            sidebar
        };
        let bar = if last is None || last->0.bottom_bar != now.bottom_bar {
            queue.effecting(EffectView::SetBottomBar(now.bottom_bar))
        } else {
            queue
        };
        bar.with_window(Window { shown: Some(now), ..self.window })
    }

    /// The model with its first-run gate up exactly while nobody is signed in.
    #[verifier::opaque]
    pub open spec fn gated(self) -> AppView {
        let gate = self.stage == StageView::SignedOut;
        if gate && !self.window.onboarding {
            self.with_window(Window { onboarding: true, ..self.window }).effecting(
                EffectView::PresentOnboarding,
            )
        } else if !gate && self.window.onboarding {
            self.with_window(Window { onboarding: false, ..self.window }).effecting(
                EffectView::CloseOnboarding,
            )
        } else {
            self
        }
    }

    /// The model with the search box showing the query of its scope, once the
    /// section moved.
    pub open spec fn refilled(self, before: View) -> AppView {
        if self.shelf.view != before {
            self.effecting(EffectView::SearchText(self.shelf.query()))
        } else {
            self
        }
    }

    /// The model with everything drawn that a step from `before` may have moved.
    pub open spec fn drawn(self, before: View) -> AppView {
        self.gated().animating().refilled(before)
    }
}

impl Settings {
    fn sorts(&self) -> (r: Sorts)
        ensures
            r == sorts_read(self@),
    {
        Sorts {
            songs: Sort {
                by: SortBy::parse(self.sort.as_str()).valid_for(View::Songs),
                reversed: self.sort_reversed,
            },
            albums: Sort {
                by: SortBy::parse(self.album_sort.as_str()).valid_for(View::Albums),
                reversed: self.album_sort_reversed,
            },
            artists: Sort {
                by: SortBy::parse(self.artist_sort.as_str()).valid_for(View::Artists),
                reversed: self.artist_sort_reversed,
            },
            playlists: Sort {
                by: SortBy::parse(self.playlist_sort.as_str()).valid_for(View::Playlists),
                reversed: self.playlist_sort_reversed,
            },
        }
    }
}

impl AppModel {
    /// The model as it starts. What is known to be dead is known from the first
    /// play on.
    pub fn new(settings: Settings, dead_ids: IdSet) -> (r: Self)
        ensures
            r@ == AppView::fresh(settings@, dead_ids@),
    {
        let r = AppModel {
            stage: Stage::Starting,
            deck: Deck::new(dead_ids, false),
            shelf: Shelf::new(View::from(settings.section), settings.sorts()),
            pages: Pages::new(),
            pending: Pending::new(),
            window: Window {
                show_queue: false,
                show_sidebar: settings.show_sidebar,
                sidebar_collapsed: false,
                narrow: false,
                background: false,
                onboarding: false,
                shown: None,
                osd_shown: false,
                osd_generation: 0,
            },
            card: Card {
                volume: FULL_VOLUME,
                art_path: None,
                art_for: None,
                last_item: None,
                notified_for: None,
                notify_when_art_lands: None,
                ticking: false,
                pending_move: None,
            },
            settings,
            tokens: None,
            restarts: 0,
            restored: false,
            tiles_pending: Vec::new(),
            effects: Vec::new(),
        };
        proof {
            reveal(AppModel::seen);
            reveal(model::effects_of);
            assert(r@.card =~= first_card());
            assert(r@.tiles_pending =~= Seq::<Seq<char>>::empty());
            assert(r@.effects =~= Seq::<EffectView>::empty());
        }
        r
    }

    /// Push the three animated properties, and **only where they changed**.
    ///
    /// Writing one starts or re-aims an animation: correct on an edge, ruinous
    /// on a level. Held against what was last written, never against the widget.
    pub fn sync_animated(&mut self)
        ensures
            final(self)@ == old(self)@.animating(),
    {
        proof {
            reveal(AppView::animating);
        }
        let window = self.window();
        let now = Animated {
            sidebar: window.show_sidebar,
            queue: window.show_queue,
            bottom_bar: self.is_ready(),
        };
        let (sidebar, queue, bottom_bar): (bool, bool, bool) = match window.shown {
            Some(last) => (
                last.sidebar != now.sidebar,
                last.queue != now.queue,
                last.bottom_bar != now.bottom_bar,
            ),
            None => (true, true, true),
        };
        if sidebar {
            self.effect(Effect::SetSidebar(now.sidebar));
        }
        if queue {
            self.effect(Effect::SetQueue(now.queue));
        }
        if bottom_bar {
            self.effect(Effect::SetBottomBar(now.bottom_bar));
        }
        self.set_window(Window { shown: Some(now), ..window });
    }

    fn is_signed_out(&self) -> (r: bool)
        ensures
            r == (self@.stage == StageView::SignedOut),
    {
        proof {
            reveal(AppModel::seen);
        }
        match self.stage {
            Stage::SignedOut => true,
            _ => false,
        }
    }

    /// Put the first-run gate up or take it down, to match the session. From one
    /// place, because the stage is changed from several.
    pub fn sync_onboarding(&mut self)
        ensures
            final(self)@ == old(self)@.gated(),
    {
        proof {
            reveal(AppView::gated);
        }
        let gate = self.is_signed_out();
        let window = self.window();
        if gate && !window.onboarding {
            self.set_window(Window { onboarding: true, ..window });
            self.effect(Effect::PresentOnboarding);
        } else if !gate && window.onboarding {
            self.set_window(Window { onboarding: false, ..window });
            self.effect(Effect::CloseOnboarding);
        }
    }

    fn query_copy(&self) -> (r: String)
        ensures
            r@ == self@.shelf.query(),
    {
        proof {
            reveal(AppModel::seen);
        }
        self.shelf.query().to_string()
    }

    fn refill_search(&mut self, before: View)
        ensures
            final(self)@ == old(self)@.refilled(before),
    {
        if self.section() != before {
            let query = self.query_copy();
            self.effect(Effect::SearchText(query));
        }
    }

    fn draw(&mut self, before: View)
        ensures
            final(self)@ == old(self)@.drawn(before),
    {
        self.sync_onboarding();
        self.sync_animated();
        self.refill_search(before);
    }

    /// Do what a message asks, and draw what that moved.
    pub fn update(&mut self, msg: AppMsg)
        requires
            msg is OpenPage ==> old(self)@.pages.next_id < u64::MAX,
        ensures
            final(self)@ == old(self)@.handling(msg).drawn(old(self)@.shelf.view),
    {
        let before = self.section();
        self.handle(msg);
        self.draw(before);
    }

    /// Take in an answer, and draw what that moved.
    pub fn update_cmd(&mut self, msg: CommandMsg)
        requires
            msg is Died ==> old(self)@.restarts < u32::MAX,
            msg matches CommandMsg::Catalog { generation, offset, result: Ok(found) } ==> offset
                != 0 && generation == old(self)@.shelf.search_gen ==> old(
                self,
            )@.shelf.catalog_paged + library::paged_by(old(self)@.shelf.catalog_filter, found)
                <= usize::MAX,
        ensures
            final(self)@ == old(self)@.answering(msg).gated().animating(),
    {
        self.handle_cmd(msg);
        self.sync_onboarding();
        self.sync_animated();
    }

    /// Take in an event of the player's, and draw what that moved.
    pub fn update_event(
        &mut self,
        event: PlayerEvent,
        player: PlayerState,
        metadata_changed: bool,
        moved: bool,
        saved: Option<Session>,
    )
        ensures
            final(self)@ == old(self)@.after(
                event,
                player@,
                metadata_changed,
                moved,
                match saved {
                    Some(session) => Some(session@),
                    None => None,
                },
            ).gated().animating(),
    {
        self.on_event(event, player, metadata_changed, moved, saved);
        self.sync_onboarding();
        self.sync_animated();
    }

    /// The way out. What announces a track must not outlive the player of it,
    /// and only here is the position accurate.
    pub fn shutdown(&mut self)
        ensures
            final(self)@ == old(self)@.effecting(EffectView::WithdrawNotification).saving(),
    {
        self.effect(Effect::WithdrawNotification);
        self.save_session();
    }
}

} // verus!
