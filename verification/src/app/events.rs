//! Folding everything the player's process says into the model.

use vstd::prelude::*;
use vstd::view::View as _;

use crate::app::model::{AppModel, AppView, CardView, Stage, StageView};
use crate::app::writes;
use crate::app::writes::{Patch, PendingWrite};
use crate::deck::{DeckView, Session, SessionView};
use crate::protocol::{Command, CommandView, PlayerEvent, PlayerState, PlayerView, Tokens};
use crate::text;
use crate::view::View;

verus! {

/// What is said when the service's page has changed under the player.
pub open spec fn cannot_attach(detail: Seq<char>) -> Seq<char> {
    "Apple Music changed and Tonearm can't attach to its player ("@ + detail
        + "). Tonearm needs an update."@
}

impl AppView {
    pub open spec fn in_stage(self, stage: StageView) -> AppView {
        AppView { stage, ..self }
    }

    /// The model in the stage that signing in or out leaves it in.
    pub open spec fn signed(self, authorized: bool) -> AppView {
        self.in_stage(
            if authorized {
                StageView::Ready
            } else {
                StageView::SignedOut
            },
        )
    }

    /// The model with a track changed wherever it is held.
    #[verifier::opaque]
    pub open spec fn patched(self, id: Seq<char>, patch: Patch) -> AppView {
        AppView {
            shelf: self.shelf.patched(id, patch),
            pages: self.pages.patched(id, patch),
            ..self
        }
    }

    /// The model with a write settled against the id it was sent under. A
    /// removal that was confirmed is when the row may leave; a refused change is
    /// put back, and said out loud.
    #[verifier::opaque]
    pub open spec fn write_settled(self, id: Seq<char>, ok: bool) -> AppView {
        match writes::awaited(self.pending, id) {
            Some(write) => {
                let base = AppView { pending: writes::settled(self.pending, id), ..self };
                if ok {
                    match write.undo {
                        Patch::InLibrary(_) => base.with_shelf(
                            self.shelf.without(write.catalog_id),
                        ),
                        Patch::Favorite(_) => base,
                    }
                } else {
                    let back = base.patched(write.catalog_id, write.undo);
                    match write.undo {
                        Patch::InLibrary(_) => back.toasting(
                            "Couldn't remove it from your library"@,
                        ),
                        Patch::Favorite(_) => back.toasting("Couldn't remove that favourite"@),
                    }
                }
            },
            None => self,
        }
    }

    /// The model with new tokens. Being authorized is being ready.
    pub open spec fn with_tokens(self, tokens: Tokens) -> AppView {
        AppView {
            tokens: Some(tokens),
            stage: if tokens.authorized {
                StageView::Ready
            } else {
                self.stage
            },
            ..self
        }
    }

    /// The model once it has taken in what an event says apart from the mirror.
    /// `moved` is whether a volume it carries differs from ours.
    #[verifier::opaque]
    pub open spec fn told(self, event: PlayerEvent, moved: bool) -> AppView {
        match event {
            PlayerEvent::Ready { .. } => AppView { restarts: 0, ..self },
            PlayerEvent::WidevineReady => self.in_stage(StageView::Connecting),
            PlayerEvent::HookReady { authorized } => self.signed(authorized),
            PlayerEvent::HookFailed { detail } => self.in_stage(
                StageView::Broken(cannot_attach(detail@)),
            ),
            PlayerEvent::Tokens(tokens) => self.with_tokens(tokens),
            PlayerEvent::Authorization { authorized } => if authorized {
                self.signed(true).sending(CommandView::Hide)
            } else {
                self.signed(false)
            },
            PlayerEvent::Error { detail } => self.refused(detail@),
            PlayerEvent::Volume { volume } => self.adopting_volume(volume, moved),
            PlayerEvent::LibraryWrite { kind, id, ok, detail } => self.write_settled(id@, ok),
            _ => self,
        }
    }

    /// The model with its mirror moved. The last item known is kept through a
    /// reload.
    #[verifier::opaque]
    pub open spec fn mirrored(self, player: PlayerView) -> AppView {
        let card = match player.now_playing {
            Some(item) => CardView { last_item: Some(item), ..self.card },
            None => self.card,
        };
        AppView { deck: DeckView { player, ..self.deck }, card, ..self }
    }

    /// The model with what goes with the current track brought up to date.
    #[verifier::opaque]
    pub open spec fn dressed(self, metadata_changed: bool) -> AppView {
        if metadata_changed {
            self.covered().marked().notified(self.cover_in_flight())
        } else {
            self
        }
    }

    /// The model with what was waiting on the mirror settled.
    #[verifier::opaque]
    pub open spec fn healed(self, event: PlayerEvent) -> AppView {
        let resumed = if event is NowPlaying {
            self.deck.resumed()
        } else {
            self.deck
        };
        let judged = match event {
            PlayerEvent::CmdDone { cmd } => resumed.judged(cmd@),
            _ => resumed,
        };
        self.with_deck(judged.verified())
    }

    /// The model with its queue on the way to being remembered, if another track
    /// than `before` is current. The way out might never come to run; so the worst
    /// case is the right track from its start.
    #[verifier::opaque]
    pub open spec fn remembering(self, before: Option<Seq<char>>) -> AppView {
        if self.playing() is Some && self.playing() != before {
            self.saving()
        } else {
            self
        }
    }

    /// Whether the songs are to be loaded without being asked for.
    pub open spec fn wants_songs(self) -> bool {
        self.stage == StageView::Ready && self.shelf.tracks.len() == 0 && !self.shelf.loading.songs
            && self.tokens is Some
    }

    /// Whether the last session is to be put back now.
    pub open spec fn wants_session(self) -> bool {
        self.stage == StageView::Ready && !self.restored && self.tokens is Some
    }

    /// The model with everything on its way that can be had now.
    #[verifier::opaque]
    pub open spec fn stocking(self, saved: Option<SessionView>) -> AppView {
        let songs = if self.wants_songs() {
            self.with_shelf(self.shelf.loading_songs(self.access()))
        } else {
            self
        };
        let back = if songs.wants_session() {
            let once = AppView { restored: true, ..songs };
            match saved {
                Some(session) => once.with_deck(once.deck.restoring(session)),
                None => once,
            }
        } else {
            songs
        };
        if back.stage == StageView::Ready {
            match back.shelf.view {
                View::Albums => back.with_shelf(back.shelf.loading_albums(back.access())),
                View::Artists => back.with_shelf(back.shelf.loading_artists(back.access())),
                View::Playlists => back.with_shelf(back.shelf.loading_playlists(back.access())),
                _ => back,
            }
        } else {
            back
        }
    }

    /// The model after an event. `player` is the mirror once the event has
    /// reached it.
    pub open spec fn after(
        self,
        event: PlayerEvent,
        player: PlayerView,
        metadata_changed: bool,
        moved: bool,
        saved: Option<SessionView>,
    ) -> AppView {
        self.told(event, moved).mirrored(player).dressed(
            metadata_changed,
        ).ticking().pushed().remembering(self.playing()).healed(event).stocking(saved)
    }
}

impl AppModel {
    pub(crate) fn enter(&mut self, stage: Stage)
        ensures
            final(self)@ == old(self)@.in_stage(stage@),
    {
        proof {
            reveal(AppModel::seen);
        }
        self.stage = stage;
    }

    fn sign(&mut self, authorized: bool)
        ensures
            final(self)@ == old(self)@.signed(authorized),
    {
        self.enter(
            if authorized {
                Stage::Ready
            } else {
                Stage::SignedOut
            },
        );
    }

    /// Change a track wherever it is held.
    pub(crate) fn patch(&mut self, id: &str, patch: Patch)
        ensures
            final(self)@ == old(self)@.patched(id@, patch),
    {
        proof {
            reveal(AppModel::seen);
            reveal(AppView::patched);
        }
        self.shelf.patch(id, patch);
        self.pages.patch(id, patch);
    }

    fn take_pending(&mut self, id: &str) -> (r: Option<PendingWrite>)
        ensures
            final(self)@ == (AppView {
                pending: writes::settled(old(self)@.pending, id@),
                ..old(self)@
            }),
            match r {
                Some(write) => writes::awaited(old(self)@.pending, id@) == Some(write@),
                None => writes::awaited(old(self)@.pending, id@) is None,
            },
    {
        proof {
            reveal(AppModel::seen);
        }
        self.pending.settle(id)
    }

    fn drop_track(&mut self, id: &str)
        ensures
            final(self)@ == old(self)@.with_shelf(old(self)@.shelf.without(id@)),
    {
        proof {
            reveal(AppModel::seen);
        }
        self.shelf.drop_removed_track(id);
    }

    /// Settle one library write against the id it was sent under, so that two
    /// in flight cannot be taken for each other.
    pub fn settle_library_write(&mut self, id: &str, ok: bool)
        ensures
            final(self)@ == old(self)@.write_settled(id@, ok),
    {
        proof {
            reveal(AppView::write_settled);
        }
        let write: PendingWrite = match self.take_pending(id) {
            Some(write) => write,
            None => {
                return ;
            },
        };
        if ok {
            if let Patch::InLibrary(_) = write.undo {
                self.drop_track(write.catalog_id.as_str());
            }
            return ;
        }
        self.patch(write.catalog_id.as_str(), write.undo);
        match write.undo {
            Patch::InLibrary(_) => self.toast("Couldn't remove it from your library"),
            Patch::Favorite(_) => self.toast("Couldn't remove that favourite"),
        }
    }

    fn take_tokens(&mut self, tokens: Tokens)
        ensures
            final(self)@ == old(self)@.with_tokens(tokens),
    {
        proof {
            reveal(AppModel::seen);
        }
        if tokens.authorized {
            self.stage = Stage::Ready;
        }
        self.tokens = Some(tokens);
    }

    fn reset_restarts(&mut self)
        ensures
            final(self)@ == (AppView { restarts: 0, ..old(self)@ }),
    {
        proof {
            reveal(AppModel::seen);
        }
        self.restarts = 0;
    }

    fn take_in(&mut self, event: &PlayerEvent, moved: bool)
        ensures
            final(self)@ == old(self)@.told(*event, moved),
    {
        proof {
            reveal(AppView::told);
        }
        match event {
            PlayerEvent::Ready { debug: _ } => self.reset_restarts(),
            PlayerEvent::WidevineReady => self.enter(Stage::Connecting),
            PlayerEvent::HookReady { authorized } => self.sign(*authorized),
            PlayerEvent::HookFailed { detail } => {
                let mut words = "Apple Music changed and Tonearm can't attach to its player (".to_string();
                words.append(detail.as_str());
                words.append("). Tonearm needs an update.");
                self.enter(Stage::Broken(words));
            },
            PlayerEvent::Tokens(tokens) => self.take_tokens(tokens.clone()),
            PlayerEvent::Authorization { authorized } => {
                self.sign(*authorized);
                if *authorized {
                    self.send(Command::Hide);
                }
            },
            PlayerEvent::Error { detail } => self.retry_without_dead_tracks(detail.as_str()),
            PlayerEvent::Volume { volume } => self.adopt_volume(*volume, moved),
            PlayerEvent::LibraryWrite { kind: _, id, ok, detail: _ } => self.settle_library_write(
                id.as_str(),
                *ok,
            ),
            _ => {},
        }
    }

    fn mirror(&mut self, player: PlayerState)
        ensures
            final(self)@ == old(self)@.mirrored(player@),
    {
        proof {
            reveal(AppModel::seen);
            reveal(AppView::mirrored);
        }
        if let Some(item) = &player.now_playing {
            self.card.last_item = Some(item.clone());
        }
        self.deck.player = player;
    }

    fn dress(&mut self, metadata_changed: bool)
        ensures
            final(self)@ == old(self)@.dressed(metadata_changed),
    {
        proof {
            reveal(AppView::dressed);
        }
        if metadata_changed {
            let artwork_in_flight = self.sync_artwork();
            self.mark_now_playing();
            self.maybe_notify(artwork_in_flight);
        }
    }

    fn heal(&mut self, event: &PlayerEvent)
        ensures
            final(self)@ == old(self)@.healed(*event),
    {
        proof {
            reveal(AppModel::seen);
            reveal(AppView::healed);
        }
        match event {
            PlayerEvent::NowPlaying => self.deck.resume_position(),
            PlayerEvent::CmdDone { cmd } => self.deck.play_did_nothing(cmd.as_str()),
            _ => {},
        }
        self.deck.verify_start();
    }

    fn want_songs(&self) -> (r: bool)
        ensures
            r == self@.wants_songs(),
    {
        proof {
            reveal(AppModel::seen);
        }
        self.stage.is_ready() && self.shelf.tracks.len() == 0 && !self.shelf.loading.songs
            && self.tokens.is_some()
    }

    fn want_session(&self) -> (r: bool)
        ensures
            r == self@.wants_session(),
    {
        proof {
            reveal(AppModel::seen);
        }
        self.stage.is_ready() && !self.restored && self.tokens.is_some()
    }

    pub(crate) fn load_songs(&mut self)
        ensures
            final(self)@ == old(self)@.with_shelf(
                old(self)@.shelf.loading_songs(old(self)@.access()),
            ),
    {
        proof {
            reveal(AppModel::seen);
        }
        let access = self.access();
        self.shelf.load_songs(access);
    }

    fn restore(&mut self, saved: Option<Session>)
        ensures
            final(self)@ == ({
                let once = AppView { restored: true, ..old(self)@ };
                match saved {
                    Some(session) => once.with_deck(once.deck.restoring(session@)),
                    None => once,
                }
            }),
    {
        proof {
            reveal(AppModel::seen);
        }
        self.restored = true;
        if let Some(session) = saved {
            self.deck.restore_session(session);
        }
    }

    fn load_section(&mut self)
        ensures
            final(self)@ == (match old(self)@.shelf.view {
                View::Albums => old(self)@.with_shelf(
                    old(self)@.shelf.loading_albums(old(self)@.access()),
                ),
                View::Artists => old(self)@.with_shelf(
                    old(self)@.shelf.loading_artists(old(self)@.access()),
                ),
                View::Playlists => old(self)@.with_shelf(
                    old(self)@.shelf.loading_playlists(old(self)@.access()),
                ),
                _ => old(self)@,
            }),
    {
        proof {
            reveal(AppModel::seen);
        }
        let access = self.access();
        match self.shelf.view {
            View::Albums => self.shelf.load_albums(access),
            View::Artists => self.shelf.load_artists(access),
            View::Playlists => self.shelf.load_playlists(access),
            _ => {},
        }
    }

    pub(crate) fn is_ready(&self) -> (r: bool)
        ensures
            r == (self@.stage == StageView::Ready),
    {
        proof {
            reveal(AppModel::seen);
        }
        self.stage.is_ready()
    }

    fn stock(&mut self, saved: Option<Session>)
        ensures
            final(self)@ == old(self)@.stocking(
                match saved {
                    Some(session) => Some(session@),
                    None => None,
                },
            ),
    {
        proof {
            reveal(AppView::stocking);
        }
        if self.want_songs() {
            self.load_songs();
        }
        if self.want_session() {
            self.restore(saved);
        }
        if self.is_ready() {
            self.load_section();
        }
    }

    fn remember(&mut self, before: &Option<String>)
        ensures
            final(self)@ == old(self)@.remembering(text::text_view(*before)),
    {
        proof {
            reveal(AppView::remembering);
        }
        let now = self.playing_catalog_id();
        if now.is_some() && !text::same_option(&now, before) {
            self.save_session();
        }
    }

    /// Whether an event would have the last session put back, so that it has to
    /// be at hand.
    pub fn awaits_session(&self) -> (r: bool)
        ensures
            r == !self@.restored,
    {
        proof {
            reveal(AppModel::seen);
        }
        !self.restored
    }

    /// Take in an event.
    ///
    /// `player` is the mirror once the event has reached it, and
    /// `metadata_changed` is whether that changed anything but the position.
    /// Stages move before the mirror does; everything derived from the mirror
    /// happens after it, in one place.
    pub fn on_event(
        &mut self,
        event: PlayerEvent,
        player: PlayerState,
        metadata_changed: bool,
        moved: bool,
        saved: Option<Session>,
    )
        ensures
            final(self)@ == old(self)@.after(
                event,
                player@,
                metadata_changed,
                moved,
                match saved {
                    Some(session) => Some(session@),
                    None => None,
                },
            ),
    {
        let before = self.playing_catalog_id();
        self.take_in(&event, moved);
        self.mirror(player);
        self.dress(metadata_changed);
        self.sync_tick();
        self.push_snapshot();
        self.remember(&before);
        self.heal(&event);
        self.stock(saved);
    }
}

} // verus!
