//! Pushing the mirrored player outwards: to the bar, to the bus, to the
//! notification and to the cover. Nothing here decides anything about playback;
//! it decides how playback is *shown*.

use vstd::prelude::*;
use vstd::view::View as _;

use crate::app::model;
use crate::app::model::{
    AppModel,
    AppView,
    Bar,
    BarView,
    CardView,
    Effect,
    EffectView,
    QueueEntry,
    QueueEntryView,
    Shown,
    ShownView,
};
use crate::app::shelf::{Access, ShelfView};
use crate::daemon;
use crate::deck::{DeckView, Retry};
use crate::mpris::{MprisState, MprisView};
use crate::music::Entry;
use crate::protocol::{Command, CommandView, Item};
use crate::queue;
use crate::queue::Start;
use crate::text;
use crate::volume;

verus! {

/// How far into a track "Previous" restarts it rather than going back one.
pub const RESTART_BEFORE_MS: u64 = 3_000;

/// What a press of Previous should actually do.
#[derive(Debug, Clone, Copy, PartialEq, Eq, Structural)]
pub enum Previous {
    /// Back to the start of what is playing.
    Restart,
    /// Back one track in the queue.
    Track,
}

/// Which of the two a press means, from how far into the track it lands.
pub fn previous_means(position_ms: u64) -> (r: Previous)
    ensures
        r == if position_ms >= RESTART_BEFORE_MS {
            Previous::Restart
        } else {
            Previous::Track
        },
{
    if position_ms >= RESTART_BEFORE_MS {
        Previous::Restart
    } else {
        Previous::Track
    }
}

/// A row of the queue, as it is shown.
pub open spec fn entry_at(queue: Seq<Item>, at: int) -> QueueEntryView {
    let item = queue[at];
    QueueEntryView {
        at,
        id: match item.key() {
            Some(id) => id,
            None => Seq::empty(),
        },
        catalog_id: text::text_view(item.catalog_id),
        title: item.title@,
        artist: item.artist@,
        duration_ms: item.duration_ms,
    }
}

/// The rows of the queue, as they are shown.
pub open spec fn entries_of(queue: Seq<Item>) -> Seq<QueueEntryView> {
    Seq::new(queue.len(), |at: int| entry_at(queue, at))
}

impl AppView {
    pub open spec fn effecting(self, effect: EffectView) -> AppView {
        AppView { effects: self.effects.push(effect), ..self }
    }

    pub open spec fn toasting(self, words: Seq<char>) -> AppView {
        self.effecting(EffectView::Toast(words))
    }

    pub open spec fn with_deck(self, deck: DeckView) -> AppView {
        AppView { deck, ..self }
    }

    pub open spec fn with_shelf(self, shelf: ShelfView) -> AppView {
        AppView { shelf, ..self }
    }

    pub open spec fn with_card(self, card: CardView) -> AppView {
        AppView { card, ..self }
    }

    pub open spec fn sending(self, command: CommandView) -> AppView {
        self.with_deck(self.deck.sending(command))
    }

    /// How much of the service can be reached.
    pub open spec fn access(self) -> Access {
        match self.tokens {
            Some(tokens) => if tokens.music_user_token is Some {
                Access::Member
            } else {
                Access::Guest
            },
            None => Access::Away,
        }
    }

    /// The id of the track the player is on, if any.
    pub open spec fn playing(self) -> Option<Seq<char>> {
        self.deck.player.playing_key()
    }

    /// What the bar should be showing, which is not always what the player says
    /// is playing *right now*: while a queue is loaded, its own current entry,
    /// or the last track known.
    #[verifier::opaque]
    pub open spec fn on_show(self) -> Option<Item> {
        let player = self.deck.player;
        if player.now_playing is Some {
            player.now_playing
        } else if 0 <= player.queue_position < player.queue.len() {
            Some(player.queue[player.queue_position])
        } else if player.queue.len() > 0 {
            self.card.last_item
        } else {
            None
        }
    }

    /// What the bar and the drawer draw.
    pub open spec fn bar(self) -> BarView {
        let player = self.deck.player;
        let item = self.on_show();
        BarView {
            shuffle: player.shuffle,
            queue_open: self.window.show_queue,
            narrow: self.window.narrow,
            repeat: player.repeat,
            volume: self.card.volume,
            title: daemon::title_of(item),
            artist: daemon::artist_of(item),
            album: daemon::album_of(item),
            position_ms: player.position_ms,
            duration_ms: player.duration_ms,
            playing: player.playing,
            busy: player.busy,
            has_next: player.has_next,
            has_previous: player.has_previous,
            active: item is Some,
        }
    }

    /// What the bus is told.
    pub open spec fn bus(self) -> MprisView {
        let player = self.deck.player;
        let item = self.on_show();
        MprisView {
            track_id: match item {
                Some(item) => item.key(),
                None => None,
            },
            title: daemon::title_of(item),
            artist: daemon::artist_of(item),
            album: daemon::album_of(item),
            track_number: match item {
                Some(item) => item.track_number,
                None => 0,
            },
            art_path: self.card.art_path,
            length_ms: player.duration_ms,
            position_ms: player.interpolated_ms,
            playing: player.playing,
            stopped: item is None,
            can_next: player.has_next,
            can_previous: player.has_previous,
            volume: self.card.volume,
            shuffle: player.shuffle,
            repeat: player.repeat,
        }
    }

    /// The player as everything is shown it.
    #[verifier::opaque]
    pub open spec fn snapshot(self) -> ShownView {
        ShownView {
            bar: self.bar(),
            queue: entries_of(self.deck.player.queue),
            current: if self.deck.player.queue.len() > 0 {
                Some(self.deck.player.queue_position)
            } else {
                None
            },
            bus: self.bus(),
        }
    }

    /// The model with the player on its way to being drawn.
    #[verifier::opaque]
    pub open spec fn pushed(self) -> AppView {
        self.effecting(EffectView::Show(self.snapshot()))
    }

    /// The model with another volume, told to the player. `moved` is whether it
    /// differs from the last by more than rounding, once it is in the range.
    #[verifier::opaque]
    pub open spec fn at_volume(self, volume: u64, moved: bool) -> AppView {
        if moved {
            self.with_card(CardView { volume: volume::clamped(volume), ..self.card }).sending(
                CommandView::SetVolume { volume: volume::clamped(volume) },
            ).pushed()
        } else {
            self
        }
    }

    /// The model with the volume the player says it has. Nothing is said back.
    #[verifier::opaque]
    pub open spec fn adopting_volume(self, volume: u64, moved: bool) -> AppView {
        if moved {
            self.with_card(CardView { volume: volume::clamped(volume), ..self.card }).pushed()
        } else {
            self
        }
    }

    /// The model with its repaint timer running exactly while something plays.
    #[verifier::opaque]
    pub open spec fn ticking(self) -> AppView {
        let want = self.deck.player.playing;
        if want && !self.card.ticking {
            self.with_card(CardView { ticking: true, ..self.card }).effecting(
                EffectView::StartTicking,
            )
        } else if !want && self.card.ticking {
            self.with_card(CardView { ticking: false, ..self.card }).effecting(
                EffectView::StopTicking,
            )
        } else {
            self
        }
    }

    /// The cover of what is on show, as a template.
    pub open spec fn wanted_cover(self) -> Option<Seq<char>> {
        match self.on_show() {
            Some(item) => text::text_view(item.artwork_template),
            None => None,
        }
    }

    /// Whether a cover has to be fetched.
    pub open spec fn cover_in_flight(self) -> bool {
        self.wanted_cover() != self.card.art_for && self.wanted_cover() is Some
    }

    /// The model with the cover of what is on show on its way, at most once per
    /// template.
    #[verifier::opaque]
    pub open spec fn covered(self) -> AppView {
        let template = self.wanted_cover();
        if template == self.card.art_for {
            self
        } else {
            match template {
                Some(template) => self.with_card(
                    CardView { art_for: Some(template), ..self.card },
                ).effecting(EffectView::FetchCover { template }),
                None => self.with_card(
                    CardView { art_for: None, art_path: None, ..self.card },
                ).effecting(EffectView::Cover(None)),
            }
        }
    }

    /// The model with its play marker on the track that plays.
    #[verifier::opaque]
    pub open spec fn marked(self) -> AppView {
        if self.playing() == self.shelf.marked {
            self
        } else {
            self.with_shelf(ShelfView { marked: self.playing(), ..self.shelf }).effecting(
                EffectView::Mark { from: self.shelf.marked, to: self.playing() },
            )
        }
    }

    /// The model with the current track announced, if there is one.
    #[verifier::opaque]
    pub open spec fn announced(self) -> AppView {
        let waiting = self.with_card(CardView { notify_when_art_lands: None, ..self.card });
        match self.deck.player.now_playing {
            Some(item) => waiting.effecting(
                EffectView::Notify {
                    title: item.title@,
                    artist: item.artist@,
                    art_path: self.card.art_path,
                },
            ),
            None => waiting,
        }
    }

    /// The model with a new track announced, if the user asked for that and it
    /// is new. One whose cover is on its way waits for it.
    #[verifier::opaque]
    pub open spec fn notified(self, artwork_in_flight: bool) -> AppView {
        let current = self.playing();
        if !self.settings.notify_track_change {
            self.with_card(CardView { notified_for: current, ..self.card })
        } else if current is None || current == self.card.notified_for {
            self
        } else if artwork_in_flight {
            self.with_card(
                CardView { notified_for: current, notify_when_art_lands: current, ..self.card },
            )
        } else {
            self.with_card(CardView { notified_for: current, ..self.card }).announced()
        }
    }

    /// The model with a refused reorder put back where it came from.
    #[verifier::opaque]
    pub open spec fn move_undone(self) -> AppView {
        match self.card.pending_move {
            Some((from, to)) => self.with_card(
                CardView { pending_move: None, ..self.card },
            ).with_deck(
                DeckView {
                    player: self.deck.player.after_move(to as int, from as int),
                    ..self.deck
                },
            ).pushed().toasting("Couldn't reorder the queue"@),
            None => self,
        }
    }

    /// The model with a row of its queue moved, ahead of the player's answer.
    #[verifier::opaque]
    pub open spec fn reordered(self, from: usize, to: usize) -> AppView {
        if from < self.deck.player.queue.len() && to < self.deck.player.queue.len() {
            self.with_deck(
                DeckView {
                    player: self.deck.player.after_move(from as int, to as int),
                    ..self.deck
                },
            ).with_card(CardView { pending_move: Some((from, to)), ..self.card }).sending(CommandView::MoveInQueue { from: from as int, to: to as int }).pushed()
        } else {
            self
        }
    }

    /// The model after a press of Previous: the first restarts, the second goes
    /// back.
    #[verifier::opaque]
    pub open spec fn went_previous(self) -> AppView {
        if self.deck.player.interpolated_ms >= RESTART_BEFORE_MS {
            self.sending(CommandView::Seek { position_ms: 0 }).effecting(EffectView::Seeked(0))
        } else {
            self.sending(CommandView::Previous)
        }
    }

    /// The model with a list played from a row, or with word that none of it
    /// can be.
    #[verifier::opaque]
    pub open spec fn playing_list(self, entries: Seq<Entry>, row: int, start: Start) -> AppView {
        if queue::queued(queue::slots(entries), self.deck.dead).len() == 0 {
            self.toasting("Nothing here can be streamed"@)
        } else {
            self.with_deck(self.deck.playing_list(queue::slots(entries), row, start))
        }
    }

    /// The model after the player refused something.
    #[verifier::opaque]
    pub open spec fn refused(self, detail: Seq<char>) -> AppView {
        let after = self.with_deck(self.deck.retrying(detail, true));
        match self.deck.refused(detail) {
            Retry::NotOurs => after.toasting(detail),
            Retry::NothingLeft => after.effecting(EffectView::SaveDead).toasting(
                "None of these tracks are available to stream"@,
            ),
            Retry::Resent => after.effecting(EffectView::SaveDead).effecting(
                EffectView::DrawDead,
            ),
        }
    }

    /// The model with its queue on the way to being remembered.
    #[verifier::opaque]
    pub open spec fn saving(self) -> AppView {
        match self.deck.session() {
            Some(session) => self.effecting(EffectView::SaveSession(session)),
            None => self.effecting(EffectView::ClearSession),
        }
    }
}

impl AppModel {
    pub(crate) fn effect(&mut self, effect: Effect)
        ensures
            final(self)@ == old(self)@.effecting(effect@),
    {
        proof {
            reveal(AppModel::seen);
            reveal(model::effects_of);
        }
        let ghost before = model::effects_of(self.effects@);
        let ghost more = effect@;
        self.effects.push(effect);
        proof {
            assert(model::effects_of(self.effects@) =~= before.push(more));
        }
    }

    pub(crate) fn toast(&mut self, words: &str)
        ensures
            final(self)@ == old(self)@.toasting(words@),
    {
        self.effect(Effect::Toast(words.to_string()));
    }

    /// Tell the player something.
    pub fn send(&mut self, command: Command)
        ensures
            final(self)@ == old(self)@.sending(command@),
    {
        proof {
            reveal(AppModel::seen);
        }
        self.deck.send(command);
    }

    /// How much of the service can be reached.
    pub fn access(&self) -> (r: Access)
        ensures
            r == self@.access(),
    {
        proof {
            reveal(AppModel::seen);
        }
        match &self.tokens {
            Some(tokens) => if tokens.music_user_token.is_some() {
                Access::Member
            } else {
                Access::Guest
            },
            None => Access::Away,
        }
    }

    /// The id of the track the player is on, if any.
    pub fn playing_catalog_id(&self) -> (r: Option<String>)
        ensures
            text::text_view(r) == self@.playing(),
    {
        proof {
            reveal(AppModel::seen);
        }
        self.deck.player.playing_catalog_id()
    }

    /// What the bar should be showing.
    pub fn showing(&self) -> (r: Option<Item>)
        ensures
            r == self@.on_show(),
    {
        proof {
            reveal(AppModel::seen);
            reveal(AppView::on_show);
        }
        let player = &self.deck.player;
        if player.now_playing.is_some() {
            return player.now_playing.clone();
        }
        if player.queue_position < player.queue.len() {
            return Some(player.queue[player.queue_position].clone());
        }
        if player.queue.len() > 0 {
            return self.card.last_item.clone();
        }
        None
    }

    fn queue_entries(&self) -> (r: Vec<QueueEntry>)
        ensures
            model::queue_entries(r@) == entries_of(self@.deck.player.queue),
    {
        proof {
            reveal(AppModel::seen);
        }
        let items = &self.deck.player.queue;
        let ghost all = entries_of(items@);
        let mut rows: Vec<QueueEntry> = Vec::new();
        let mut i: usize = 0;
        proof {
            assert(model::queue_entries(rows@) =~= all.take(0));
        }
        while i < items.len()
            invariant
                i <= items@.len(),
                all == entries_of(items@),
                model::queue_entries(rows@) == all.take(i as int),
            decreases items@.len() - i,
        {
            let id: String = match items[i].song_id() {
                Some(id) => id.clone(),
                None => String::new(),
            };
            let ghost so_far = model::queue_entries(rows@);
            let row = QueueEntry {
                at: i,
                id,
                catalog_id: items[i].catalog_id.clone(),
                title: items[i].title.clone(),
                artist: items[i].artist.clone(),
                duration_ms: items[i].duration_ms,
            };
            let ghost shown = row@;
            rows.push(row);
            proof {
                assert(shown =~= all[i as int]);
                assert(model::queue_entries(rows@) =~= so_far.push(shown));
                assert(all.take(i + 1) =~= so_far.push(shown));
            }
            i += 1;
        }
        proof {
            assert(all.take(i as int) =~= all);
        }
        rows
    }

    /// Flatten the player into what everything draws.
    ///
    /// Both shapes of the player, the queue and the bus get the same state:
    /// deriving one separately is how two views of one thing come to disagree.
    pub fn snapshot(&self) -> (r: Shown)
        ensures
            r@ == self@.snapshot(),
    {
        proof {
            reveal(AppModel::seen);
            reveal(AppView::snapshot);
        }
        let player = &self.deck.player;
        let item = self.showing();
        let (title, artist, album) = daemon::item_texts(&item);
        let bar = Bar {
            shuffle: player.shuffle,
            queue_open: self.window.show_queue,
            narrow: self.window.narrow,
            repeat: player.repeat,
            volume: self.card.volume,
            title: title.clone(),
            artist: artist.clone(),
            album: album.clone(),
            position_ms: player.position_ms,
            duration_ms: player.duration_ms,
            playing: player.playing,
            busy: player.busy,
            has_next: player.has_next,
            has_previous: player.has_previous,
            active: item.is_some(),
        };
        let current: Option<usize> = if player.queue.len() > 0 {
            Some(player.queue_position)
        } else {
            None
        };
        let (track_id, track_number): (Option<String>, u32) = match &item {
            Some(item) => (
                match item.song_id() {
                    Some(id) => Some(id.clone()),
                    None => None,
                },
                item.track_number,
            ),
            None => (None, 0),
        };
        let bus = MprisState {
            track_id,
            title,
            artist,
            album,
            track_number,
            art_path: self.card.art_path.clone(),
            length_ms: player.duration_ms,
            position_ms: player.interpolated_ms,
            playing: player.playing,
            stopped: item.is_none(),
            can_next: player.has_next,
            can_previous: player.has_previous,
            volume: self.card.volume,
            shuffle: player.shuffle,
            repeat: player.repeat,
        };
        Shown { bar, queue: self.queue_entries(), current, bus }
    }

    /// Draw the player, after every event that could change it and on each tick.
    pub fn push_snapshot(&mut self)
        ensures
            final(self)@ == old(self)@.pushed(),
    {
        proof {
            reveal(AppView::pushed);
        }
        let shown = self.snapshot();
        self.effect(Effect::Show(shown));
    }

    fn set_card_volume(&mut self, volume: u64)
        ensures
            final(self)@ == old(self)@.with_card(CardView { volume, ..old(self)@.card }),
    {
        proof {
            reveal(AppModel::seen);
        }
        self.card.volume = volume;
    }

    fn set_ticking(&mut self, ticking: bool)
        ensures
            final(self)@ == old(self)@.with_card(CardView { ticking, ..old(self)@.card }),
    {
        proof {
            reveal(AppModel::seen);
        }
        self.card.ticking = ticking;
    }

    fn set_art_for(&mut self, template: Option<String>)
        ensures
            final(self)@ == old(self)@.with_card(
                CardView { art_for: text::text_view(template), ..old(self)@.card },
            ),
    {
        proof {
            reveal(AppModel::seen);
        }
        self.card.art_for = template;
    }

    pub(crate) fn set_art_path(&mut self, path: Option<String>)
        ensures
            final(self)@ == old(self)@.with_card(
                CardView { art_path: text::text_view(path), ..old(self)@.card },
            ),
    {
        proof {
            reveal(AppModel::seen);
        }
        self.card.art_path = path;
    }

    fn set_marked(&mut self, marked: Option<String>)
        ensures
            final(self)@ == old(self)@.with_shelf(
                ShelfView { marked: text::text_view(marked), ..old(self)@.shelf },
            ),
    {
        proof {
            reveal(AppModel::seen);
        }
        self.shelf.marked = marked;
    }

    fn set_notified_for(&mut self, track: Option<String>)
        ensures
            final(self)@ == old(self)@.with_card(
                CardView { notified_for: text::text_view(track), ..old(self)@.card },
            ),
    {
        proof {
            reveal(AppModel::seen);
        }
        self.card.notified_for = track;
    }

    fn set_waiting(&mut self, track: Option<String>)
        ensures
            final(self)@ == old(self)@.with_card(
                CardView { notify_when_art_lands: text::text_view(track), ..old(self)@.card },
            ),
    {
        proof {
            reveal(AppModel::seen);
        }
        self.card.notify_when_art_lands = track;
    }

    fn set_pending_move(&mut self, pending_move: Option<(usize, usize)>)
        ensures
            final(self)@ == old(self)@.with_card(CardView { pending_move, ..old(self)@.card }),
    {
        proof {
            reveal(AppModel::seen);
        }
        self.card.pending_move = pending_move;
    }

    fn move_mirror(&mut self, from: usize, to: usize) -> (r: bool)
        ensures
            r == (from < old(self)@.deck.player.queue.len() && to
                < old(self)@.deck.player.queue.len()),
            final(self)@ == old(self)@.with_deck(
                DeckView {
                    player: old(self)@.deck.player.after_move(from as int, to as int),
                    ..old(self)@.deck
                },
            ),
            !r ==> final(self)@ == old(self)@,
    {
        proof {
            reveal(AppModel::seen);
        }
        self.deck.player.move_item(from, to)
    }

    fn retry_deck(&mut self, detail: &str) -> (r: Retry)
        ensures
            r == old(self)@.deck.refused(detail@),
            final(self)@ == old(self)@.with_deck(old(self)@.deck.retrying(detail@, true)),
    {
        proof {
            reveal(AppModel::seen);
        }
        self.deck.retry_without_dead_tracks(detail, true)
    }

    fn is_playing(&self) -> (r: bool)
        ensures
            r == self@.deck.player.playing,
    {
        proof {
            reveal(AppModel::seen);
        }
        self.deck.player.playing
    }

    fn is_ticking(&self) -> (r: bool)
        ensures
            r == self@.card.ticking,
    {
        proof {
            reveal(AppModel::seen);
        }
        self.card.ticking
    }

    fn wanted_template(&self) -> (r: Option<String>)
        ensures
            text::text_view(r) == self@.wanted_cover(),
    {
        match self.showing() {
            Some(item) => item.artwork_template,
            None => None,
        }
    }

    fn is_fetched(&self, template: &Option<String>) -> (r: bool)
        ensures
            r == (text::text_view(*template) == self@.card.art_for),
    {
        proof {
            reveal(AppModel::seen);
        }
        text::same_option(template, &self.card.art_for)
    }

    fn marked_row(&self) -> (r: Option<String>)
        ensures
            text::text_view(r) == self@.shelf.marked,
    {
        proof {
            reveal(AppModel::seen);
        }
        self.shelf.marked.clone()
    }

    fn notified_track(&self) -> (r: Option<String>)
        ensures
            text::text_view(r) == self@.card.notified_for,
    {
        proof {
            reveal(AppModel::seen);
        }
        self.card.notified_for.clone()
    }

    fn notification(&self) -> (r: Option<Effect>)
        ensures
            match r {
                Some(effect) => self@.deck.player.now_playing is Some && effect@ == (
                EffectView::Notify {
                    title: self@.deck.player.now_playing->0.title@,
                    artist: self@.deck.player.now_playing->0.artist@,
                    art_path: self@.card.art_path,
                }),
                None => self@.deck.player.now_playing is None,
            },
    {
        proof {
            reveal(AppModel::seen);
        }
        match &self.deck.player.now_playing {
            Some(item) => Some(
                Effect::Notify {
                    title: item.title.clone(),
                    artist: item.artist.clone(),
                    art_path: self.card.art_path.clone(),
                },
            ),
            None => None,
        }
    }

    fn notifies(&self) -> (r: bool)
        ensures
            r == self@.settings.notify_track_change,
    {
        proof {
            reveal(AppModel::seen);
        }
        self.settings.notify_track_change
    }

    fn pending_move(&self) -> (r: Option<(usize, usize)>)
        ensures
            r == self@.card.pending_move,
    {
        proof {
            reveal(AppModel::seen);
        }
        self.card.pending_move
    }

    fn position_now(&self) -> (r: u64)
        ensures
            r == self@.deck.player.interpolated_ms,
    {
        proof {
            reveal(AppModel::seen);
        }
        self.deck.player.interpolated_ms
    }

    /// Set the volume, given within its range. `moved` is whether it differs
    /// from the last by more than rounding.
    pub fn set_volume(&mut self, volume: u64, moved: bool)
        ensures
            final(self)@ == old(self)@.at_volume(volume, moved),
    {
        proof {
            reveal(AppView::at_volume);
        }
        let volume: u64 = volume::clamp(volume);
        if moved {
            self.set_card_volume(volume);
            self.send(Command::SetVolume { volume });
            self.push_snapshot();
        }
    }

    /// Take the player's word for the volume, without answering back.
    pub fn adopt_volume(&mut self, volume: u64, moved: bool)
        ensures
            final(self)@ == old(self)@.adopting_volume(volume, moved),
    {
        proof {
            reveal(AppView::adopting_volume);
        }
        let volume: u64 = volume::clamp(volume);
        if moved {
            self.set_card_volume(volume);
            self.push_snapshot();
        }
    }

    /// Start the repaint timer while playing, drop it otherwise.
    pub fn sync_tick(&mut self)
        ensures
            final(self)@ == old(self)@.ticking(),
    {
        proof {
            reveal(AppView::ticking);
        }
        let want = self.is_playing();
        let have = self.is_ticking();
        if want && !have {
            self.set_ticking(true);
            self.effect(Effect::StartTicking);
        } else if !want && have {
            self.set_ticking(false);
            self.effect(Effect::StopTicking);
        }
    }

    /// Fetch the cover of what is on show, at most once per template. Says
    /// whether a fetch is now in flight.
    pub fn sync_artwork(&mut self) -> (r: bool)
        ensures
            r == old(self)@.cover_in_flight(),
            final(self)@ == old(self)@.covered(),
    {
        proof {
            reveal(AppView::covered);
        }
        let template = self.wanted_template();
        if self.is_fetched(&template) {
            return false;
        }
        self.set_art_for(template.clone());
        match template {
            Some(template) => {
                self.effect(Effect::FetchCover { template });
                true
            },
            None => {
                self.set_art_path(None);
                self.effect(Effect::Cover(None));
                false
            },
        }
    }

    /// Move the play marker: only the row losing it and the one gaining it.
    pub fn mark_now_playing(&mut self)
        ensures
            final(self)@ == old(self)@.marked(),
    {
        proof {
            reveal(AppView::marked);
        }
        let current = self.playing_catalog_id();
        let from = self.marked_row();
        if text::same_option(&current, &from) {
            return ;
        }
        self.set_marked(current.clone());
        self.effect(Effect::Mark { from, to: current });
    }

    /// Post the notification for whatever is playing now.
    pub fn send_track_notification(&mut self)
        ensures
            final(self)@ == old(self)@.announced(),
    {
        proof {
            reveal(AppView::announced);
        }
        self.set_waiting(None);
        if let Some(effect) = self.notification() {
            self.effect(effect);
        }
    }

    /// Notify about a new track, if the user asked for that.
    ///
    /// Keyed on the track, because a queue echo, a seek and a cover's arrival
    /// are changes too, and none of them is a new song. While the cover is in
    /// flight the one at hand is the *previous* track's, so it waits.
    pub fn maybe_notify(&mut self, artwork_in_flight: bool)
        ensures
            final(self)@ == old(self)@.notified(artwork_in_flight),
    {
        proof {
            reveal(AppView::notified);
        }
        let current = self.playing_catalog_id();
        if !self.notifies() {
            self.set_notified_for(current);
            return ;
        }
        if current.is_none() || text::same_option(&current, &self.notified_track()) {
            return ;
        }
        self.set_notified_for(current.clone());
        if artwork_in_flight {
            self.set_waiting(current);
        } else {
            self.send_track_notification();
        }
    }

    /// Put a refused reorder back where it came from. Says whether there was
    /// one.
    pub fn undo_move(&mut self) -> (r: bool)
        ensures
            r == (old(self)@.card.pending_move is Some),
            final(self)@ == old(self)@.move_undone(),
    {
        proof {
            reveal(AppView::move_undone);
        }
        match self.pending_move() {
            Some((from, to)) => {
                self.set_pending_move(None);
                let _ = self.move_mirror(to, from);
                self.push_snapshot();
                self.toast("Couldn't reorder the queue");
                true
            },
            None => false,
        }
    }

    /// Move a row of the queue. The mirror moves now, and the player's echo
    /// confirms it.
    pub fn move_in_queue(&mut self, from: usize, to: usize)
        ensures
            final(self)@ == old(self)@.reordered(from, to),
    {
        proof {
            reveal(AppView::reordered);
        }
        if self.move_mirror(from, to) {
            self.set_pending_move(Some((from, to)));
            self.send(Command::MoveInQueue { from, to });
            self.push_snapshot();
        }
    }

    /// A press of Previous, from wherever it came. Restarting puts the position
    /// at zero, so the second press goes back by itself.
    pub fn go_previous(&mut self)
        ensures
            final(self)@ == old(self)@.went_previous(),
    {
        proof {
            reveal(AppView::went_previous);
        }
        match previous_means(self.position_now()) {
            Previous::Restart => {
                self.send(Command::Seek { position_ms: 0 });
                self.effect(Effect::Seeked(0));
            },
            Previous::Track => self.send(Command::Previous),
        }
    }

    /// Which row a shuffled queue opens on: any of those that can be played, as
    /// the number drawn has it.
    pub fn shuffle_start(&self, entries: &[Entry], drawn: u32) -> (r: usize)
        ensures
            r == shuffled_start(entries@, self@.deck.dead, drawn),
    {
        proof {
            reveal(AppModel::seen);
        }
        let rows = queue::playable_rows(entries, &self.deck.dead_ids);
        let ghost all = rows@.map_values(|row: usize| row as int);
        if rows.len() == 0 {
            return 0;
        }
        let pick: usize = drawn as usize % rows.len();
        proof {
            assert(all[pick as int] == rows@[pick as int]);
        }
        rows[pick]
    }

    /// Play a list from a row: one path for every list there is.
    pub fn play_entries(&mut self, entries: &[Entry], row: usize, start: Start)
        ensures
            final(self)@ == old(self)@.playing_list(entries@, row as int, start),
    {
        proof {
            reveal(AppModel::seen);
            reveal(AppView::playing_list);
        }
        if !self.deck.play_entries(entries, row, start) {
            self.toast("Nothing here can be streamed");
        }
    }

    /// Answer a refusal: by trying again without the dead, or by saying so.
    pub fn retry_without_dead_tracks(&mut self, detail: &str)
        ensures
            final(self)@ == old(self)@.refused(detail@),
    {
        proof {
            reveal(AppView::refused);
        }
        match self.retry_deck(detail) {
            Retry::NotOurs => self.toast(detail),
            Retry::NothingLeft => {
                self.effect(Effect::SaveDead);
                self.toast("None of these tracks are available to stream");
            },
            Retry::Resent => {
                self.effect(Effect::SaveDead);
                self.effect(Effect::DrawDead);
            },
        }
    }

    /// Remember the queue and where we are in it: on every track change, and on
    /// the way out, which might not come to run.
    pub fn save_session(&mut self)
        ensures
            final(self)@ == old(self)@.saving(),
    {
        proof {
            reveal(AppModel::seen);
            reveal(AppView::saving);
        }
        match self.deck.save_session() {
            Some(session) => self.effect(Effect::SaveSession(session)),
            None => self.effect(Effect::ClearSession),
        }
    }
}

/// The row a shuffle opens on, as the number drawn has it. Where nothing can be
/// played, any will do.
pub open spec fn shuffled_start(entries: Seq<Entry>, dead: Set<Seq<char>>, drawn: u32) -> int {
    let rows = queue::live_rows(queue::slots(entries), dead);
    if rows.len() == 0 {
        0
    } else {
        rows[drawn as int % rows.len() as int]
    }
}

} // verus!
