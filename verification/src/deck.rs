//! The deck: the mirror of the player together with what was asked of it, and
//! the commands that keep the two honest.
//!
//! Both front ends drive the same deck, so a fix to how a queue is sent, healed
//! or put back cannot land on one and miss the other.

use vstd::prelude::*;

use crate::ids;
use crate::ids::IdSet;
use crate::protocol::{Command, CommandView, Item, PlayerState, PlayerView};
use crate::queue;
use crate::queue::Start;
use crate::text;

verus! {

/// A queue as it was last sent, and the track it was aimed at.
#[derive(Debug, PartialEq, Eq)]
pub struct Sent {
    pub songs: Vec<String>,
    pub wanted: Option<String>,
}

/// What is remembered of a queue between two runs.
#[derive(Debug, PartialEq, Eq)]
pub struct Session {
    pub songs: Vec<String>,
    pub start: usize,
    pub position_ms: u64,
}

/// The deck.
#[derive(Debug)]
pub struct Deck {
    pub player: PlayerState,
    /// The last queue asked for, kept for a retry without the ids it was
    /// refused over.
    pub last_queue: Option<Sent>,
    /// The track a new queue was meant to open on, until that is confirmed.
    /// `None` for a shuffled queue, which has no wrong answer.
    pub pending_start: Option<String>,
    /// Whether a play that made no sound has already been healed once.
    pub healed: bool,
    /// A position to restore once the reloaded track is current.
    pub resume_at: Option<u64>,
    /// Ids the player has refused.
    pub dead_ids: IdSet,
    /// Whether there is a player to tell anything. What is said without one is
    /// dropped: by the time there is another, nobody means it any more.
    pub attached: bool,
    /// What to tell the player, in order.
    pub outbox: Vec<Command>,
}

/// A [`Sent`] with its texts as sequences.
#[verifier::ext_equal]
pub struct SentView {
    pub songs: Seq<Seq<char>>,
    pub wanted: Option<Seq<char>>,
}

/// A [`Session`] with its texts as sequences.
#[verifier::ext_equal]
pub struct SessionView {
    pub songs: Seq<Seq<char>>,
    pub start: int,
    pub position_ms: u64,
}

/// A [`Deck`] with its texts as sequences.
#[verifier::ext_equal]
pub struct DeckView {
    pub player: PlayerView,
    pub last_queue: Option<SentView>,
    pub pending_start: Option<Seq<char>>,
    pub healed: bool,
    pub resume_at: Option<u64>,
    pub dead: Set<Seq<char>>,
    pub attached: bool,
    pub outbox: Seq<CommandView>,
}

impl View for Sent {
    type V = SentView;

    open spec fn view(&self) -> SentView {
        SentView { songs: text::texts(self.songs@), wanted: text::text_view(self.wanted) }
    }
}

impl View for Session {
    type V = SessionView;

    open spec fn view(&self) -> SessionView {
        SessionView {
            songs: text::texts(self.songs@),
            start: self.start as int,
            position_ms: self.position_ms,
        }
    }
}

/// The commands of an outbox.
pub open spec fn commands(outbox: Seq<Command>) -> Seq<CommandView> {
    outbox.map_values(|c: Command| c@)
}

impl View for Deck {
    type V = DeckView;

    open spec fn view(&self) -> DeckView {
        DeckView {
            player: self.player@,
            last_queue: match self.last_queue {
                Some(sent) => Some(sent@),
                None => None,
            },
            pending_start: text::text_view(self.pending_start),
            healed: self.healed,
            resume_at: self.resume_at,
            dead: self.dead_ids@,
            attached: self.attached,
            outbox: commands(self.outbox@),
        }
    }
}

/// What became of a refused queue.
#[derive(Debug, Clone, Copy, PartialEq, Eq, Structural)]
pub enum Retry {
    /// The error is not one that a retry can answer.
    NotOurs,
    /// Every track of the queue is dead.
    NothingLeft,
    /// The queue was sent again without its dead tracks.
    Resent,
}

/// The first item at `from` or after it that is asked for by `id`.
pub open spec fn first_keyed(queue: Seq<Item>, id: Seq<char>, from: int) -> Option<int>
    decreases queue.len() - from,
{
    if from < 0 || from >= queue.len() {
        None
    } else if queue[from].key() == Some(id) {
        Some(from)
    } else {
        first_keyed(queue, id, from + 1)
    }
}

/// The slots of a list in which every row has an id.
pub open spec fn full(songs: Seq<Seq<char>>) -> Seq<Option<Seq<char>>> {
    songs.map_values(|id: Seq<char>| Some(id))
}

/// The songs of a queue that are not known to be dead, in order.
pub open spec fn survivors(songs: Seq<Seq<char>>, dead: Set<Seq<char>>) -> Seq<Seq<char>> {
    queue::live(full(songs), dead)
}

/// The first survivor at the wanted track or after it.
pub open spec fn next_survivor(
    songs: Seq<Seq<char>>,
    wanted: Option<Seq<char>>,
    dead: Set<Seq<char>>,
) -> Option<Seq<char>> {
    queue::first_live(full(songs), queue::start_place(songs, wanted), dead)
}

impl DeckView {
    /// A deck with nothing on it, that knows what is dead.
    pub open spec fn fresh(dead: Set<Seq<char>>, attached: bool) -> DeckView {
        DeckView {
            player: PlayerView::idle(),
            last_queue: None,
            pending_start: None,
            healed: false,
            resume_at: None,
            dead,
            attached,
            outbox: Seq::empty(),
        }
    }

    /// The deck with one track added to its queue: next, or at the end. Where
    /// there is no queue to add to, one is started.
    #[verifier::opaque]
    pub open spec fn enqueued(self, id: Seq<char>, next: bool) -> DeckView {
        if self.player.queue.len() == 0 {
            DeckView { pending_start: Some(id), ..self }.loading(seq![id], Some(id), 0, true, 0)
        } else if next {
            self.sending(CommandView::PlayNext { songs: seq![id] })
        } else {
            self.sending(CommandView::PlayLater { songs: seq![id] })
        }
    }

    /// The deck after a row of its queue was clicked. Clicking is a request to
    /// *play* it, so one that stands still is set going.
    #[verifier::opaque]
    pub open spec fn jumped(self, index: int) -> DeckView {
        let moved = self.sending(CommandView::ChangeToIndex { index });
        if self.player.playing {
            moved
        } else {
            moved.sending(CommandView::Play)
        }
    }

    /// The deck with one more thing to say, if there is anyone to say it to.
    pub open spec fn sending(self, command: CommandView) -> DeckView {
        if self.attached {
            DeckView { outbox: self.outbox.push(command), ..self }
        } else {
            self
        }
    }

    /// The deck with a mode to state, where there is one.
    pub open spec fn stating(self, mode: Option<bool>) -> DeckView {
        match mode {
            Some(shuffle) => self.sending(CommandView::SetShuffle { shuffle }),
            None => self,
        }
    }

    /// The deck with a queue on its way, aimed at `wanted`.
    pub open spec fn loading(
        self,
        songs: Seq<Seq<char>>,
        wanted: Option<Seq<char>>,
        place: int,
        playing: bool,
        at_ms: u64,
    ) -> DeckView {
        DeckView { last_queue: Some(SentView { songs, wanted }), ..self }.sending(
            CommandView::SetQueue {
                songs,
                start_position: place,
                start_playing: playing,
                start_time_ms: at_ms,
            },
        )
    }

    /// The deck once a new queue was started from `slots`.
    #[verifier::opaque]
    pub open spec fn starting(
        self,
        slots: Seq<Option<Seq<char>>>,
        row: int,
        start: Start,
    ) -> DeckView {
        let songs = queue::queued(slots, self.dead);
        let wanted = queue::first_live(slots, row, self.dead);
        let stated = self.stating(start.stated(true));
        DeckView {
            pending_start: if start == Start::Shuffled {
                None
            } else {
                wanted
            },
            ..stated
        }.loading(songs, wanted, queue::start_place(songs, wanted), true, 0)
    }

    /// Where the track a click names stands in the queue already loaded, when
    /// that queue holds exactly the clicked list.
    #[verifier::opaque]
    pub open spec fn already_at(self, slots: Seq<Option<Seq<char>>>, row: int) -> Option<int> {
        let songs = queue::queued(slots, self.dead);
        match queue::first_live(slots, row, self.dead) {
            Some(wanted) => if self.player.queue.len() == songs.len() && queue::same_songs(
                self.player.queue,
                songs,
            ) {
                queue::first_called(self.player.queue, wanted, 0)
            } else {
                None
            },
            None => None,
        }
    }

    /// The deck after a row of a list was clicked: a move within the queue
    /// already loaded, or a new queue.
    #[verifier::opaque]
    pub open spec fn playing_list(
        self,
        slots: Seq<Option<Seq<char>>>,
        row: int,
        start: Start,
    ) -> DeckView {
        if queue::queued(slots, self.dead).len() == 0 {
            self
        } else {
            match self.already_at(slots, row) {
                Some(index) => DeckView {
                    pending_start: None,
                    ..self.stating(start.stated(false))
                }.sending(CommandView::ChangeToIndex { index }),
                None => self.starting(slots, row, start),
            }
        }
    }

    /// What a refusal does to what is known to be dead.
    pub open spec fn burying(self, detail: Seq<char>) -> Set<Seq<char>> {
        self.dead.union(queue::named_dead(detail).to_set())
    }

    /// What becomes of a refused queue.
    #[verifier::opaque]
    pub open spec fn refused(self, detail: Seq<char>) -> Retry {
        if queue::named_dead(detail).len() == 0 || self.last_queue is None || self.burying(detail)
            == self.dead {
            Retry::NotOurs
        } else if survivors(self.last_queue->0.songs, self.burying(detail)).len() == 0 {
            Retry::NothingLeft
        } else {
            Retry::Resent
        }
    }

    /// The deck after a refused queue. `slide` is whether a wanted track that
    /// turned out dead gives way to the first survivor after it.
    #[verifier::opaque]
    pub open spec fn retrying(self, detail: Seq<char>, slide: bool) -> DeckView {
        if queue::named_dead(detail).len() == 0 || self.last_queue is None {
            self
        } else {
            let sent = self.last_queue->0;
            let dead = self.burying(detail);
            let emptied = DeckView { last_queue: None, dead, ..self };
            if self.refused(detail) == Retry::Resent {
                let songs = survivors(sent.songs, dead);
                let wanted = if slide {
                    next_survivor(sent.songs, sent.wanted, dead)
                } else {
                    sent.wanted
                };
                DeckView { pending_start: wanted, ..emptied }.loading(
                    songs,
                    wanted,
                    queue::start_place(songs, wanted),
                    true,
                    0,
                )
            } else {
                emptied
            }
        }
    }

    /// What is worth remembering of the queue, if there is anything.
    #[verifier::opaque]
    pub open spec fn session(self) -> Option<SessionView> {
        let songs = queue::item_ids(self.player.queue);
        if songs.len() == 0 {
            None
        } else {
            Some(
                SessionView {
                    songs,
                    start: if self.player.queue_position < songs.len() {
                        self.player.queue_position
                    } else {
                        songs.len() - 1
                    },
                    position_ms: self.player.position_ms,
                },
            )
        }
    }

    /// The deck with a remembered queue put back, loaded and not started.
    #[verifier::opaque]
    pub open spec fn restoring(self, session: SessionView) -> DeckView {
        let start = if session.start < session.songs.len() {
            session.start
        } else if session.songs.len() > 0 {
            session.songs.len() - 1
        } else {
            0
        };
        let wanted = if start < session.songs.len() {
            Some(session.songs[start])
        } else {
            None
        };
        DeckView {
            pending_start: wanted,
            ..self.sending(CommandView::SetShuffle { shuffle: false })
        }.loading(session.songs, wanted, start, false, session.position_ms)
    }

    /// Whether the queue that was sent has arrived and come to rest.
    pub open spec fn settled(self) -> bool {
        &&& self.player.queue.len() > 0
        &&& match self.last_queue {
            Some(sent) => queue::same_songs(self.player.queue, sent.songs),
            None => true,
        }
        &&& self.player.now_playing is Some
        &&& !self.player.busy
    }

    /// Whether something waiting to be said gives the player another queue, or
    /// none.
    pub open spec fn replaces_queue(self) -> bool {
        exists|i: int|
            0 <= i < self.outbox.len() && (self.outbox[i] is SetQueue
                || #[trigger] self.outbox[i] is ClearQueue)
    }

    /// The deck with a session on the way back to a player, ahead of what already
    /// waits for it. Where that replaces the queue anyway, it is all there is to
    /// say.
    #[verifier::opaque]
    pub open spec fn restoring_ahead(self, session: SessionView) -> DeckView {
        if self.replaces_queue() {
            self
        } else {
            let back = DeckView { outbox: Seq::empty(), ..self }.restoring(session);
            DeckView { outbox: back.outbox + self.outbox, ..back }
        }
    }

    /// The deck once the start has been confirmed, or corrected, if it can be.
    #[verifier::opaque]
    pub open spec fn verified(self) -> DeckView {
        match self.pending_start {
            Some(wanted) => if self.settled() {
                let cleared = DeckView { pending_start: None, ..self };
                match first_keyed(self.player.queue, wanted, 0) {
                    Some(index) => if index == self.player.queue_position {
                        cleared
                    } else {
                        cleared.sending(CommandView::ChangeToIndex { index })
                    },
                    None => cleared,
                }
            } else {
                self
            },
            None => self,
        }
    }

    /// The deck with its current track on the way to being loaded afresh.
    #[verifier::opaque]
    pub open spec fn reseated(self) -> DeckView {
        let index = self.player.queue_position;
        if index < self.player.queue.len() {
            DeckView {
                resume_at: if self.player.interpolated_ms > 0 {
                    Some(self.player.interpolated_ms)
                } else {
                    None
                },
                ..self.sending(CommandView::ChangeToIndex { index })
            }
        } else {
            self
        }
    }

    /// The deck with a reloaded track put back where it was.
    #[verifier::opaque]
    pub open spec fn resumed(self) -> DeckView {
        match self.resume_at {
            Some(position_ms) => DeckView { resume_at: None, ..self }.sending(
                CommandView::Seek { position_ms },
            ),
            None => self,
        }
    }

    /// The deck after a command ended, judged by the state it ended in.
    #[verifier::opaque]
    pub open spec fn judged(self, cmd: Seq<char>) -> DeckView {
        if (cmd != "play"@ && cmd != "playPause"@) || self.player.busy {
            self
        } else if self.player.playing {
            DeckView { healed: false, ..self }
        } else if self.healed {
            self
        } else {
            DeckView { healed: true, ..self }.reseated()
        }
    }

    /// The deck once its queue was given up: nothing to retry or to confirm.
    pub open spec fn forgotten(self) -> DeckView {
        DeckView { last_queue: None, pending_start: None, ..self }
    }
}

impl Deck {
    /// A deck with nothing on it, that knows what is dead and whether there is a
    /// player.
    pub fn new(dead_ids: IdSet, attached: bool) -> (r: Self)
        ensures
            r@ == DeckView::fresh(dead_ids@, attached),
    {
        let r = Deck {
            player: PlayerState::new(),
            last_queue: None,
            pending_start: None,
            healed: false,
            resume_at: None,
            dead_ids,
            attached,
            outbox: Vec::new(),
        };
        proof {
            assert(r@ =~= DeckView::fresh(dead_ids@, attached));
        }
        r
    }

    /// Tell the player something.
    pub fn send(&mut self, command: Command)
        ensures
            final(self)@ == old(self)@.sending(command@),
    {
        let ghost before = commands(self.outbox@);
        let ghost said = command@;
        if self.attached {
            self.outbox.push(command);
            proof {
                assert(commands(self.outbox@) =~= before.push(said));
                assert(self@ =~= old(self)@.sending(said));
            }
        }
    }

    fn state_mode(&mut self, mode: Option<bool>)
        ensures
            final(self)@ == old(self)@.stating(mode),
    {
        if let Some(shuffle) = mode {
            self.send(Command::SetShuffle { shuffle });
        }
    }

    fn load(
        &mut self,
        songs: Vec<String>,
        wanted: Option<String>,
        place: usize,
        playing: bool,
        at_ms: u64,
    )
        ensures
            final(self)@ == old(self)@.loading(
                text::texts(songs@),
                text::text_view(wanted),
                place as int,
                playing,
                at_ms,
            ),
    {
        self.last_queue = Some(Sent { songs: text::copy_texts(songs.as_slice()), wanted });
        self.send(
            Command::SetQueue {
                songs,
                start_position: place,
                start_playing: playing,
                start_time_ms: at_ms,
            },
        );
    }
}

/// A list of ids, each as a row that has one.
fn rows_of(songs: &[String]) -> (r: Vec<Option<String>>)
    ensures
        queue::slots_of(r@) == full(text::texts(songs@)),
{
    let mut rows: Vec<Option<String>> = Vec::new();
    let mut i: usize = 0;
    while i < songs.len()
        invariant
            i <= songs@.len(),
            rows@.len() == i,
            forall|j: int| 0 <= j < i ==> #[trigger] rows@[j] == Some(songs@[j]),
        decreases songs@.len() - i,
    {
        rows.push(Some(songs[i].clone()));
        i += 1;
    }
    proof {
        assert(queue::slots_of(rows@) =~= full(text::texts(songs@)));
    }
    rows
}

/// The songs of a list that are not dead.
pub fn without_dead(songs: &[String], dead: &IdSet) -> (r: Vec<String>)
    ensures
        text::texts(r@) == survivors(text::texts(songs@), dead@),
{
    let ghost all = full(text::texts(songs@));
    let mut out: Vec<String> = Vec::new();
    let mut i: usize = 0;
    while i < songs.len()
        invariant
            i <= songs@.len(),
            all == full(text::texts(songs@)),
            text::texts(out@) == queue::live(all.take(i as int), dead@),
        decreases songs@.len() - i,
    {
        proof {
            assert(all.take(i + 1).drop_last() =~= all.take(i as int));
        }
        if !dead.contains(songs[i].as_str()) {
            let ghost before = text::texts(out@);
            out.push(songs[i].clone());
            proof {
                assert(text::texts(out@) =~= before.push(songs@[i as int]@));
            }
        }
        i += 1;
    }
    proof {
        assert(all.take(i as int) =~= all);
    }
    out
}

impl Deck {
    fn begin(
        &mut self,
        songs: Vec<String>,
        wanted: Option<String>,
        start: Start,
        Ghost(slots): Ghost<Seq<Option<Seq<char>>>>,
        Ghost(row): Ghost<int>,
    )
        requires
            text::texts(songs@) == queue::queued(slots, old(self)@.dead),
            text::text_view(wanted) == queue::first_live(slots, row, old(self)@.dead),
        ensures
            final(self)@ == old(self)@.starting(slots, row, start),
    {
        proof {
            reveal(DeckView::starting);
        }
        self.state_mode(start.mode(true));
        let place: usize = queue::start_index(songs.as_slice(), wanted.as_ref());
        self.pending_start = if start.reorders() {
            None
        } else {
            wanted.clone()
        };
        self.load(songs, wanted, place, true, 0);
    }

    /// Start a new queue from a list of ids, at `row`.
    ///
    /// Says whether there was anything to start.
    pub fn play_ids(&mut self, listed: &[String], row: usize, start: Start) -> (r: bool)
        ensures
            r == (queue::queued(full(text::texts(listed@)), old(self)@.dead).len() > 0),
            final(self)@ == if r {
                old(self)@.starting(full(text::texts(listed@)), row as int, start)
            } else {
                old(self)@
            },
    {
        let rows = rows_of(listed);
        let (songs, wanted) = queue::queue_from_ids(rows.as_slice(), row, &self.dead_ids);
        if songs.len() == 0 {
            return false;
        }
        self.begin(
            songs,
            wanted,
            start,
            Ghost(full(text::texts(listed@))),
            Ghost(row as int),
        );
        true
    }

    /// Play a list of rows from `row`.
    ///
    /// Clicking a track in a list the player already holds is a move within
    /// that queue, not a reason to rebuild it and lose what is buffered. Says
    /// whether there was anything to play.
    pub fn play_entries(
        &mut self,
        entries: &[crate::music::Entry],
        row: usize,
        start: Start,
    ) -> (r: bool)
        ensures
            r == (queue::queued(queue::slots(entries@), old(self)@.dead).len() > 0),
            final(self)@ == old(self)@.playing_list(queue::slots(entries@), row as int, start),
            !r ==> final(self)@ == old(self)@,
    {
        proof {
            reveal(DeckView::playing_list);
        }
        proof {
            reveal(DeckView::already_at);
        }
        let (songs, wanted) = queue::queue_from(entries, row, &self.dead_ids);
        if songs.len() == 0 {
            return false;
        }
        if let Some(id) = &wanted {
            if queue::holds(self.player.queue.as_slice(), songs.as_slice()) {
                if let Some(index) = self.index_of(id.as_str()) {
                    self.state_mode(start.mode(false));
                    self.pending_start = None;
                    self.send(Command::ChangeToIndex { index });
                    return true;
                }
            }
        }
        self.begin(songs, wanted, start, Ghost(queue::slots(entries@)), Ghost(row as int));
        true
    }

    /// Where a clicked row is in the player's queue, from where it *was* and
    /// what it was.
    pub fn index_at(&self, at: usize, id: &str) -> (r: Option<usize>)
        ensures
            match r {
                Some(i) => queue::place_at(self@.player.queue, at as int, id@) == Some(i as int)
                    && i < self@.player.queue.len(),
                None => queue::place_at(self@.player.queue, at as int, id@) is None,
            },
    {
        queue::index_at(self.player.queue.as_slice(), at, id)
    }

    /// Where a track sits in the player's queue *right now*.
    pub fn index_of(&self, id: &str) -> (r: Option<usize>)
        ensures
            match r {
                Some(i) => queue::first_called(self@.player.queue, id@, 0) == Some(i as int) && i
                    < self@.player.queue.len(),
                None => queue::first_called(self@.player.queue, id@, 0) is None,
            },
    {
        let items = self.player.queue.as_slice();
        let past: usize = items.len();
        queue::index_at(items, past, id)
    }

    /// Answer a refused queue by dropping the ids it names and trying again.
    ///
    /// If the wanted track is itself dead and `slide` is set, the retry aims at
    /// the first survivor after it. Nothing newly dead means that the retry
    /// already happened: stop, or this loops for ever.
    pub fn retry_without_dead_tracks(&mut self, detail: &str, slide: bool) -> (r: Retry)
        ensures
            r == old(self)@.refused(detail@),
            final(self)@ == old(self)@.retrying(detail@, slide),
    {
        proof {
            reveal(DeckView::retrying);
        }
        proof {
            reveal(DeckView::refused);
        }
        let dead = queue::unresolvable_ids(detail);
        if dead.len() == 0 {
            return Retry::NotOurs;
        }
        let sent = match self.last_queue.take() {
            Some(sent) => sent,
            None => {
                return Retry::NotOurs;
            },
        };
        let ghost named = text::texts(dead@);
        let ghost known = self.dead_ids@;
        let mut any_new = false;
        let mut i: usize = 0;
        while i < dead.len()
            invariant
                i <= dead@.len(),
                named == text::texts(dead@),
                known == self.dead_ids@,
                any_new == exists|j: int| 0 <= j < i && !known.contains(#[trigger] named[j]),
            decreases dead@.len() - i,
        {
            if !self.dead_ids.contains(dead[i].as_str()) {
                proof {
                    assert(!known.contains(named[i as int]));
                }
                any_new = true;
            }
            i += 1;
        }
        self.dead_ids.extend(dead.as_slice());
        proof {
            let more = known.union(named.to_set());
            if any_new {
                let j = choose|j: int| 0 <= j < named.len() && !known.contains(#[trigger] named[j]);
                assert(named.contains(named[j]));
                assert(more.contains(named[j]));
            } else {
                assert forall|id: Seq<char>| more.contains(id) implies known.contains(id) by {
                    if named.contains(id) {
                        let j = choose|j: int| 0 <= j < named.len() && named[j] == id;
                        assert(known.contains(named[j]));
                    }
                }
                assert(more =~= known);
            }
        }
        if !any_new {
            return Retry::NotOurs;
        }
        let songs = without_dead(sent.songs.as_slice(), &self.dead_ids);
        if songs.len() == 0 {
            return Retry::NothingLeft;
        }
        let wanted: Option<String> = if slide {
            let from: usize = queue::start_index(sent.songs.as_slice(), sent.wanted.as_ref());
            let rows = rows_of(sent.songs.as_slice());
            let (_, next) = queue::queue_from_ids(rows.as_slice(), from, &self.dead_ids);
            next
        } else {
            sent.wanted
        };
        let place: usize = queue::start_index(songs.as_slice(), wanted.as_ref());
        self.pending_start = wanted.clone();
        self.load(songs, wanted, place, true, 0);
        Retry::Resent
    }

    /// What to remember of the queue and where we are in it, or `None` when
    /// there is nothing worth keeping.
    pub fn save_session(&self) -> (r: Option<Session>)
        ensures
            match r {
                Some(session) => self@.session() == Some(session@),
                None => self@.session() is None,
            },
    {
        proof {
            reveal(DeckView::session);
        }
        let songs = queue::ids_of(self.player.queue.as_slice());
        if songs.len() == 0 {
            return None;
        }
        let at: usize = self.player.queue_position;
        let start: usize = if at < songs.len() {
            at
        } else {
            songs.len() - 1
        };
        Some(Session { start, position_ms: self.player.position_ms, songs })
    }

    /// Put back what was playing last time.
    ///
    /// Loaded, not started, and sequential: the saved order *is* what was
    /// playing, and the start indexes into it. The position goes with the
    /// queue, because a seek needs a current item to seek within.
    pub fn restore_session(&mut self, session: Session)
        ensures
            final(self)@ == old(self)@.restoring(session@),
    {
        proof {
            reveal(DeckView::restoring);
        }
        let start: usize = if session.start < session.songs.len() {
            session.start
        } else if session.songs.len() > 0 {
            session.songs.len() - 1
        } else {
            0
        };
        let wanted: Option<String> = if start < session.songs.len() {
            Some(session.songs[start].clone())
        } else {
            None
        };
        self.send(Command::SetShuffle { shuffle: false });
        self.pending_start = wanted.clone();
        self.load(session.songs, wanted, start, false, session.position_ms);
    }

    /// Whether something waiting to be said gives the player another queue, or
    /// none.
    fn replaces(&self) -> (r: bool)
        ensures
            r == self@.replaces_queue(),
    {
        let mut i: usize = 0;
        while i < self.outbox.len()
            invariant
                i <= self.outbox.len(),
                forall|j: int|
                    0 <= j < i ==> !(#[trigger] self@.outbox[j] is SetQueue) && !(
                    self@.outbox[j] is ClearQueue),
            decreases self.outbox.len() - i,
        {
            if matches!(self.outbox[i], Command::SetQueue { .. } | Command::ClearQueue) {
                assert(self@.outbox[i as int] is SetQueue || self@.outbox[i as int] is ClearQueue);
                return true;
            }
            i = i + 1;
        }
        false
    }

    /// Put a session back for a player that is on its way up, ahead of what it
    /// was woken for.
    pub fn restore_ahead(&mut self, session: Session)
        ensures
            final(self)@ == old(self)@.restoring_ahead(session@),
    {
        proof {
            reveal(DeckView::restoring_ahead);
        }
        if !self.replaces() {
            let ghost before = self@;
            let mut said: Vec<Command> = Vec::new();
            std::mem::swap(&mut said, &mut self.outbox);
            assert(self@ == (DeckView { outbox: Seq::empty(), ..before }));
            self.restore_session(session);
            let ghost back = self@;
            self.outbox.append(&mut said);
            assert(self@.outbox =~= back.outbox + before.outbox);
        }
    }

    /// Check that the player landed on the track that was asked for, and
    /// correct it if not.
    ///
    /// Nothing is judged before the queue that was sent has arrived and has an
    /// item that is no longer loading. Acting and giving up both clear what is
    /// pending, so a correction can never bounce against its own echo.
    pub fn verify_start(&mut self)
        ensures
            final(self)@ == old(self)@.verified(),
    {
        proof {
            reveal(DeckView::verified);
        }
        let wanted = match &self.pending_start {
            Some(wanted) => wanted.clone(),
            None => {
                return ;
            },
        };
        if self.player.queue.len() == 0 {
            return ;
        }
        if let Some(sent) = &self.last_queue {
            let theirs = queue::ids_of(self.player.queue.as_slice());
            if !ids::same_ids(theirs.as_slice(), sent.songs.as_slice()) {
                return ;
            }
        }
        if self.player.now_playing.is_none() || self.player.busy {
            return ;
        }
        self.pending_start = None;
        let mut i: usize = 0;
        while i < self.player.queue.len()
            invariant
                self@ == (DeckView { pending_start: None, ..old(self)@ }),
                old(self)@.verified() == (match first_keyed(
                    self@.player.queue,
                    wanted@,
                    i as int,
                ) {
                    Some(index) => if index == self@.player.queue_position {
                        self@
                    } else {
                        self@.sending(CommandView::ChangeToIndex { index })
                    },
                    None => self@,
                }),
            decreases self.player.queue@.len() - i,
        {
            let found = match self.player.queue[i].song_id() {
                Some(id) => text::same(id.as_str(), wanted.as_str()),
                None => false,
            };
            if found {
                if i != self.player.queue_position {
                    self.send(Command::ChangeToIndex { index: i });
                }
                return ;
            }
            i += 1;
        }
    }

    /// Reload the track we are on, at the position we were at.
    ///
    /// The seek is not sent yet: it needs a current item to seek within, and
    /// the reload has not produced one.
    pub fn reseat_current(&mut self)
        ensures
            final(self)@ == old(self)@.reseated(),
    {
        proof {
            reveal(DeckView::reseated);
        }
        let index: usize = self.player.queue_position;
        if index >= self.player.queue.len() {
            return ;
        }
        let position_ms: u64 = self.player.interpolated_ms;
        self.send(Command::ChangeToIndex { index });
        self.resume_at = if position_ms > 0 {
            Some(position_ms)
        } else {
            None
        };
    }

    /// Put the position back once the reloaded track is actually current.
    pub fn resume_position(&mut self)
        ensures
            final(self)@ == old(self)@.resumed(),
    {
        proof {
            reveal(DeckView::resumed);
        }
        if let Some(position_ms) = self.resume_at {
            self.resume_at = None;
            self.send(Command::Seek { position_ms });
        }
    }

    /// A `play` that completed and produced no playing.
    ///
    /// Still working towards audio is not failure. Recovered from once only: a
    /// second attempt that also does nothing is a real failure.
    pub fn play_did_nothing(&mut self, cmd: &str)
        ensures
            final(self)@ == old(self)@.judged(cmd@),
    {
        proof {
            reveal(DeckView::judged);
        }
        if !text::same(cmd, "play") && !text::same(cmd, "playPause") {
            return ;
        }
        if self.player.busy {
            return ;
        }
        if self.player.playing {
            self.healed = false;
            return ;
        }
        if self.healed {
            return ;
        }
        self.healed = true;
        self.reseat_current();
    }

    /// Add one track to the queue.
    ///
    /// The player ignores an insertion into a queue that is not there, and
    /// "add to the queue" with no queue plainly means "make one".
    pub fn enqueue(&mut self, id: String, next: bool)
        ensures
            final(self)@ == old(self)@.enqueued(id@, next),
    {
        proof {
            reveal(DeckView::enqueued);
        }
        let again: String = id.clone();
        let wanted: String = id.clone();
        let mut songs: Vec<String> = Vec::new();
        songs.push(id);
        proof {
            assert(text::texts(songs@) =~= seq![id@]);
        }
        if self.player.queue.len() == 0 {
            self.pending_start = Some(again);
            self.load(songs, Some(wanted), 0, true, 0);
        } else if next {
            self.send(Command::PlayNext { songs });
        } else {
            self.send(Command::PlayLater { songs });
        }
    }

    /// Play the track at a place in the queue.
    pub fn jump(&mut self, index: usize)
        ensures
            final(self)@ == old(self)@.jumped(index as int),
    {
        proof {
            reveal(DeckView::jumped);
        }
        self.send(Command::ChangeToIndex { index });
        if !self.player.playing {
            self.send(Command::Play);
        }
    }

    /// Give up the queue that was sent: there is nothing to retry or confirm.
    pub fn forget_queue(&mut self)
        ensures
            final(self)@ == old(self)@.forgotten(),
    {
        self.last_queue = None;
        self.pending_start = None;
    }
}

} // verus!
