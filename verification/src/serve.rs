//! The daemon at work: what it answers a client, and what it does about what
//! the player reports.
//!
//! Everything here is a step from one state to the next. What has to happen
//! outside of it is left as a list of tasks, in order.

use vstd::prelude::*;

use crate::daemon;
use crate::daemon::{Model, ModelView};
use crate::deck;
use crate::deck::{DeckView, Retry, Session, SessionView};
use crate::ipc;
use crate::ipc::{Event, EventView, PageKind, Request, Stage, StageView, Transport, WriteAction};
use crate::library;
use crate::mpris::{MprisCommand, MprisState, MprisView};
use crate::protocol::{Command, CommandView, PlayerEvent, PlayerState, PlayerView};
use crate::queue;
use crate::queue::Start;
use crate::text;
use crate::view::CatalogFilter;

verus! {

/// Something to be done outside of the daemon's own state.
#[derive(Debug, PartialEq, Eq)]
pub enum Task {
    /// Tell every subscriber.
    Publish(Event),
    /// Show this on the bus.
    TellBus(MprisState),
    /// Remember this queue.
    SaveSession(Session),
    /// Remember no queue.
    ClearSession,
    /// Remember which tracks are dead.
    SaveDead,
    /// Read the whole library from the service.
    FetchLibrary,
    /// Keep the library for the next start.
    SaveLibrary,
    /// Fetch a page: an album's or a playlist's tracks, an artist's albums.
    OpenPage { kind: PageKind, id: String },
    /// Ask the service for a change.
    WriteLibrary { action: WriteAction, id: String },
    /// Search the catalog.
    SearchCatalog { query: String, filter: CatalogFilter, offset: usize },
    /// Fetch a cover to disk.
    FetchArtwork { template: String },
    /// Put the player's process down.
    StopPlayer,
    /// Pick it up again.
    StartPlayer,
    /// Leave.
    Exit,
}

/// A [`Task`] with its texts as sequences.
#[verifier::ext_equal]
pub enum TaskView {
    Publish(EventView),
    TellBus(MprisView),
    SaveSession(SessionView),
    ClearSession,
    SaveDead,
    FetchLibrary,
    SaveLibrary,
    OpenPage { kind: PageKind, id: Seq<char> },
    WriteLibrary { action: WriteAction, id: Seq<char> },
    SearchCatalog { query: Seq<char>, filter: CatalogFilter, offset: int },
    FetchArtwork { template: Seq<char> },
    StopPlayer,
    StartPlayer,
    Exit,
}

impl View for Task {
    type V = TaskView;

    open spec fn view(&self) -> TaskView {
        match *self {
            Task::Publish(event) => TaskView::Publish(event@),
            Task::TellBus(state) => TaskView::TellBus(state@),
            Task::SaveSession(session) => TaskView::SaveSession(session@),
            Task::ClearSession => TaskView::ClearSession,
            Task::SaveDead => TaskView::SaveDead,
            Task::FetchLibrary => TaskView::FetchLibrary,
            Task::SaveLibrary => TaskView::SaveLibrary,
            Task::OpenPage { kind, id } => TaskView::OpenPage { kind, id: id@ },
            Task::WriteLibrary { action, id } => TaskView::WriteLibrary { action, id: id@ },
            Task::SearchCatalog { query, filter, offset } => TaskView::SearchCatalog {
                query: query@,
                filter,
                offset: offset as int,
            },
            Task::FetchArtwork { template } => TaskView::FetchArtwork { template: template@ },
            Task::StopPlayer => TaskView::StopPlayer,
            Task::StartPlayer => TaskView::StartPlayer,
            Task::Exit => TaskView::Exit,
        }
    }
}

/// Whether the player's process is there to be told anything.
#[derive(Debug, Clone, Copy, PartialEq, Eq, Structural)]
pub enum Engine {
    Up,
    /// Put down, because nobody had a use for it.
    Down,
    /// On its way up again. What it is asked waits for it.
    Waking,
}

/// The daemon.
#[derive(Debug)]
pub struct Daemon {
    pub model: Model,
    /// Whether the session has been put back since the player's process
    /// started.
    pub restored: bool,
    /// Consecutive failed starts of that process, for the backoff.
    pub restarts: u32,
    /// A finished command whose ending state is worth judging, once the mirror
    /// has caught up with it.
    pub after_apply: Option<String>,
    /// Whether a library fetch is in flight, so that a reload button cannot
    /// stack four of them.
    pub refreshing: bool,
    /// The artwork template already fetched.
    pub art_for: Option<String>,
    pub engine: Engine,
    /// Since when nothing has played and nothing was asked of the player.
    pub quiet_since: Option<u64>,
    /// What to do, in order.
    pub tasks: Vec<Task>,
}

/// A [`Daemon`] with its texts as sequences.
#[verifier::ext_equal]
pub struct DaemonView {
    pub model: ModelView,
    pub restored: bool,
    pub restarts: u32,
    pub after_apply: Option<Seq<char>>,
    pub refreshing: bool,
    pub art_for: Option<Seq<char>>,
    pub engine: Engine,
    pub quiet_since: Option<u64>,
    pub tasks: Seq<TaskView>,
}

/// The tasks of a list.
pub open spec fn tasks_of(list: Seq<Task>) -> Seq<TaskView> {
    list.map_values(|t: Task| t@)
}

impl View for Daemon {
    type V = DaemonView;

    open spec fn view(&self) -> DaemonView {
        DaemonView {
            model: self.model@,
            restored: self.restored,
            restarts: self.restarts,
            after_apply: text::text_view(self.after_apply),
            refreshing: self.refreshing,
            art_for: text::text_view(self.art_for),
            engine: self.engine,
            quiet_since: self.quiet_since,
            tasks: tasks_of(self.tasks@),
        }
    }
}

/// What a person is told when nothing of a list can be played.
pub open spec fn nothing_to_play() -> EventView {
    EventView::Error { detail: "Nothing here can be streamed"@ }
}

/// What a person is told when the service cannot be asked yet.
pub open spec fn not_signed_in() -> EventView {
    EventView::Error { detail: "Not signed in yet"@ }
}

/// What a client is told that would quit a daemon others are attached to.
pub open spec fn still_open() -> EventView {
    EventView::Error { detail: "Another window is still open"@ }
}

/// A row to open a shuffle on, from the clock.
pub open spec fn shuffled_row(len: int, nanos: int) -> int {
    if len == 0 {
        0
    } else {
        nanos % len
    }
}

impl DaemonView {
    pub open spec fn doing(self, task: TaskView) -> DaemonView {
        DaemonView { tasks: self.tasks.push(task), ..self }
    }

    pub open spec fn publishing(self, event: EventView) -> DaemonView {
        self.doing(TaskView::Publish(event))
    }

    /// The daemon with another deck.
    pub open spec fn with_deck(self, deck: DeckView) -> DaemonView {
        DaemonView { model: ModelView { deck, ..self.model }, ..self }
    }

    /// The daemon with something to tell the player.
    #[verifier::opaque]
    pub open spec fn sending(self, command: CommandView) -> DaemonView {
        self.with_deck(self.model.deck.sending(command))
    }

    /// The daemon with its state on the way to every client and to the bus.
    #[verifier::opaque]
    pub open spec fn showing(self) -> DaemonView {
        self.publishing(EventView::Snapshot(self.model.snap())).doing(
            TaskView::TellBus(self.model.bus()),
        )
    }

    /// The queue as clients are told it.
    #[verifier::opaque]
    pub open spec fn queue_event(self) -> EventView {
        EventView::Queue {
            items: daemon::queue_rows(self.model.deck.player.queue),
            position: self.model.deck.player.queue_position,
        }
    }

    /// The daemon in another stage, and everyone told.
    #[verifier::opaque]
    pub open spec fn staged(self, stage: StageView) -> DaemonView {
        DaemonView { model: ModelView { stage, ..self.model }, ..self }.publishing(
            EventView::Stage(stage),
        )
    }

    /// The daemon with its queue on the way to being remembered.
    #[verifier::opaque]
    pub open spec fn saving(self) -> DaemonView {
        match self.model.deck.session() {
            Some(session) => self.doing(TaskView::SaveSession(session)),
            None => self.doing(TaskView::ClearSession),
        }
    }

    /// The daemon with the library on the way to being read again, where it can
    /// be and is not already.
    #[verifier::opaque]
    pub open spec fn refreshed(self) -> DaemonView {
        if self.refreshing || self.model.tokens is None {
            self
        } else {
            DaemonView { refreshing: true, ..self }.doing(TaskView::FetchLibrary)
        }
    }

    /// The daemon after the player refused something.
    #[verifier::opaque]
    pub open spec fn refused(self, detail: Seq<char>) -> DaemonView {
        let deck = self.model.deck;
        let after = self.with_deck(deck.retrying(detail, false));
        match deck.refused(detail) {
            Retry::NotOurs => after.publishing(EventView::Error { detail }),
            Retry::NothingLeft => after.doing(TaskView::SaveDead).publishing(
                EventView::Error { detail: "None of these tracks are available to stream"@ },
            ),
            Retry::Resent => after.doing(TaskView::SaveDead),
        }
    }

    /// The daemon once something attached to the player's process.
    #[verifier::opaque]
    pub open spec fn attached(self, authorized: bool, saved: Option<SessionView>) -> DaemonView {
        let counted = DaemonView {
            restarts: 0,
            restored: self.restored || authorized,
            engine: Engine::Up,
            ..self
        }.staged(
            if authorized {
                StageView::Ready
            } else {
                StageView::SignedOut
            },
        );
        let back = match saved {
            Some(session) => if authorized && !self.restored {
                counted.with_deck(
                    if self.engine == Engine::Waking {
                        counted.model.deck.restoring_ahead(session)
                    } else {
                        counted.model.deck.restoring(session)
                    },
                )
            } else {
                counted
            },
            None => counted,
        };
        if authorized {
            back.refreshed()
        } else {
            back
        }
    }

    /// The daemon once it has taken in what an event says apart from the mirror.
    #[verifier::opaque]
    pub open spec fn told(self, event: PlayerEvent, saved: Option<SessionView>) -> DaemonView {
        match event {
            PlayerEvent::HookReady { authorized } => self.attached(authorized, saved),
            PlayerEvent::HookFailed { detail } => self.staged(
                StageView::Broken { detail: detail@ },
            ),
            PlayerEvent::Error { detail } => self.refused(detail@),
            PlayerEvent::Volume { volume } => DaemonView {
                model: ModelView { volume, ..self.model },
                ..self
            },
            PlayerEvent::LibraryWrite { kind, id, ok, detail } => if ok {
                self.refreshed()
            } else {
                self.publishing(EventView::Error { detail: detail@ })
            },
            PlayerEvent::CmdDone { cmd } => DaemonView { after_apply: Some(cmd@), ..self },
            PlayerEvent::Tokens(tokens) => DaemonView {
                model: ModelView { tokens: Some(tokens), ..self.model },
                ..self
            },
            _ => self,
        }
    }

    /// The daemon once it has looked to the current track's cover. `cached` is
    /// where it lies on disk already, if it does.
    #[verifier::opaque]
    pub open spec fn covered(self, cached: Option<Seq<char>>) -> DaemonView {
        let template = match self.model.deck.player.now_playing {
            Some(item) => text::text_view(item.artwork_template),
            None => None,
        };
        if template == self.art_for {
            self
        } else {
            let known = DaemonView { art_for: template, ..self };
            match template {
                Some(template) => match cached {
                    Some(path) => DaemonView {
                        model: ModelView { art_path: Some(path), ..self.model },
                        ..known
                    },
                    None => DaemonView {
                        model: ModelView { art_path: None, ..self.model },
                        ..known
                    }.doing(TaskView::FetchArtwork { template }),
                },
                None => DaemonView {
                    model: ModelView { art_path: None, ..self.model },
                    ..known
                },
            }
        }
    }

    /// The daemon with its queue told to everyone and on the way to being
    /// remembered.
    #[verifier::opaque]
    pub open spec fn requeued(self) -> DaemonView {
        self.publishing(self.queue_event()).saving()
    }

    /// The daemon with a reloaded track put back where it was.
    #[verifier::opaque]
    pub open spec fn resumed(self) -> DaemonView {
        self.with_deck(self.model.deck.resumed())
    }

    /// The daemon with its mirror moved, and what follows from a new queue or a
    /// new current item.
    #[verifier::opaque]
    pub open spec fn mirrored(
        self,
        event: PlayerEvent,
        player: PlayerView,
        cached: Option<Seq<char>>,
    ) -> DaemonView {
        let moved = self.with_deck(DeckView { player, ..self.model.deck });
        if event is NowPlaying {
            moved.requeued().resumed().covered(cached)
        } else if event is Queue {
            moved.requeued()
        } else {
            moved
        }
    }

    /// The daemon once what was waiting on the mirror has been judged.
    #[verifier::opaque]
    pub open spec fn settled(self) -> DaemonView {
        let judged = match self.after_apply {
            Some(cmd) => DaemonView { after_apply: None, ..self }.with_deck(
                self.model.deck.judged(cmd),
            ),
            None => self,
        };
        judged.with_deck(judged.model.deck.verified())
    }

    /// The daemon after an event. `player` is the mirror once the event has
    /// reached it.
    pub open spec fn after(
        self,
        event: PlayerEvent,
        player: PlayerView,
        saved: Option<SessionView>,
        cached: Option<Seq<char>>,
    ) -> DaemonView {
        self.told(event, saved).mirrored(event, player, cached).settled().showing()
    }

    /// The daemon after a client asked for a change to what the service holds.
    #[verifier::opaque]
    pub open spec fn writing(self, action: WriteAction, id: Seq<char>) -> DaemonView {
        match action {
            WriteAction::RemoveFromLibrary => self.sending(CommandView::RemoveFromLibrary { id }),
            WriteAction::Unfavorite => self.sending(CommandView::Unfavorite { id }),
            _ => if self.model.tokens is None {
                self.publishing(not_signed_in())
            } else {
                self.doing(TaskView::WriteLibrary { action, id })
            },
        }
    }

    /// The daemon after a client asked for a list to be played.
    #[verifier::opaque]
    pub open spec fn playing(
        self,
        ids: Seq<Seq<char>>,
        index: int,
        start: Start,
        nanos: int,
    ) -> DaemonView {
        let row = if start == Start::Shuffled {
            shuffled_row(ids.len() as int, nanos)
        } else {
            index
        };
        if queue::queued(deck::full(ids), self.model.deck.dead).len() == 0 {
            self.publishing(nothing_to_play())
        } else {
            self.with_deck(self.model.deck.starting(deck::full(ids), row, start))
        }
    }

    /// The daemon after a client asked for a row of the loaded queue. Clicking a
    /// row is a request to *play* it.
    #[verifier::opaque]
    pub open spec fn jumping(self, index: int) -> DaemonView {
        let moved = self.with_deck(DeckView { pending_start: None, ..self.model.deck }).sending(
            CommandView::ChangeToIndex { index },
        );
        if self.model.deck.player.playing {
            moved
        } else {
            moved.sending(CommandView::Play)
        }
    }

    /// The daemon with something to ask of the service, where it can be asked.
    #[verifier::opaque]
    pub open spec fn requesting(self, task: TaskView) -> DaemonView {
        if self.model.tokens is None {
            self.publishing(not_signed_in())
        } else {
            self.doing(task)
        }
    }

    /// The songs of a list that can join the queue.
    pub open spec fn joinable(self, ids: Seq<Seq<char>>) -> Seq<Seq<char>> {
        deck::survivors(ids, self.model.deck.dead)
    }

    /// The daemon with songs on the way into the loaded queue.
    #[verifier::opaque]
    pub open spec fn enqueueing(self, ids: Seq<Seq<char>>, next: bool) -> DaemonView {
        let songs = self.joinable(ids);
        if songs.len() == 0 {
            self
        } else if next {
            self.sending(CommandView::PlayNext { songs })
        } else {
            self.sending(CommandView::PlayLater { songs })
        }
    }

    /// Whether a row of the queue is the one being played, which the player
    /// will not remove.
    pub open spec fn is_current(self, index: int) -> bool {
        index == self.model.deck.player.queue_position && self.model.deck.player.queue.len() > 0
    }

    /// The daemon with a row on the way out of the queue.
    #[verifier::opaque]
    pub open spec fn removing(self, index: int) -> DaemonView {
        if self.is_current(index) {
            self
        } else {
            self.sending(CommandView::RemoveFromQueue { index })
        }
    }

    /// Whether a move stays within the queue.
    pub open spec fn can_move(self, from: int, to: int) -> bool {
        0 <= from < self.model.deck.player.queue.len() && 0 <= to
            < self.model.deck.player.queue.len()
    }

    /// The daemon with a row of its queue moved, ahead of the player's answer.
    #[verifier::opaque]
    pub open spec fn moving(self, from: int, to: int) -> DaemonView {
        if self.can_move(from, to) {
            self.with_deck(
                DeckView {
                    player: self.model.deck.player.after_move(from, to),
                    ..self.model.deck
                },
            ).sending(CommandView::MoveInQueue { from, to })
        } else {
            self
        }
    }

    /// The daemon with its queue on the way to being emptied.
    #[verifier::opaque]
    pub open spec fn clearing(self) -> DaemonView {
        let told = self.sending(CommandView::ClearQueue);
        told.with_deck(told.model.deck.forgotten()).doing(TaskView::ClearSession)
    }

    /// The daemon with a verb on the way to the player. The volume is ours to
    /// remember.
    #[verifier::opaque]
    pub open spec fn driving(self, transport: Transport) -> DaemonView {
        let told = self.sending(transport.command());
        match transport {
            Transport::SetVolume { volume } => DaemonView {
                model: ModelView { volume, ..told.model },
                ..told
            },
            _ => told,
        }
    }

    /// The daemon on its way out.
    #[verifier::opaque]
    pub open spec fn leaving(self) -> DaemonView {
        self.saving().doing(TaskView::Exit)
    }

    /// A window of the library, as a client is told it.
    #[verifier::opaque]
    pub open spec fn rows_event(
        self,
        view: ipc::View,
        query: Seq<char>,
        offset: int,
        limit: int,
    ) -> EventView {
        let rows = self.model.library.matching(view, query);
        EventView::Rows {
            view,
            entries: library::window(rows, offset, limit),
            total: rows.len() as int,
        }
    }

    /// The daemon after a request. `alone` is whether nobody else is attached:
    /// quitting would take the player from everyone who is.
    pub open spec fn asked(self, request: Request, nanos: int, alone: bool) -> DaemonView {
        match request {
            Request::JumpTo { index } => self.jumping(index as int),
            Request::Open { kind, id } => self.requesting(TaskView::OpenPage { kind, id: id@ }),
            Request::Search { query, filter, offset } => self.requesting(
                TaskView::SearchCatalog { query: query@, filter, offset: offset as int },
            ),
            Request::Play { ids, index, start } => self.playing(
                text::texts(ids@),
                index as int,
                start.means(),
                nanos,
            ),
            Request::Enqueue { ids, next } => self.enqueueing(text::texts(ids@), next),
            Request::RemoveFromQueue { index } => self.removing(index as int),
            Request::MoveInQueue { from, to } => self.moving(from as int, to as int),
            Request::ClearQueue => self.clearing(),
            Request::Write { action, id } => self.writing(action, id@),
            Request::Refresh => self.refreshed(),
            Request::Transport(transport) => self.driving(transport),
            Request::Quit => if alone {
                self.leaving()
            } else {
                self
            },
            Request::Snapshot => self,
            Request::Subscribe => self,
            Request::Queue => self,
            Request::Browse { .. } => self,
        }
    }

    /// What a request is answered, to the one who asked.
    pub open spec fn answered(self, request: Request, alone: bool) -> Option<EventView> {
        match request {
            Request::Subscribe => Some(EventView::Snapshot(self.model.snap())),
            Request::Snapshot => Some(EventView::Snapshot(self.model.snap())),
            Request::Queue => Some(self.queue_event()),
            Request::Browse { view, query, offset, limit } => Some(
                self.rows_event(view, query@, offset as int, limit as int),
            ),
            Request::Enqueue { ids, next } => if self.joinable(text::texts(ids@)).len() == 0 {
                Some(nothing_to_play())
            } else {
                None
            },
            Request::RemoveFromQueue { index } => if self.is_current(index as int) {
                Some(EventView::Error { detail: "Can't remove the track that's playing"@ })
            } else {
                None
            },
            Request::MoveInQueue { from, to } => if self.can_move(from as int, to as int) {
                Some(self.moving(from as int, to as int).queue_event())
            } else {
                None
            },
            Request::Quit => if alone {
                None
            } else {
                Some(still_open())
            },
            _ => None,
        }
    }

    /// The daemon after a controller on the bus asked for something.
    pub open spec fn commanded(self, cmd: MprisCommand) -> DaemonView {
        match cmd {
            MprisCommand::Play => self.sending(CommandView::Play),
            MprisCommand::Pause => self.sending(CommandView::Pause),
            MprisCommand::PlayPause => self.sending(CommandView::PlayPause),
            MprisCommand::Next => self.sending(CommandView::Next),
            MprisCommand::Previous => self.sending(CommandView::Previous),
            MprisCommand::Seek(position_ms) => self.sending(CommandView::Seek { position_ms }),
            MprisCommand::SetShuffle(shuffle) => self.sending(CommandView::SetShuffle { shuffle }),
            MprisCommand::SetRepeat(mode) => self.sending(CommandView::SetRepeat { mode }),
            MprisCommand::SetVolume(volume) => DaemonView {
                model: ModelView { volume, ..self.model },
                ..self
            }.sending(CommandView::SetVolume { volume }),
            MprisCommand::Raise => self,
            MprisCommand::Quit => self,
        }
    }
}

/// A row to open a shuffle on, from the clock's nanoseconds: one number, once
/// per shuffled play.
pub fn random_row(len: usize, nanos: u32) -> (r: usize)
    ensures
        r == shuffled_row(len as int, nanos as int),
        len > 0 ==> r < len,
{
    if len == 0 {
        return 0;
    }
    nanos as usize % len
}

/// What a client that said something unreadable is told: silence would look
/// like a hang.
pub fn unreadable(why: &str) -> (r: Event)
    ensures
        r@ == (EventView::Error { detail: "unreadable request: "@ + why@ }),
{
    let mut detail = "unreadable request: ".to_string();
    detail.append(why);
    Event::Error { detail }
}

fn error(detail: &str) -> (r: Event)
    ensures
        r@ == (EventView::Error { detail: detail@ }),
{
    Event::Error { detail: detail.to_string() }
}

impl Daemon {
    pub fn new(model: Model) -> (r: Self)
        ensures
            r@ == (DaemonView {
                model: model@,
                restored: false,
                restarts: 0,
                after_apply: None,
                refreshing: false,
                art_for: None,
                engine: Engine::Up,
                quiet_since: None,
                tasks: Seq::empty(),
            }),
    {
        Daemon {
            model,
            restored: false,
            restarts: 0,
            after_apply: None,
            refreshing: false,
            art_for: None,
            engine: Engine::Up,
            quiet_since: None,
            tasks: Vec::new(),
        }
    }

    pub(crate) fn task(&mut self, task: Task)
        ensures
            final(self)@ == old(self)@.doing(task@),
    {
        let ghost before = tasks_of(self.tasks@);
        let ghost more = task@;
        self.tasks.push(task);
        proof {
            assert(tasks_of(self.tasks@) =~= before.push(more));
        }
    }

    fn publish(&mut self, event: Event)
        ensures
            final(self)@ == old(self)@.publishing(event@),
    {
        self.task(Task::Publish(event));
    }

    /// Tell the player something.
    pub fn send(&mut self, command: Command)
        ensures
            final(self)@ == old(self)@.sending(command@),
    {
        proof {
            reveal(DaemonView::sending);
        }
        self.model.deck.send(command);
    }

    pub(crate) fn publish_snapshot(&mut self)
        ensures
            final(self)@ == old(self)@.showing(),
    {
        proof {
            reveal(DaemonView::showing);
        }
        let snapshot = self.model.snapshot();
        let bus = self.model.state();
        self.publish(Event::Snapshot(snapshot));
        self.task(Task::TellBus(bus));
    }

    fn queue_now(&self) -> (r: Event)
        ensures
            r@ == self@.queue_event(),
    {
        proof {
            reveal(DaemonView::queue_event);
        }
        let (items, position) = self.model.queue();
        Event::Queue { items, position }
    }

    fn enter(&mut self, stage: Stage)
        ensures
            final(self)@ == old(self)@.staged(stage@),
    {
        proof {
            reveal(DaemonView::staged);
        }
        self.model.stage = stage.clone();
        self.publish(Event::Stage(stage));
    }

    /// Remember the queue and where we are in it.
    pub fn save_session(&mut self)
        ensures
            final(self)@ == old(self)@.saving(),
    {
        proof {
            reveal(DaemonView::saving);
        }
        match self.model.deck.save_session() {
            Some(session) => self.task(Task::SaveSession(session)),
            None => self.task(Task::ClearSession),
        }
    }

    /// Read the library again and tell clients it moved, at most once at a time
    /// and not before there is a way to ask.
    pub fn refresh_library(&mut self)
        ensures
            final(self)@ == old(self)@.refreshed(),
    {
        proof {
            reveal(DaemonView::refreshed);
        }
        if self.refreshing || self.model.tokens.is_none() {
            return ;
        }
        self.refreshing = true;
        self.task(Task::FetchLibrary);
    }

    fn retry_without_dead_tracks(&mut self, detail: &str)
        ensures
            final(self)@ == old(self)@.refused(detail@),
    {
        proof {
            reveal(DaemonView::refused);
        }
        match self.model.deck.retry_without_dead_tracks(detail, false) {
            Retry::NotOurs => self.publish(error(detail)),
            Retry::NothingLeft => {
                self.task(Task::SaveDead);
                self.publish(error("None of these tracks are available to stream"));
            },
            Retry::Resent => self.task(Task::SaveDead),
        }
    }

    fn attach(&mut self, authorized: bool, saved: Option<Session>)
        ensures
            final(self)@ == old(self)@.attached(
                authorized,
                match saved {
                    Some(session) => Some(session@),
                    None => None,
                },
            ),
    {
        proof {
            reveal(DaemonView::attached);
        }
        let restore = authorized && !self.restored;
        let woken = self.engine == Engine::Waking;
        self.restarts = 0;
        self.restored = self.restored || authorized;
        self.engine = Engine::Up;
        self.enter(
            if authorized {
                Stage::Ready
            } else {
                Stage::SignedOut
            },
        );
        if restore {
            if let Some(session) = saved {
                if woken {
                    self.model.deck.restore_ahead(session);
                } else {
                    self.model.deck.restore_session(session);
                }
            }
        }
        if authorized {
            self.refresh_library();
        }
    }

    fn take_in(&mut self, event: &PlayerEvent, saved: Option<Session>)
        ensures
            final(self)@ == old(self)@.told(
                *event,
                match saved {
                    Some(session) => Some(session@),
                    None => None,
                },
            ),
    {
        proof {
            reveal(DaemonView::told);
        }
        match event {
            PlayerEvent::HookReady { authorized } => self.attach(*authorized, saved),
            PlayerEvent::HookFailed { detail } => self.enter(
                Stage::Broken { detail: detail.clone() },
            ),
            PlayerEvent::Error { detail } => self.retry_without_dead_tracks(detail.as_str()),
            PlayerEvent::Volume { volume } => {
                self.model.volume = *volume;
            },
            PlayerEvent::LibraryWrite { kind: _, id: _, ok, detail } => {
                if *ok {
                    self.refresh_library();
                } else {
                    self.publish(error(detail.as_str()));
                }
            },
            PlayerEvent::CmdDone { cmd } => {
                self.after_apply = Some(cmd.clone());
            },
            PlayerEvent::Tokens(tokens) => {
                self.model.tokens = Some(tokens.clone());
            },
            _ => {},
        }
    }

    /// Look to the current track's cover, at most once per template. `cached`
    /// is where it lies on disk already, if it does.
    ///
    /// A stale cover under a new track is worse than none, so one that has to
    /// be fetched is cleared first.
    pub fn fetch_artwork(&mut self, cached: Option<String>)
        ensures
            final(self)@ == old(self)@.covered(text::text_view(cached)),
    {
        proof {
            reveal(DaemonView::covered);
        }
        let template: Option<String> = match &self.model.deck.player.now_playing {
            Some(item) => item.artwork_template.clone(),
            None => None,
        };
        if text::same_option(&template, &self.art_for) {
            return ;
        }
        self.art_for = template.clone();
        match template {
            Some(template) => {
                if cached.is_some() {
                    self.model.art_path = cached;
                } else {
                    self.model.art_path = None;
                    self.task(Task::FetchArtwork { template });
                }
            },
            None => {
                self.model.art_path = None;
            },
        }
    }

    /// Whether an event is one that puts the last session back, so that it has
    /// to be at hand.
    pub fn wants_session(&self, event: &PlayerEvent) -> (r: bool)
        ensures
            r == (*event matches PlayerEvent::HookReady { authorized } && authorized
                && !self@.restored),
    {
        match event {
            PlayerEvent::HookReady { authorized } => *authorized && !self.restored,
            _ => false,
        }
    }

    fn announce_queue(&mut self)
        ensures
            final(self)@ == old(self)@.requeued(),
    {
        proof {
            reveal(DaemonView::requeued);
        }
        let queue = self.queue_now();
        self.publish(queue);
        self.save_session();
    }

    fn resume_position(&mut self)
        ensures
            final(self)@ == old(self)@.resumed(),
    {
        proof {
            reveal(DaemonView::resumed);
        }
        self.model.deck.resume_position();
    }

    fn mirror(&mut self, event: &PlayerEvent, player: PlayerState, cached: Option<String>)
        ensures
            final(self)@ == old(self)@.mirrored(*event, player@, text::text_view(cached)),
    {
        proof {
            reveal(DaemonView::mirrored);
        }
        self.model.deck.player = player;
        match event {
            PlayerEvent::NowPlaying => {
                self.announce_queue();
                self.resume_position();
                self.fetch_artwork(cached);
            },
            PlayerEvent::Queue => self.announce_queue(),
            _ => {},
        }
    }

    fn settle(&mut self)
        ensures
            final(self)@ == old(self)@.settled(),
    {
        proof {
            reveal(DaemonView::settled);
        }
        if let Some(cmd) = self.after_apply.take() {
            self.model.deck.play_did_nothing(cmd.as_str());
        }
        self.model.deck.verify_start();
    }

    /// Take in an event.
    ///
    /// `player` is the mirror once the event has reached it. Stages move before
    /// the mirror does, so that a client is told the daemon is ready by the
    /// same pass that makes it so; everything derived from the mirror comes
    /// after.
    pub fn on_event(
        &mut self,
        event: PlayerEvent,
        player: PlayerState,
        saved: Option<Session>,
        cached: Option<String>,
    )
        ensures
            final(self)@ == old(self)@.after(
                event,
                player@,
                match saved {
                    Some(session) => Some(session@),
                    None => None,
                },
                text::text_view(cached),
            ),
    {
        self.take_in(&event, saved);
        self.mirror(&event, player, cached);
        self.settle();
        self.publish_snapshot();
    }

    /// Change what the service holds for this account.
    ///
    /// Two routes out: adding and favouriting are asked of the service, while
    /// removing and un-favouriting only the player itself can do.
    pub fn write(&mut self, action: WriteAction, id: String)
        ensures
            final(self)@ == old(self)@.writing(action, id@),
    {
        proof {
            reveal(DaemonView::writing);
        }
        match action {
            WriteAction::RemoveFromLibrary => self.send(Command::RemoveFromLibrary { id }),
            WriteAction::Unfavorite => self.send(Command::Unfavorite { id }),
            _ => {
                if self.model.tokens.is_none() {
                    self.publish(error("Not signed in yet"));
                } else {
                    self.task(Task::WriteLibrary { action, id });
                }
            },
        }
    }

    /// Build a queue from ids a client drew, and start it. A shuffle opens on a
    /// row the clock picks.
    pub fn play(&mut self, ids: &[String], index: usize, start: Start, nanos: u32)
        ensures
            final(self)@ == old(self)@.playing(
                text::texts(ids@),
                index as int,
                start,
                nanos as int,
            ),
    {
        proof {
            reveal(DaemonView::playing);
        }
        let row: usize = if start.reorders() {
            random_row(ids.len(), nanos)
        } else {
            index
        };
        if !self.model.deck.play_ids(ids, row, start) {
            self.publish(error("Nothing here can be streamed"));
        }
    }

    fn jump_to(&mut self, index: usize)
        ensures
            final(self)@ == old(self)@.jumping(index as int),
    {
        proof {
            reveal(DaemonView::jumping);
        }
        let playing = self.model.deck.player.playing;
        self.model.deck.pending_start = None;
        self.send(Command::ChangeToIndex { index });
        if !playing {
            self.send(Command::Play);
        }
    }

    fn request(&mut self, task: Task)
        ensures
            final(self)@ == old(self)@.requesting(task@),
    {
        proof {
            reveal(DaemonView::requesting);
        }
        if self.model.tokens.is_none() {
            self.publish(error("Not signed in yet"));
        } else {
            self.task(task);
        }
    }

    fn enqueue(&mut self, ids: &[String], next: bool) -> (r: Option<Event>)
        ensures
            final(self)@ == old(self)@.enqueueing(text::texts(ids@), next),
            r is Some == (old(self)@.joinable(text::texts(ids@)).len() == 0),
            r is Some ==> r->0@ == nothing_to_play(),
    {
        proof {
            reveal(DaemonView::enqueueing);
        }
        let songs = deck::without_dead(ids, &self.model.deck.dead_ids);
        if songs.len() == 0 {
            return Some(error("Nothing here can be streamed"));
        }
        self.send(
            if next {
                Command::PlayNext { songs }
            } else {
                Command::PlayLater { songs }
            },
        );
        None
    }

    fn remove_from_queue(&mut self, index: usize) -> (r: Option<Event>)
        ensures
            final(self)@ == old(self)@.removing(index as int),
            r is Some == old(self)@.is_current(index as int),
            r is Some ==> r->0@ == (EventView::Error {
                detail: "Can't remove the track that's playing"@,
            }),
    {
        proof {
            reveal(DaemonView::removing);
        }
        let player = &self.model.deck.player;
        if index == player.queue_position && player.queue.len() > 0 {
            return Some(error("Can't remove the track that's playing"));
        }
        self.send(Command::RemoveFromQueue { index });
        None
    }

    fn move_in_queue(&mut self, from: usize, to: usize) -> (r: Option<Event>)
        ensures
            final(self)@ == old(self)@.moving(from as int, to as int),
            r is Some == old(self)@.can_move(from as int, to as int),
            r is Some ==> r->0@ == final(self)@.queue_event(),
    {
        proof {
            reveal(DaemonView::moving);
        }
        if self.model.deck.player.move_item(from, to) {
            self.send(Command::MoveInQueue { from, to });
            return Some(self.queue_now());
        }
        None
    }

    fn clear_queue(&mut self)
        ensures
            final(self)@ == old(self)@.clearing(),
    {
        proof {
            reveal(DaemonView::clearing);
        }
        self.send(Command::ClearQueue);
        self.model.deck.forget_queue();
        self.task(Task::ClearSession);
    }

    fn drive(&mut self, transport: Transport)
        ensures
            final(self)@ == old(self)@.driving(transport),
    {
        proof {
            reveal(DaemonView::driving);
        }
        self.send(ipc::command_for(transport));
        if let Transport::SetVolume { volume } = transport {
            self.model.volume = volume;
        }
    }

    /// Leave, remembering the queue: this is the last moment its position is
    /// accurate.
    pub fn leave(&mut self)
        ensures
            final(self)@ == old(self)@.leaving(),
    {
        proof {
            reveal(DaemonView::leaving);
        }
        self.save_session();
        self.task(Task::Exit);
    }

    fn browse(&self, view: ipc::View, query: &str, offset: usize, limit: usize) -> (r: Event)
        ensures
            r@ == self@.rows_event(view, query@, offset as int, limit as int),
    {
        proof {
            reveal(DaemonView::rows_event);
        }
        let (entries, total) = self.model.library.browse(view, query, offset, limit);
        Event::Rows { view, entries, total }
    }

    /// Answer a request, and do what it asks. `feed` is whether the client that
    /// asked is subscribed, and `alone` whether it is the only one attached.
    pub fn answer(
        &mut self,
        request: Request,
        feed: &mut bool,
        nanos: u32,
        alone: bool,
    ) -> (r: Option<Event>)
        ensures
            final(self)@ == old(self)@.asked(request, nanos as int, alone),
            *final(feed) == (*old(feed) || request is Subscribe),
            match r {
                Some(event) => old(self)@.answered(request, alone) == Some(event@),
                None => old(self)@.answered(request, alone) is None,
            },
    {
        match request {
            Request::Subscribe => {
                *feed = true;
                Some(Event::Snapshot(self.model.snapshot()))
            },
            Request::Snapshot => Some(Event::Snapshot(self.model.snapshot())),
            Request::Queue => Some(self.queue_now()),
            Request::Browse { view, query, offset, limit } => Some(
                self.browse(view, query.as_str(), offset, limit),
            ),
            Request::JumpTo { index } => {
                self.jump_to(index);
                None
            },
            Request::Open { kind, id } => {
                self.request(Task::OpenPage { kind, id });
                None
            },
            Request::Search { query, filter, offset } => {
                self.request(Task::SearchCatalog { query, filter, offset });
                None
            },
            Request::Play { ids, index, start } => {
                self.play(ids.as_slice(), index, Start::from(start), nanos);
                None
            },
            Request::Enqueue { ids, next } => self.enqueue(ids.as_slice(), next),
            Request::RemoveFromQueue { index } => self.remove_from_queue(index),
            Request::MoveInQueue { from, to } => self.move_in_queue(from, to),
            Request::ClearQueue => {
                self.clear_queue();
                None
            },
            Request::Write { action, id } => {
                self.write(action, id);
                None
            },
            Request::Refresh => {
                self.refresh_library();
                None
            },
            Request::Transport(transport) => {
                self.drive(transport);
                None
            },
            Request::Quit => {
                if alone {
                    self.leave();
                    None
                } else {
                    Some(error("Another window is still open"))
                }
            },
        }
    }

    /// Do what a controller on the bus asks for. There is no window to raise,
    /// and quitting would take the player from every client.
    pub fn on_command(&mut self, cmd: MprisCommand)
        ensures
            final(self)@ == old(self)@.commanded(cmd),
    {
        match cmd {
            MprisCommand::Play => self.send(Command::Play),
            MprisCommand::Pause => self.send(Command::Pause),
            MprisCommand::PlayPause => self.send(Command::PlayPause),
            MprisCommand::Next => self.send(Command::Next),
            MprisCommand::Previous => self.send(Command::Previous),
            MprisCommand::Seek(position_ms) => self.send(Command::Seek { position_ms }),
            MprisCommand::SetShuffle(shuffle) => self.send(Command::SetShuffle { shuffle }),
            MprisCommand::SetRepeat(mode) => self.send(Command::SetRepeat { mode }),
            MprisCommand::SetVolume(volume) => {
                self.model.volume = volume;
                self.send(Command::SetVolume { volume });
            },
            MprisCommand::Raise | MprisCommand::Quit => {},
        }
    }
}

} // verus!
