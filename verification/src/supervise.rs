//! Keeping the daemon going: claiming its socket, outliving the player's
//! process, and taking in what was fetched.

use vstd::arithmetic::power2::{lemma2_to64, lemma_pow2_strictly_increases, pow2};
use vstd::prelude::*;

use crate::daemon::ModelView;
use crate::ipc::{Event, EventView, PageKind, Stage, StageView};
use crate::library;
use crate::library::{Library, LibraryView};
use crate::music::{Album, Entry, SearchResults, Track};
use crate::serve::{Daemon, DaemonView, Task, TaskView};
use crate::view::CatalogFilter;

verus! {

/// What to do about the place where the socket goes.
#[derive(Debug, Clone, Copy, PartialEq, Eq, Structural)]
pub enum Claim {
    /// Nothing is there: listen.
    Listen,
    /// A leftover is there that nobody answers: remove it, then listen.
    RemoveStale,
    /// A daemon is listening already, and it is not ours to replace.
    AlreadyRunning,
}

/// Decide about the socket. A file of it outlives the process that made it, so
/// it is asked before it is removed: two daemons must never run side by side.
pub fn claim(exists: bool, answers: bool) -> (r: Claim)
    ensures
        r == Claim::AlreadyRunning <==> exists && answers,
        r == Claim::RemoveStale <==> exists && !answers,
        r == Claim::Listen <==> !exists,
{
    if !exists {
        Claim::Listen
    } else if answers {
        Claim::AlreadyRunning
    } else {
        Claim::RemoveStale
    }
}

/// How many seconds to wait before a start of the player's process: twice as
/// long for every one in a row that failed, half a minute at most.
pub fn restart_delay(attempt: u32) -> (r: u64)
    ensures
        r == if pow2(attempt as nat) < 30 {
            pow2(attempt as nat)
        } else {
            30
        },
{
    proof {
        lemma2_to64();
        if attempt > 5 {
            lemma_pow2_strictly_increases(5, attempt as nat);
        }
    }
    if attempt < 5 {
        [1u64, 2, 4, 8, 16][attempt as usize]
    } else {
        30
    }
}

/// What a fetched page holds: its title and its tracks, or an artist's name and
/// albums.
#[derive(Debug, PartialEq, Eq)]
pub struct FetchedPage {
    pub title: String,
    pub tracks: Vec<Track>,
    pub albums: Vec<Album>,
}

/// The rows of a page. An artist's are their albums, not their tracks.
pub open spec fn page_rows(kind: PageKind, page: FetchedPage) -> Seq<Entry> {
    match kind {
        PageKind::Artist => library::album_rows(page.albums@),
        _ => library::song_rows(page.tracks@),
    }
}

impl DaemonView {
    /// The daemon on its way to starting the player's process again.
    pub open spec fn restarting(self) -> DaemonView {
        let saved = self.saving();
        DaemonView { restarts: (saved.restarts + 1) as u32, ..saved }.publishing(
            EventView::Stage(StageView::Connecting),
        )
    }

    /// The daemon with a new process, which holds nothing.
    pub open spec fn respawned(self) -> DaemonView {
        DaemonView {
            restored: false,
            model: ModelView { stage: StageView::Connecting, ..self.model },
            ..self
        }
    }

    /// The daemon with the library it fetched, or with the one it had.
    pub open spec fn stocked(self, fetched: Option<LibraryView>) -> DaemonView {
        let idle = DaemonView { refreshing: false, ..self };
        match fetched {
            Some(library) => DaemonView {
                model: ModelView { library, ..self.model },
                ..idle
            }.doing(TaskView::SaveLibrary).publishing(EventView::LibraryChanged),
            None => idle,
        }
    }
}

/// What clients are told of a page that was fetched, or could not be.
pub open spec fn page_event(
    kind: PageKind,
    id: Seq<char>,
    page: Result<FetchedPage, String>,
) -> EventView {
    match page {
        Ok(page) => EventView::Page {
            kind,
            id,
            title: page.title@,
            entries: page_rows(kind, page),
        },
        Err(why) => EventView::Error { detail: why@ },
    }
}

/// What clients are told of a search that ended.
pub open spec fn results_event(
    query: Seq<char>,
    filter: CatalogFilter,
    offset: int,
    found: Result<SearchResults, String>,
) -> EventView {
    match found {
        Ok(found) => EventView::Results {
            query,
            entries: library::result_rows(filter, found, offset == 0),
        },
        Err(why) => EventView::Error { detail: why@ },
    }
}

impl DaemonView {
    /// The daemon after a tick of its clock.
    pub open spec fn ticked(self) -> DaemonView {
        if self.model.deck.player.playing {
            self.showing()
        } else {
            self
        }
    }

    /// The daemon after a write was sent, or refused.
    pub open spec fn written(self, result: Result<(), String>) -> DaemonView {
        match result {
            Ok(_) => self.refreshed(),
            Err(why) => self.publishing(EventView::Error { detail: why@ }),
        }
    }
}

impl Daemon {
    /// The player's process died.
    pub fn sidecar_died(&mut self, why: String)
        ensures
            final(self)@ == old(self)@.publishing(
                EventView::Stage(StageView::Broken { detail: why@ }),
            ),
    {
        self.task(Task::Publish(Event::Stage(Stage::Broken { detail: why })));
    }

    /// Get ready to start the player's process again, and say which attempt in
    /// a row this is. What is remembered is the live mirror, so that a crash in
    /// the middle of a track comes back to that track.
    pub fn restart(&mut self) -> (r: u32)
        requires
            old(self).restarts < u32::MAX,
        ensures
            r == old(self)@.restarts,
            final(self)@ == old(self)@.restarting(),
    {
        let attempt: u32 = self.restarts;
        proof {
            reveal(DaemonView::saving);
        }
        self.save_session();
        self.restarts = attempt + 1;
        self.task(Task::Publish(Event::Stage(Stage::Connecting)));
        attempt
    }

    /// A new process holds nothing, so the session goes back in once something
    /// attaches to it.
    pub fn sidecar_respawned(&mut self)
        ensures
            final(self)@ == old(self)@.respawned(),
    {
        self.restored = false;
        self.model.stage = Stage::Connecting;
    }

    /// The position moves without any event arriving, but only while playing: a
    /// paused player's position is a fact.
    pub fn tick(&mut self)
        ensures
            final(self)@ == old(self)@.ticked(),
    {
        if self.model.deck.player.playing {
            self.publish_snapshot();
        }
    }

    /// A library fetch ended. All of it has to have arrived; what was cached is
    /// kept otherwise.
    pub fn library_fetched(&mut self, fetched: Option<Library>)
        ensures
            final(self)@ == old(self)@.stocked(
                match fetched {
                    Some(library) => Some(library@),
                    None => None,
                },
            ),
    {
        self.refreshing = false;
        if let Some(library) = fetched {
            self.model.library = library;
            self.task(Task::SaveLibrary);
            self.task(Task::Publish(Event::LibraryChanged));
        }
    }

    /// A write was sent or refused. Sent is not done: the refresh is what makes
    /// it true.
    pub fn library_written(&mut self, result: Result<(), String>)
        ensures
            final(self)@ == old(self)@.written(result),
    {
        match result {
            Ok(_) => self.refresh_library(),
            Err(why) => self.task(Task::Publish(Event::Error { detail: why })),
        }
    }

    /// A page was fetched, or could not be.
    pub fn page_fetched(&mut self, kind: PageKind, id: String, page: Result<FetchedPage, String>)
        ensures
            final(self)@ == old(self)@.publishing(page_event(kind, id@, page)),
    {
        match page {
            Ok(page) => {
                let mut entries: Vec<Entry> = Vec::new();
                match kind {
                    PageKind::Artist => {
                        let n: usize = page.albums.len();
                        library::push_albums(&mut entries, page.albums.as_slice(), n);
                        proof {
                            assert(page.albums@.take(n as int) =~= page.albums@);
                        }
                    },
                    _ => {
                        let n: usize = page.tracks.len();
                        library::push_songs(&mut entries, page.tracks.as_slice(), n);
                        proof {
                            assert(page.tracks@.take(n as int) =~= page.tracks@);
                        }
                    },
                }
                proof {
                    assert(entries@ =~= page_rows(kind, page));
                }
                self.task(
                    Task::Publish(Event::Page { kind, id, title: page.title, entries }),
                );
            },
            Err(why) => self.task(Task::Publish(Event::Error { detail: why })),
        }
    }

    /// A search of the catalog ended. What it found is told under the question
    /// that was asked, so that a client can tell whether it still wants it.
    pub fn catalog_fetched(
        &mut self,
        query: String,
        filter: CatalogFilter,
        offset: usize,
        found: Result<SearchResults, String>,
    )
        ensures
            final(self)@ == old(self)@.publishing(
                results_event(query@, filter, offset as int, found),
            ),
    {
        match found {
            Ok(found) => {
                let (entries, _) = library::catalog_rows(filter, found, offset == 0);
                self.task(Task::Publish(Event::Results { query, entries }));
            },
            Err(why) => self.task(Task::Publish(Event::Error { detail: why })),
        }
    }

    /// A cover arrived. One that did not is not worth telling anyone about.
    pub fn artwork_fetched(&mut self, path: Option<String>)
        ensures
            final(self)@ == (match path {
                Some(path) => DaemonView {
                    model: ModelView { art_path: Some(path@), ..old(self)@.model },
                    ..old(self)@
                }.showing(),
                None => old(self)@,
            }),
    {
        if path.is_some() {
            self.model.art_path = path;
            self.publish_snapshot();
        }
    }
}

/// A page of an artist holds their albums, and any other its tracks, in the order they
/// came.
pub proof fn a_page_holds_what_it_is_a_page_of(page: FetchedPage, kind: PageKind)
    ensures
        kind == PageKind::Artist ==> page_rows(kind, page).len() == page.albums@.len() && forall|
            i: int,
        |
            0 <= i < page.albums@.len() ==> #[trigger] page_rows(kind, page)[i] == Entry::Album(
                page.albums@[i],
            ),
        kind != PageKind::Artist ==> page_rows(kind, page).len() == page.tracks@.len() && forall|
            i: int,
        |
            0 <= i < page.tracks@.len() ==> #[trigger] page_rows(kind, page)[i] == Entry::Song(
                page.tracks@[i],
            ),
{
}

/// A tick tells where a player that plays has got to, and says nothing of one that does not.
pub proof fn a_tick_tells_only_what_moves(daemon: DaemonView)
    ensures
        !daemon.model.deck.player.playing ==> daemon.ticked() == daemon,
        daemon.model.deck.player.playing ==> daemon.ticked() == (DaemonView {
            tasks: daemon.tasks.push(
                TaskView::Publish(EventView::Snapshot(daemon.model.snap())),
            ).push(TaskView::TellBus(daemon.model.bus())),
            ..daemon
        }),
{
    reveal(DaemonView::showing);
}

/// A write that was sent has the library fetched, where it can be. One that was refused is
/// told in its own words.
pub proof fn a_sent_write_has_the_library_fetched(daemon: DaemonView, why: String)
    ensures
        daemon.model.tokens is Some && !daemon.refreshing ==> daemon.written(Ok(())).tasks
            == daemon.tasks.push(TaskView::FetchLibrary),
        daemon.written(Err(why)) == (DaemonView {
            tasks: daemon.tasks.push(TaskView::Publish(EventView::Error { detail: why@ })),
            ..daemon
        }),
{
    reveal(DaemonView::refreshed);
}

/// A page is told under the kind and the id it was asked for, and results under the question
/// that was asked, so that a client can tell whether it still wants them. What failed is told
/// in its own words.
pub proof fn an_answer_names_its_question(
    kind: PageKind,
    id: Seq<char>,
    page: FetchedPage,
    query: Seq<char>,
    filter: CatalogFilter,
    offset: int,
    found: SearchResults,
    why: String,
)
    ensures
        page_event(kind, id, Ok(page)) == (EventView::Page {
            kind,
            id,
            title: page.title@,
            entries: page_rows(kind, page),
        }),
        results_event(query, filter, offset, Ok(found)) == (EventView::Results {
            query,
            entries: library::result_rows(filter, found, offset == 0),
        }),
        page_event(kind, id, Err(why)) == (EventView::Error { detail: why@ }),
        results_event(query, filter, offset, Err(why)) == (EventView::Error { detail: why@ }),
{
}

} // verus!
