//! What the keys ask for, and what the daemon's answers do to the screen.
//!
//! **No key changes what is playing, the queue or the library.** A press becomes
//! a request, and the screen moves when the daemon answers. The cursor and the
//! pane it is in are the exceptions: they are where this terminal is looking.

use vstd::prelude::*;
use vstd::view::View as _;

use crate::climat::browser;
use crate::climat::browser::{Browser, BrowserView, Showing, ShowingView};
use crate::climat::queue::{Queue, QueueView};
use crate::climat::ui::Focus;
use crate::ipc::{
    Event,
    EventView,
    PageKind,
    PlayMode,
    Request,
    RequestView,
    Snapshot,
    SnapshotView,
    Stage,
    StageView,
    Transport,
    View,
};
use crate::music::Entry;
use crate::protocol::RepeatMode;
use crate::text;
use crate::view::CatalogFilter;

verus! {

/// How often the screen is drawn while playing. It is what makes the clock tick
/// between what the daemon reports.
pub const FRAME_MS: u64 = 100;

/// How long a refusal stays on screen.
pub const MESSAGE_FOR_MS: u64 = 5_000;

/// How far one press of an arrow seeks.
pub const SEEK_MS: u64 = 5_000;

/// A key that was pressed.
#[derive(Debug, Clone, Copy, PartialEq, Eq, Structural)]
pub enum Key {
    Char(char),
    Left,
    Right,
    Up,
    Down,
    Tab,
    BackTab,
    Esc,
    Enter,
    Backspace,
    PageUp,
    PageDown,
    Home,
    Other,
}

/// Something that was refused, and when, so that it can fade.
#[derive(Debug)]
pub struct Message {
    pub words: String,
    pub at_ms: u64,
}

/// The client.
#[derive(Debug)]
pub struct App {
    pub snap: Snapshot,
    pub stage: Stage,
    pub browser: Browser,
    pub queue: Queue,
    pub focus: Focus,
    pub message: Option<Message>,
    /// Whether leaving is to stop the daemon too.
    pub quit_daemon: bool,
    /// What to ask the daemon, in order.
    pub outbox: Vec<Request>,
}

/// An [`App`] with its texts as sequences.
#[verifier::ext_equal]
pub struct AppView {
    pub snap: SnapshotView,
    pub stage: StageView,
    pub browser: BrowserView,
    pub queue: QueueView,
    pub focus: Focus,
    pub message: Option<(Seq<char>, u64)>,
    pub quit_daemon: bool,
    pub outbox: Seq<RequestView>,
}

/// The requests of a list.
pub open spec fn requests(list: Seq<Request>) -> Seq<RequestView> {
    list.map_values(|r: Request| r@)
}

impl vstd::view::View for App {
    type V = AppView;

    open spec fn view(&self) -> AppView {
        AppView {
            snap: self.snap@,
            stage: self.stage@,
            browser: self.browser@,
            queue: self.queue@,
            focus: self.focus,
            message: match self.message {
                Some(message) => Some((message.words@, message.at_ms)),
                None => None,
            },
            quit_daemon: self.quit_daemon,
            outbox: requests(self.outbox@),
        }
    }
}

/// Off, then all, then one: the order every player cycles them in.
pub open spec fn repeat_after(mode: RepeatMode) -> RepeatMode {
    match mode {
        RepeatMode::Off => RepeatMode::All,
        RepeatMode::All => RepeatMode::One,
        RepeatMode::One => RepeatMode::Off,
    }
}

/// Off, then all, then one: the order every player cycles them in.
pub fn next_repeat(mode: RepeatMode) -> (r: RepeatMode)
    ensures
        r == repeat_after(mode),
{
    match mode {
        RepeatMode::Off => RepeatMode::All,
        RepeatMode::All => RepeatMode::One,
        RepeatMode::One => RepeatMode::Off,
    }
}

/// The section a digit selects.
pub open spec fn section_of(digit: char) -> Option<View> {
    if digit == '1' {
        Some(View::Songs)
    } else if digit == '2' {
        Some(View::Albums)
    } else if digit == '3' {
        Some(View::Artists)
    } else if digit == '4' {
        Some(View::Playlists)
    } else {
        None
    }
}

fn section(digit: char) -> (r: Option<View>)
    ensures
        r == section_of(digit),
{
    if digit == '1' {
        Some(View::Songs)
    } else if digit == '2' {
        Some(View::Albums)
    } else if digit == '3' {
        Some(View::Artists)
    } else if digit == '4' {
        Some(View::Playlists)
    } else {
        None
    }
}

/// A position moved on, as far as a clock goes.
pub open spec fn sought_on(position_ms: u64) -> u64 {
    if position_ms + SEEK_MS <= u64::MAX {
        (position_ms + SEEK_MS) as u64
    } else {
        u64::MAX
    }
}

/// A position moved back, no further than the start.
pub open spec fn sought_back(position_ms: u64) -> u64 {
    if position_ms >= SEEK_MS {
        (position_ms - SEEK_MS) as u64
    } else {
        0
    }
}

impl AppView {
    /// A client that has heard nothing yet.
    pub open spec fn fresh() -> AppView {
        AppView {
            snap: SnapshotView::unknown(),
            stage: StageView::Connecting,
            browser: BrowserView::fresh(),
            queue: QueueView::fresh(),
            focus: Focus::Browser,
            message: None,
            quit_daemon: false,
            outbox: Seq::empty(),
        }
    }

    pub open spec fn asking(self, request: RequestView) -> AppView {
        AppView { outbox: self.outbox.push(request), ..self }
    }

    pub open spec fn with_browser(self, browser: BrowserView) -> AppView {
        AppView { browser, ..self }
    }

    pub open spec fn driving(self, transport: Transport) -> AppView {
        self.asking(RequestView::Transport(transport))
    }

    /// The client asking for whatever its pane is meant to be showing. The daemon
    /// answers from what it holds, so the whole section costs no more than a page
    /// of it.
    pub open spec fn browsing(self) -> AppView {
        self.asking(
            RequestView::Browse {
                view: self.browser.view,
                query: self.browser.filter,
                offset: 0,
                limit: 0,
            },
        )
    }

    /// The client on a section of the library.
    #[verifier::opaque]
    pub open spec fn on_library(self, view: View) -> AppView {
        self.with_browser(
            BrowserView { view, showing: ShowingView::Library, ..self.browser }.from_the_top(),
        ).browsing()
    }

    /// The client on the catalog, straight into the box. Nothing is asked yet.
    #[verifier::opaque]
    pub open spec fn on_catalog(self) -> AppView {
        self.with_browser(
            BrowserView {
                showing: ShowingView::Catalog { searching: false },
                rows: Seq::empty(),
                filter: Seq::empty(),
                typing: true,
                ..self.browser
            }.from_the_top(),
        )
    }

    /// The client asking the catalog for what is in the box. A blank box asks
    /// nothing.
    #[verifier::opaque]
    pub open spec fn searching(self) -> AppView {
        let query = text::trimmed(self.browser.filter);
        if query.len() == 0 {
            self.with_browser(BrowserView { rows: Seq::empty(), ..self.browser })
        } else {
            self.with_browser(
                BrowserView {
                    showing: ShowingView::Catalog { searching: true },
                    rows: Seq::empty(),
                    ..self.browser
                }.from_the_top(),
            ).asking(RequestView::Search { query, filter: CatalogFilter::All, offset: 0 })
        }
    }

    /// The client after an edit of the box. Over the library every edit asks
    /// again; over the catalog nothing is asked until it is sent.
    #[verifier::opaque]
    pub open spec fn edited(self, filter: Seq<char>) -> AppView {
        let changed = BrowserView { filter, ..self.browser };
        if self.browser.showing is Catalog {
            self.with_browser(changed)
        } else {
            self.with_browser(changed.from_the_top()).browsing()
        }
    }

    /// The client with its box closed and cleared.
    #[verifier::opaque]
    pub open spec fn box_cleared(self) -> AppView {
        let closed = BrowserView { filter: Seq::empty(), typing: false, ..self.browser };
        if self.browser.showing is Catalog {
            self.with_browser(BrowserView { rows: Seq::empty(), ..closed })
        } else {
            self.with_browser(closed.from_the_top()).browsing()
        }
    }

    /// The client with its box closed and kept. Over the catalog this is the
    /// send.
    #[verifier::opaque]
    pub open spec fn box_sent(self) -> AppView {
        let closed = self.with_browser(BrowserView { typing: false, ..self.browser });
        if self.browser.showing is Catalog {
            closed.searching()
        } else {
            closed
        }
    }

    /// The client after a key while its box is open. The box takes everything: a
    /// letter is a letter.
    pub open spec fn typed(self, key: Key) -> AppView {
        match key {
            Key::Char(c) => self.edited(self.browser.filter.push(c)),
            Key::Backspace => self.edited(
                if self.browser.filter.len() > 0 {
                    self.browser.filter.drop_last()
                } else {
                    self.browser.filter
                },
            ),
            Key::Esc => self.box_cleared(),
            Key::Enter => self.box_sent(),
            _ => self,
        }
    }

    /// The client with the cursor of the focused pane moved.
    #[verifier::opaque]
    pub open spec fn cursor_moved(self, delta: int) -> AppView {
        match self.focus {
            Focus::Browser => self.with_browser(self.browser.moved(delta)),
            Focus::Queue => AppView { queue: self.queue.moved(delta), ..self },
        }
    }

    /// The client with a page on its way, named before it arrives.
    pub open spec fn opening(self, entry: Entry, kind: PageKind, id: Seq<char>) -> AppView {
        self.with_browser(
            BrowserView {
                showing: ShowingView::Page {
                    title: entry.name(),
                    subtitle: entry.byline(),
                    loading: true,
                },
                from_catalog: self.browser.showing is Catalog,
                rows: Seq::empty(),
                ..self.browser
            }.from_the_top(),
        ).asking(RequestView::Open { kind, id })
    }

    /// The client after Enter: the selected row is played, with the whole list it
    /// sits in, or the page it leads to is opened.
    #[verifier::opaque]
    pub open spec fn activated(self, now_ms: u64) -> AppView {
        if self.focus == Focus::Queue {
            self.asking(RequestView::JumpTo { index: self.queue.cursor })
        } else if self.browser.cursor >= self.browser.rows.len() {
            self
        } else {
            let entry = self.browser.rows[self.browser.cursor];
            match browser::page_behind(entry) {
                Some((kind, id)) => self.opening(entry, kind, id),
                None => if self.browser.playable().len() == 0 {
                    AppView {
                        message: Some(("Nothing here can be streamed"@, now_ms)),
                        ..self
                    }
                } else {
                    self.asking(
                        RequestView::Play {
                            ids: self.browser.playable(),
                            index: self.browser.playable_above(),
                            start: PlayMode::InOrder,
                        },
                    )
                },
            }
        }
    }

    /// The client after Esc: out of a page first, then out of a filter. A page
    /// leads back to where it was opened from.
    #[verifier::opaque]
    pub open spec fn backed(self) -> AppView {
        if self.browser.showing is Page {
            if self.browser.from_catalog {
                self.with_browser(
                    BrowserView { from_catalog: false, ..self.browser },
                ).searching()
            } else {
                self.on_library(self.browser.view)
            }
        } else if self.browser.filter.len() > 0 {
            self.with_browser(
                BrowserView { filter: Seq::empty(), ..self.browser }.from_the_top(),
            ).browsing()
        } else {
            self
        }
    }

    /// The client with the selected row of the queue on its way up or down. The
    /// cursor goes with it.
    #[verifier::opaque]
    pub open spec fn reordering(self, delta: int) -> AppView {
        match self.queue.swap_place(delta) {
            Some(to) => AppView { queue: self.queue.at(to), ..self }.asking(
                RequestView::MoveInQueue { from: self.queue.cursor, to },
            ),
            None => self,
        }
    }

    /// The client after a character key, its box closed.
    #[verifier::opaque]
    pub open spec fn pressed(self, c: char) -> AppView {
        if c == ' ' {
            self.driving(Transport::PlayPause)
        } else if c == 'z' {
            self.driving(Transport::Previous)
        } else if c == 'b' {
            self.driving(Transport::Next)
        } else if c == 's' {
            self.driving(Transport::SetShuffle { shuffle: !self.snap.shuffle })
        } else if c == 'r' {
            self.driving(Transport::SetRepeat { mode: repeat_after(self.snap.repeat) })
        } else if c == '5' {
            AppView { focus: Focus::Browser, ..self }.on_catalog()
        } else if section_of(c) is Some {
            AppView { focus: Focus::Browser, ..self }.on_library(section_of(c)->0)
        } else if c == '/' && self.focus == Focus::Browser {
            self.with_browser(BrowserView { typing: true, ..self.browser })
        } else if c == 'k' {
            self.cursor_moved(-1)
        } else if c == 'j' {
            self.cursor_moved(1)
        } else if c == 'd' && self.focus == Focus::Queue {
            self.asking(RequestView::RemoveFromQueue { index: self.queue.cursor })
        } else if c == 'K' && self.focus == Focus::Queue {
            self.reordering(-1)
        } else if c == 'J' && self.focus == Focus::Queue {
            self.reordering(1)
        } else if c == 'q' {
            AppView { quit_daemon: true, ..self }
        } else {
            self
        }
    }

    /// The client after a key.
    pub open spec fn keyed(self, key: Key, now_ms: u64) -> AppView {
        if self.browser.typing {
            self.typed(key)
        } else {
            match key {
                Key::Char(c) => self.pressed(c),
                Key::Left => self.driving(
                    Transport::Seek { position_ms: sought_back(self.snap.position_ms) },
                ),
                Key::Right => self.driving(
                    Transport::Seek { position_ms: sought_on(self.snap.position_ms) },
                ),
                Key::Tab => self.refocused(),
                Key::BackTab => self.refocused(),
                Key::Esc => self.backed(),
                Key::Up => self.cursor_moved(-1),
                Key::Down => self.cursor_moved(1),
                Key::PageUp => self.cursor_moved(-10),
                Key::PageDown => self.cursor_moved(10),
                Key::Home => if self.focus == Focus::Queue {
                    AppView { queue: self.queue.followed(), ..self }
                } else {
                    self
                },
                Key::Enter => self.activated(now_ms),
                _ => self,
            }
        }
    }

    /// Whether a key is a way out. A letter in the box never is.
    pub open spec fn leaves(self, key: Key) -> bool {
        !self.browser.typing && (key == Key::Char('_') || key == Key::Char('-') || key
            == Key::Char('q'))
    }

    /// The client in the other pane.
    pub open spec fn refocused(self) -> AppView {
        AppView {
            focus: match self.focus {
                Focus::Browser => Focus::Queue,
                Focus::Queue => Focus::Browser,
            },
            ..self
        }
    }
}

impl AppView {
    /// The client after something the daemon said.
    #[verifier::opaque]
    pub open spec fn heard(self, event: EventView, now_ms: u64) -> AppView {
        match event {
            EventView::Snapshot(snap) => AppView { snap, ..self },
            EventView::Queue { items, position } => AppView {
                queue: self.queue.replaced(items, position),
                ..self
            },
            EventView::Stage(stage) => AppView { stage, ..self },
            EventView::Rows { view, entries, total } => if self.browser.showing is Catalog {
                self
            } else {
                self.with_browser(self.browser.replaced(entries, total))
            },
            EventView::Results { query, entries } => if self.browser.showing is Catalog && query
                == text::trimmed(self.browser.filter) {
                self.with_browser(
                    BrowserView {
                        showing: ShowingView::Catalog { searching: false },
                        ..self.browser
                    }.replaced(entries, entries.len() as int).from_the_top(),
                )
            } else {
                self
            },
            EventView::Page { kind, id, title, entries } => self.with_browser(
                BrowserView {
                    showing: ShowingView::Page {
                        title,
                        subtitle: match self.browser.showing {
                            ShowingView::Page { title, subtitle, loading } => subtitle,
                            _ => Seq::empty(),
                        },
                        loading: false,
                    },
                    ..self.browser
                }.replaced(entries, 0).from_the_top(),
            ),
            EventView::Error { detail } => AppView { message: Some((detail, now_ms)), ..self },
            EventView::LibraryChanged => self,
        }
    }

    /// Whether what was refused has been on screen long enough.
    pub open spec fn has_faded(self, now_ms: u64) -> bool {
        match self.message {
            Some((words, at_ms)) => now_ms - at_ms > MESSAGE_FOR_MS,
            None => false,
        }
    }

    /// The clock one frame on, no further than the track goes.
    pub open spec fn clock_on(self) -> u64 {
        let next = if self.snap.position_ms + FRAME_MS <= u64::MAX {
            self.snap.position_ms + FRAME_MS
        } else {
            u64::MAX as int
        };
        let end = if self.snap.duration_ms > self.snap.position_ms {
            self.snap.duration_ms
        } else {
            self.snap.position_ms
        };
        if next < end {
            next as u64
        } else {
            end
        }
    }

    /// The client one frame on.
    pub open spec fn ticked(self, now_ms: u64) -> AppView {
        let quiet = if self.has_faded(now_ms) {
            AppView { message: None, ..self }
        } else {
            self
        };
        if self.snap.playing {
            AppView {
                snap: SnapshotView { position_ms: self.clock_on(), ..self.snap },
                ..quiet
            }
        } else {
            quiet
        }
    }
}

impl Default for App {
    fn default() -> (r: Self)
        ensures
            r@ == AppView::fresh(),
    {
        let r = App {
            snap: Snapshot::default(),
            stage: Stage::Connecting,
            browser: Browser::default(),
            queue: Queue::default(),
            focus: Focus::Browser,
            message: None,
            quit_daemon: false,
            outbox: Vec::new(),
        };
        proof {
            assert(r@ =~= AppView::fresh());
        }
        r
    }
}

impl App {
    fn ask(&mut self, request: Request)
        ensures
            final(self)@ == old(self)@.asking(request@),
    {
        let ghost before = requests(self.outbox@);
        let ghost more = request@;
        self.outbox.push(request);
        proof {
            assert(requests(self.outbox@) =~= before.push(more));
            assert(self@ =~= old(self)@.asking(more));
        }
    }

    fn drive(&mut self, transport: Transport)
        ensures
            final(self)@ == old(self)@.driving(transport),
    {
        self.ask(Request::Transport(transport));
    }

    /// Ask for whatever the pane is meant to be showing.
    pub fn browse(&mut self)
        ensures
            final(self)@ == old(self)@.browsing(),
    {
        let query = self.browser.filter.clone();
        let view = self.browser.view;
        self.ask(Request::Browse { view, query, offset: 0, limit: 0 });
    }

    /// Show a section of the library.
    pub fn show_library(&mut self, view: View)
        ensures
            final(self)@ == old(self)@.on_library(view),
    {
        proof {
            reveal(AppView::on_library);
        }
        self.browser.view = view;
        self.browser.showing = Showing::Library;
        self.browser.reset();
        self.browse();
    }

    /// Open the catalog pane. Nothing is fetched: it waits to be asked.
    pub fn show_catalog(&mut self)
        ensures
            final(self)@ == old(self)@.on_catalog(),
    {
        proof {
            reveal(AppView::on_catalog);
        }
        self.browser.showing = Showing::Catalog { searching: false };
        self.browser.rows = Vec::new();
        self.browser.filter = String::new();
        self.browser.reset();
        self.browser.typing = true;
        proof {
            assert(self@ =~= old(self)@.on_catalog());
        }
    }

    /// Ask the catalog for what is in the box.
    pub fn search(&mut self)
        ensures
            final(self)@ == old(self)@.searching(),
    {
        proof {
            reveal(AppView::searching);
        }
        let query: String = self.browser.filter.as_str().trim().to_string();
        self.browser.rows = Vec::new();
        if query.as_str().is_empty() {
            proof {
                assert(self@ =~= old(self)@.searching());
            }
            return ;
        }
        self.browser.showing = Showing::Catalog { searching: true };
        self.browser.reset();
        proof {
            assert(self.browser@ =~= (BrowserView {
                showing: ShowingView::Catalog { searching: true },
                rows: Seq::empty(),
                ..old(self)@.browser
            }).from_the_top());
        }
        self.ask(Request::Search { query, filter: CatalogFilter::All, offset: 0 });
    }

    fn edit(&mut self, filter: String)
        ensures
            final(self)@ == old(self)@.edited(filter@),
    {
        proof {
            reveal(AppView::edited);
        }
        self.browser.filter = filter;
        if !self.browser.showing.is_catalog() {
            self.browser.reset();
            self.browse();
        }
    }

    fn clear_box(&mut self)
        ensures
            final(self)@ == old(self)@.box_cleared(),
    {
        proof {
            reveal(AppView::box_cleared);
        }
        self.browser.filter = String::new();
        self.browser.typing = false;
        proof {
            assert(self.browser@ =~= (BrowserView {
                filter: Seq::empty(),
                typing: false,
                ..old(self)@.browser
            }));
        }
        if self.browser.showing.is_catalog() {
            self.browser.rows = Vec::new();
            proof {
                assert(self@ =~= old(self)@.box_cleared());
            }
        } else {
            self.browser.reset();
            self.browse();
        }
    }

    fn send_box(&mut self)
        ensures
            final(self)@ == old(self)@.box_sent(),
    {
        proof {
            reveal(AppView::box_sent);
        }
        self.browser.typing = false;
        if self.browser.showing.is_catalog() {
            self.search();
        }
    }

    /// The filter, which owns the keyboard while it is open.
    ///
    /// **Who answers decides what a keystroke costs.** Over the library every
    /// edit asks again, which is affordable because the daemon holds the answer.
    /// Over the catalog every query goes out to somebody else, so it waits for
    /// Enter.
    pub fn typing(&mut self, key: Key)
        ensures
            final(self)@ == old(self)@.typed(key),
    {
        match key {
            Key::Char(c) => {
                let mut filter = self.browser.filter.clone();
                filter.push(c);
                self.edit(filter);
            },
            Key::Backspace => {
                let mut filter = self.browser.filter.clone();
                let _ = filter.pop();
                self.edit(filter);
            },
            Key::Esc => self.clear_box(),
            Key::Enter => self.send_box(),
            _ => {},
        }
    }

    fn pane_cursor(&mut self, delta: isize)
        ensures
            final(self)@ == old(self)@.cursor_moved(delta as int),
    {
        proof {
            reveal(AppView::cursor_moved);
        }
        match self.focus {
            Focus::Browser => self.browser.move_cursor(delta),
            Focus::Queue => self.queue.move_cursor(delta),
        }
    }

    fn selected(&self) -> (r: Option<Entry>)
        ensures
            match r {
                Some(entry) => self@.browser.cursor < self@.browser.rows.len() && entry
                    == self@.browser.rows[self@.browser.cursor],
                None => self@.browser.cursor >= self@.browser.rows.len(),
            },
    {
        match self.browser.selected() {
            Some(entry) => Some(entry.clone()),
            None => None,
        }
    }

    fn open(&mut self, entry: &Entry, kind: PageKind, id: String)
        ensures
            final(self)@ == old(self)@.opening(*entry, kind, id@),
    {
        let from_catalog = self.browser.showing.is_catalog();
        self.browser.showing = Showing::Page {
            title: entry.title().to_string(),
            subtitle: entry.subtitle().to_string(),
            loading: true,
        };
        self.browser.from_catalog = from_catalog;
        self.browser.rows = Vec::new();
        self.browser.reset();
        proof {
            assert(self.browser@ =~= (BrowserView {
                showing: ShowingView::Page {
                    title: entry.name(),
                    subtitle: entry.byline(),
                    loading: true,
                },
                from_catalog: old(self)@.browser.showing is Catalog,
                rows: Seq::empty(),
                ..old(self)@.browser
            }).from_the_top());
        }
        self.ask(Request::Open { kind, id });
    }

    fn say(&mut self, words: &str, now_ms: u64)
        ensures
            final(self)@ == (AppView { message: Some((words@, now_ms)), ..old(self)@ }),
    {
        self.message = Some(Message { words: words.to_string(), at_ms: now_ms });
    }

    /// Enter: play the selected row, or open the page it leads to.
    pub fn activate(&mut self, now_ms: u64)
        ensures
            final(self)@ == old(self)@.activated(now_ms),
    {
        proof {
            reveal(AppView::activated);
        }
        if self.focus == Focus::Queue {
            let index: usize = self.queue.cursor;
            self.ask(Request::JumpTo { index });
            return ;
        }
        let entry = match self.selected() {
            Some(entry) => entry,
            None => {
                return ;
            },
        };
        if let Some((kind, id)) = entry.page_target() {
            self.open(&entry, kind, id);
            return ;
        }
        let (ids, index) = self.browser.queue_from_here();
        proof {
            assert(text::texts(ids@).len() == ids@.len());
        }
        if ids.len() == 0 {
            self.say("Nothing here can be streamed", now_ms);
            return ;
        }
        self.ask(Request::Play { ids, index, start: PlayMode::InOrder });
    }

    fn is_page(&self) -> (r: bool)
        ensures
            r == (self@.browser.showing is Page),
    {
        match &self.browser.showing {
            Showing::Page { title: _, subtitle: _, loading: _ } => true,
            _ => false,
        }
    }

    /// Esc: out of a page first, then out of a filter.
    pub fn back(&mut self)
        ensures
            final(self)@ == old(self)@.backed(),
    {
        proof {
            reveal(AppView::backed);
        }
        if self.is_page() {
            if self.browser.from_catalog {
                self.browser.from_catalog = false;
                self.search();
            } else {
                let view = self.browser.view;
                self.show_library(view);
            }
            return ;
        }
        if !self.browser.filter.as_str().is_empty() {
            self.browser.filter = String::new();
            self.browser.reset();
            proof {
                assert(self.browser@ =~= (BrowserView {
                    filter: Seq::empty(),
                    ..old(self)@.browser
                }).from_the_top());
            }
            self.browse();
        }
    }

    fn reorder(&mut self, delta: isize)
        ensures
            final(self)@ == old(self)@.reordering(delta as int),
    {
        proof {
            reveal(AppView::reordering);
        }
        if let Some(to) = self.queue.swap_target(delta) {
            let from: usize = self.queue.cursor;
            self.queue.cursor_to(to);
            self.ask(Request::MoveInQueue { from, to });
        }
    }

    fn refocus(&mut self)
        ensures
            final(self)@ == old(self)@.refocused(),
    {
        self.focus = match self.focus {
            Focus::Browser => Focus::Queue,
            Focus::Queue => Focus::Browser,
        };
    }

    fn press(&mut self, c: char)
        ensures
            final(self)@ == old(self)@.pressed(c),
    {
        proof {
            reveal(AppView::pressed);
        }
        if c == ' ' {
            self.drive(Transport::PlayPause);
        } else if c == 'z' {
            self.drive(Transport::Previous);
        } else if c == 'b' {
            self.drive(Transport::Next);
        } else if c == 's' {
            let shuffle = !self.snap.shuffle;
            self.drive(Transport::SetShuffle { shuffle });
        } else if c == 'r' {
            let mode = next_repeat(self.snap.repeat);
            self.drive(Transport::SetRepeat { mode });
        } else if c == '5' {
            self.focus = Focus::Browser;
            self.show_catalog();
        } else if let Some(view) = section(c) {
            self.focus = Focus::Browser;
            self.show_library(view);
        } else if c == '/' && self.focus == Focus::Browser {
            self.browser.typing = true;
        } else if c == 'k' {
            self.pane_cursor(-1);
        } else if c == 'j' {
            self.pane_cursor(1);
        } else if c == 'd' && self.focus == Focus::Queue {
            let index: usize = self.queue.cursor;
            self.ask(Request::RemoveFromQueue { index });
        } else if c == 'K' && self.focus == Focus::Queue {
            self.reorder(-1);
        } else if c == 'J' && self.focus == Focus::Queue {
            self.reorder(1);
        } else if c == 'q' {
            self.quit_daemon = true;
        }
    }

    /// Seek from where the clock has got to, not from the last that was heard.
    fn seek(&mut self, on: bool)
        ensures
            final(self)@ == old(self)@.driving(
                Transport::Seek {
                    position_ms: if on {
                        sought_on(old(self)@.snap.position_ms)
                    } else {
                        sought_back(old(self)@.snap.position_ms)
                    },
                },
            ),
    {
        let at: u64 = self.snap.position_ms;
        let position_ms: u64 = if on {
            if at <= u64::MAX - SEEK_MS {
                at + SEEK_MS
            } else {
                u64::MAX
            }
        } else if at >= SEEK_MS {
            at - SEEK_MS
        } else {
            0
        };
        self.drive(Transport::Seek { position_ms });
    }

    fn leaving(&self, key: Key) -> (r: bool)
        ensures
            r == self@.leaves(key),
    {
        if self.browser.typing {
            return false;
        }
        match key {
            Key::Char(c) => c == '_' || c == '-' || c == 'q',
            _ => false,
        }
    }

    /// Do what a key asks. Says whether to keep running.
    pub fn on_key(&mut self, key: Key, now_ms: u64) -> (r: bool)
        ensures
            r == !old(self)@.leaves(key),
            final(self)@ == old(self)@.keyed(key, now_ms),
    {
        let stay = !self.leaving(key);
        if self.browser.typing {
            self.typing(key);
            return stay;
        }
        match key {
            Key::Char(c) => self.press(c),
            Key::Left => self.seek(false),
            Key::Right => self.seek(true),
            Key::Tab | Key::BackTab => self.refocus(),
            Key::Esc => self.back(),
            Key::Up => self.pane_cursor(-1),
            Key::Down => self.pane_cursor(1),
            Key::PageUp => self.pane_cursor(-10),
            Key::PageDown => self.pane_cursor(10),
            Key::Home => {
                if self.focus == Focus::Queue {
                    self.queue.follow();
                }
            },
            Key::Enter => self.activate(now_ms),
            _ => {},
        }
        stay
    }

    fn hear_page(&mut self, title: String, entries: Vec<Entry>)
        ensures
            final(self)@ == old(self)@.with_browser(
                (BrowserView {
                    showing: ShowingView::Page {
                        title: title@,
                        subtitle: match old(self)@.browser.showing {
                            ShowingView::Page { title, subtitle, loading } => subtitle,
                            _ => Seq::empty(),
                        },
                        loading: false,
                    },
                    ..old(self)@.browser
                }).replaced(entries@, 0).from_the_top(),
            ),
    {
        let subtitle: String = match &self.browser.showing {
            Showing::Page { title: _, subtitle, loading: _ } => subtitle.clone(),
            _ => String::new(),
        };
        self.browser.showing = Showing::Page { title, subtitle, loading: false };
        proof {
            assert(self.browser@.showing =~= (ShowingView::Page {
                title: title@,
                subtitle: match old(self)@.browser.showing {
                    ShowingView::Page { title, subtitle, loading } => subtitle,
                    _ => Seq::empty(),
                },
                loading: false,
            }));
        }
        self.browser.replace(entries, 0);
        self.browser.reset();
    }

    fn hear_results(&mut self, query: String, entries: Vec<Entry>)
        ensures
            final(self)@ == if old(self)@.browser.showing is Catalog && query@ == text::trimmed(
                old(self)@.browser.filter,
            ) {
                old(self)@.with_browser(
                    (BrowserView {
                        showing: ShowingView::Catalog { searching: false },
                        ..old(self)@.browser
                    }).replaced(entries@, entries@.len() as int).from_the_top(),
                )
            } else {
                old(self)@
            },
    {
        if self.browser.showing.is_catalog() && text::same(
            query.as_str(),
            self.browser.filter.as_str().trim(),
        ) {
            self.browser.showing = Showing::Catalog { searching: false };
            let total: usize = entries.len();
            self.browser.replace(entries, total);
            self.browser.reset();
        }
    }

    /// Take in something the daemon said. An answer to a question that is no
    /// longer being asked is dropped.
    pub fn on_event(&mut self, event: Event, now_ms: u64)
        ensures
            final(self)@ == old(self)@.heard(event@, now_ms),
    {
        proof {
            reveal(AppView::heard);
        }
        match event {
            Event::Snapshot(snap) => {
                self.snap = snap;
            },
            Event::Queue { items, position } => self.queue.replace(items, position),
            Event::Stage(stage) => {
                self.stage = stage;
            },
            Event::Rows { view: _, entries, total } => {
                if !self.browser.showing.is_catalog() {
                    self.browser.replace(entries, total);
                }
            },
            Event::Results { query, entries } => self.hear_results(query, entries),
            Event::Page { kind: _, id: _, title, entries } => self.hear_page(title, entries),
            Event::Error { detail } => self.say(detail.as_str(), now_ms),
            Event::LibraryChanged => {},
        }
    }

    /// One frame on: carry the clock forward between reports, and let what was
    /// refused fade. Says whether anything on screen moved.
    pub fn tick(&mut self, now_ms: u64) -> (r: bool)
        ensures
            r == (old(self)@.snap.playing || old(self)@.has_faded(now_ms)),
            final(self)@ == old(self)@.ticked(now_ms),
    {
        let mut moved = false;
        let faded: bool = match &self.message {
            Some(message) => now_ms > message.at_ms && now_ms - message.at_ms > MESSAGE_FOR_MS,
            None => false,
        };
        if faded {
            self.message = None;
            moved = true;
        }
        if self.snap.playing {
            let at: u64 = self.snap.position_ms;
            let next: u64 = if at <= u64::MAX - FRAME_MS {
                at + FRAME_MS
            } else {
                u64::MAX
            };
            let end: u64 = if self.snap.duration_ms > at {
                self.snap.duration_ms
            } else {
                at
            };
            self.snap.position_ms = if next < end {
                next
            } else {
                end
            };
            moved = true;
        }
        moved
    }
}

/// What was heard while waiting for the daemon to go.
#[derive(Debug)]
pub enum Heard {
    Event(Event),
    /// The connection is gone.
    Lost,
    /// It has been waited for long enough.
    Deadline,
}

/// How the waiting goes on.
#[derive(Debug)]
pub enum Waiting {
    On,
    /// The daemon went away, which is what was asked.
    Gone,
    /// It would not, and said why.
    Refused(String),
}

/// How the waiting goes on after what was heard.
pub open spec fn waiting_after(heard: Heard, next: Waiting) -> bool {
    match heard {
        Heard::Event(Event::Error { detail }) => next == Waiting::Refused(detail),
        Heard::Event(_) => next is On,
        Heard::Lost => next is Gone,
        Heard::Deadline => match next {
            Waiting::Refused(words) => words@ == "the daemon did not answer"@,
            _ => false,
        },
    }
}

/// Wait for the daemon to act on a request to quit. It answers by dying, or by
/// refusing while another window is still open.
pub fn wait_for_quit(heard: Heard) -> (r: Waiting)
    ensures
        waiting_after(heard, r),
{
    match heard {
        Heard::Event(event) => match event {
            Event::Error { detail } => Waiting::Refused(detail),
            _ => Waiting::On,
        },
        Heard::Lost => Waiting::Gone,
        Heard::Deadline => Waiting::Refused("the daemon did not answer".to_string()),
    }
}

} // verus!
