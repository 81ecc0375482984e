//! Letting the player's process go while nobody has a use for it, and having it
//! back when somebody does.

use vstd::prelude::*;

use crate::deck;
use crate::deck::{DeckView, SessionView};
use crate::ipc::Stage;
use crate::protocol::{Command, CommandView};
use crate::serve::{Daemon, DaemonView, Engine, Task, TaskView};

verus! {

/// How long nobody has a use for the player before it is put down.
pub const IDLE_MS: u64 = 300_000;

impl DaemonView {
    /// Whether the player is up with nothing to do: not playing, not working
    /// towards it, and not still starting.
    pub open spec fn idle(self) -> bool {
        &&& self.engine == Engine::Up
        &&& !self.model.deck.player.playing
        &&& !self.model.deck.player.busy
        &&& !(self.model.stage is Connecting)
    }

    /// The daemon with its player put down. The queue is remembered first, where
    /// there is one: it goes back in when the player comes up again.
    #[verifier::opaque]
    pub open spec fn put_down(self) -> DaemonView {
        let kept = match self.model.deck.session() {
            Some(session) => self.doing(TaskView::SaveSession(session)),
            None => self,
        };
        DaemonView {
            engine: Engine::Down,
            quiet_since: None,
            restored: false,
            ..kept
        }.doing(TaskView::StopPlayer)
    }

    /// The daemon once it has looked at the clock.
    pub open spec fn rested(self, now_ms: u64) -> DaemonView {
        if !self.idle() {
            DaemonView { quiet_since: None, ..self }
        } else {
            match self.quiet_since {
                None => DaemonView { quiet_since: Some(now_ms), ..self },
                Some(since) => if now_ms - since >= IDLE_MS {
                    self.put_down()
                } else {
                    self
                },
            }
        }
    }

    /// What the player is told now: all that waits for it, if it is up.
    pub open spec fn to_say(self) -> Seq<CommandView> {
        if self.engine == Engine::Up {
            self.model.deck.outbox
        } else {
            Seq::empty()
        }
    }

    /// The daemon once the player was told that. One that is down is picked up
    /// when there is something to tell it, which waits until then.
    pub open spec fn said(self) -> DaemonView {
        let something = self.model.deck.outbox.len() > 0;
        match self.engine {
            Engine::Up => DaemonView {
                quiet_since: if something {
                    None
                } else {
                    self.quiet_since
                },
                ..self.with_deck(DeckView { outbox: Seq::empty(), ..self.model.deck })
            },
            Engine::Down => if something {
                DaemonView { engine: Engine::Waking, ..self }.doing(TaskView::StartPlayer)
            } else {
                self
            },
            Engine::Waking => self,
        }
    }
}

impl Daemon {
    /// Look at the clock, and put the player down once nobody has had a use for
    /// it for five minutes.
    pub fn rest(&mut self, now_ms: u64)
        ensures
            final(self)@ == old(self)@.rested(now_ms),
    {
        proof {
            reveal(DaemonView::put_down);
        }
        let idle = self.engine == Engine::Up && !self.model.deck.player.playing
            && !self.model.deck.player.busy && !matches!(self.model.stage, Stage::Connecting);
        if !idle {
            self.quiet_since = None;
            return;
        }
        match self.quiet_since {
            None => {
                self.quiet_since = Some(now_ms);
            },
            Some(since) => {
                if now_ms >= since && now_ms - since >= IDLE_MS {
                    if let Some(session) = self.model.deck.save_session() {
                        self.task(Task::SaveSession(session));
                    }
                    self.engine = Engine::Down;
                    self.quiet_since = None;
                    self.restored = false;
                    self.task(Task::StopPlayer);
                }
            },
        }
    }

    /// Take out what the player is to be told now.
    pub fn outgoing(&mut self) -> (r: Vec<Command>)
        ensures
            deck::commands(r@) == old(self)@.to_say(),
            final(self)@ == old(self)@.said(),
    {
        let mut now: Vec<Command> = Vec::new();
        assert(deck::commands(now@) =~= Seq::empty());
        match self.engine {
            Engine::Up => {
                if self.model.deck.outbox.len() > 0 {
                    self.quiet_since = None;
                }
                std::mem::swap(&mut now, &mut self.model.deck.outbox);
            },
            Engine::Down => {
                if self.model.deck.outbox.len() > 0 {
                    self.engine = Engine::Waking;
                    self.task(Task::StartPlayer);
                }
            },
            Engine::Waking => {},
        }
        now
    }
}

/// A player in use is never put down, whatever the clock says.
pub proof fn a_player_in_use_is_not_put_down(daemon: DaemonView, now_ms: u64)
    requires
        daemon.model.deck.player.playing || daemon.model.deck.player.busy,
    ensures
        daemon.rested(now_ms) == (DaemonView { quiet_since: None, ..daemon }),
{
}

/// The player is put down five minutes after the first look that found it idle,
/// and not a moment earlier: its queue is remembered, then its process stopped,
/// and it is told nothing.
pub proof fn five_idle_minutes_put_the_player_down(daemon: DaemonView, first_ms: u64, now_ms: u64)
    requires
        daemon.engine == Engine::Up,
        !daemon.model.deck.player.playing,
        !daemon.model.deck.player.busy,
        !(daemon.model.stage is Connecting),
        daemon.quiet_since is None,
    ensures
        now_ms - first_ms < 300_000 ==> daemon.rested(first_ms).rested(now_ms) == daemon.rested(
            first_ms,
        ),
        now_ms - first_ms >= 300_000 ==> {
            let down = daemon.rested(first_ms).rested(now_ms);
            &&& down.engine == Engine::Down
            &&& down.model == daemon.model
            &&& down.tasks == (match daemon.model.deck.session() {
                Some(session) => daemon.tasks.push(TaskView::SaveSession(session)),
                None => daemon.tasks,
            }).push(TaskView::StopPlayer)
        },
{
    reveal(DaemonView::put_down);
}

/// Whatever is asked of the player starts the five minutes anew.
pub proof fn asking_is_no_idling(daemon: DaemonView)
    requires
        daemon.engine == Engine::Up,
        daemon.model.deck.outbox.len() > 0,
    ensures
        daemon.to_say() == daemon.model.deck.outbox,
        daemon.said().quiet_since is None,
        daemon.said().tasks == daemon.tasks,
{
}

/// Asking a player that is down for something starts it, once, however much more
/// is asked of it before it is up.
pub proof fn asking_wakes_the_player_once(daemon: DaemonView, more: CommandView)
    requires
        daemon.engine == Engine::Down,
        daemon.model.deck.outbox.len() > 0,
    ensures
        daemon.said().engine == Engine::Waking,
        daemon.said().tasks == daemon.tasks.push(TaskView::StartPlayer),
        daemon.said().sending(more).said() == daemon.said().sending(more),
{
    reveal(DaemonView::sending);
    reveal(DeckView::sending);
}

/// A player that was asked for something while it was down is told all of it
/// once it is up and signed in, in the order it was asked, after the queue that
/// it had. Where what was asked gives it another queue, or none, it is told
/// nothing else.
pub proof fn a_woken_player_is_told_what_it_was_woken_for(daemon: DaemonView, session: SessionView)
    requires
        daemon.engine == Engine::Down,
        !daemon.restored,
        daemon.model.deck.outbox.len() > 0,
    ensures
        daemon.said().to_say() == Seq::<CommandView>::empty(),
        ({
            let asked = daemon.model.deck.outbox;
            let empty = DeckView { outbox: Seq::empty(), ..daemon.model.deck };
            daemon.said().respawned().attached(true, Some(session)).to_say() == if daemon.model.deck.replaces_queue() {
                asked
            } else {
                empty.restoring(session).outbox + asked
            }
        }),
{
    reveal(DaemonView::attached);
    reveal(DaemonView::staged);
    reveal(DaemonView::refreshed);
    reveal(DeckView::restoring_ahead);
}

/// A player that is not up, or that is still starting, is left alone.
pub proof fn only_a_player_that_is_up_is_put_down(daemon: DaemonView, now_ms: u64)
    requires
        daemon.engine != Engine::Up || daemon.model.stage is Connecting,
    ensures
        daemon.rested(now_ms) == (DaemonView { quiet_since: None, ..daemon }),
{
}

/// A player that is up is told what waits for it, once.
pub proof fn what_waits_is_said_once(daemon: DaemonView)
    ensures
        daemon.engine == Engine::Up ==> daemon.said().model.deck == (DeckView {
            outbox: Seq::empty(),
            ..daemon.model.deck
        }),
        daemon.engine == Engine::Up ==> daemon.said().to_say().len() == 0,
        daemon.engine != Engine::Up ==> daemon.said().model == daemon.model,
        daemon.engine == Engine::Down && daemon.model.deck.outbox.len() == 0 ==> daemon.said()
            == daemon,
{
}

} // verus!
