//! What holds of the daemon whatever it is asked.

use vstd::prelude::*;

use crate::daemon;
use crate::daemon::ModelView;
use crate::deck;
use crate::deck::{DeckView, Retry, SessionView};
use crate::deck_laws;
use crate::ipc;
use crate::ipc::{
    EventView,
    PageKind,
    PlayMode,
    QueueItem,
    Request,
    StageView,
    Transport,
    WriteAction,
};
use crate::library::LibraryView;
use crate::mpris::MprisCommand;
use crate::protocol;
use crate::protocol::{CommandView, Item, PlayerEvent, PlayerView, RepeatMode, Tokens};
use crate::protocol_laws;
use crate::queue;
use crate::queue::Start;
use crate::queue_laws;
use crate::serve;
use crate::serve::{DaemonView, Engine, TaskView};
use crate::text;
use crate::view::CatalogFilter;

verus! {

/// The first thing a subscriber gets is where things stand, and subscribing
/// changes nothing, however often.
pub proof fn a_subscriber_is_told_where_things_stand(daemon: DaemonView, nanos: int, alone: bool)
    ensures
        daemon.answered(Request::Subscribe, alone) == Some(
            EventView::Snapshot(daemon.model.snap()),
        ),
        daemon.asked(Request::Subscribe, nanos, alone) == daemon,
{
}

/// A request that only reads leaves the daemon as it was.
pub proof fn reading_changes_nothing(
    daemon: DaemonView,
    request: Request,
    nanos: int,
    alone: bool,
)
    requires
        request is Subscribe || request is Snapshot || request is Queue || request is Browse,
    ensures
        daemon.asked(request, nanos, alone) == daemon,
        daemon.answered(request, alone) is Some,
{
}

/// The playing track cannot be removed: the one who asks is told so, and the
/// player is told nothing.
pub proof fn the_playing_track_is_not_removed(
    daemon: DaemonView,
    index: usize,
    nanos: int,
    alone: bool,
)
    requires
        daemon.is_current(index as int),
    ensures
        daemon.asked(Request::RemoveFromQueue { index }, nanos, alone) == daemon,
        daemon.answered(Request::RemoveFromQueue { index }, alone) == Some(
            EventView::Error { detail: "Can't remove the track that's playing"@ },
        ),
{
    reveal(DaemonView::removing);
}

/// A daemon that others are attached to cannot be quit: the one who asks is told
/// so, and nobody loses the player. Alone, the queue is remembered before it goes.
pub proof fn nobody_quits_for_the_others(daemon: DaemonView, nanos: int)
    ensures
        daemon.asked(Request::Quit, nanos, false) == daemon,
        daemon.answered(Request::Quit, false) == Some(serve::still_open()),
        daemon.asked(Request::Quit, nanos, true) == daemon.saving().doing(TaskView::Exit),
        daemon.answered(Request::Quit, true) is None,
{
    reveal(DaemonView::leaving);
}

/// What joins the queue is what was asked for, without what is dead: a dead id
/// would have the whole of it refused.
pub proof fn nothing_dead_joins_the_queue(daemon: DaemonView, ids: Seq<Seq<char>>, id: Seq<char>)
    ensures
        daemon.joinable(ids).contains(id) <==> ids.contains(id)
            && !daemon.model.deck.dead.contains(id),
{
    deck_laws::survivors_are_what_lives(ids, daemon.model.deck.dead, id);
}

/// A session is put back once per process: something that attaches again later
/// does not throw away what is playing by then.
pub proof fn a_session_is_put_back_once(
    daemon: DaemonView,
    saved: Option<SessionView>,
    authorized: bool,
)
    requires
        daemon.restored,
    ensures
        daemon.told(PlayerEvent::HookReady { authorized }, saved).model.deck == daemon.model.deck,
{
    reveal(DaemonView::told);
    reveal(DaemonView::attached);
    reveal(DaemonView::staged);
    reveal(DaemonView::refreshed);
}

/// The player advances its own queue, which is what makes one track run into the
/// next. With nothing of ours waiting to be settled, a track that ends and the one
/// that follows it leave the player alone.
pub proof fn a_track_that_ends_is_not_driven(
    daemon: DaemonView,
    event: PlayerEvent,
    player: PlayerView,
    saved: Option<SessionView>,
    cached: Option<Seq<char>>,
)
    requires
        event is NowPlaying || event is Queue || event is PlaybackState || event is Position,
        daemon.after_apply is None,
        daemon.model.deck.pending_start is None,
        daemon.model.deck.resume_at is None,
    ensures
        daemon.after(event, player, saved, cached).model.deck.outbox == daemon.model.deck.outbox,
{
    reveal(DaemonView::told);
    reveal(DaemonView::mirrored);
    reveal(DaemonView::requeued);
    reveal(DaemonView::saving);
    reveal(DaemonView::resumed);
    reveal(DaemonView::covered);
    reveal(DaemonView::settled);
    reveal(DaemonView::showing);
    reveal(DeckView::resumed);
    reveal(DeckView::verified);
}

/// Being signed out puts nothing back, and does not use up the one time.
pub proof fn a_session_waits_for_signing_in(daemon: DaemonView, saved: Option<SessionView>)
    ensures
        daemon.told(PlayerEvent::HookReady { authorized: false }, saved).restored
            == daemon.restored,
        daemon.told(PlayerEvent::HookReady { authorized: false }, saved).model.deck
            == daemon.model.deck,
{
    reveal(DaemonView::told);
    reveal(DaemonView::attached);
    reveal(DaemonView::staged);
}

/// At most one library fetch is under way: asking again before it ends asks for
/// nothing.
pub proof fn refreshes_do_not_stack(daemon: DaemonView)
    ensures
        daemon.refreshed().refreshed() == daemon.refreshed(),
{
    reveal(DaemonView::refreshed);
}

/// A cover is looked to at most once per track's template.
pub proof fn a_cover_is_fetched_once(
    daemon: DaemonView,
    cached: Option<Seq<char>>,
    later: Option<Seq<char>>,
)
    ensures
        daemon.covered(cached).covered(later) == daemon.covered(cached),
{
    reveal(DaemonView::covered);
}

/// A move a client asks for can be taken back by asking for the opposite move.
pub proof fn a_moved_row_can_be_moved_back(daemon: DaemonView, from: int, to: int)
    ensures
        daemon.moving(from, to).moving(to, from).model.deck.player == daemon.model.deck.player,
{
    reveal(crate::protocol::PlayerView::after_move);
    reveal(DaemonView::moving);
    reveal(DaemonView::sending);
    protocol::a_move_is_undone_by_moving_back(daemon.model.deck.player, from, to);
}

/// A media key can neither raise a window that is not there nor take the player
/// from its clients.
pub proof fn a_media_key_cannot_quit_the_daemon(daemon: DaemonView)
    ensures
        daemon.commanded(MprisCommand::Quit) == daemon,
        daemon.commanded(MprisCommand::Raise) == daemon,
{
}

/// Whatever the clock says, a shuffle opens on a row of the list.
pub proof fn a_shuffle_opens_within_the_list(len: int, nanos: int)
    requires
        0 < len,
    ensures
        0 <= serve::shuffled_row(len, nanos) < len,
{
    assert(0 <= nanos % len < len) by (nonlinear_arith)
        requires
            0 < len,
    ;
}

/// A list is played from the row asked for, in order: the whole of it that can be
/// streamed is sent, each track once, and the player opens on that row's track.
pub proof fn a_list_plays_from_the_row_asked_for(
    daemon: DaemonView,
    ids: Vec<String>,
    index: usize,
    start: PlayMode,
    nanos: int,
    alone: bool,
)
    requires
        daemon.model.deck.attached,
        index < ids@.len(),
        !daemon.model.deck.dead.contains(ids@[index as int]@),
        start != PlayMode::Shuffled,
    ensures
        ({
            let after = daemon.asked(Request::Play { ids, index, start }, nanos, alone);
            let row = ids@[index as int]@;
            &&& after.tasks == daemon.tasks
            &&& after.model.deck.pending_start == Some(row)
            &&& after.model.deck.outbox.len() == daemon.model.deck.outbox.len() + 2
            &&& after.model.deck.outbox[daemon.model.deck.outbox.len() as int] == (
            CommandView::SetShuffle { shuffle: false })
            &&& after.model.deck.outbox.last() matches CommandView::SetQueue {
                songs,
                start_position,
                start_playing,
                start_time_ms,
            } && 0 <= start_position < songs.len() && songs[start_position] == row && start_playing
                && start_time_ms == 0 && songs.no_duplicates() && forall|id: Seq<char>| #[trigger]
                songs.contains(id) <==> text::texts(ids@).contains(id)
                    && !daemon.model.deck.dead.contains(id)
        }),
        daemon.answered(Request::Play { ids, index, start }, alone) is None,
{
    reveal(DaemonView::playing);
    reveal(DeckView::starting);
    let slots = deck::full(text::texts(ids@));
    let deck = daemon.model.deck;
    rows_of_ids(text::texts(ids@));
    queue_laws::the_whole_list_is_enqueued(slots, deck.dead);
    assert(slots[index as int] == Some(ids@[index as int]@));
    assert(slots.contains(Some(ids@[index as int]@)));
    assert(queue::queued(slots, deck.dead).contains(ids@[index as int]@));
    deck_laws::a_new_queue_opens_on_the_row_asked_for(
        deck,
        slots,
        index as int,
        index as int,
        start.means(),
    );
    assert forall|id: Seq<char>| #[trigger]
        queue::queued(slots, deck.dead).contains(id) <==> text::texts(ids@).contains(id)
            && !deck.dead.contains(id) by {
        assert(slots.contains(Some(id)) <==> text::texts(ids@).contains(id));
    }
}

proof fn rows_of_ids(ids: Seq<Seq<char>>)
    ensures
        forall|id: Seq<char>| #[trigger]
            deck::full(ids).contains(Some(id)) <==> ids.contains(id),
{
    assert forall|id: Seq<char>| #[trigger]
        deck::full(ids).contains(Some(id)) <==> ids.contains(id) by {
        if ids.contains(id) {
            let k = choose|k: int| 0 <= k < ids.len() && ids[k] == id;
            assert(deck::full(ids)[k] == Some(id));
        }
    }
}

/// A shuffle states its mode, opens on the row the clock draws, and confirms no
/// start.
pub proof fn a_shuffle_opens_on_the_row_the_clock_draws(
    daemon: DaemonView,
    ids: Vec<String>,
    index: usize,
    nanos: int,
    alone: bool,
)
    requires
        daemon.model.deck.attached,
        ids@.len() > 0,
        0 <= nanos,
        !daemon.model.deck.dead.contains(ids@[nanos % (ids@.len() as int)]@),
    ensures
        ({
            let request = Request::Play { ids, index, start: PlayMode::Shuffled };
            let after = daemon.asked(request, nanos, alone);
            let drawn = ids@[nanos % (ids@.len() as int)]@;
            &&& after.tasks == daemon.tasks
            &&& after.model.deck.pending_start is None
            &&& after.model.deck.outbox.len() == daemon.model.deck.outbox.len() + 2
            &&& after.model.deck.outbox[daemon.model.deck.outbox.len() as int] == (
            CommandView::SetShuffle { shuffle: true })
            &&& after.model.deck.outbox.last() matches CommandView::SetQueue {
                songs,
                start_position,
                ..
            } && 0 <= start_position < songs.len() && songs[start_position] == drawn
        }),
{
    reveal(DaemonView::playing);
    reveal(DeckView::starting);
    let slots = deck::full(text::texts(ids@));
    let row = nanos % (ids@.len() as int);
    let deck = daemon.model.deck;
    rows_of_ids(text::texts(ids@));
    queue_laws::the_whole_list_is_enqueued(slots, deck.dead);
    assert(0 <= row < ids@.len());
    assert(slots[row] == Some(ids@[row]@));
    assert(slots.contains(Some(ids@[row]@)));
    assert(queue::queued(slots, deck.dead).contains(ids@[row]@));
    deck_laws::a_new_queue_opens_on_the_row_asked_for(deck, slots, row, row, Start::Shuffled);
}

/// A list of which nothing can be streamed is not played: whoever listens is told
/// so, and the player is told nothing.
pub proof fn a_list_of_the_dead_is_not_played(
    daemon: DaemonView,
    ids: Vec<String>,
    index: usize,
    start: PlayMode,
    nanos: int,
    alone: bool,
)
    requires
        forall|k: int|
            0 <= k < ids@.len() ==> daemon.model.deck.dead.contains(#[trigger] ids@[k]@),
    ensures
        daemon.asked(Request::Play { ids, index, start }, nanos, alone) == (DaemonView {
            tasks: daemon.tasks.push(
                TaskView::Publish(EventView::Error { detail: "Nothing here can be streamed"@ }),
            ),
            ..daemon
        }),
{
    reveal(DaemonView::playing);
    let slots = deck::full(text::texts(ids@));
    let songs = queue::queued(slots, daemon.model.deck.dead);
    rows_of_ids(text::texts(ids@));
    queue_laws::the_whole_list_is_enqueued(slots, daemon.model.deck.dead);
    if songs.len() > 0 {
        assert(songs.contains(songs[0]));
        assert(slots.contains(Some(songs[0])));
        let k = choose|k: int| 0 <= k < slots.len() && slots[k] == Some(songs[0]);
        assert(daemon.model.deck.dead.contains(ids@[k]@));
    }
}

/// What joins the queue is what can be streamed of it, in the order it was given,
/// next or last. Where nothing can be, the one who asks is told so and the player
/// is told nothing.
pub proof fn what_lives_joins_the_queue(
    daemon: DaemonView,
    ids: Vec<String>,
    next: bool,
    nanos: int,
    alone: bool,
)
    requires
        daemon.model.deck.attached,
    ensures
        ({
            let songs = deck_laws::alive(text::texts(ids@), daemon.model.deck.dead);
            let request = Request::Enqueue { ids, next };
            let after = daemon.asked(request, nanos, alone);
            &&& songs.len() > 0 ==> after.model.deck.outbox == daemon.model.deck.outbox.push(
                if next {
                    CommandView::PlayNext { songs }
                } else {
                    CommandView::PlayLater { songs }
                },
            ) && daemon.answered(request, alone) is None
            &&& songs.len() == 0 ==> after == daemon && daemon.answered(request, alone) == Some(
                EventView::Error { detail: "Nothing here can be streamed"@ },
            )
            &&& after.tasks == daemon.tasks
            &&& after.model.deck.last_queue == daemon.model.deck.last_queue
        }),
{
    reveal(DaemonView::enqueueing);
    reveal(DaemonView::sending);
    deck_laws::survivors_keep_their_order(text::texts(ids@), daemon.model.deck.dead);
}

/// Going to a row of the queue gives up the start that was waited for, goes there,
/// and plays.
pub proof fn jumping_to_a_row_plays_it(
    daemon: DaemonView,
    index: usize,
    nanos: int,
    alone: bool,
)
    requires
        daemon.model.deck.attached,
    ensures
        ({
            let deck = daemon.model.deck;
            let there = deck.outbox.push(CommandView::ChangeToIndex { index: index as int });
            daemon.asked(Request::JumpTo { index }, nanos, alone) == (DaemonView {
                model: ModelView {
                    deck: DeckView {
                        pending_start: None,
                        outbox: if deck.player.playing {
                            there
                        } else {
                            there.push(CommandView::Play)
                        },
                        ..deck
                    },
                    ..daemon.model
                },
                ..daemon
            })
        }),
{
    reveal(DaemonView::jumping);
    reveal(DaemonView::sending);
}

/// Any row but the playing one is removed from the queue by its own index.
pub proof fn another_row_is_removed_by_its_index(
    daemon: DaemonView,
    index: usize,
    nanos: int,
    alone: bool,
)
    requires
        daemon.model.deck.attached,
        index != daemon.model.deck.player.queue_position || daemon.model.deck.player.queue.len()
            == 0,
    ensures
        ({
            let request = Request::RemoveFromQueue { index };
            let after = daemon.asked(request, nanos, alone);
            &&& after.model.deck.outbox == daemon.model.deck.outbox.push(
                CommandView::RemoveFromQueue { index: index as int },
            )
            &&& after.model.deck.player == daemon.model.deck.player
            &&& after.tasks == daemon.tasks
            &&& daemon.answered(request, alone) is None
        }),
{
    reveal(DaemonView::removing);
    reveal(DaemonView::sending);
}

/// The playing row is the one at the player's position, in a queue that holds
/// anything.
pub proof fn the_playing_row_is_where_the_player_is(daemon: DaemonView, index: int)
    ensures
        daemon.is_current(index) <==> index == daemon.model.deck.player.queue_position
            && daemon.model.deck.player.queue.len() > 0,
{
}

/// A row that is moved is shown where it went at once, and the player told to move
/// it likewise. The one who asks is told the queue as it then stands: the moved row
/// at its new place, and the playing one still marked. A move off the queue is not
/// made, and nothing is said of it.
pub proof fn a_moved_row_is_shown_where_it_went(
    daemon: DaemonView,
    from: usize,
    to: usize,
    nanos: int,
    alone: bool,
)
    requires
        daemon.model.deck.attached,
        0 <= daemon.model.deck.player.queue_position < daemon.model.deck.player.queue.len(),
    ensures
        ({
            let request = Request::MoveInQueue { from, to };
            let after = daemon.asked(request, nanos, alone);
            let player = daemon.model.deck.player;
            let n = player.queue.len();
            if from < n && to < n {
                &&& after.model.deck.outbox == daemon.model.deck.outbox.push(
                    CommandView::MoveInQueue { from: from as int, to: to as int },
                )
                &&& after.model.deck.player.queue[to as int] == player.queue[from as int]
                &&& after.model.deck.player.queue.remove(to as int) == player.queue.remove(
                    from as int,
                )
                &&& daemon.answered(request, alone) matches Some(
                    EventView::Queue { items, position },
                ) && items.len() == n && 0 <= position < n && items[to as int] == shown_as(
                    player.queue[from as int],
                ) && items[position] == shown_as(player.queue[player.queue_position])
            } else {
                after == daemon && daemon.answered(request, alone) is None
            }
        }),
{
    reveal(DaemonView::moving);
    reveal(DaemonView::sending);
    reveal(DaemonView::queue_event);
    let player = daemon.model.deck.player;
    if from < player.queue.len() && to < player.queue.len() {
        protocol_laws::a_move_takes_one_item_along(player, from as int, to as int);
        protocol_laws::a_move_keeps_the_playing_item(player, from as int, to as int);
    }
}

/// An item of the queue as a client is shown it.
pub open spec fn shown_as(item: Item) -> QueueItem {
    QueueItem {
        id: if item.catalog_id is Some {
            item.catalog_id
        } else {
            item.id
        },
        title: item.title,
        artist: item.artist,
        album: item.album,
        duration_ms: item.duration_ms,
    }
}

/// A client that asks for the queue is told each item in its order, and where the
/// player is in it.
pub proof fn the_queue_is_told_in_its_order(daemon: DaemonView, alone: bool)
    ensures
        daemon.answered(Request::Queue, alone) matches Some(EventView::Queue { items, position })
            && position == daemon.model.deck.player.queue_position && items.len()
            == daemon.model.deck.player.queue.len() && forall|i: int|
            0 <= i < items.len() ==> #[trigger] items[i] == shown_as(
                daemon.model.deck.player.queue[i],
            ),
{
    reveal(DaemonView::queue_event);
}

/// Clearing the queue tells the player, forgets what was sent and what was waited
/// for, and forgets the remembered session.
pub proof fn a_cleared_queue_is_forgotten(daemon: DaemonView, nanos: int, alone: bool)
    requires
        daemon.model.deck.attached,
    ensures
        ({
            let after = daemon.asked(Request::ClearQueue, nanos, alone);
            &&& after.model.deck == (DeckView {
                outbox: daemon.model.deck.outbox.push(CommandView::ClearQueue),
                last_queue: None,
                pending_start: None,
                ..daemon.model.deck
            })
            &&& after.tasks == daemon.tasks.push(TaskView::ClearSession)
        }),
{
    reveal(DaemonView::clearing);
    reveal(DaemonView::sending);
}

/// Taking something out of the library, or its star off, goes through the player.
/// Putting it in, or a star on, is asked of the service, which takes signing in.
pub proof fn each_write_goes_its_own_way(
    daemon: DaemonView,
    action: WriteAction,
    id: String,
    nanos: int,
    alone: bool,
)
    requires
        daemon.model.deck.attached,
    ensures
        ({
            let after = daemon.asked(Request::Write { action, id }, nanos, alone);
            let by_player = action == WriteAction::RemoveFromLibrary || action
                == WriteAction::Unfavorite;
            &&& action == WriteAction::RemoveFromLibrary ==> after.model.deck.outbox
                == daemon.model.deck.outbox.push(CommandView::RemoveFromLibrary { id: id@ })
            &&& action == WriteAction::Unfavorite ==> after.model.deck.outbox
                == daemon.model.deck.outbox.push(CommandView::Unfavorite { id: id@ })
            &&& by_player ==> after.tasks == daemon.tasks
            &&& !by_player ==> after.model == daemon.model
            &&& !by_player && daemon.model.tokens is Some ==> after.tasks == daemon.tasks.push(
                TaskView::WriteLibrary { action, id: id@ },
            )
            &&& !by_player && daemon.model.tokens is None ==> after.tasks == daemon.tasks.push(
                TaskView::Publish(EventView::Error { detail: "Not signed in yet"@ }),
            )
        }),
{
    reveal(DaemonView::writing);
    reveal(DaemonView::sending);
}

/// A page and a search are asked of the service as they were asked for. Before there
/// is a way to, whoever listens is told so instead.
pub proof fn what_needs_the_service_waits_for_signing_in(
    daemon: DaemonView,
    kind: PageKind,
    id: String,
    query: String,
    filter: CatalogFilter,
    offset: usize,
    nanos: int,
    alone: bool,
)
    ensures
        ({
            let opened = daemon.asked(Request::Open { kind, id }, nanos, alone);
            let searched = daemon.asked(Request::Search { query, filter, offset }, nanos, alone);
            let refused = daemon.tasks.push(
                TaskView::Publish(EventView::Error { detail: "Not signed in yet"@ }),
            );
            &&& opened == (DaemonView { tasks: opened.tasks, ..daemon })
            &&& searched == (DaemonView { tasks: searched.tasks, ..daemon })
            &&& daemon.model.tokens is None ==> opened.tasks == refused && searched.tasks
                == refused
            &&& daemon.model.tokens is Some ==> opened.tasks == daemon.tasks.push(
                TaskView::OpenPage { kind, id: id@ },
            ) && searched.tasks == daemon.tasks.push(
                TaskView::SearchCatalog { query: query@, filter, offset: offset as int },
            )
        }),
{
    reveal(DaemonView::requesting);
}

/// Asking for the library again fetches it, where it can be and is not already on
/// its way.
pub proof fn a_refresh_fetches_the_library(daemon: DaemonView, nanos: int, alone: bool)
    ensures
        ({
            let after = daemon.asked(Request::Refresh, nanos, alone);
            &&& daemon.refreshing || daemon.model.tokens is None ==> after == daemon
            &&& !daemon.refreshing && daemon.model.tokens is Some ==> after == (DaemonView {
                refreshing: true,
                tasks: daemon.tasks.push(TaskView::FetchLibrary),
                ..daemon
            })
        }),
{
    reveal(DaemonView::refreshed);
}

/// A button of the transport is the command of its own name, and no other. A volume
/// that is set is also remembered.
pub proof fn each_button_is_its_own_command(
    daemon: DaemonView,
    position_ms: u64,
    volume: u64,
    shuffle: bool,
    mode: RepeatMode,
    nanos: int,
    alone: bool,
)
    requires
        daemon.model.deck.attached,
    ensures
        said(daemon, daemon.asked(Request::Transport(Transport::Play), nanos, alone), CommandView::Play),
        said(
            daemon,
            daemon.asked(Request::Transport(Transport::Pause), nanos, alone),
            CommandView::Pause,
        ),
        said(
            daemon,
            daemon.asked(Request::Transport(Transport::PlayPause), nanos, alone),
            CommandView::PlayPause,
        ),
        said(daemon, daemon.asked(Request::Transport(Transport::Next), nanos, alone), CommandView::Next),
        said(
            daemon,
            daemon.asked(Request::Transport(Transport::Previous), nanos, alone),
            CommandView::Previous,
        ),
        said(
            daemon,
            daemon.asked(Request::Transport(Transport::Seek { position_ms }), nanos, alone),
            CommandView::Seek { position_ms },
        ),
        said(
            daemon,
            daemon.asked(Request::Transport(Transport::SetShuffle { shuffle }), nanos, alone),
            CommandView::SetShuffle { shuffle },
        ),
        said(
            daemon,
            daemon.asked(Request::Transport(Transport::SetRepeat { mode }), nanos, alone),
            CommandView::SetRepeat { mode },
        ),
        said(
            DaemonView { model: ModelView { volume, ..daemon.model }, ..daemon },
            daemon.asked(Request::Transport(Transport::SetVolume { volume }), nanos, alone),
            CommandView::SetVolume { volume },
        ),
{
    reveal(DaemonView::driving);
    reveal(DaemonView::sending);
}

/// Whether a daemon has come to tell its player one thing more, and nothing else of
/// it has changed.
pub open spec fn said(before: DaemonView, after: DaemonView, command: CommandView) -> bool {
    after == (DaemonView {
        model: ModelView {
            deck: DeckView {
                outbox: before.model.deck.outbox.push(command),
                ..before.model.deck
            },
            ..before.model
        },
        ..before
    })
}

/// A media key is the command of its own name, and no other.
pub proof fn each_media_key_is_its_own_command(
    daemon: DaemonView,
    position_ms: u64,
    volume: u64,
    shuffle: bool,
    mode: RepeatMode,
)
    requires
        daemon.model.deck.attached,
    ensures
        said(daemon, daemon.commanded(MprisCommand::Play), CommandView::Play),
        said(daemon, daemon.commanded(MprisCommand::Pause), CommandView::Pause),
        said(daemon, daemon.commanded(MprisCommand::PlayPause), CommandView::PlayPause),
        said(daemon, daemon.commanded(MprisCommand::Next), CommandView::Next),
        said(daemon, daemon.commanded(MprisCommand::Previous), CommandView::Previous),
        said(
            daemon,
            daemon.commanded(MprisCommand::Seek(position_ms)),
            CommandView::Seek { position_ms },
        ),
        said(
            daemon,
            daemon.commanded(MprisCommand::SetShuffle(shuffle)),
            CommandView::SetShuffle { shuffle },
        ),
        said(
            daemon,
            daemon.commanded(MprisCommand::SetRepeat(mode)),
            CommandView::SetRepeat { mode },
        ),
        said(
            DaemonView { model: ModelView { volume, ..daemon.model }, ..daemon },
            daemon.commanded(MprisCommand::SetVolume(volume)),
            CommandView::SetVolume { volume },
        ),
{
    reveal(DaemonView::commanded);
    reveal(DaemonView::sending);
}

/// A snapshot says of the player what the player is: its current item's title,
/// artist and album, the position carried forward, the length, the modes, and what
/// can be skipped to. The volume and the cover are the daemon's own.
pub proof fn a_snapshot_says_what_is(model: ModelView)
    ensures
        ({
            let snap = model.snap();
            let player = model.deck.player;
            &&& player.now_playing is Some ==> snap.title == player.now_playing->0.title@
                && snap.artist == player.now_playing->0.artist@ && snap.album
                == player.now_playing->0.album@
            &&& player.now_playing is None ==> snap.title.len() == 0 && snap.artist.len() == 0
                && snap.album.len() == 0
            &&& snap.position_ms == player.interpolated_ms
            &&& snap.duration_ms == player.duration_ms
            &&& snap.playing == player.playing
            &&& snap.busy == player.busy
            &&& snap.shuffle == player.shuffle
            &&& snap.repeat == player.repeat
            &&& snap.can_next == player.has_next
            &&& snap.can_previous == player.has_previous
            &&& snap.volume == model.volume
            &&& snap.art_path == model.art_path
        }),
{
}

/// The bus is told of the player what clients are, with the track it is on, and that
/// it has stopped only where there is no queue.
pub proof fn the_bus_is_told_what_is(model: ModelView)
    ensures
        ({
            let bus = model.bus();
            let snap = model.snap();
            let player = model.deck.player;
            &&& bus.title == snap.title && bus.artist == snap.artist && bus.album == snap.album
            &&& player.now_playing is Some ==> bus.track_id == player.now_playing->0.key()
                && bus.track_number == player.now_playing->0.track_number
            &&& player.now_playing is None ==> bus.track_id is None && bus.track_number == 0
            &&& bus.position_ms == snap.position_ms && bus.length_ms == snap.duration_ms
            &&& bus.playing == snap.playing && bus.shuffle == snap.shuffle && bus.repeat
                == snap.repeat
            &&& bus.can_next == snap.can_next && bus.can_previous == snap.can_previous
            &&& bus.volume == snap.volume
            &&& bus.stopped <==> player.queue.len() == 0
        }),
{
}

/// A client that browses is told its own section, the rows from its offset on and no
/// more than its limit, and how many the query finds in all.
pub proof fn a_browse_is_answered_with_its_window(
    daemon: DaemonView,
    view: ipc::View,
    query: String,
    offset: usize,
    limit: usize,
    alone: bool,
)
    ensures
        ({
            let found = daemon.model.library.matching(view, query@);
            daemon.answered(Request::Browse { view, query, offset, limit }, alone) matches Some(
                EventView::Rows { view: told, entries, total },
            ) && told == view && total == found.len() && (forall|i: int|
                0 <= i < entries.len() ==> #[trigger] entries[i] == found[offset + i]) && (if offset
                >= found.len() {
                entries.len() == 0
            } else if limit == 0 || offset + limit >= found.len() {
                entries.len() == found.len() - offset
            } else {
                entries.len() == limit
            })
        }),
{
    reveal(DaemonView::rows_event);
}

/// Leaving remembers the queue first, where there is one, and forgets the
/// remembered one where there is none.
pub proof fn leaving_remembers_the_queue_first(daemon: DaemonView)
    ensures
        daemon.leaving() == (DaemonView {
            tasks: daemon.tasks.push(
                match daemon.model.deck.session() {
                    Some(session) => TaskView::SaveSession(session),
                    None => TaskView::ClearSession,
                },
            ).push(TaskView::Exit),
            ..daemon
        }),
        daemon.asked(Request::Quit, 0, true) == daemon.leaving(),
{
    reveal(DaemonView::leaving);
    reveal(DaemonView::saving);
}

/// Whatever the player reports, the mirror is what it says it is, and both the
/// clients and the bus are told last, from that mirror.
pub proof fn a_report_is_mirrored_and_told(
    daemon: DaemonView,
    event: PlayerEvent,
    player: PlayerView,
    saved: Option<SessionView>,
    cached: Option<Seq<char>>,
)
    ensures
        ({
            let after = daemon.after(event, player, saved, cached);
            let n = after.tasks.len();
            &&& after.model.deck.player == player
            &&& n >= 2
            &&& after.tasks[n - 2] == TaskView::Publish(EventView::Snapshot(after.model.snap()))
            &&& after.tasks[n - 1] == TaskView::TellBus(after.model.bus())
            &&& after.after_apply is None
        }),
{
    reveal(DaemonView::showing);
    reveal(DaemonView::settled);
    reveal(DaemonView::mirrored);
    reveal(DaemonView::requeued);
    reveal(DaemonView::covered);
    reveal(DaemonView::saving);
    reveal(DaemonView::resumed);
    reveal(DeckView::verified);
    reveal(DeckView::judged);
    reveal(DeckView::reseated);
    reveal(DeckView::resumed);
}

/// A new queue, or a new track, is told to the clients and remembered. Nothing else
/// the player reports is.
pub proof fn a_new_queue_is_told_and_remembered(
    daemon: DaemonView,
    event: PlayerEvent,
    player: PlayerView,
    cached: Option<Seq<char>>,
)
    ensures
        ({
            let after = daemon.mirrored(event, player, cached);
            let mirror = DaemonView {
                model: ModelView {
                    deck: DeckView { player, ..daemon.model.deck },
                    ..daemon.model
                },
                ..daemon
            };
            let told = daemon.tasks.push(
                TaskView::Publish(
                    EventView::Queue {
                        items: player.queue.map_values(|item: Item| shown_as(item)),
                        position: player.queue_position,
                    },
                ),
            ).push(
                match mirror.model.deck.session() {
                    Some(session) => TaskView::SaveSession(session),
                    None => TaskView::ClearSession,
                },
            );
            &&& event is Queue ==> after == (DaemonView { tasks: told, ..mirror })
            &&& event is NowPlaying ==> told.is_prefix_of(after.tasks) && after.tasks.len()
                <= told.len() + 1
            &&& !(event is Queue) && !(event is NowPlaying) ==> after == mirror
        }),
{
    reveal(DaemonView::mirrored);
    reveal(DaemonView::requeued);
    reveal(DaemonView::covered);
    reveal(DaemonView::saving);
    reveal(DaemonView::resumed);
    reveal(DaemonView::queue_event);
    reveal(DeckView::resumed);
    assert(daemon::queue_rows(player.queue) =~= player.queue.map_values(
        |item: Item| shown_as(item),
    ));
}

/// A cover that lies on disk is shown, and one that does not is fetched and not
/// shown before it is there. A track without one shows none.
pub proof fn a_cover_is_shown_or_fetched(
    daemon: DaemonView,
    cached: Option<Seq<char>>,
)
    ensures
        ({
            let now = daemon.model.deck.player.now_playing;
            let wanted = if now is Some {
                text::text_view(now->0.artwork_template)
            } else {
                None
            };
            let after = daemon.covered(cached);
            &&& after.art_for == wanted
            &&& wanted == daemon.art_for ==> after == daemon
            &&& wanted != daemon.art_for && wanted is None ==> after.model.art_path is None
                && after.tasks == daemon.tasks
            &&& wanted != daemon.art_for && wanted is Some && cached is Some
                ==> after.model.art_path == cached && after.tasks == daemon.tasks
            &&& wanted != daemon.art_for && wanted is Some && cached is None
                ==> after.model.art_path is None && after.tasks == daemon.tasks.push(
                TaskView::FetchArtwork { template: wanted->0 },
            )
        }),
{
    reveal(DaemonView::covered);
}

/// A player that is attached to is up, and whether it is ready is whether it is
/// signed in. The first time it is signed in, the remembered queue goes back, and
/// the library is fetched.
pub proof fn attaching_to_the_player_makes_it_ready(
    daemon: DaemonView,
    saved: Option<SessionView>,
    authorized: bool,
)
    requires
        daemon.engine != Engine::Waking,
    ensures
        ({
            let after = daemon.told(PlayerEvent::HookReady { authorized }, saved);
            let stage = if authorized {
                StageView::Ready
            } else {
                StageView::SignedOut
            };
            let told = daemon.tasks.push(TaskView::Publish(EventView::Stage(stage)));
            &&& after.restarts == 0
            &&& after.engine == Engine::Up
            &&& after.model.stage == stage
            &&& after.restored == (daemon.restored || authorized)
            &&& authorized && !daemon.restored && saved is Some ==> after.model.deck
                == daemon.model.deck.restoring(saved->0)
            &&& !authorized || daemon.restored || saved is None ==> after.model.deck
                == daemon.model.deck
            &&& authorized && !daemon.refreshing && daemon.model.tokens is Some ==> after.tasks
                == told.push(TaskView::FetchLibrary)
            &&& !authorized || daemon.refreshing || daemon.model.tokens is None ==> after.tasks
                == told
        }),
{
    reveal(DaemonView::told);
    reveal(DaemonView::attached);
    reveal(DaemonView::staged);
    reveal(DaemonView::refreshed);
}

/// What the player reports of itself is kept: that it is broken, a volume, new
/// tokens, and that a command ended, whose end is judged once the mirror has caught
/// up. A write that was made fetches the library, and one that was not is told.
pub proof fn each_report_is_kept(
    daemon: DaemonView,
    detail: String,
    volume: u64,
    tokens: Tokens,
    cmd: String,
    kind: String,
    id: String,
    saved: Option<SessionView>,
)
    ensures
        ({
            let broken = StageView::Broken { detail: detail@ };
            &&& daemon.told(PlayerEvent::HookFailed { detail }, saved) == (DaemonView {
                model: ModelView { stage: broken, ..daemon.model },
                tasks: daemon.tasks.push(TaskView::Publish(EventView::Stage(broken))),
                ..daemon
            })
            &&& daemon.told(PlayerEvent::Volume { volume }, saved) == (DaemonView {
                model: ModelView { volume, ..daemon.model },
                ..daemon
            })
            &&& daemon.told(PlayerEvent::Tokens(tokens), saved) == (DaemonView {
                model: ModelView { tokens: Some(tokens), ..daemon.model },
                ..daemon
            })
            &&& daemon.told(PlayerEvent::CmdDone { cmd }, saved) == (DaemonView {
                after_apply: Some(cmd@),
                ..daemon
            })
            &&& daemon.told(
                PlayerEvent::LibraryWrite { kind, id, ok: false, detail },
                saved,
            ) == (DaemonView {
                tasks: daemon.tasks.push(
                    TaskView::Publish(EventView::Error { detail: detail@ }),
                ),
                ..daemon
            })
            &&& daemon.told(PlayerEvent::LibraryWrite { kind, id, ok: true, detail }, saved)
                == daemon.refreshed()
        }),
{
    reveal(DaemonView::told);
    reveal(DaemonView::staged);
}

/// A refused queue is sent again without what is dead, and that is remembered. Where
/// nothing is left of it, whoever listens is told so. A refusal that is none of ours
/// is passed on in its own words.
pub proof fn a_refused_queue_is_answered_or_passed_on(daemon: DaemonView, detail: String)
    ensures
        ({
            let after = daemon.told(PlayerEvent::Error { detail }, None);
            let deck = daemon.model.deck;
            &&& after.model.deck == deck.retrying(detail@, false)
            &&& deck.refused(detail@) == Retry::Resent ==> after.tasks == daemon.tasks.push(
                TaskView::SaveDead,
            )
            &&& deck.refused(detail@) == Retry::NothingLeft ==> after.tasks == daemon.tasks.push(
                TaskView::SaveDead,
            ).push(
                TaskView::Publish(
                    EventView::Error { detail: "None of these tracks are available to stream"@ },
                ),
            )
            &&& deck.refused(detail@) == Retry::NotOurs ==> after.tasks == daemon.tasks.push(
                TaskView::Publish(EventView::Error { detail: detail@ }),
            )
        }),
{
    reveal(DaemonView::told);
    reveal(DaemonView::refused);
}

/// A command that ended is judged by the state the mirror then shows, and the start
/// that was waited for is confirmed after that.
pub proof fn an_ended_command_is_judged_then_the_start_confirmed(daemon: DaemonView)
    ensures
        daemon.after_apply is Some ==> daemon.settled().model.deck == daemon.model.deck.judged(
            daemon.after_apply->0,
        ).verified(),
        daemon.after_apply is None ==> daemon.settled().model.deck
            == daemon.model.deck.verified(),
        daemon.settled().tasks == daemon.tasks,
{
    reveal(DaemonView::settled);
}

/// A player's process that is started again comes after the queue was remembered,
/// counts as one more attempt, and holds nothing yet.
pub proof fn a_new_process_starts_from_what_was_remembered(daemon: DaemonView)
    requires
        daemon.restarts < u32::MAX,
    ensures
        daemon.restarting() == (DaemonView {
            restarts: (daemon.restarts + 1) as u32,
            tasks: daemon.tasks.push(
                match daemon.model.deck.session() {
                    Some(session) => TaskView::SaveSession(session),
                    None => TaskView::ClearSession,
                },
            ).push(TaskView::Publish(EventView::Stage(StageView::Connecting))),
            ..daemon
        }),
        daemon.respawned() == (DaemonView {
            restored: false,
            model: ModelView { stage: StageView::Connecting, ..daemon.model },
            ..daemon
        }),
{
    reveal(DaemonView::restarting);
    reveal(DaemonView::saving);
}

/// A library that arrived whole replaces the one there was, is kept, and announced.
/// One that did not leaves the old one. Either way another may be fetched.
pub proof fn a_fetched_library_replaces_the_old_one(daemon: DaemonView, fetched: LibraryView)
    ensures
        daemon.stocked(Some(fetched)) == (DaemonView {
            refreshing: false,
            model: ModelView { library: fetched, ..daemon.model },
            tasks: daemon.tasks.push(TaskView::SaveLibrary).push(
                TaskView::Publish(EventView::LibraryChanged),
            ),
            ..daemon
        }),
        daemon.stocked(None) == (DaemonView { refreshing: false, ..daemon }),
{
}

/// What is asked of the daemon is asked in the way that was named.
pub proof fn a_play_mode_means_what_it_says(mode: PlayMode)
    ensures
        mode == PlayMode::Clicked <==> mode.means() == Start::Clicked,
        mode == PlayMode::InOrder <==> mode.means() == Start::InOrder,
        mode == PlayMode::Shuffled <==> mode.means() == Start::Shuffled,
{
}

/// A report goes all the way: what it says is taken in, then the mirror is what the player is,
/// then a command that ended is judged and the start confirmed, by that mirror.
pub proof fn a_report_goes_all_the_way(
    daemon: DaemonView,
    event: PlayerEvent,
    player: PlayerView,
    saved: Option<SessionView>,
    cached: Option<Seq<char>>,
)
    ensures
        ({
            let after = daemon.after(event, player, saved, cached);
            let told = daemon.told(event, saved);
            let mirror = DeckView { player, ..told.model.deck };
            let ready = if event is NowPlaying {
                mirror.resumed()
            } else {
                mirror
            };
            &&& told.after_apply is Some ==> after.model.deck == ready.judged(
                told.after_apply->0,
            ).verified()
            &&& told.after_apply is None ==> after.model.deck == ready.verified()
            &&& after.model.stage == told.model.stage
            &&& after.model.volume == told.model.volume
            &&& after.model.tokens == told.model.tokens
            &&& after.model.library == daemon.model.library
        }),
{
    reveal(DaemonView::told);
    reveal(DaemonView::attached);
    reveal(DaemonView::staged);
    reveal(DaemonView::refreshed);
    reveal(DaemonView::refused);
    reveal(DaemonView::showing);
    reveal(DaemonView::settled);
    reveal(DaemonView::mirrored);
    reveal(DaemonView::requeued);
    reveal(DaemonView::covered);
    reveal(DaemonView::saving);
    reveal(DaemonView::resumed);
}

/// What says nothing of its own is taken in only as what the player then is.
pub proof fn other_reports_say_nothing_of_their_own(
    daemon: DaemonView,
    event: PlayerEvent,
    saved: Option<SessionView>,
)
    requires
        event is PlaybackState || event is NowPlaying || event is Queue || event is Position
            || event is Ready || event is WidevineReady || event is HookBoot || event is CmdRecv
            || event is CmdQueued || event is HookWarning || event is Authorization,
    ensures
        daemon.told(event, saved) == daemon,
{
    reveal(DaemonView::told);
}

} // verus!
