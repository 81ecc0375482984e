//! What holds of the deck whatever is asked of it, and in whatever order.

use vstd::prelude::*;

use crate::deck;
use crate::deck::{DeckView, Retry, SentView, SessionView};
use crate::ids;
use crate::protocol::{CommandView, Item, PlayerView};
use crate::queue;
use crate::queue::Start;
use crate::queue_laws;

verus! {

/// A correction is one shot: once a start has been confirmed, corrected or
/// given up, confirming again says nothing more.
pub proof fn confirming_twice_is_confirming_once(deck: DeckView)
    ensures
        deck.verified().verified() == deck.verified(),
{
    reveal(DeckView::verified);
}

/// A queue is corrected only once it is the one that was sent. Until then the
/// deck says nothing, and goes on waiting.
pub proof fn another_queue_is_never_corrected(deck: DeckView)
    requires
        deck.last_queue is Some,
        !queue::same_songs(deck.player.queue, deck.last_queue->0.songs),
    ensures
        deck.verified() == deck,
{
    reveal(DeckView::verified);
}

/// A shuffled queue has no wrong track to open on: confirming its start never
/// sends anything.
pub proof fn a_shuffled_start_is_never_corrected(
    deck: DeckView,
    slots: Seq<Option<Seq<char>>>,
    row: int,
)
    ensures
        deck.starting(slots, row, Start::Shuffled).verified() == deck.starting(
            slots,
            row,
            Start::Shuffled,
        ),
{
    reveal(DeckView::verified);
    reveal(DeckView::starting);
}

/// A play that makes no sound is healed once. A second that makes none either
/// is left alone.
pub proof fn healing_happens_once(deck: DeckView, cmd: Seq<char>)
    ensures
        deck.judged(cmd).judged(cmd) == deck.judged(cmd),
{
    reveal(DeckView::judged);
    reveal(DeckView::reseated);
}

/// A position waiting to be restored is sent once.
pub proof fn a_position_is_restored_once(deck: DeckView)
    ensures
        deck.resumed().resumed() == deck.resumed(),
{
    reveal(DeckView::resumed);
}

/// Once known to be dead, an id stays so.
pub proof fn the_dead_stay_dead(deck: DeckView, detail: Seq<char>, slide: bool, id: Seq<char>)
    requires
        deck.dead.contains(id),
    ensures
        deck.retrying(detail, slide).dead.contains(id),
{
    reveal(DeckView::retrying);
}

/// A retry cannot loop: the same refusal a second time is not answered.
pub proof fn the_same_refusal_is_not_answered_twice(deck: DeckView, detail: Seq<char>, slide: bool)
    requires
        deck.refused(detail) == Retry::Resent,
    ensures
        deck.retrying(detail, slide).refused(detail) == Retry::NotOurs,
{
    reveal(DeckView::retrying);
    reveal(DeckView::refused);
    let after = deck.retrying(detail, slide);
    assert(after.dead == deck.burying(detail));
    assert(after.burying(detail) =~= after.dead);
}

/// A retry sends what is left of the refused queue and nothing that is dead.
pub proof fn a_retry_sends_no_dead_track(deck: DeckView, detail: Seq<char>, slide: bool)
    requires
        deck.refused(detail) == Retry::Resent,
    ensures
        ({
            let after = deck.retrying(detail, slide);
            let resent = after.last_queue->0.songs;
            &&& after.last_queue is Some
            &&& resent.len() > 0
            &&& forall|id: Seq<char>| #[trigger]
                resent.contains(id) <==> deck.last_queue->0.songs.contains(id) && !after.dead.contains(
                    id,
                )
        }),
{
    reveal(DeckView::retrying);
    reveal(DeckView::refused);
    let after = deck.retrying(detail, slide);
    let songs = deck.last_queue->0.songs;
    assert forall|id: Seq<char>| #[trigger]
        after.last_queue->0.songs.contains(id) <==> songs.contains(id) && !after.dead.contains(
            id,
        ) by {
        survivors_are_what_lives(songs, after.dead, id);
    }
}

/// The survivors of a queue are its songs that are not dead.
pub proof fn survivors_are_what_lives(songs: Seq<Seq<char>>, dead: Set<Seq<char>>, id: Seq<char>)
    ensures
        deck::survivors(songs, dead).contains(id) <==> songs.contains(id) && !dead.contains(id),
    decreases songs.len(),
{
    let slots = deck::full(songs);
    if songs.len() > 0 {
        let shorter = songs.drop_last();
        let before = deck::survivors(shorter, dead);
        let after = deck::survivors(songs, dead);
        assert(slots.drop_last() =~= deck::full(shorter));
        survivors_are_what_lives(shorter, dead, id);
        if before.contains(id) {
            let k = choose|k: int| 0 <= k < before.len() && before[k] == id;
            assert(after[k] == id);
        }
        if shorter.contains(id) {
            let k = choose|k: int| 0 <= k < shorter.len() && shorter[k] == id;
            assert(songs[k] == id);
        }
        if songs.last() == id {
            assert(songs[songs.len() - 1] == id);
            if !dead.contains(id) {
                assert(after[before.len() as int] == id);
            }
        } else if songs.contains(id) {
            let k = choose|k: int| 0 <= k < songs.len() && songs[k] == id;
            assert(shorter[k] == id);
        }
        if after.contains(id) && !before.contains(id) {
            let k = choose|k: int| 0 <= k < after.len() && after[k] == id;
            assert(k < before.len() ==> before[k] == id);
        }
    }
}

/// A retry that slides aims at a track it sends: the first survivor at the
/// wanted track or after it, and never the top unless that is where it stands.
pub proof fn a_retry_aims_at_a_survivor(deck: DeckView, detail: Seq<char>)
    requires
        deck.refused(detail) == Retry::Resent,
        deck.retrying(detail, true).pending_start is Some,
    ensures
        ({
            let after = deck.retrying(detail, true);
            let wanted = after.pending_start->0;
            let resent = after.last_queue->0.songs;
            let place = queue::start_place(resent, Some(wanted));
            &&& !after.dead.contains(wanted)
            &&& 0 <= place < resent.len()
            &&& resent[place] == wanted
        }),
{
    reveal(DeckView::retrying);
    reveal(DeckView::refused);
    let after = deck.retrying(detail, true);
    let sent = deck.last_queue->0;
    let from = queue::start_place(sent.songs, sent.wanted);
    if sent.wanted is Some {
        ids::first_place_is_first(sent.songs, sent.wanted->0);
    }
    let at = queue_laws::a_click_starts_on_the_next_streamable_row(
        deck::full(sent.songs),
        from,
        after.dead,
    );
    let wanted = after.pending_start->0;
    assert(sent.songs[at] == wanted);
    survivors_are_what_lives(sent.songs, after.dead, wanted);
    ids::first_place_is_first(after.last_queue->0.songs, wanted);
}

/// What is saved can be put back: a remembered queue starts within itself.
pub proof fn a_session_starts_within_its_queue(deck: DeckView)
    requires
        0 <= deck.player.queue_position,
        deck.session() is Some,
    ensures
        0 <= deck.session()->0.start < deck.session()->0.songs.len(),
{
    reveal(DeckView::session);
}

/// Putting a session back and saving what the player then holds gives the same
/// session: nothing of it is lost on the way.
pub proof fn a_restored_session_saves_as_itself(deck: DeckView, session: SessionView)
    requires
        0 <= session.start < session.songs.len(),
        queue::item_ids(deck.player.queue) == session.songs,
        deck.player.queue_position == session.start,
        deck.player.position_ms == session.position_ms,
        deck.attached,
    ensures
        deck.session() == Some(session),
        deck.restoring(session).outbox.last() == (CommandView::SetQueue {
            songs: session.songs,
            start_position: session.start,
            start_playing: false,
            start_time_ms: session.position_ms,
        }),
{
    reveal(DeckView::session);
    reveal(DeckView::restoring);
}

/// Nothing put back starts by itself: a restore sends the order's mode and a
/// queue that is not playing, and nothing else.
pub proof fn a_restore_does_not_play(deck: DeckView, session: SessionView)
    requires
        deck.attached,
    ensures
        deck.restoring(session).outbox.len() == deck.outbox.len() + 2,
        forall|k: int|
            0 <= k < deck.outbox.len() ==> deck.restoring(session).outbox[k] == deck.outbox[k],
        deck.restoring(session).outbox[deck.outbox.len() as int] == (CommandView::SetShuffle {
            shuffle: false,
        }),
        deck.restoring(session).outbox.last() is SetQueue,
        !deck.restoring(session).outbox.last()->start_playing,
{
    reveal(DeckView::restoring);
}

/// A row clicked in a list the player already holds moves within that queue: no
/// queue is sent, and a click leaves the mode alone.
pub proof fn a_click_in_the_loaded_list_rebuilds_nothing(
    deck: DeckView,
    slots: Seq<Option<Seq<char>>>,
    row: int,
)
    requires
        queue::queued(slots, deck.dead).len() > 0,
        deck.already_at(slots, row) is Some,
    ensures
        deck.playing_list(slots, row, Start::Clicked) == (DeckView {
            pending_start: None,
            ..deck
        }).sending(CommandView::ChangeToIndex { index: deck.already_at(slots, row)->0 }),
{
    reveal(DeckView::playing_list);
}

/// A new queue always states its mode, so none is inherited from the last: the
/// mode goes out ahead of the queue.
pub proof fn a_new_queue_states_its_mode(
    deck: DeckView,
    slots: Seq<Option<Seq<char>>>,
    row: int,
    start: Start,
)
    requires
        deck.attached,
    ensures
        deck.starting(slots, row, start).outbox == deck.outbox.push(
            CommandView::SetShuffle { shuffle: start == Start::Shuffled },
        ).push(
            CommandView::SetQueue {
                songs: queue::queued(slots, deck.dead),
                start_position: queue::start_place(
                    queue::queued(slots, deck.dead),
                    queue::first_live(slots, row, deck.dead),
                ),
                start_playing: true,
                start_time_ms: 0,
            },
        ),
{
    reveal(DeckView::starting);
}

/// The songs of a list that are not dead, in order.
pub open spec fn alive(songs: Seq<Seq<char>>, dead: Set<Seq<char>>) -> Seq<Seq<char>> {
    songs.filter(|id: Seq<char>| !dead.contains(id))
}

/// What survives of a queue is what lives of it, in the order it had.
pub proof fn survivors_keep_their_order(songs: Seq<Seq<char>>, dead: Set<Seq<char>>)
    ensures
        deck::survivors(songs, dead) == alive(songs, dead),
    decreases songs.len(),
{
    reveal(Seq::filter);
    if songs.len() > 0 {
        let shorter = songs.drop_last();
        survivors_keep_their_order(shorter, dead);
        assert(deck::full(songs).drop_last() =~= deck::full(shorter));
    }
    assert(deck::survivors(songs, dead) =~= alive(songs, dead));
}

/// A refusal is answered where there is a queue it can be about and it names a
/// track that was not known to be dead. It is answered by sending again where a
/// track of that queue is left, one that is neither known to be dead nor named.
pub proof fn what_a_refusal_comes_to(deck: DeckView, detail: Seq<char>)
    ensures
        ({
            let news = exists|id: Seq<char>| #[trigger]
                queue::named_dead(detail).contains(id) && !deck.dead.contains(id);
            let left = exists|id: Seq<char>| #[trigger]
                deck.last_queue->0.songs.contains(id) && !deck.dead.contains(id)
                    && !queue::named_dead(detail).contains(id);
            &&& deck.refused(detail) == Retry::NotOurs <==> deck.last_queue is None || !news
            &&& deck.refused(detail) == Retry::NothingLeft <==> deck.last_queue is Some && news
                && !left
            &&& deck.refused(detail) == Retry::Resent <==> deck.last_queue is Some && news && left
        }),
{
    reveal(DeckView::refused);
    let named = queue::named_dead(detail);
    let dead = deck.burying(detail);
    let songs = deck.last_queue->0.songs;
    let news = exists|id: Seq<char>| #[trigger] named.contains(id) && !deck.dead.contains(id);
    if news {
        let id = choose|id: Seq<char>| #[trigger] named.contains(id) && !deck.dead.contains(id);
        assert(dead.contains(id));
        assert(named.len() > 0);
    } else {
        assert(dead =~= deck.dead);
    }
    let rest = deck::survivors(songs, dead);
    if rest.len() > 0 {
        let id = rest[0];
        assert(rest.contains(id));
        survivors_are_what_lives(songs, dead, id);
        assert(songs.contains(id) && !deck.dead.contains(id) && !named.contains(id));
    }
    if exists|id: Seq<char>| #[trigger]
        songs.contains(id) && !deck.dead.contains(id) && !named.contains(id) {
        let id = choose|id: Seq<char>| #[trigger]
            songs.contains(id) && !deck.dead.contains(id) && !named.contains(id);
        survivors_are_what_lives(songs, dead, id);
        assert(rest.contains(id));
    }
}

/// What a refusal names is dead from then on, and nothing else becomes so. A
/// refusal of no queue of ours, or one that names nothing, changes nothing.
pub proof fn a_refusal_buries_what_it_names(deck: DeckView, detail: Seq<char>, slide: bool)
    ensures
        deck.last_queue is None || queue::named_dead(detail).len() == 0 ==> deck.retrying(
            detail,
            slide,
        ) == deck,
        deck.last_queue is Some ==> forall|id: Seq<char>| #[trigger]
            deck.retrying(detail, slide).dead.contains(id) <==> deck.dead.contains(id)
                || queue::named_dead(detail).contains(id),
        ({
            let after = deck.retrying(detail, slide);
            &&& after.player == deck.player
            &&& after.healed == deck.healed
            &&& after.resume_at == deck.resume_at
            &&& after.attached == deck.attached
        }),
{
    reveal(DeckView::retrying);
    assert forall|id: Seq<char>| deck.last_queue is Some implies (#[trigger] deck.retrying(
        detail,
        slide,
    ).dead.contains(id) <==> deck.dead.contains(id) || queue::named_dead(detail).contains(id)) by {
        assert(queue::named_dead(detail).to_set().contains(id) == queue::named_dead(
            detail,
        ).contains(id));
    }
}

/// A refusal that is answered by sending again sends one queue, playing from the
/// beginning of a track: the songs of the refused one that are not dead, in the
/// order they had. One that is not says nothing, and gives the refused queue up.
pub proof fn a_retry_sends_what_is_left_in_order(deck: DeckView, detail: Seq<char>, slide: bool)
    requires
        deck.last_queue is Some,
        queue::named_dead(detail).len() > 0,
    ensures
        ({
            let after = deck.retrying(detail, slide);
            let songs = alive(deck.last_queue->0.songs, after.dead);
            if deck.refused(detail) == Retry::Resent {
                &&& after.last_queue is Some
                &&& after.last_queue->0.songs == songs
                &&& after.last_queue->0.wanted == after.pending_start
                &&& deck.attached ==> after.outbox.len() == deck.outbox.len() + 1
                    && after.outbox.drop_last() == deck.outbox && (after.outbox.last() matches CommandView::SetQueue {
                    songs: sent,
                    start_position,
                    start_playing,
                    start_time_ms,
                } && sent == songs && 0 <= start_position < songs.len() && start_playing
                    && start_time_ms == 0)
                &&& !deck.attached ==> after.outbox == deck.outbox
            } else {
                &&& after.last_queue is None
                &&& after.outbox == deck.outbox
                &&& after.pending_start == deck.pending_start
            }
        }),
{
    reveal(DeckView::retrying);
    reveal(DeckView::refused);
    let after = deck.retrying(detail, slide);
    survivors_keep_their_order(deck.last_queue->0.songs, deck.burying(detail));
    if deck.refused(detail) == Retry::Resent {
        let songs = deck::survivors(deck.last_queue->0.songs, deck.burying(detail));
        queue_laws::a_start_is_the_first_of_its_id(songs, after.pending_start);
        if deck.attached {
            assert(after.outbox.drop_last() =~= deck.outbox);
        }
    }
}

/// A retry still opens on the chosen track: where the track the refused queue was
/// aimed at lives, the queue sent again is aimed at it too, it is the start to be
/// confirmed, and the start position is where it stands among the songs sent.
/// Whether the retry slides makes no difference.
pub proof fn a_retry_still_opens_on_the_chosen_track(
    deck: DeckView,
    detail: Seq<char>,
    slide: bool,
    chosen: Seq<char>,
)
    requires
        deck.refused(detail) == Retry::Resent,
        deck.last_queue->0.wanted == Some(chosen),
        deck.last_queue->0.songs.contains(chosen),
        !deck.retrying(detail, slide).dead.contains(chosen),
    ensures
        ({
            let after = deck.retrying(detail, slide);
            &&& after.pending_start == Some(chosen)
            &&& after.last_queue->0.wanted == Some(chosen)
            &&& deck.attached ==> (after.outbox.last() matches CommandView::SetQueue {
                songs,
                start_position,
                ..
            } && 0 <= start_position < songs.len() && songs[start_position] == chosen && forall|
                k: int,
            |
                0 <= k < start_position ==> songs[k] != chosen)
        }),
{
    reveal(DeckView::retrying);
    reveal(DeckView::refused);
    let after = deck.retrying(detail, slide);
    let sent = deck.last_queue->0;
    survivors_are_what_lives(sent.songs, after.dead, chosen);
    queue_laws::a_start_is_the_first_of_its_id(sent.songs, sent.wanted);
    let from = queue::start_place(sent.songs, sent.wanted);
    assert(deck::full(sent.songs)[from] == Some(chosen));
    queue_laws::a_start_is_the_first_of_its_id(
        deck::survivors(sent.songs, after.dead),
        Some(chosen),
    );
}

/// Where the track the refused queue was aimed at is dead, a retry that slides is
/// aimed at the first after it that lives, and a retry of which nothing lives
/// after it, or that does not slide, plays from the top.
pub proof fn a_retry_slides_to_the_next_that_lives(
    deck: DeckView,
    detail: Seq<char>,
    chosen: int,
    next: int,
)
    requires
        deck.refused(detail) == Retry::Resent,
        ({
            let sent = deck.last_queue->0;
            let dead = deck.retrying(detail, true).dead;
            &&& 0 <= chosen < next <= sent.songs.len()
            &&& sent.wanted == Some(sent.songs[chosen])
            &&& forall|k: int| 0 <= k < chosen ==> sent.songs[k] != sent.songs[chosen]
            &&& forall|k: int| chosen <= k < next ==> dead.contains(#[trigger] sent.songs[k])
            &&& next < sent.songs.len() ==> !dead.contains(sent.songs[next])
        }),
        deck.attached,
    ensures
        ({
            let after = deck.retrying(detail, true);
            let songs = deck.last_queue->0.songs;
            if next < songs.len() {
                &&& after.pending_start == Some(songs[next])
                &&& after.outbox.last() matches CommandView::SetQueue {
                    songs: sent,
                    start_position,
                    ..
                } && 0 <= start_position < sent.len() && sent[start_position] == songs[next]
            } else {
                &&& after.pending_start is None
                &&& after.outbox.last() matches CommandView::SetQueue { start_position, .. }
                    && start_position == 0
            }
        }),
        deck.retrying(detail, false).outbox.last() matches CommandView::SetQueue {
            start_position,
            ..
        } && start_position == 0,
{
    reveal(DeckView::retrying);
    reveal(DeckView::refused);
    let after = deck.retrying(detail, true);
    let sent = deck.last_queue->0;
    let slots = deck::full(sent.songs);
    assert(sent.songs.contains(sent.songs[chosen]));
    queue_laws::a_start_is_the_first_of_its_id(sent.songs, sent.wanted);
    let from = queue::start_place(sent.songs, sent.wanted);
    assert(from == chosen) by {
        if from < chosen {
            assert(sent.songs[from] != sent.songs[chosen]);
        }
    }
    let at = queue_laws::a_click_starts_on_the_next_streamable_row(slots, from, after.dead);
    match queue::first_live(slots, from, after.dead) {
        Some(id) => {
            assert(slots[at] == Some(sent.songs[at]));
            if at < next {
                assert(after.dead.contains(sent.songs[at]));
            }
            if next < at {
                assert(!queue::streamable(slots[next], after.dead));
                assert(slots[next] == Some(sent.songs[next]));
            }
        },
        None => {
            if next < sent.songs.len() {
                assert(!queue::streamable(slots[next], after.dead));
            }
        },
    }
    let left = deck::survivors(sent.songs, after.dead);
    if next < sent.songs.len() {
        assert(sent.songs.contains(sent.songs[next]));
        survivors_are_what_lives(sent.songs, after.dead, sent.songs[next]);
        queue_laws::a_start_is_the_first_of_its_id(left, Some(sent.songs[next]));
    }
    survivors_are_what_lives(sent.songs, after.dead, sent.songs[chosen]);
    queue_laws::a_start_is_the_first_of_its_id(left, sent.wanted);
}

/// Whether the queue that was sent is the one the player holds, with an item of it
/// on and no longer loading.
pub open spec fn has_come_to_rest(player: PlayerView, last_queue: Option<SentView>) -> bool {
    &&& player.queue.len() > 0
    &&& last_queue is Some ==> queue_laws::asked_for(player.queue).to_multiset()
        == last_queue->0.songs.to_multiset()
    &&& player.now_playing is Some
    &&& !player.busy
}

/// A start is confirmed once the queue that was sent has arrived and come to rest,
/// and not before. Where the wanted track then stands anywhere but at the player's
/// position, ahead of it or behind, the player is moved to it, once: to the first
/// place that is asked for by its id.
pub proof fn a_wrong_start_is_corrected_on_either_side(deck: DeckView, wanted: Seq<char>, at: int)
    requires
        deck.pending_start == Some(wanted),
        has_come_to_rest(deck.player, deck.last_queue),
        deck.attached,
        0 <= at < deck.player.queue.len(),
        deck.player.queue[at].key() == Some(wanted),
        forall|k: int| 0 <= k < at ==> (#[trigger] deck.player.queue[k]).key() != Some(wanted),
        at != deck.player.queue_position,
    ensures
        deck.verified() == (DeckView {
            pending_start: None,
            outbox: deck.outbox.push(CommandView::ChangeToIndex { index: at }),
            ..deck
        }),
{
    reveal(DeckView::verified);
    queue_laws::the_ids_of_a_queue_are_its_items_own(deck.player.queue);
    first_keyed_is_first(deck.player.queue, wanted, 0);
}

/// A start that is right, or whose track the player does not hold, is left alone
/// and no longer waited for.
pub proof fn a_right_start_is_left_alone(deck: DeckView, wanted: Seq<char>)
    requires
        deck.pending_start == Some(wanted),
        has_come_to_rest(deck.player, deck.last_queue),
        ({
            let at = deck.player.queue_position;
            ||| forall|k: int|
                0 <= k < deck.player.queue.len() ==> (#[trigger] deck.player.queue[k]).key()
                    != Some(wanted)
            ||| 0 <= at < deck.player.queue.len() && deck.player.queue[at].key() == Some(wanted)
                && forall|k: int|
                0 <= k < at ==> (#[trigger] deck.player.queue[k]).key() != Some(wanted)
        }),
    ensures
        deck.verified() == (DeckView { pending_start: None, ..deck }),
{
    reveal(DeckView::verified);
    queue_laws::the_ids_of_a_queue_are_its_items_own(deck.player.queue);
    first_keyed_is_first(deck.player.queue, wanted, 0);
}

/// Nothing is confirmed where nothing is waited for, or before the queue that was
/// sent has arrived and come to rest.
pub proof fn nothing_is_confirmed_too_early(deck: DeckView)
    requires
        deck.pending_start is None || !has_come_to_rest(deck.player, deck.last_queue),
    ensures
        deck.verified() == deck,
{
    reveal(DeckView::verified);
    queue_laws::the_ids_of_a_queue_are_its_items_own(deck.player.queue);
}

proof fn first_keyed_is_first(queue: Seq<Item>, id: Seq<char>, from: int)
    requires
        0 <= from,
    ensures
        match deck::first_keyed(queue, id, from) {
            Some(i) => from <= i < queue.len() && queue[i].key() == Some(id) && (forall|k: int|
                from <= k < i ==> (#[trigger] queue[k]).key() != Some(id)),
            None => forall|k: int|
                from <= k < queue.len() ==> (#[trigger] queue[k]).key() != Some(id),
        },
    decreases queue.len() - from,
{
    if from < queue.len() && queue[from].key() != Some(id) {
        first_keyed_is_first(queue, id, from + 1);
    }
}

/// A new queue opens on the row that was asked for, or on the first after it that
/// can be streamed. That track is the one the queue is aimed at, the position sent
/// is where it stands, and unless the queue is shuffled it is the start to be
/// confirmed. Below the last row that can be streamed, the queue opens at the top.
pub proof fn a_new_queue_opens_on_the_row_asked_for(
    deck: DeckView,
    slots: Seq<Option<Seq<char>>>,
    row: int,
    at: int,
    start: Start,
)
    requires
        deck.attached,
        0 <= row <= at <= slots.len(),
        forall|k: int|
            row <= k < at ==> (#[trigger] slots[k]) is None || deck.dead.contains(slots[k]->0),
        at < slots.len() ==> slots[at] is Some && !deck.dead.contains(slots[at]->0),
    ensures
        ({
            let after = deck.starting(slots, row, start);
            let wanted = if at < slots.len() {
                slots[at]
            } else {
                None
            };
            &&& after.last_queue is Some
            &&& after.last_queue->0.wanted == wanted
            &&& after.pending_start == if start == Start::Shuffled {
                None
            } else {
                wanted
            }
            &&& after.outbox.len() == deck.outbox.len() + 2
            &&& after.outbox.last() matches CommandView::SetQueue {
                songs,
                start_position,
                start_playing,
                start_time_ms,
            } && songs == after.last_queue->0.songs && start_playing && start_time_ms == 0 && (
            wanted is Some ==> 0 <= start_position < songs.len() && songs[start_position]
                == wanted->0) && (wanted is None ==> start_position == 0)
            &&& after == (DeckView {
                last_queue: after.last_queue,
                pending_start: after.pending_start,
                outbox: after.outbox,
                ..deck
            })
        }),
{
    reveal(DeckView::starting);
    let next = queue_laws::a_click_starts_on_the_next_streamable_row(slots, row, deck.dead);
    match queue::first_live(slots, row, deck.dead) {
        Some(id) => {
            if next < at {
                assert(slots[next] is None || deck.dead.contains(slots[next]->0));
            }
            if at < next {
                assert(!queue::streamable(slots[at], deck.dead));
            }
            queue_laws::a_start_stands_where_it_is_said_to(slots, row, deck.dead);
        },
        None => {
            if at < slots.len() {
                assert(!queue::streamable(slots[at], deck.dead));
            }
        },
    }
}

/// What a queue is made of is every row that can be streamed, each track once.
pub proof fn a_new_queue_holds_what_can_be_streamed(
    deck: DeckView,
    slots: Seq<Option<Seq<char>>>,
    row: int,
    start: Start,
    id: Seq<char>,
)
    ensures
        ({
            let songs = deck.starting(slots, row, start).last_queue->0.songs;
            &&& songs.no_duplicates()
            &&& songs.contains(id) <==> slots.contains(Some(id)) && !deck.dead.contains(id)
        }),
{
    reveal(DeckView::starting);
    queue_laws::the_whole_list_is_enqueued(slots, deck.dead);
}

/// A row of a list the player already holds is moved to within the queue, and a row
/// of any other list makes a new queue. The list is already held exactly when each
/// of its tracks, and nothing else, stands in the player's queue once.
pub proof fn a_list_the_player_holds_is_not_sent_again(
    deck: DeckView,
    slots: Seq<Option<Seq<char>>>,
    row: int,
    start: Start,
)
    ensures
        ({
            let songs = queue::queued(slots, deck.dead);
            let held = deck.player.queue.len() == songs.len() && queue_laws::asked_for(
                deck.player.queue,
            ).to_multiset() == songs.to_multiset();
            let wanted = queue::first_live(slots, row, deck.dead);
            let after = deck.playing_list(slots, row, start);
            &&& songs.len() == 0 ==> after == deck
            &&& songs.len() > 0 && (!held || wanted is None) ==> after == deck.starting(
                slots,
                row,
                start,
            )
            &&& songs.len() > 0 && held && wanted is Some && deck.attached && 0 <= row ==> {
                &&& after.outbox.len() > deck.outbox.len()
                &&& after.outbox.last() matches CommandView::ChangeToIndex { index } && 0 <= index
                    < deck.player.queue.len() && deck.player.queue[index].answers_to(wanted->0)
                &&& after.last_queue == deck.last_queue
                &&& after.pending_start is None
                &&& start == Start::Clicked ==> after.outbox.len() == deck.outbox.len() + 1
                &&& start != Start::Clicked ==> after.outbox.len() == deck.outbox.len() + 2
                    && after.outbox[deck.outbox.len() as int] == (CommandView::SetShuffle {
                    shuffle: start == Start::Shuffled,
                })
            }
        }),
{
    reveal(DeckView::playing_list);
    reveal(DeckView::already_at);
    let songs = queue::queued(slots, deck.dead);
    let wanted = queue::first_live(slots, row, deck.dead);
    queue_laws::the_ids_of_a_queue_are_its_items_own(deck.player.queue);
    if songs.len() > 0 && wanted is Some && 0 <= row && deck.player.queue.len() == songs.len()
        && queue_laws::asked_for(deck.player.queue).to_multiset() == songs.to_multiset() {
        queue_laws::a_start_stands_where_it_is_said_to(slots, row, deck.dead);
        let id = wanted->0;
        assert(songs.contains(id));
        held_ids_are_in_the_queue(deck.player.queue, songs, id);
        queue_laws::a_click_finds_its_own_copy(deck.player.queue, -1, id);
    }
}

proof fn held_ids_are_in_the_queue(queue: Seq<Item>, songs: Seq<Seq<char>>, id: Seq<char>)
    requires
        queue::item_ids(queue).to_multiset() == songs.to_multiset(),
        songs.contains(id),
    ensures
        exists|k: int| 0 <= k < queue.len() && (#[trigger] queue[k]).answers_to(id),
{
    broadcast use vstd::seq_lib::group_to_multiset_ensures;

    assert(songs.to_multiset().count(id) > 0);
    assert(queue::item_ids(queue).contains(id));
    an_id_is_some_item_s(queue, id);
}

proof fn an_id_is_some_item_s(queue: Seq<Item>, id: Seq<char>)
    requires
        queue::item_ids(queue).contains(id),
    ensures
        exists|k: int| 0 <= k < queue.len() && (#[trigger] queue[k]).answers_to(id),
    decreases queue.len(),
{
    let shorter = queue.drop_last();
    let before = queue::item_ids(shorter);
    if queue.last().key() == Some(id) {
        assert(queue[queue.len() - 1].answers_to(id));
    } else {
        let k = choose|k: int|
            0 <= k < queue::item_ids(queue).len() && queue::item_ids(queue)[k] == id;
        assert(before[k] == id);
        an_id_is_some_item_s(shorter, id);
        let j = choose|j: int| 0 <= j < shorter.len() && (#[trigger] shorter[j]).answers_to(id);
        assert(queue[j].answers_to(id));
    }
}

/// A session is the queue's ids in order, the place in it, and the position in the
/// track. A place that no id stands at is taken for the last, and a queue without
/// ids is not remembered.
pub proof fn a_session_is_the_queue_and_the_place_in_it(deck: DeckView)
    ensures
        ({
            let songs = queue_laws::asked_for(deck.player.queue);
            let at = deck.player.queue_position;
            &&& songs.len() == 0 <==> deck.session() is None
            &&& deck.session() matches Some(session) ==> session.songs == songs
                && session.position_ms == deck.player.position_ms && (at < songs.len()
                ==> session.start == at) && (at >= songs.len() ==> session.start == songs.len() - 1)
        }),
{
    reveal(DeckView::session);
    queue_laws::the_ids_of_a_queue_are_its_items_own(deck.player.queue);
}

/// A remembered queue is put back as it was: in order, at its place, at its
/// position, not playing, and with its track as the start to be confirmed. A place
/// beyond its end is taken for the last.
pub proof fn a_session_is_put_back_as_it_was(deck: DeckView, session: SessionView)
    requires
        deck.attached,
        0 <= session.start,
        session.songs.len() > 0,
    ensures
        ({
            let after = deck.restoring(session);
            let at = if session.start < session.songs.len() {
                session.start
            } else {
                session.songs.len() - 1
            };
            &&& after.outbox == deck.outbox.push(CommandView::SetShuffle { shuffle: false }).push(
                CommandView::SetQueue {
                    songs: session.songs,
                    start_position: at,
                    start_playing: false,
                    start_time_ms: session.position_ms,
                },
            )
            &&& after.pending_start == Some(session.songs[at])
            &&& after.last_queue == Some(
                SentView { songs: session.songs, wanted: Some(session.songs[at]) },
            )
            &&& after == (DeckView {
                last_queue: after.last_queue,
                pending_start: after.pending_start,
                outbox: after.outbox,
                ..deck
            })
        }),
{
    reveal(DeckView::restoring);
}

/// A play that ends in silence has its track loaded afresh, and put back where it
/// was. One that plays, one that is still loading, and any other command leave the
/// player alone.
pub proof fn a_silent_play_is_loaded_afresh(deck: DeckView, cmd: Seq<char>)
    ensures
        ({
            let plays = cmd == "play"@ || cmd == "playPause"@;
            let at = deck.player.queue_position;
            let after = deck.judged(cmd);
            &&& !plays || deck.player.busy ==> after == deck
            &&& plays && !deck.player.busy && deck.player.playing ==> after == (DeckView {
                healed: false,
                ..deck
            })
            &&& plays && !deck.player.busy && !deck.player.playing && deck.healed ==> after == deck
            &&& plays && !deck.player.busy && !deck.player.playing && !deck.healed && deck.attached
                && at < deck.player.queue.len() ==> after == (DeckView {
                healed: true,
                outbox: deck.outbox.push(CommandView::ChangeToIndex { index: at }),
                resume_at: if deck.player.interpolated_ms > 0 {
                    Some(deck.player.interpolated_ms)
                } else {
                    None
                },
                ..deck
            })
            &&& plays && !deck.player.busy && !deck.player.playing && !deck.healed && at
                >= deck.player.queue.len() ==> after == (DeckView { healed: true, ..deck })
        }),
{
    reveal(DeckView::judged);
    reveal(DeckView::reseated);
}

/// A track that was loaded afresh is put back where it was, once.
pub proof fn a_reloaded_track_goes_back_to_its_position(deck: DeckView)
    ensures
        deck.resume_at is None ==> deck.resumed() == deck,
        deck.resume_at is Some && deck.attached ==> deck.resumed() == (DeckView {
            resume_at: None,
            outbox: deck.outbox.push(CommandView::Seek { position_ms: deck.resume_at->0 }),
            ..deck
        }),
{
    reveal(DeckView::resumed);
}

/// A track that is queued goes next or last in the queue there is, and starts one
/// where there is none.
pub proof fn a_track_joins_the_queue_or_starts_one(deck: DeckView, id: Seq<char>, next: bool)
    requires
        deck.attached,
    ensures
        deck.player.queue.len() > 0 ==> deck.enqueued(id, next) == (DeckView {
            outbox: deck.outbox.push(
                if next {
                    CommandView::PlayNext { songs: seq![id] }
                } else {
                    CommandView::PlayLater { songs: seq![id] }
                },
            ),
            ..deck
        }),
        deck.player.queue.len() == 0 ==> deck.enqueued(id, next) == (DeckView {
            outbox: deck.outbox.push(
                CommandView::SetQueue {
                    songs: seq![id],
                    start_position: 0,
                    start_playing: true,
                    start_time_ms: 0,
                },
            ),
            pending_start: Some(id),
            last_queue: Some(SentView { songs: seq![id], wanted: Some(id) }),
            ..deck
        }),
{
    reveal(DeckView::enqueued);
}

/// Clicking a row of the queue goes there and plays: one that stands still is set
/// going, and one that plays is not stopped.
pub proof fn clicking_a_row_plays_it(deck: DeckView, index: int)
    requires
        deck.attached,
    ensures
        deck.player.playing ==> deck.jumped(index) == (DeckView {
            outbox: deck.outbox.push(CommandView::ChangeToIndex { index }),
            ..deck
        }),
        !deck.player.playing ==> deck.jumped(index) == (DeckView {
            outbox: deck.outbox.push(CommandView::ChangeToIndex { index }).push(CommandView::Play),
            ..deck
        }),
{
    reveal(DeckView::jumped);
}

/// What is said without a player is dropped, and what is said with one goes behind
/// what already waits.
pub proof fn what_is_said_goes_last_or_nowhere(deck: DeckView, command: CommandView)
    ensures
        !deck.attached ==> deck.sending(command) == deck,
        deck.attached ==> deck.sending(command) == (DeckView {
            outbox: deck.outbox.push(command),
            ..deck
        }),
{
}

/// A queue that was given up is neither sent again nor confirmed.
pub proof fn a_queue_given_up_is_not_retried(deck: DeckView, detail: Seq<char>, slide: bool)
    ensures
        deck.forgotten().retrying(detail, slide) == deck.forgotten(),
        deck.forgotten().verified() == deck.forgotten(),
        deck.forgotten().player == deck.player,
        deck.forgotten().dead == deck.dead,
        deck.forgotten().outbox == deck.outbox,
{
    reveal(DeckView::retrying);
    reveal(DeckView::verified);
}

/// What waits to be said replaces the queue where it sends one or clears it, and not
/// otherwise.
pub proof fn a_queue_is_replaced_or_cleared(deck: DeckView)
    ensures
        deck.replaces_queue() <==> exists|i: int|
            0 <= i < deck.outbox.len() && (match #[trigger] deck.outbox[i] {
                CommandView::SetQueue { .. } => true,
                CommandView::ClearQueue => true,
                _ => false,
            }),
{
    if exists|i: int|
        0 <= i < deck.outbox.len() && (match #[trigger] deck.outbox[i] {
            CommandView::SetQueue { .. } => true,
            CommandView::ClearQueue => true,
            _ => false,
        }) {
        let i = choose|i: int|
            0 <= i < deck.outbox.len() && (match #[trigger] deck.outbox[i] {
                CommandView::SetQueue { .. } => true,
                CommandView::ClearQueue => true,
                _ => false,
            });
        assert(deck.outbox[i] is SetQueue || deck.outbox[i] is ClearQueue);
    }
    if deck.replaces_queue() {
        let i = choose|i: int|
            0 <= i < deck.outbox.len() && (deck.outbox[i] is SetQueue
                || #[trigger] deck.outbox[i] is ClearQueue);
        assert(match deck.outbox[i] {
            CommandView::SetQueue { .. } => true,
            CommandView::ClearQueue => true,
            _ => false,
        });
    }
}

/// A session that goes back ahead of what waits is the session alone, then all that waited.
/// Where what waits replaces the queue, it is only that.
pub proof fn a_session_goes_back_ahead_of_what_waits(deck: DeckView, session: SessionView)
    ensures
        deck.replaces_queue() ==> deck.restoring_ahead(session) == deck,
        !deck.replaces_queue() ==> deck.restoring_ahead(session).outbox == (DeckView {
            outbox: Seq::empty(),
            ..deck
        }).restoring(session).outbox + deck.outbox,
        !deck.replaces_queue() ==> deck.restoring_ahead(session).pending_start == deck.restoring(
            session,
        ).pending_start,
{
    reveal(DeckView::restoring_ahead);
    reveal(DeckView::restoring);
}

} // verus!
