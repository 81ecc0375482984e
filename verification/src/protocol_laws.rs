//! What holds of the mirror of the player, whatever is moved in it.

use vstd::prelude::*;

use crate::protocol::{Item, PlayerView};

verus! {

/// A move takes one item to where it was asked to go and leaves the others in
/// the order they had. Nothing else about the player changes.
pub proof fn a_move_takes_one_item_along(player: PlayerView, from: int, to: int)
    requires
        0 <= from < player.queue.len(),
        0 <= to < player.queue.len(),
    ensures
        ({
            let after = player.after_move(from, to);
            &&& after.queue.len() == player.queue.len()
            &&& after.queue[to] == player.queue[from]
            &&& after.queue.remove(to) == player.queue.remove(from)
            &&& after == (PlayerView {
                queue: after.queue,
                queue_position: after.queue_position,
                ..player
            })
        }),
{
    reveal(PlayerView::after_move);
    let after = player.after_move(from, to);
    assert(after.queue.remove(to) =~= player.queue.remove(from));
}

/// The item that plays goes on playing: whatever is moved, and wherever to, the
/// position names the same item as before. Where the queue holds that item
/// twice it is the same copy: the moved one if that is what plays, and else the
/// one with as many of the others ahead of it.
pub proof fn a_move_keeps_the_playing_item(player: PlayerView, from: int, to: int)
    requires
        0 <= from < player.queue.len(),
        0 <= to < player.queue.len(),
        0 <= player.queue_position < player.queue.len(),
    ensures
        ({
            let after = player.after_move(from, to);
            let was = player.queue_position;
            let is = after.queue_position;
            &&& 0 <= is < after.queue.len()
            &&& after.queue[is] == player.queue[was]
            &&& was == from <==> is == to
            &&& was != from ==> others_ahead(is, to) == others_ahead(was, from)
        }),
{
    reveal(PlayerView::after_move);
}

/// How many items other than the one at `apart` stand ahead of `at`.
pub open spec fn others_ahead(at: int, apart: int) -> int {
    if apart < at {
        at - 1
    } else {
        at
    }
}

/// A move off either end changes nothing.
pub proof fn a_move_off_the_queue_changes_nothing(player: PlayerView, from: int, to: int)
    requires
        from < 0 || from >= player.queue.len() || to < 0 || to >= player.queue.len(),
    ensures
        player.after_move(from, to) == player,
{
    reveal(PlayerView::after_move);
}

/// An item that has a catalog id is asked for by it, and one that has none by its
/// own. An item answers to either, and to nothing else.
pub proof fn an_item_goes_by_its_catalog_id_first(item: Item, id: Seq<char>)
    ensures
        item.catalog_id is Some ==> item.key() == Some(item.catalog_id->0@),
        item.catalog_id is None && item.id is Some ==> item.key() == Some(item.id->0@),
        item.catalog_id is None && item.id is None ==> item.key() is None,
        item.answers_to(id) <==> (item.catalog_id is Some && item.catalog_id->0@ == id) || (
        item.id is Some && item.id->0@ == id),
        item.key() == Some(id) ==> item.answers_to(id),
{
}

/// A player that stands still is where it said it was, however long ago. One that
/// plays is as much further as time has passed, but not past the end of a track
/// whose length is known, and never behind where it said.
pub proof fn only_playing_moves_the_position(player: PlayerView, elapsed_ms: u64)
    ensures
        !player.playing ==> player.position_after(elapsed_ms) == player.position_ms,
        player.position_after(elapsed_ms) >= player.position_ms,
        player.position_after(elapsed_ms) <= player.position_ms + elapsed_ms,
        player.position_after(elapsed_ms) <= u64::MAX,
        player.playing && player.duration_ms == 0 && player.position_ms + elapsed_ms <= u64::MAX
            ==> player.position_after(elapsed_ms) == player.position_ms + elapsed_ms,
        player.playing && player.position_ms + elapsed_ms <= player.duration_ms
            ==> player.position_after(elapsed_ms) == player.position_ms + elapsed_ms,
        player.playing && player.position_ms <= player.duration_ms < player.position_ms + elapsed_ms
            && player.duration_ms > 0 ==> player.position_after(elapsed_ms) == player.duration_ms,
{
}

/// What the player is on is what its current item is asked for by.
pub proof fn what_plays_is_the_current_item(player: PlayerView)
    ensures
        player.now_playing is None ==> player.playing_key() is None,
        player.now_playing is Some ==> player.playing_key() == player.now_playing->0.key(),
{
}

} // verus!
