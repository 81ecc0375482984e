//! What holds of what the bus is told, and of what it may ask.

use vstd::prelude::*;

use crate::mpris;
use crate::mpris::{LoopStatus, MprisView, PlaybackStatus, PropertyView};
use crate::mpris_player;
use crate::protocol::RepeatMode;

verus! {

/// Whether a character is a letter or a digit that a path on the bus may hold.
pub open spec fn is_plain(c: char) -> bool {
    '0' <= c <= '9' || 'A' <= c <= 'Z' || 'a' <= c <= 'z'
}

/// A track goes by its own id under one root: each letter and digit of it as it is,
/// and every other character as a low line. No track and an empty id have no path.
pub proof fn a_track_goes_by_its_own_id(id: Seq<char>)
    ensures
        mpris::track_path(None) is None,
        id.len() == 0 ==> mpris::track_path(Some(id)) is None,
        id.len() > 0 ==> {
            let root = "/dev/miguelrincon/Slipmat/track/"@;
            &&& mpris::track_path(Some(id)) is Some
            &&& {
                let path = mpris::track_path(Some(id))->0;
                &&& path.len() == root.len() + id.len()
                &&& path.take(root.len() as int) == root
                &&& forall|i: int|
                    0 <= i < id.len() ==> path[root.len() + i] == if is_plain(#[trigger] id[i]) {
                        id[i]
                    } else {
                        '_'
                    }
            }
        },
{
    if id.len() > 0 {
        let root = "/dev/miguelrincon/Slipmat/track/"@;
        assert(mpris::track_path(Some(id))->0.take(root.len() as int) =~= root);
    }
}

/// Two tracks whose ids are plain go by different paths, so that a controller cannot
/// take one for the other.
pub proof fn plain_ids_do_not_share_a_path(a: Seq<char>, b: Seq<char>)
    requires
        a != b,
        a.len() > 0,
        b.len() > 0,
        forall|i: int| 0 <= i < a.len() ==> is_plain(#[trigger] a[i]),
        forall|i: int| 0 <= i < b.len() ==> is_plain(#[trigger] b[i]),
    ensures
        mpris::track_path(Some(a)) != mpris::track_path(Some(b)),
{
    a_track_goes_by_its_own_id(a);
    a_track_goes_by_its_own_id(b);
    if mpris::track_path(Some(a)) == mpris::track_path(Some(b)) {
        let n = "/dev/miguelrincon/Slipmat/track/"@.len();
        let path = mpris::track_path(Some(a))->0;
        assert forall|i: int| 0 <= i < a.len() implies a[i] == b[i] by {
            assert(path[n + i] == a[i]);
            assert(path[n + i] == b[i]);
        }
        assert(a =~= b);
    }
}

/// A player that has stopped is stopped, whatever else is said of it. Any other
/// plays or is paused.
pub proof fn the_status_is_one_of_three(state: MprisView)
    ensures
        state.playback() == PlaybackStatus::Stopped <==> state.stopped,
        state.playback() == PlaybackStatus::Playing <==> !state.stopped && state.playing,
        state.playback() == PlaybackStatus::Paused <==> !state.stopped && !state.playing,
{
}

/// Repeating one track is the bus's loop over a track, and repeating all is its loop
/// over the playlist, both ways.
pub proof fn repeating_one_is_looping_a_track(state: MprisView)
    ensures
        state.loops() == LoopStatus::Off <==> state.repeat == RepeatMode::Off,
        state.loops() == LoopStatus::Track <==> state.repeat == RepeatMode::One,
        state.loops() == LoopStatus::Playlist <==> state.repeat == RepeatMode::All,
        mpris_player::repeat_for(LoopStatus::Off) == RepeatMode::Off,
        mpris_player::repeat_for(LoopStatus::Track) == RepeatMode::One,
        mpris_player::repeat_for(LoopStatus::Playlist) == RepeatMode::All,
{
}

/// The metadata of a track is what is known of it: what is empty or none is left out,
/// and a cover is told by where its file lies.
pub proof fn the_metadata_leaves_out_what_is_not_known(state: MprisView)
    requires
        state.track_number <= i32::MAX,
        state.length_ms <= i64::MAX,
    ensures
        ({
            let meta = state.meta();
            &&& meta.track_id == mpris::track_path(state.track_id)
            &&& meta.title == state.title
            &&& meta.artist is Some <==> state.artist.len() > 0
            &&& meta.artist is Some ==> meta.artist->0 == state.artist
            &&& meta.album is Some <==> state.album.len() > 0
            &&& meta.album is Some ==> meta.album->0 == state.album
            &&& meta.track_number is Some <==> state.track_number > 0
            &&& meta.track_number is Some ==> meta.track_number->0 == state.track_number
            &&& meta.length_ms is Some <==> state.length_ms > 0
            &&& meta.length_ms is Some ==> meta.length_ms->0 == state.length_ms
            &&& meta.art_url is Some <==> state.art_path is Some
            &&& meta.art_url is Some ==> meta.art_url->0 == "file://"@ + state.art_path->0
        }),
{
}

/// The bus is told of a change exactly what changed, and its new value: the metadata
/// where anything of it did, and each other property where it did itself.
pub proof fn only_what_changed_is_told(
    before: MprisView,
    state: MprisView,
    volume_moved: bool,
    property: PropertyView,
)
    ensures
        mpris::changes(Some(before), state, volume_moved).contains(property) <==> match property {
            PropertyView::Metadata(meta) => meta == state.meta() && !(state.track_id
                == before.track_id && state.title == before.title && state.artist == before.artist
                && state.album == before.album && state.track_number == before.track_number
                && state.art_path == before.art_path && state.length_ms == before.length_ms),
            PropertyView::PlaybackStatus(status) => status == state.playback() && status
                != before.playback(),
            PropertyView::CanGoNext(can) => can == state.can_next && can != before.can_next,
            PropertyView::CanGoPrevious(can) => can == state.can_previous && can
                != before.can_previous,
            PropertyView::Volume(volume) => volume == state.volume && volume_moved,
            PropertyView::Shuffle(on) => on == state.shuffle && on != before.shuffle,
            PropertyView::LoopStatus(status) => status == state.loops() && status
                != before.loops(),
        },
{
    let none = Seq::<PropertyView>::empty();
    let p1 = PropertyView::Metadata(state.meta());
    let p2 = PropertyView::PlaybackStatus(state.playback());
    let p3 = PropertyView::CanGoNext(state.can_next);
    let p4 = PropertyView::CanGoPrevious(state.can_previous);
    let p5 = PropertyView::Volume(state.volume);
    let p6 = PropertyView::Shuffle(state.shuffle);
    let p7 = PropertyView::LoopStatus(state.loops());
    let a = mpris::telling(none, !state.same_metadata(before), p1);
    let b = mpris::telling(a, state.playback() != before.playback(), p2);
    let c = mpris::telling(b, state.can_next != before.can_next, p3);
    let d = mpris::telling(c, state.can_previous != before.can_previous, p4);
    let e = mpris::telling(d, volume_moved, p5);
    let f = mpris::telling(e, state.shuffle != before.shuffle, p6);
    telling_adds_one(none, !state.same_metadata(before), p1, property);
    telling_adds_one(a, state.playback() != before.playback(), p2, property);
    telling_adds_one(b, state.can_next != before.can_next, p3, property);
    telling_adds_one(c, state.can_previous != before.can_previous, p4, property);
    telling_adds_one(d, volume_moved, p5, property);
    telling_adds_one(e, state.shuffle != before.shuffle, p6, property);
    telling_adds_one(f, state.loops() != before.loops(), p7, property);
}

proof fn telling_adds_one(
    told: Seq<PropertyView>,
    yes: bool,
    more: PropertyView,
    property: PropertyView,
)
    ensures
        mpris::telling(told, yes, more).contains(property) <==> told.contains(property) || yes
            && property == more,
{
    let after = mpris::telling(told, yes, more);
    if told.contains(property) {
        let k = choose|k: int| 0 <= k < told.len() && told[k] == property;
        assert(after[k] == property);
    }
    if yes {
        assert(after[told.len() as int] == more);
    }
    if after.contains(property) {
        let k = choose|k: int| 0 <= k < after.len() && after[k] == property;
        assert(k < told.len() ==> told[k] == property);
    }
}

/// A seek by an offset lands that far from where the player is, forwards or back, but
/// not before the beginning.
pub proof fn a_seek_lands_as_far_as_its_offset(position_ms: u64, offset_ms: i64)
    ensures
        ({
            let target = mpris_player::seek_target(position_ms, offset_ms);
            &&& 0 <= position_ms + offset_ms <= u64::MAX ==> target == position_ms + offset_ms
            &&& position_ms + offset_ms < 0 ==> target == 0
            &&& position_ms + offset_ms > u64::MAX ==> target == u64::MAX
        }),
{
}

/// The first time, the bus is told everything, each property once.
pub proof fn nothing_is_told_twice(previous: Option<MprisView>, state: MprisView, moved: bool)
    ensures
        mpris::changes(previous, state, moved).len() <= 7,
        previous is None ==> mpris::changes(previous, state, moved).len() == 7,
{
}

/// A controller goes to a position of the current track, and only by that track's own path:
/// with no track, with another's path, or before the beginning it goes nowhere.
pub proof fn a_position_is_the_current_track_s(
    current: Option<Seq<char>>,
    supplied: Seq<char>,
    position_ms: i64,
)
    ensures
        ({
            let asked = mpris_player::position_asked(current, supplied, position_ms);
            &&& position_ms < 0 ==> asked is None
            &&& current is None ==> asked is None
            &&& mpris::track_path(current) != Some(supplied) ==> asked is None
            &&& mpris::track_path(current) == Some(supplied) && position_ms >= 0 ==> asked
                == Some(position_ms as u64)
        }),
{
}

} // verus!
