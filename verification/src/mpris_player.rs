//! The player as a controller on the bus drives it.

use vstd::prelude::*;

use crate::mpris;
use crate::mpris::{
    Capabilities,
    LoopStatus,
    MprisCommand,
    MprisState,
    MprisView,
    PlaybackStatus,
    Property,
    TrackMetadata,
};
use crate::protocol::RepeatMode;
use crate::text;
use crate::volume;

verus! {

/// The name this application is installed under.
pub open spec fn app_id() -> Seq<char> {
    "dev.miguelrincon.Slipmat"@
}

/// The speed that music is made for, as the bits of an `f64`.
pub const NORMAL_RATE: u64 = 0x3ff0_0000_0000_0000;

/// What is exported: the state a controller reads, and what it asked for.
#[derive(Debug)]
pub struct SlipmatPlayer {
    pub state: MprisState,
    pub can: Capabilities,
    /// What was asked for, in order.
    pub asked: Vec<MprisCommand>,
}

/// Where a relative seek lands. It stays within the range of a position.
pub open spec fn seek_target(position_ms: u64, offset_ms: i64) -> u64 {
    if position_ms + offset_ms < 0 {
        0
    } else if position_ms + offset_ms > u64::MAX {
        u64::MAX
    } else {
        (position_ms + offset_ms) as u64
    }
}

/// Where a controller asks to go within the track it names. One that names another track
/// than the current one is stale, and a position before the beginning is none.
pub open spec fn position_asked(
    current: Option<Seq<char>>,
    supplied: Seq<char>,
    position_ms: i64,
) -> Option<u64> {
    if mpris::track_path(current) == Some(supplied) && position_ms >= 0 {
        Some(position_ms as u64)
    } else {
        None
    }
}

/// The repeat mode a loop mode asks for.
pub open spec fn repeat_for(status: LoopStatus) -> RepeatMode {
    match status {
        LoopStatus::Off => RepeatMode::Off,
        LoopStatus::Playlist => RepeatMode::All,
        LoopStatus::Track => RepeatMode::One,
    }
}

impl SlipmatPlayer {
    pub fn new(state: MprisState, can: Capabilities) -> (r: Self)
        ensures
            r.state == state,
            r.can == can,
            r.asked@.len() == 0,
    {
        SlipmatPlayer { state, can, asked: Vec::new() }
    }

    /// Nothing changed but that something was asked.
    pub open spec fn asking(self, after: SlipmatPlayer, command: MprisCommand) -> bool {
        &&& after.state == self.state
        &&& after.can == self.can
        &&& after.asked@ == self.asked@.push(command)
    }

    pub fn raise(&mut self)
        ensures
            old(self).asking(*final(self), MprisCommand::Raise),
    {
        self.asked.push(MprisCommand::Raise);
    }

    pub fn quit(&mut self)
        ensures
            old(self).asking(*final(self), MprisCommand::Quit),
    {
        self.asked.push(MprisCommand::Quit);
    }

    pub fn can_raise(&self) -> (r: bool)
        ensures
            r == self.can.can_raise,
    {
        self.can.can_raise
    }

    pub fn can_quit(&self) -> (r: bool)
        ensures
            r == self.can.can_quit,
    {
        self.can.can_quit
    }

    pub fn identity(&self) -> (r: &'static str)
        ensures
            r@ == "Slipmat"@,
    {
        "Slipmat"
    }

    pub fn desktop_entry(&self) -> (r: &'static str)
        ensures
            r@ == app_id(),
    {
        "dev.miguelrincon.Slipmat"
    }

    /// Nothing here fills the screen.
    pub fn fullscreen(&self) -> (r: bool)
        ensures
            r == false,
    {
        false
    }

    pub fn can_set_fullscreen(&self) -> (r: bool)
        ensures
            r == false,
    {
        false
    }

    /// The queue is not exported as a track list.
    pub fn has_track_list(&self) -> (r: bool)
        ensures
            r == false,
    {
        false
    }

    /// Nothing is opened by address.
    pub fn supported_uri_schemes(&self) -> (r: Vec<String>)
        ensures
            r@.len() == 0,
    {
        Vec::new()
    }

    /// No file is played.
    pub fn supported_mime_types(&self) -> (r: Vec<String>)
        ensures
            r@.len() == 0,
    {
        Vec::new()
    }

    pub fn next(&mut self)
        ensures
            old(self).asking(*final(self), MprisCommand::Next),
    {
        self.asked.push(MprisCommand::Next);
    }

    pub fn previous(&mut self)
        ensures
            old(self).asking(*final(self), MprisCommand::Previous),
    {
        self.asked.push(MprisCommand::Previous);
    }

    pub fn pause(&mut self)
        ensures
            old(self).asking(*final(self), MprisCommand::Pause),
    {
        self.asked.push(MprisCommand::Pause);
    }

    pub fn play_pause(&mut self)
        ensures
            old(self).asking(*final(self), MprisCommand::PlayPause),
    {
        self.asked.push(MprisCommand::PlayPause);
    }

    /// There is no stop: the player pauses.
    pub fn stop(&mut self)
        ensures
            old(self).asking(*final(self), MprisCommand::Pause),
    {
        self.asked.push(MprisCommand::Pause);
    }

    pub fn play(&mut self)
        ensures
            old(self).asking(*final(self), MprisCommand::Play),
    {
        self.asked.push(MprisCommand::Play);
    }

    /// Seek by an offset from where the player is.
    pub fn seek(&mut self, offset_ms: i64)
        ensures
            old(self).asking(
                *final(self),
                MprisCommand::Seek(seek_target(old(self).state.position_ms, offset_ms)),
            ),
    {
        let sum: i128 = self.state.position_ms as i128 + offset_ms as i128;
        let target: u64 = if sum < 0 {
            0
        } else if sum > u64::MAX as i128 {
            u64::MAX
        } else {
            sum as u64
        };
        self.asked.push(MprisCommand::Seek(target));
    }

    /// Seek to a position of the track a controller names. One that names
    /// another track than the current one is stale, and ignored.
    pub fn set_position(&mut self, supplied_id: &str, position_ms: i64)
        ensures
            match position_asked(old(self).state@.track_id, supplied_id@, position_ms) {
                Some(target) => old(self).asking(*final(self), MprisCommand::Seek(target)),
                None => *final(self) == *old(self),
            },
    {
        let own: Option<&str> = match &self.state.track_id {
            Some(id) => Some(id.as_str()),
            None => None,
        };
        if let Some(current) = mpris::track_id(own) {
            if text::same(current.as_str(), supplied_id) && position_ms >= 0 {
                self.asked.push(MprisCommand::Seek(position_ms as u64));
            }
        }
    }

    pub fn playback_status(&self) -> (r: PlaybackStatus)
        ensures
            r == self.state@.playback(),
    {
        self.state.status()
    }

    pub fn loop_status(&self) -> (r: LoopStatus)
        ensures
            r == self.state@.loops(),
    {
        self.state.loop_status()
    }

    pub fn set_loop_status(&mut self, status: LoopStatus)
        ensures
            old(self).asking(*final(self), MprisCommand::SetRepeat(repeat_for(status))),
    {
        let mode = match status {
            LoopStatus::Off => RepeatMode::Off,
            LoopStatus::Playlist => RepeatMode::All,
            LoopStatus::Track => RepeatMode::One,
        };
        self.asked.push(MprisCommand::SetRepeat(mode));
    }

    /// The speed of playback, as the bits of an `f64`. There is one.
    pub fn rate(&self) -> (r: u64)
        ensures
            r == NORMAL_RATE,
    {
        NORMAL_RATE
    }

    pub fn minimum_rate(&self) -> (r: u64)
        ensures
            r == NORMAL_RATE,
    {
        NORMAL_RATE
    }

    pub fn maximum_rate(&self) -> (r: u64)
        ensures
            r == NORMAL_RATE,
    {
        NORMAL_RATE
    }

    pub fn shuffle(&self) -> (r: bool)
        ensures
            r == self.state.shuffle,
    {
        self.state.shuffle
    }

    pub fn set_shuffle(&mut self, shuffle: bool)
        ensures
            old(self).asking(*final(self), MprisCommand::SetShuffle(shuffle)),
    {
        self.asked.push(MprisCommand::SetShuffle(shuffle));
    }

    pub fn metadata(&self) -> (r: TrackMetadata)
        ensures
            r@ == self.state@.meta(),
    {
        self.state.metadata()
    }

    /// The bits of an `f64`.
    pub fn volume(&self) -> (r: u64)
        ensures
            r == self.state.volume,
    {
        self.state.volume
    }

    /// Ask for a volume, given as the bits of an `f64`. A controller may ask for
    /// more than there is.
    pub fn set_volume(&mut self, volume: u64)
        ensures
            old(self).asking(*final(self), MprisCommand::SetVolume(volume::clamped(volume))),
    {
        self.asked.push(MprisCommand::SetVolume(volume::clamp(volume)));
    }

    pub fn position(&self) -> (r: i64)
        ensures
            r == self.state.position_ms as i64,
    {
        self.state.position_ms as i64
    }

    pub fn can_go_next(&self) -> (r: bool)
        ensures
            r == self.state.can_next,
    {
        self.state.can_next
    }

    pub fn can_go_previous(&self) -> (r: bool)
        ensures
            r == self.state.can_previous,
    {
        self.state.can_previous
    }

    pub fn can_play(&self) -> (r: bool)
        ensures
            r == true,
    {
        true
    }

    pub fn can_pause(&self) -> (r: bool)
        ensures
            r == true,
    {
        true
    }

    pub fn can_seek(&self) -> (r: bool)
        ensures
            r == true,
    {
        true
    }

    pub fn can_control(&self) -> (r: bool)
        ensures
            r == true,
    {
        true
    }
}

/// The exported player, or the want of one: the bus may not be there, and then
/// playback works all the same.
#[derive(Debug)]
pub struct Mpris {
    pub player: Option<SlipmatPlayer>,
    pub last: Option<MprisState>,
}

impl Mpris {
    /// The state last told, if any was.
    pub open spec fn told(self) -> Option<MprisView> {
        match self.last {
            Some(state) => Some(state@),
            None => None,
        }
    }

    /// Not exported yet.
    pub fn start() -> (r: Self)
        ensures
            r.player is None,
            r.last is None,
    {
        Mpris { player: None, last: None }
    }

    /// The bus name was claimed.
    pub fn exported(&mut self, can: Capabilities)
        ensures
            final(self).player is Some,
            final(self).player->0.can == can,
            final(self).player->0.state@ == MprisView::blank(),
            final(self).player->0.asked@.len() == 0,
            final(self).last == old(self).last,
    {
        self.player = Some(SlipmatPlayer::new(MprisState::default(), can));
    }

    /// Take the current state, and say what of it to signal: only what actually
    /// changed. `volume_moved` is whether the volume differs from the last by
    /// more than rounding.
    pub fn update(&mut self, state: MprisState, volume_moved: bool) -> (r: Vec<Property>)
        ensures
            old(self).player is None ==> r@.len() == 0 && *final(self) == *old(self),
            old(self).player is Some ==> {
                &&& mpris::properties(r@) == mpris::changes(old(self).told(), state@, volume_moved)
                &&& final(self).told() == Some(state@)
                &&& final(self).player is Some
                &&& final(self).player->0.state == state
                &&& final(self).player->0.can == old(self).player->0.can
                &&& final(self).player->0.asked@ == old(self).player->0.asked@
            },
    {
        match self.player.take() {
            None => Vec::new(),
            Some(player) => {
                let changed = mpris::changed_player_properties(
                    self.last.as_ref(),
                    &state,
                    volume_moved,
                );
                self.last = Some(state.clone());
                self.player = Some(
                    SlipmatPlayer { state, can: player.can, asked: player.asked },
                );
                changed
            },
        }
    }

    /// Announce a discontinuous jump, where there is anyone to tell: a
    /// controller goes on counting from the old position otherwise.
    pub fn seeked(&self, position_ms: u64) -> (r: Option<i64>)
        ensures
            r == if self.player is Some {
                Some(position_ms as i64)
            } else {
                None
            },
    {
        if self.player.is_some() {
            Some(position_ms as i64)
        } else {
            None
        }
    }
}

/// A position is polled, not signalled: two states that differ in nothing else
/// say nothing to the bus.
pub proof fn a_tick_says_nothing(state: MprisView, position_ms: u64)
    ensures
        mpris::changes(Some(state), (MprisView { position_ms, ..state }), false).len() == 0,
{
}

/// Shuffle and repeat are properties of the player, not of the track: changing
/// them does not send the metadata again.
pub proof fn modes_do_not_resend_the_metadata(
    state: MprisView,
    shuffle: bool,
    repeat: RepeatMode,
    i: int,
)
    requires
        0 <= i < mpris::changes(
            Some(state),
            (MprisView { shuffle, repeat, ..state }),
            false,
        ).len(),
    ensures
        mpris::changes(Some(state), (MprisView { shuffle, repeat, ..state }), false)[i]
            !is Metadata,
{
}

/// The first state told is told whole.
pub proof fn the_first_state_is_told_whole(state: MprisView, volume_moved: bool)
    ensures
        mpris::changes(None, state, volume_moved) == seq![
            mpris::PropertyView::Metadata(state.meta()),
            mpris::PropertyView::PlaybackStatus(state.playback()),
            mpris::PropertyView::CanGoNext(state.can_next),
            mpris::PropertyView::CanGoPrevious(state.can_previous),
            mpris::PropertyView::Volume(state.volume),
            mpris::PropertyView::Shuffle(state.shuffle),
            mpris::PropertyView::LoopStatus(state.loops()),
        ],
{
    assert(mpris::changes(None, state, volume_moved) =~= seq![
        mpris::PropertyView::Metadata(state.meta()),
        mpris::PropertyView::PlaybackStatus(state.playback()),
        mpris::PropertyView::CanGoNext(state.can_next),
        mpris::PropertyView::CanGoPrevious(state.can_previous),
        mpris::PropertyView::Volume(state.volume),
        mpris::PropertyView::Shuffle(state.shuffle),
        mpris::PropertyView::LoopStatus(state.loops()),
    ]);
}

/// A mode asked for by its loop name reads back under that name.
pub proof fn a_loop_mode_reads_back(state: MprisView, status: LoopStatus)
    ensures
        (MprisView { repeat: repeat_for(status), ..state }).loops() == status,
{
}

} // verus!
