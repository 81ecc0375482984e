//! What the session bus is told of the player, and what it may ask for.
//!
//! The export is the whole player: a bar draws the modes next to the transport,
//! and offers a way back to the window. Nothing is signalled that did not
//! change, and a position is polled rather than signalled.

use vstd::prelude::*;

use crate::protocol::RepeatMode;
use crate::text;

verus! {

/// What a controller on the bus asked for. A volume is the bits of an `f64`.
#[derive(Debug, Clone, Copy, PartialEq, Eq, Structural)]
pub enum MprisCommand {
    Play,
    Pause,
    PlayPause,
    Next,
    Previous,
    /// Absolute, in milliseconds. Relative seeks are resolved before they get
    /// here.
    Seek(u64),
    SetShuffle(bool),
    SetRepeat(RepeatMode),
    SetVolume(u64),
    /// Ask for the window back.
    Raise,
    Quit,
}

/// What this player admits to being able to do.
///
/// A controller that offers a button which does nothing is worse than one that
/// offers no button.
#[derive(Debug, Clone, Copy, PartialEq, Eq, Structural)]
pub struct Capabilities {
    pub can_raise: bool,
    pub can_quit: bool,
}

impl Capabilities {
    /// An app with a window somebody can be sent back to.
    pub fn windowed() -> (r: Self)
        ensures
            r == (Capabilities { can_raise: true, can_quit: true }),
    {
        Capabilities { can_raise: true, can_quit: true }
    }

    /// A player with no window and no business exiting on a media key.
    pub fn headless() -> (r: Self)
        ensures
            r == (Capabilities { can_raise: false, can_quit: false }),
    {
        Capabilities { can_raise: false, can_quit: false }
    }
}

#[derive(Debug, Clone, Copy, PartialEq, Eq, Structural)]
pub enum PlaybackStatus {
    Playing,
    Paused,
    Stopped,
}

/// The bus names its loop modes after what they loop over: `Track` is one,
/// `Playlist` is all.
#[derive(Debug, Clone, Copy, PartialEq, Eq, Structural)]
pub enum LoopStatus {
    Off,
    Track,
    Playlist,
}

/// Everything the bus is told, flattened so it can be compared cheaply. A
/// volume is the bits of an `f64`.
#[derive(Debug, PartialEq, Eq)]
pub struct MprisState {
    pub track_id: Option<String>,
    pub title: String,
    pub artist: String,
    pub album: String,
    pub track_number: u32,
    pub art_path: Option<String>,
    pub length_ms: u64,
    pub position_ms: u64,
    pub playing: bool,
    pub stopped: bool,
    pub can_next: bool,
    pub can_previous: bool,
    pub volume: u64,
    pub shuffle: bool,
    pub repeat: RepeatMode,
}

/// An [`MprisState`] with its texts as sequences.
#[verifier::ext_equal]
pub struct MprisView {
    pub track_id: Option<Seq<char>>,
    pub title: Seq<char>,
    pub artist: Seq<char>,
    pub album: Seq<char>,
    pub track_number: u32,
    pub art_path: Option<Seq<char>>,
    pub length_ms: u64,
    pub position_ms: u64,
    pub playing: bool,
    pub stopped: bool,
    pub can_next: bool,
    pub can_previous: bool,
    pub volume: u64,
    pub shuffle: bool,
    pub repeat: RepeatMode,
}

impl View for MprisState {
    type V = MprisView;

    open spec fn view(&self) -> MprisView {
        MprisView {
            track_id: text::text_view(self.track_id),
            title: self.title@,
            artist: self.artist@,
            album: self.album@,
            track_number: self.track_number,
            art_path: text::text_view(self.art_path),
            length_ms: self.length_ms,
            position_ms: self.position_ms,
            playing: self.playing,
            stopped: self.stopped,
            can_next: self.can_next,
            can_previous: self.can_previous,
            volume: self.volume,
            shuffle: self.shuffle,
            repeat: self.repeat,
        }
    }
}

impl Clone for MprisState {
    fn clone(&self) -> (r: Self)
        ensures
            r == *self,
    {
        MprisState {
            track_id: self.track_id.clone(),
            title: self.title.clone(),
            artist: self.artist.clone(),
            album: self.album.clone(),
            track_number: self.track_number,
            art_path: self.art_path.clone(),
            length_ms: self.length_ms,
            position_ms: self.position_ms,
            playing: self.playing,
            stopped: self.stopped,
            can_next: self.can_next,
            can_previous: self.can_previous,
            volume: self.volume,
            shuffle: self.shuffle,
            repeat: self.repeat,
        }
    }
}

impl MprisView {
    /// Nothing to say.
    pub open spec fn blank() -> MprisView {
        MprisView {
            track_id: None,
            title: Seq::empty(),
            artist: Seq::empty(),
            album: Seq::empty(),
            track_number: 0,
            art_path: None,
            length_ms: 0,
            position_ms: 0,
            playing: false,
            stopped: false,
            can_next: false,
            can_previous: false,
            volume: 0,
            shuffle: false,
            repeat: RepeatMode::Off,
        }
    }
}

impl Default for MprisState {
    fn default() -> (r: Self)
        ensures
            r@ == MprisView::blank(),
    {
        MprisState {
            track_id: None,
            title: String::new(),
            artist: String::new(),
            album: String::new(),
            track_number: 0,
            art_path: None,
            length_ms: 0,
            position_ms: 0,
            playing: false,
            stopped: false,
            can_next: false,
            can_previous: false,
            volume: 0,
            shuffle: false,
            repeat: RepeatMode::Off,
        }
    }
}

/// What rides in the bus's metadata. What is not known is left out rather than
/// sent as nothing.
#[derive(Debug, PartialEq, Eq)]
pub struct TrackMetadata {
    pub track_id: Option<String>,
    pub title: String,
    pub artist: Option<String>,
    pub album: Option<String>,
    pub track_number: Option<i32>,
    pub length_ms: Option<i64>,
    pub art_url: Option<String>,
}

/// A [`TrackMetadata`] with its texts as sequences.
#[verifier::ext_equal]
pub struct TrackMetadataView {
    pub track_id: Option<Seq<char>>,
    pub title: Seq<char>,
    pub artist: Option<Seq<char>>,
    pub album: Option<Seq<char>>,
    pub track_number: Option<i32>,
    pub length_ms: Option<i64>,
    pub art_url: Option<Seq<char>>,
}

impl View for TrackMetadata {
    type V = TrackMetadataView;

    open spec fn view(&self) -> TrackMetadataView {
        TrackMetadataView {
            track_id: text::text_view(self.track_id),
            title: self.title@,
            artist: text::text_view(self.artist),
            album: text::text_view(self.album),
            track_number: self.track_number,
            length_ms: self.length_ms,
            art_url: text::text_view(self.art_url),
        }
    }
}

/// What may stand in an element of an object path.
pub open spec fn is_path_char(c: char) -> bool {
    ||| '0' <= c <= '9'
    ||| 'A' <= c <= 'Z'
    ||| 'a' <= c <= 'z'
    ||| c == '_'
}

/// Whether a text names an object on the bus: elements of letters, digits and
/// underscores, each after a slash, or the slash alone.
pub open spec fn is_object_path(path: Seq<char>) -> bool {
    &&& path.len() > 0
    &&& path[0] == '/'
    &&& path.len() > 1 ==> path.last() != '/'
    &&& forall|i: int| 0 <= i < path.len() ==> path[i] == '/' || is_path_char(#[trigger] path[i])
    &&& forall|i: int| 0 < i < path.len() && path[i] == '/' ==> #[trigger] path[i - 1] != '/'
}

/// `mpris_server::TrackId::try_from` takes exactly the texts that are object
/// paths, and keeps them as they are.
#[verifier::external_body]
fn checked_track_id(path: String) -> (r: Option<String>)
    ensures
        text::text_view(r) == if is_object_path(path@) {
            Some(path@)
        } else {
            None
        },
{
    mpris_server::TrackId::try_from(path).ok().map(|id| id.as_str().to_owned())
}

/// An id with everything that may not stand in an object path struck out.
pub open spec fn sanitised(id: Seq<char>) -> Seq<char> {
    id.map_values(
        |c: char|
            if c != '_' && is_path_char(c) {
                c
            } else {
                '_'
            },
    )
}

/// Where the tracks of this player live on the bus.
pub open spec fn track_root() -> Seq<char> {
    "/dev/miguelrincon/Slipmat/track/"@
}

/// The object path of a track. No id, or an empty one, names none.
pub open spec fn track_path(id: Option<Seq<char>>) -> Option<Seq<char>> {
    match id {
        Some(id) => if id.len() == 0 {
            None
        } else {
            Some(track_root() + sanitised(id))
        },
        None => None,
    }
}

/// Whatever an id holds, its path is one the bus takes.
pub proof fn a_track_path_is_an_object_path(id: Seq<char>)
    requires
        id.len() > 0,
    ensures
        is_object_path(track_root() + sanitised(id)),
{
    reveal_strlit("/dev/miguelrincon/Slipmat/track/");
    let root = track_root();
    let path = root + sanitised(id);
    assert(root.len() == 32);
    assert forall|i: int| 0 <= i < path.len() implies path[i] == '/' || is_path_char(
        #[trigger] path[i],
    ) by {
        if i >= 32 {
            assert(path[i] == sanitised(id)[i - 32]);
        }
    }
    assert forall|i: int| 0 < i < path.len() && path[i] == '/' implies #[trigger] path[i - 1]
        != '/' by {
        if i >= 32 {
            assert(path[i] == sanitised(id)[i - 32]);
        }
    }
    assert(path.last() == sanitised(id)[id.len() - 1]);
}

/// Build the object path of a track.
///
/// An id that is not legal in a path would take the whole of the metadata down
/// with it, so what is not legal becomes an underscore.
pub fn track_id(id: Option<&str>) -> (r: Option<String>)
    ensures
        text::text_view(r) == track_path(
            match id {
                Some(id) => Some(id@),
                None => None,
            },
        ),
{
    let id: &str = match id {
        Some(id) => id,
        None => {
            return None;
        },
    };
    let chars: Vec<char> = text::chars_of(id);
    if chars.len() == 0 {
        return None;
    }
    let mut path = "/dev/miguelrincon/Slipmat/track/".to_string();
    let mut i: usize = 0;
    proof {
        assert(sanitised(id@).take(0) =~= Seq::empty());
        assert(path@ =~= track_root() + sanitised(id@).take(0));
    }
    while i < chars.len()
        invariant
            i <= chars@.len(),
            chars@ == id@,
            path@ == track_root() + sanitised(id@).take(i as int),
        decreases chars@.len() - i,
    {
        let c = chars[i];
        let kept = if ('0' <= c && c <= '9') || ('A' <= c && c <= 'Z') || ('a' <= c && c <= 'z') {
            c
        } else {
            '_'
        };
        path.push(kept);
        proof {
            assert(path@ =~= track_root() + sanitised(id@).take(i + 1));
        }
        i += 1;
    }
    proof {
        assert(sanitised(id@).take(i as int) =~= sanitised(id@));
        a_track_path_is_an_object_path(id@);
    }
    checked_track_id(path)
}

/// A text, if there is any of it.
pub open spec fn unless_empty(t: Seq<char>) -> Option<Seq<char>> {
    if t.len() == 0 {
        None
    } else {
        Some(t)
    }
}

fn some_unless_empty(t: &String) -> (r: Option<String>)
    ensures
        text::text_view(r) == unless_empty(t@),
{
    if t.as_str().is_empty() {
        proof {
            assert(t@.len() == 0);
        }
        None
    } else {
        Some(t.clone())
    }
}

impl MprisView {
    /// Stopped wins over playing.
    pub open spec fn playback(self) -> PlaybackStatus {
        if self.stopped {
            PlaybackStatus::Stopped
        } else if self.playing {
            PlaybackStatus::Playing
        } else {
            PlaybackStatus::Paused
        }
    }

    /// The loop mode that means the same thing.
    pub open spec fn loops(self) -> LoopStatus {
        match self.repeat {
            RepeatMode::Off => LoopStatus::Off,
            RepeatMode::All => LoopStatus::Playlist,
            RepeatMode::One => LoopStatus::Track,
        }
    }

    /// What rides in the metadata.
    pub open spec fn meta(self) -> TrackMetadataView {
        TrackMetadataView {
            track_id: track_path(self.track_id),
            title: self.title,
            artist: unless_empty(self.artist),
            album: unless_empty(self.album),
            track_number: if self.track_number > 0 {
                Some(self.track_number as i32)
            } else {
                None
            },
            length_ms: if self.length_ms > 0 {
                Some(self.length_ms as i64)
            } else {
                None
            },
            art_url: match self.art_path {
                Some(path) => Some("file://"@ + path),
                None => None,
            },
        }
    }

    /// Whether everything that rides in the metadata is the same. A position
    /// and the modes do not.
    pub open spec fn same_metadata(self, other: MprisView) -> bool {
        &&& self.track_id == other.track_id
        &&& self.title == other.title
        &&& self.artist == other.artist
        &&& self.album == other.album
        &&& self.track_number == other.track_number
        &&& self.art_path == other.art_path
        &&& self.length_ms == other.length_ms
    }
}

impl MprisState {
    pub fn status(&self) -> (r: PlaybackStatus)
        ensures
            r == self@.playback(),
    {
        if self.stopped {
            PlaybackStatus::Stopped
        } else if self.playing {
            PlaybackStatus::Playing
        } else {
            PlaybackStatus::Paused
        }
    }

    /// The queue is the list either way: there is one notion of repeat, not a
    /// separate one per source.
    pub fn loop_status(&self) -> (r: LoopStatus)
        ensures
            r == self@.loops(),
    {
        match self.repeat {
            RepeatMode::Off => LoopStatus::Off,
            RepeatMode::All => LoopStatus::Playlist,
            RepeatMode::One => LoopStatus::Track,
        }
    }

    /// Whether everything that rides in the metadata is the same in both.
    pub fn metadata_fields(&self, other: &MprisState) -> (r: bool)
        ensures
            r == self@.same_metadata(other@),
    {
        text::same_option(&self.track_id, &other.track_id) && text::same(
            self.title.as_str(),
            other.title.as_str(),
        ) && text::same(self.artist.as_str(), other.artist.as_str()) && text::same(
            self.album.as_str(),
            other.album.as_str(),
        ) && self.track_number == other.track_number && text::same_option(
            &self.art_path,
            &other.art_path,
        ) && self.length_ms == other.length_ms
    }

    pub fn metadata(&self) -> (r: TrackMetadata)
        ensures
            r@ == self@.meta(),
    {
        let own_id: Option<&str> = match &self.track_id {
            Some(id) => Some(id.as_str()),
            None => None,
        };
        let track_number: Option<i32> = if self.track_number > 0 {
            Some(self.track_number as i32)
        } else {
            None
        };
        let length_ms: Option<i64> = if self.length_ms > 0 {
            Some(self.length_ms as i64)
        } else {
            None
        };
        let art_url: Option<String> = match &self.art_path {
            Some(path) => {
                let mut url = "file://".to_string();
                url.append(path.as_str());
                Some(url)
            },
            None => None,
        };
        TrackMetadata {
            track_id: track_id(own_id),
            title: self.title.clone(),
            artist: some_unless_empty(&self.artist),
            album: some_unless_empty(&self.album),
            track_number,
            length_ms,
            art_url,
        }
    }
}

/// A property that changed, with its value.
#[derive(Debug, PartialEq, Eq)]
pub enum Property {
    Metadata(TrackMetadata),
    PlaybackStatus(PlaybackStatus),
    CanGoNext(bool),
    CanGoPrevious(bool),
    /// The bits of an `f64`.
    Volume(u64),
    Shuffle(bool),
    LoopStatus(LoopStatus),
}

/// A [`Property`] with its texts as sequences.
#[verifier::ext_equal]
pub enum PropertyView {
    Metadata(TrackMetadataView),
    PlaybackStatus(PlaybackStatus),
    CanGoNext(bool),
    CanGoPrevious(bool),
    Volume(u64),
    Shuffle(bool),
    LoopStatus(LoopStatus),
}

impl View for Property {
    type V = PropertyView;

    open spec fn view(&self) -> PropertyView {
        match *self {
            Property::Metadata(m) => PropertyView::Metadata(m@),
            Property::PlaybackStatus(s) => PropertyView::PlaybackStatus(s),
            Property::CanGoNext(b) => PropertyView::CanGoNext(b),
            Property::CanGoPrevious(b) => PropertyView::CanGoPrevious(b),
            Property::Volume(v) => PropertyView::Volume(v),
            Property::Shuffle(b) => PropertyView::Shuffle(b),
            Property::LoopStatus(s) => PropertyView::LoopStatus(s),
        }
    }
}

impl Property {
    /// What a log calls it.
    pub fn name(&self) -> (r: &'static str)
        ensures
            r@ == (match *self {
                Property::Metadata(_) => "metadata"@,
                Property::PlaybackStatus(_) => "playback status"@,
                Property::CanGoNext(_) => "can-go-next"@,
                Property::CanGoPrevious(_) => "can-go-previous"@,
                Property::Volume(_) => "volume"@,
                Property::Shuffle(_) => "shuffle"@,
                Property::LoopStatus(_) => "loop status"@,
            }),
    {
        match self {
            Property::Metadata(_) => "metadata",
            Property::PlaybackStatus(_) => "playback status",
            Property::CanGoNext(_) => "can-go-next",
            Property::CanGoPrevious(_) => "can-go-previous",
            Property::Volume(_) => "volume",
            Property::Shuffle(_) => "shuffle",
            Property::LoopStatus(_) => "loop status",
        }
    }
}

/// A list with a property at its end, if it is to be told.
pub open spec fn telling(told: Seq<PropertyView>, yes: bool, property: PropertyView) -> Seq<
    PropertyView,
> {
    if yes {
        told.push(property)
    } else {
        told
    }
}

/// The properties to signal: all of them at first, and then what differs.
/// `volume_moved` is whether the volume differs by more than rounding.
pub open spec fn changes(
    previous: Option<MprisView>,
    state: MprisView,
    volume_moved: bool,
) -> Seq<PropertyView> {
    let first = previous is None;
    let prev = previous->0;
    let a = telling(
        Seq::empty(),
        first || !state.same_metadata(prev),
        PropertyView::Metadata(state.meta()),
    );
    let b = telling(
        a,
        first || state.playback() != prev.playback(),
        PropertyView::PlaybackStatus(state.playback()),
    );
    let c = telling(
        b,
        first || state.can_next != prev.can_next,
        PropertyView::CanGoNext(state.can_next),
    );
    let d = telling(
        c,
        first || state.can_previous != prev.can_previous,
        PropertyView::CanGoPrevious(state.can_previous),
    );
    let e = telling(d, first || volume_moved, PropertyView::Volume(state.volume));
    let f = telling(
        e,
        first || state.shuffle != prev.shuffle,
        PropertyView::Shuffle(state.shuffle),
    );
    telling(f, first || state.loops() != prev.loops(), PropertyView::LoopStatus(state.loops()))
}

/// The properties of a list.
pub open spec fn properties(list: Seq<Property>) -> Seq<PropertyView> {
    list.map_values(|p: Property| p@)
}

fn tell(told: &mut Vec<Property>, property: Property)
    ensures
        properties(final(told)@) == properties(old(told)@).push(property@),
{
    let ghost before = properties(told@);
    let ghost more = property@;
    told.push(property);
    proof {
        assert(properties(told@) =~= before.push(more));
    }
}

/// The properties to signal. `volume_moved` is whether the volume differs from
/// the previous one by more than rounding.
pub fn changed_player_properties(
    previous: Option<&MprisState>,
    state: &MprisState,
    volume_moved: bool,
) -> (r: Vec<Property>)
    ensures
        properties(r@) == changes(
            match previous {
                Some(prev) => Some(prev@),
                None => None,
            },
            state@,
            volume_moved,
        ),
{
    let first = previous.is_none();
    let mut told: Vec<Property> = Vec::new();
    proof {
        assert(properties(told@) =~= Seq::empty());
    }
    let status = state.status();
    let loops = state.loop_status();
    let (meta_moved, status_moved, next_moved, previous_moved, shuffle_moved, loop_moved) =
        match previous {
        Some(prev) => (
            !state.metadata_fields(prev),
            status != prev.status(),
            state.can_next != prev.can_next,
            state.can_previous != prev.can_previous,
            state.shuffle != prev.shuffle,
            loops != prev.loop_status(),
        ),
        None => (true, true, true, true, true, true),
    };
    if meta_moved {
        tell(&mut told, Property::Metadata(state.metadata()));
    }
    if status_moved {
        tell(&mut told, Property::PlaybackStatus(status));
    }
    if next_moved {
        tell(&mut told, Property::CanGoNext(state.can_next));
    }
    if previous_moved {
        tell(&mut told, Property::CanGoPrevious(state.can_previous));
    }
    if first || volume_moved {
        tell(&mut told, Property::Volume(state.volume));
    }
    if shuffle_moved {
        tell(&mut told, Property::Shuffle(state.shuffle));
    }
    if loop_moved {
        tell(&mut told, Property::LoopStatus(loops));
    }
    told
}

} // verus!
