//! One playback lane: a playhead that moves along a timeline, the clips that
//! map stretches of the timeline onto sound sources, and the junctions that
//! redirect the playhead when it reaches them.

use vstd::prelude::*;
use crate::sound_bank::SoundBankIndex;

verus! {

/// The number of clip slots of a channel.
pub const MAX_CLIPS_PER_CHANNEL: usize = 32;

/// The number of junction slots of a channel.
pub const MAX_JUNCTIONS_PER_CHANNEL: usize = 32;

/// The clip scale that maps one channel frame onto one source frame. Scales
/// are fixed-point numbers with sixteen fractional bits.
pub const UNIT_SCALE: u32 = 65536;

#[derive(Debug, Clone, Copy, PartialEq, Eq, Structural)]
pub enum PlayheadState {
    Playing,
    Stopped,
}

impl Default for PlayheadState {
    fn default() -> (state: Self)
        ensures
            state == PlayheadState::Stopped,
    {
        PlayheadState::Stopped
    }
}

#[derive(Debug, Clone, Copy, PartialEq, Eq, Structural)]
pub enum PlayheadDirection {
    /// Towards larger locations.
    Forward,
    /// Towards location zero.
    Backward,
}

impl PlayheadDirection {
    pub open spec fn flipped(self) -> PlayheadDirection {
        match self {
            PlayheadDirection::Forward => PlayheadDirection::Backward,
            PlayheadDirection::Backward => PlayheadDirection::Forward,
        }
    }

    /// The opposite direction.
    pub fn flip(self) -> (opposite: PlayheadDirection)
        ensures
            opposite == self.flipped(),
    {
        match self {
            PlayheadDirection::Forward => PlayheadDirection::Backward,
            PlayheadDirection::Backward => PlayheadDirection::Forward,
        }
    }
}

impl Default for PlayheadDirection {
    fn default() -> (direction: Self)
        ensures
            direction == PlayheadDirection::Forward,
    {
        PlayheadDirection::Forward
    }
}

/// The read cursor of a channel.
#[derive(Debug, Clone, Copy, PartialEq, Eq, Structural)]
pub struct Playhead {
    pub state: PlayheadState,
    /// The frame offset from the start of the channel.
    pub location: u64,
    pub direction: PlayheadDirection,
}

impl Playhead {
    /// The playhead at rest at the start of a channel.
    pub open spec fn initial() -> Playhead {
        Playhead {
            state: PlayheadState::Stopped,
            location: 0,
            direction: PlayheadDirection::Forward,
        }
    }

    /// A playing playhead after one frame of autonomous movement on a channel
    /// of the given length.
    ///
    /// Forward, the location grows by one and the playhead stops when the new
    /// location is no longer inside `[0, length)`. Backward, the location
    /// shrinks by one, and a playhead that is already at zero stops where it
    /// is. A location never grows beyond what sixty-four bits hold.
    pub open spec fn advanced(self, length: u64) -> Playhead {
        match self.direction {
            PlayheadDirection::Forward => Playhead {
                state: if self.location + 1 >= length {
                    PlayheadState::Stopped
                } else {
                    PlayheadState::Playing
                },
                location: if self.location < u64::MAX {
                    (self.location + 1) as u64
                } else {
                    self.location
                },
                direction: self.direction,
            },
            PlayheadDirection::Backward => if self.location == 0 {
                Playhead { state: PlayheadState::Stopped, ..self }
            } else {
                Playhead { location: (self.location - 1) as u64, ..self }
            },
        }
    }

    /// This playhead brought to a halt where it is.
    pub open spec fn halted(self) -> Playhead {
        Playhead { state: PlayheadState::Stopped, ..self }
    }

    /// This playhead turned around where it is.
    pub open spec fn reflected(self) -> Playhead {
        Playhead { direction: self.direction.flipped(), ..self }
    }
}

impl Default for Playhead {
    fn default() -> (playhead: Self)
        ensures
            playhead == Playhead::initial(),
    {
        Playhead {
            state: PlayheadState::Stopped,
            location: 0,
            direction: PlayheadDirection::Forward,
        }
    }
}

/// A mapping from the channel-time interval
/// `[channel_location_start, channel_location_end)` onto a sound source.
#[derive(Debug, Clone, Copy, PartialEq, Eq, Structural)]
pub struct Clip {
    pub enabled: bool,
    /// The slot of the source in the sound bank.
    pub source_index: usize,
    pub channel_location_start: u64,
    pub channel_location_end: u64,
    /// The number of source frames per channel frame, in units of
    /// `1 / UNIT_SCALE`.
    pub source_scale: u32,
    /// The source frame that the start of the clip maps to.
    pub source_shift: u64,
}

impl Clip {
    /// The disabled clip that fills an unused slot.
    pub open spec fn empty() -> Clip {
        Clip {
            enabled: false,
            source_index: 0,
            channel_location_start: 0,
            channel_location_end: 0,
            source_scale: 0,
            source_shift: 0,
        }
    }

    /// Whether the playhead location falls on this clip and the clip sounds.
    pub open spec fn covers(self, location: u64) -> bool {
        self.enabled && self.channel_location_start <= location < self.channel_location_end
    }

    /// The source frame that a location on this clip maps to: the distance
    /// from the start of the clip, scaled, rounded down and shifted.
    pub open spec fn source_frame(self, location: u64) -> int {
        self.source_shift + ((location - self.channel_location_start) * self.source_scale)
            / (UNIT_SCALE as int)
    }

    /// The sound bank address that a location on this clip maps to, if the
    /// source frame can be addressed at all.
    pub open spec fn address(self, location: u64) -> Option<SoundBankIndex> {
        if self.source_frame(location) <= usize::MAX {
            Some(
                SoundBankIndex {
                    source_index: self.source_index,
                    frame_index: self.source_frame(location) as usize,
                },
            )
        } else {
            None
        }
    }

    /// Computes `address` for a location that this clip covers.
    pub fn resolve(&self, location: u64) -> (address: Option<SoundBankIndex>)
        requires
            self.channel_location_start <= location,
        ensures
            address == self.address(location),
    {
        let distance: u64 = location - self.channel_location_start;
        assert(distance * self.source_scale <= u64::MAX * u32::MAX) by (nonlinear_arith)
            requires
                0 <= distance <= u64::MAX,
                0 <= self.source_scale <= u32::MAX,
        ;
        let scaled: u128 = (distance as u128) * (self.source_scale as u128) / (UNIT_SCALE as u128);
        let frame: u128 = scaled + (self.source_shift as u128);
        if frame <= usize::MAX as u128 {
            Some(SoundBankIndex { source_index: self.source_index, frame_index: frame as usize })
        } else {
            None
        }
    }
}

impl Default for Clip {
    fn default() -> (clip: Self)
        ensures
            clip == Clip::empty(),
    {
        Clip {
            enabled: false,
            source_index: 0,
            channel_location_start: 0,
            channel_location_end: 0,
            source_scale: 0,
            source_shift: 0,
        }
    }
}

/// What a junction does to a playhead that reaches it.
#[derive(Debug, Clone, Copy, PartialEq, Eq, Structural)]
pub enum JunctionType {
    /// Start the destination channel at the destination location, in the
    /// direction of the arriving playhead. Unless `split` is set, the arriving
    /// playhead stops.
    Jump { destination_channel_index: usize, destination_location: u64, split: bool },
    /// Turn the playhead around.
    Reflect,
    /// Stop the playhead.
    Stop,
}

impl Default for JunctionType {
    fn default() -> (junction_type: Self)
        ensures
            junction_type == JunctionType::Stop,
    {
        JunctionType::Stop
    }
}

/// A control event tied to one location of a channel.
#[derive(Debug, Clone, Copy, PartialEq, Eq, Structural)]
pub struct Junction {
    pub enabled: bool,
    pub location: u64,
    pub junction_type: JunctionType,
}

impl Junction {
    /// The disabled junction that fills an unused slot.
    pub open spec fn empty() -> Junction {
        Junction { enabled: false, location: 0, junction_type: JunctionType::Stop }
    }

    /// Whether a playhead at the location triggers this junction.
    pub open spec fn triggers_at(self, location: u64) -> bool {
        self.enabled && self.location == location
    }
}

impl Default for Junction {
    fn default() -> (junction: Self)
        ensures
            junction == Junction::empty(),
    {
        Junction { enabled: false, location: 0, junction_type: JunctionType::Stop }
    }
}

/// The slot of the first junction at or after `from` that a playhead at the
/// location triggers.
pub open spec fn first_junction_from(junctions: Seq<Junction>, location: u64, from: int) -> Option<
    int,
>
    decreases junctions.len() - from,
{
    if from < 0 || from >= junctions.len() {
        None
    } else if junctions[from].triggers_at(location) {
        Some(from)
    } else {
        first_junction_from(junctions, location, from + 1)
    }
}

/// The slot of the first clip at or after `from` that covers the location.
pub open spec fn first_clip_from(clips: Seq<Clip>, location: u64, from: int) -> Option<int>
    decreases clips.len() - from,
{
    if from < 0 || from >= clips.len() {
        None
    } else if clips[from].covers(location) {
        Some(from)
    } else {
        first_clip_from(clips, location, from + 1)
    }
}

/// One playback lane.
#[derive(Debug, Clone, Copy, PartialEq, Eq)]
pub struct Channel {
    pub clips: [Clip; MAX_CLIPS_PER_CHANNEL],
    pub junctions: [Junction; MAX_JUNCTIONS_PER_CHANNEL],
    pub playhead: Playhead,
    /// Set when the playhead was placed from outside: the next frame then
    /// starts from exactly that location instead of moving on first.
    pub playhead_override_this_frame: bool,
    /// The loop bound: a playhead moving forward stops on reaching it.
    pub length: u64,
}

impl Channel {
    /// The channel with empty slots, a playhead at rest and the given length.
    pub open spec fn empty(length: u64) -> Channel {
        Channel {
            clips: [Clip::empty(); MAX_CLIPS_PER_CHANNEL],
            junctions: [Junction::empty(); MAX_JUNCTIONS_PER_CHANNEL],
            playhead: Playhead::initial(),
            playhead_override_this_frame: false,
            length,
        }
    }

    /// A channel without clips or junctions, its playhead at rest at zero.
    pub fn new(length: u64) -> (channel: Channel)
        ensures
            channel == Channel::empty(length),
    {
        Channel {
            clips: [Clip::default(); MAX_CLIPS_PER_CHANNEL],
            junctions: [Junction::default(); MAX_JUNCTIONS_PER_CHANNEL],
            playhead: Playhead::default(),
            playhead_override_this_frame: false,
            length,
        }
    }

    pub open spec fn spec_is_playing(&self) -> bool {
        self.playhead.state == PlayheadState::Playing
    }

    #[verifier::when_used_as_spec(spec_is_playing)]
    pub fn is_playing(&self) -> (playing: bool)
        ensures
            playing == self.spec_is_playing(),
    {
        match self.playhead.state {
            PlayheadState::Playing => true,
            PlayheadState::Stopped => false,
        }
    }

    /// This channel with one clip slot overwritten.
    pub open spec fn with_clip(self, slot: int, clip: Clip) -> Channel {
        Channel { clips: vstd::array::spec_array_update(self.clips, slot, clip), ..self }
    }

    /// This channel with one junction slot overwritten.
    pub open spec fn with_junction(self, slot: int, junction: Junction) -> Channel {
        Channel { junctions: vstd::array::spec_array_update(self.junctions, slot, junction), ..self }
    }

    /// This channel with its playhead placed from outside: the playhead is
    /// replaced and marked, so that the next frame starts from it.
    pub open spec fn with_playhead(self, playhead: Playhead) -> Channel {
        Channel { playhead, playhead_override_this_frame: true, ..self }
    }

    /// The channel after the first step of a frame. A playhead that was
    /// placed from outside stays where it was put and the mark is cleared;
    /// otherwise a playing playhead moves on by one frame.
    pub open spec fn stepped(self) -> Channel {
        if self.playhead_override_this_frame {
            Channel { playhead_override_this_frame: false, ..self }
        } else if self.is_playing() {
            Channel { playhead: self.playhead.advanced(self.length), ..self }
        } else {
            self
        }
    }

    pub fn step_playhead_single_frame(&mut self)
        ensures
            *final(self) == old(self).stepped(),
    {
        if self.playhead_override_this_frame {
            self.playhead_override_this_frame = false;
            return ;
        }
        if self.is_playing() {
            match self.playhead.direction {
                PlayheadDirection::Forward => {
                    if self.playhead.location < u64::MAX {
                        self.playhead.location = self.playhead.location + 1;
                        if self.playhead.location >= self.length {
                            self.playhead.state = PlayheadState::Stopped;
                        }
                    } else {
                        self.playhead.state = PlayheadState::Stopped;
                    }
                },
                PlayheadDirection::Backward => {
                    if self.playhead.location == 0 {
                        self.playhead.state = PlayheadState::Stopped;
                    } else {
                        self.playhead.location = self.playhead.location - 1;
                    }
                },
            }
        }
    }

    /// This channel with its playhead halted.
    pub open spec fn stopped(self) -> Channel {
        Channel { playhead: self.playhead.halted(), ..self }
    }

    pub fn stop(&mut self)
        ensures
            *final(self) == old(self).stopped(),
    {
        self.playhead.state = PlayheadState::Stopped;
    }

    /// The junction that the playhead triggers where it stands: the first
    /// enabled junction, in slot order, at the location of a playing playhead.
    pub open spec fn current_junction(self) -> Option<Junction> {
        if self.is_playing() {
            match first_junction_from(self.junctions@, self.playhead.location, 0) {
                Some(slot) => Some(self.junctions[slot]),
                None => None,
            }
        } else {
            None
        }
    }

    pub fn get_current_junction(&self) -> (junction: Option<Junction>)
        ensures
            junction == self.current_junction(),
    {
        if !self.is_playing() {
            return None;
        }
        let mut slot: usize = 0;
        while slot < MAX_JUNCTIONS_PER_CHANNEL
            invariant
                self.is_playing(),
                slot <= MAX_JUNCTIONS_PER_CHANNEL,
                first_junction_from(self.junctions@, self.playhead.location, 0)
                    == first_junction_from(self.junctions@, self.playhead.location, slot as int),
            decreases MAX_JUNCTIONS_PER_CHANNEL - slot,
        {
            let junction = self.junctions[slot];
            if junction.enabled && junction.location == self.playhead.location {
                return Some(junction);
            }
            slot = slot + 1;
        }
        None
    }

    /// The sound bank address that the playhead selects where it stands: the
    /// address that the first enabled clip, in slot order, that covers the
    /// location of a playing playhead maps the location to.
    pub open spec fn current_sound_bank_index(self) -> Option<SoundBankIndex> {
        if self.is_playing() {
            match first_clip_from(self.clips@, self.playhead.location, 0) {
                Some(slot) => self.clips[slot].address(self.playhead.location),
                None => None,
            }
        } else {
            None
        }
    }

    pub fn get_current_sound_bank_index(&self) -> (address: Option<SoundBankIndex>)
        ensures
            address == self.current_sound_bank_index(),
    {
        if !self.is_playing() {
            return None;
        }
        let mut slot: usize = 0;
        while slot < MAX_CLIPS_PER_CHANNEL
            invariant
                self.is_playing(),
                slot <= MAX_CLIPS_PER_CHANNEL,
                first_clip_from(self.clips@, self.playhead.location, 0) == first_clip_from(
                    self.clips@,
                    self.playhead.location,
                    slot as int,
                ),
            decreases MAX_CLIPS_PER_CHANNEL - slot,
        {
            let clip = self.clips[slot];
            if clip.enabled && self.playhead.location >= clip.channel_location_start
                && self.playhead.location < clip.channel_location_end {
                return clip.resolve(self.playhead.location);
            }
            slot = slot + 1;
        }
        None
    }
}

impl Default for Channel {
    fn default() -> (channel: Self)
        ensures
            channel == Channel::empty(0),
    {
        Channel::new(0)
    }
}

impl Channel {
    /// This channel after `frames` steps with nothing else acting on it.
    pub open spec fn stepped_times(self, frames: nat) -> Channel
        decreases frames,
    {
        if frames == 0 {
            self
        } else {
            self.stepped_times((frames - 1) as nat).stepped()
        }
    }

    /// A playhead that plays forward from inside the channel moves one
    /// location per step until it reaches the length of the channel. There it
    /// stops, and it stops on no earlier step.
    pub proof fn lemma_forward_run(self, frames: nat)
        requires
            !self.playhead_override_this_frame,
            self.playhead.state == PlayheadState::Playing,
            self.playhead.direction == PlayheadDirection::Forward,
            self.playhead.location < self.length,
        ensures
            self.stepped_times(frames) == (Channel {
                playhead: Playhead {
                    state: if self.playhead.location + frames < self.length {
                        PlayheadState::Playing
                    } else {
                        PlayheadState::Stopped
                    },
                    location: if self.playhead.location + frames < self.length {
                        (self.playhead.location + frames) as u64
                    } else {
                        self.length
                    },
                    direction: PlayheadDirection::Forward,
                },
                ..self
            }),
        decreases frames,
    {
        if frames > 0 {
            self.lemma_forward_run((frames - 1) as nat);
        }
    }

    /// A playhead that plays backward moves one location per step until it
    /// reaches zero. It stops on the step that would take it below zero, and
    /// on no earlier step.
    pub proof fn lemma_backward_run(self, frames: nat)
        requires
            !self.playhead_override_this_frame,
            self.playhead.state == PlayheadState::Playing,
            self.playhead.direction == PlayheadDirection::Backward,
        ensures
            self.stepped_times(frames) == (Channel {
                playhead: Playhead {
                    state: if frames <= self.playhead.location {
                        PlayheadState::Playing
                    } else {
                        PlayheadState::Stopped
                    },
                    location: if frames <= self.playhead.location {
                        (self.playhead.location - frames) as u64
                    } else {
                        0
                    },
                    direction: PlayheadDirection::Backward,
                },
                ..self
            }),
        decreases frames,
    {
        if frames > 0 {
            self.lemma_backward_run((frames - 1) as nat);
        }
    }

    /// A playhead that was placed from outside stays where it was put for
    /// one step, whatever its state; only the mark is cleared.
    pub proof fn lemma_override_holds_one_step(self)
        requires
            self.playhead_override_this_frame,
        ensures
            self.stepped().playhead == self.playhead,
            !self.stepped().playhead_override_this_frame,
    {
    }

    /// The first clip that covers the playhead decides the address, and a
    /// clip at unit scale and without shift maps its own start to the start
    /// of its source: at distance `k` from the start of the clip the channel
    /// selects frame `k` of the clip's source.
    pub proof fn lemma_identity_clip(self, slot: int)
        requires
            self.playhead.state == PlayheadState::Playing,
            0 <= slot < MAX_CLIPS_PER_CHANNEL,
            self.clips[slot].covers(self.playhead.location),
            forall|earlier: int|
                0 <= earlier < slot ==> !(#[trigger] self.clips[earlier]).covers(
                    self.playhead.location,
                ),
            self.clips[slot].source_scale == UNIT_SCALE,
            self.clips[slot].source_shift == 0,
            self.playhead.location - self.clips[slot].channel_location_start <= usize::MAX,
        ensures
            self.current_sound_bank_index() == Some(
                SoundBankIndex {
                    source_index: self.clips[slot].source_index,
                    frame_index: (self.playhead.location
                        - self.clips[slot].channel_location_start) as usize,
                },
            ),
    {
        lemma_first_clip(self.clips@, self.playhead.location, 0, slot);
        let distance = self.playhead.location - self.clips[slot].channel_location_start;
        assert((distance * 65536) / 65536 == distance) by (nonlinear_arith);
    }
}

/// The search for a covering clip finds the first one: a slot that covers
/// the location, with no covering slot between `from` and it, is the result.
pub proof fn lemma_first_clip(clips: Seq<Clip>, location: u64, from: int, slot: int)
    requires
        0 <= from <= slot < clips.len(),
        clips[slot].covers(location),
        forall|earlier: int| from <= earlier < slot ==> !(#[trigger] clips[earlier]).covers(location),
    ensures
        first_clip_from(clips, location, from) == Some(slot),
    decreases slot - from,
{
    if from < slot {
        assert(!clips[from].covers(location));
        lemma_first_clip(clips, location, from + 1, slot);
    }
}

/// What the search for a junction finds is a triggered slot at or after
/// `from`, and where it finds nothing, no slot at or after `from` is
/// triggered.
pub proof fn lemma_first_junction_found(junctions: Seq<Junction>, location: u64, from: int)
    requires
        0 <= from,
    ensures
        match first_junction_from(junctions, location, from) {
            Some(slot) => from <= slot < junctions.len() && junctions[slot].triggers_at(location),
            None => forall|slot: int|
                from <= slot < junctions.len() ==> !(#[trigger] junctions[slot]).triggers_at(
                    location,
                ),
        },
    decreases junctions.len() - from,
{
    if from < junctions.len() && !junctions[from].triggers_at(location) {
        lemma_first_junction_found(junctions, location, from + 1);
    }
}

} // verus!
