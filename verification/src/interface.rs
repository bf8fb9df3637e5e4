//! The control side's picture of the sequencer.
//!
//! The control side keeps its own copy of every clip and junction that it has
//! sent, fills the slots of each channel in order, and learns where the
//! playheads are from the summaries that the render side reports. It never
//! touches the state of the render side: every change travels as an edit
//! through the control queue.

use vstd::prelude::*;
use crate::channel::{
    Clip, Junction, JunctionType, Playhead, PlayheadDirection, PlayheadState,
    MAX_CLIPS_PER_CHANNEL, MAX_JUNCTIONS_PER_CHANNEL,
};
use crate::event::{SequencerControlMessage, SequencerLocation, SequencerSummary, NUM_CHANNELS};
use crate::sequencer::{SequencerController, DEFAULT_CHANNEL_LENGTH};

verus! {

/// What the pointer would do to a channel if it were pressed.
#[derive(Debug, Clone, Copy, PartialEq, Eq, Structural)]
pub enum ChannelAction {
    GrabClip { clip_index: usize },
    CreateJunction,
    ModifyJunction,
    SetPlayhead,
}

/// What the pointer would do if it were pressed.
#[derive(Debug, Clone, Copy, PartialEq, Eq, Structural)]
pub enum Action {
    Channel { channel_action: ChannelAction, channel_index: usize, channel_location: u64 },
    NoAction,
}

impl Default for Action {
    fn default() -> (action: Self)
        ensures
            action == Action::NoAction,
    {
        Action::NoAction
    }
}

/// What the control side is doing with the pointer.
#[derive(Debug, Clone, Copy, PartialEq, Eq, Structural)]
pub enum State {
    GrabbingClip { channel_index: usize, clip_index: usize, relative_location: u64 },
    CreatingJunction { source_channel_index: usize, source_channel_location: u64 },
    Hovering { potential_action: Action },
}

impl Default for State {
    fn default() -> (state: Self)
        ensures
            state == (State::Hovering { potential_action: Action::NoAction }),
    {
        State::Hovering { potential_action: Action::NoAction }
    }
}

/// A button of the pointing device.
#[derive(Debug, Clone, Copy, PartialEq, Eq, Structural)]
pub enum PointerButton {
    Left,
    Right,
    Middle,
    Other,
}

/// Whether a button went down or came up.
#[derive(Debug, Clone, Copy, PartialEq, Eq, Structural)]
pub enum ButtonState {
    Pressed,
    Released,
}

/// The shape of the pointer.
#[derive(Debug, Clone, Copy, PartialEq, Eq, Structural)]
pub enum CursorIcon {
    Default,
    Crosshair,
    Hand,
    Grab,
    Grabbing,
}

impl State {
    /// The shape that the pointer takes in this state: it shows what a
    /// press would do, or what is being done.
    pub open spec fn cursor(self) -> CursorIcon {
        match self {
            State::GrabbingClip { .. } => CursorIcon::Grabbing,
            State::CreatingJunction { .. } => CursorIcon::Hand,
            State::Hovering { potential_action } => match potential_action {
                Action::Channel { channel_action, .. } => match channel_action {
                    ChannelAction::GrabClip { .. } => CursorIcon::Grab,
                    ChannelAction::CreateJunction => CursorIcon::Hand,
                    ChannelAction::ModifyJunction => CursorIcon::Default,
                    ChannelAction::SetPlayhead => CursorIcon::Crosshair,
                },
                Action::NoAction => CursorIcon::Default,
            },
        }
    }

    pub fn cursor_icon(&self) -> (icon: CursorIcon)
        ensures
            icon == self.cursor(),
    {
        match self {
            State::GrabbingClip { .. } => CursorIcon::Grabbing,
            State::CreatingJunction { .. } => CursorIcon::Hand,
            State::Hovering { potential_action } => match potential_action {
                Action::Channel { channel_action, .. } => match channel_action {
                    ChannelAction::GrabClip { .. } => CursorIcon::Grab,
                    ChannelAction::CreateJunction => CursorIcon::Hand,
                    ChannelAction::ModifyJunction => CursorIcon::Default,
                    ChannelAction::SetPlayhead => CursorIcon::Crosshair,
                },
                Action::NoAction => CursorIcon::Default,
            },
        }
    }
}

/// What the instrument as a whole is doing.
#[derive(Debug, Clone, Copy, PartialEq, Eq, Structural)]
pub enum InstrumentState {
    Sequencer(State),
    NotDoingAnything,
}

impl Default for InstrumentState {
    fn default() -> (state: Self)
        ensures
            state == InstrumentState::NotDoingAnything,
    {
        InstrumentState::NotDoingAnything
    }
}

/// The control side's copy of a clip.
#[derive(Debug, Clone, Copy, PartialEq, Eq, Structural)]
pub struct ClipInterface {
    pub model: Clip,
}

/// The control side's copy of a junction.
#[derive(Debug, Clone, Copy, PartialEq, Eq, Structural)]
pub struct JunctionInterface {
    pub model: Junction,
}

/// The control side's copy of a channel. The slots below the active counts
/// are the ones that were filled, in the order in which they were filled.
#[derive(Debug, Clone, Copy, PartialEq, Eq)]
pub struct ChannelInterface {
    pub clips: [ClipInterface; MAX_CLIPS_PER_CHANNEL],
    pub junctions: [JunctionInterface; MAX_JUNCTIONS_PER_CHANNEL],
    pub active_clips: usize,
    pub active_junctions: usize,
}

impl ChannelInterface {
    /// The channel before anything was added to it.
    pub open spec fn empty() -> ChannelInterface {
        ChannelInterface {
            clips: [ClipInterface { model: Clip::empty() }; MAX_CLIPS_PER_CHANNEL],
            junctions: [JunctionInterface { model: Junction::empty() }; MAX_JUNCTIONS_PER_CHANNEL],
            active_clips: 0,
            active_junctions: 0,
        }
    }

    /// This channel with a clip in its next free slot.
    pub open spec fn with_clip_added(self, model: Clip) -> ChannelInterface {
        ChannelInterface {
            clips: vstd::array::spec_array_update(
                self.clips,
                self.active_clips as int,
                ClipInterface { model },
            ),
            active_clips: (self.active_clips + 1) as usize,
            ..self
        }
    }

    /// This channel with a junction in its next free slot.
    pub open spec fn with_junction_added(self, model: Junction) -> ChannelInterface {
        ChannelInterface {
            junctions: vstd::array::spec_array_update(
                self.junctions,
                self.active_junctions as int,
                JunctionInterface { model },
            ),
            active_junctions: (self.active_junctions + 1) as usize,
            ..self
        }
    }

    /// This channel with one of its clips replaced.
    pub open spec fn with_clip(self, slot: int, model: Clip) -> ChannelInterface {
        ChannelInterface {
            clips: vstd::array::spec_array_update(self.clips, slot, ClipInterface { model }),
            ..self
        }
    }
}

/// Why the control side could not make a change.
#[derive(Debug, Clone, Copy, PartialEq, Eq, Structural)]
pub enum InterfaceError {
    /// The channel does not exist.
    NoSuchChannel,
    /// The clip slot does not exist.
    NoSuchClip,
    /// Every slot of the channel is filled.
    NoFreeSlot,
    /// The clip ends before it starts, or is longer than the channel.
    ClipDoesNotFit,
    /// The pointer is before the start of the clip that it is to grab.
    NotOnClip,
    /// The control queue had no room. The change may be tried again.
    QueueFull,
}

/// A clip moved along its channel: it keeps its length, starts where the
/// pointer is minus the distance at which it was grabbed, but not before the
/// start of the channel and not so late that it would reach beyond the end.
pub open spec fn moved_clip(
    clip: Clip,
    channel_length: u64,
    pointer_location: u64,
    relative_location: u64,
) -> Clip {
    let width = clip.channel_location_end - clip.channel_location_start;
    let wanted = if pointer_location >= relative_location {
        pointer_location - relative_location
    } else {
        0
    };
    let start = if wanted <= channel_length - width {
        wanted
    } else {
        channel_length - width
    };
    Clip {
        channel_location_start: start as u64,
        channel_location_end: (start + width) as u64,
        ..clip
    }
}

pub struct SequencerInterface {
    controller: SequencerController,
    channels: [ChannelInterface; NUM_CHANNELS],
    summary: SequencerSummary,
    channel_length: u64,
    state: State,
}

impl SequencerInterface {
    /// What the control side is doing with the pointer.
    pub closed spec fn state(&self) -> State {
        self.state
    }

    /// The state in which a clip is held at the point where the pointer
    /// took it: the distance from the start of the clip to the pointer is
    /// kept for as long as the clip is held.
    pub open spec fn grab(&self, channel_index: usize, clip_index: usize, channel_location: u64)
        -> Result<State, InterfaceError> {
        if channel_index >= NUM_CHANNELS {
            Err(InterfaceError::NoSuchChannel)
        } else if clip_index >= MAX_CLIPS_PER_CHANNEL {
            Err(InterfaceError::NoSuchClip)
        } else {
            let clip = self.channels()[channel_index as int].clips[clip_index as int].model;
            if channel_location < clip.channel_location_start {
                Err(InterfaceError::NotOnClip)
            } else {
                Ok(
                    State::GrabbingClip {
                        channel_index,
                        clip_index,
                        relative_location: (channel_location - clip.channel_location_start) as u64,
                    },
                )
            }
        }
    }

    /// Whether `after` and `slot` are a possible outcome of adding a
    /// junction to a channel of `self`: the junction is in the next free slot
    /// of the channel and the slot is answered, or, where the edit cannot be
    /// made or the queue refuses it, nothing has changed.
    pub open spec fn adds_junction(
        &self,
        after: &Self,
        channel_index: usize,
        model: Junction,
        slot: Result<usize, InterfaceError>,
    ) -> bool {
        match slot {
            Ok(slot) => {
                &&& self.junction_edit(channel_index, model) is Ok
                &&& slot == self.channels()[channel_index as int].active_junctions
                &&& after.channels() == self.channels().update(
                    channel_index as int,
                    self.channels()[channel_index as int].with_junction_added(model),
                )
            },
            Err(error) => {
                &&& after.channels() == self.channels()
                &&& match self.junction_edit(channel_index, model) {
                    Ok(message) => error == InterfaceError::QueueFull,
                    Err(refusal) => error == refusal,
                }
            },
        }
    }

    /// Whether `after` and `moved` are a possible outcome of moving a clip
    /// of `self` along its channel: the clip stands where the move puts it
    /// and is answered, or, where the edit cannot be made or the queue
    /// refuses it, nothing has changed.
    pub open spec fn moves_clip(
        &self,
        after: &Self,
        channel_index: usize,
        clip_index: usize,
        pointer_location: u64,
        relative_location: u64,
        moved: Result<Clip, InterfaceError>,
    ) -> bool {
        match moved {
            Ok(clip) => {
                &&& self.move_edit(channel_index, clip_index, pointer_location, relative_location)
                    matches Ok(SequencerControlMessage::SyncClip { clip: sent, .. })
                &&& clip == sent
                &&& after.channels() == self.channels().update(
                    channel_index as int,
                    self.channels()[channel_index as int].with_clip(clip_index as int, clip),
                )
            },
            Err(error) => {
                &&& after.channels() == self.channels()
                &&& match self.move_edit(
                    channel_index,
                    clip_index,
                    pointer_location,
                    relative_location,
                ) {
                    Ok(message) => error == InterfaceError::QueueFull,
                    Err(refusal) => error == refusal,
                }
            },
        }
    }

    /// Whether `placed` is a possible outcome of placing a playhead: a
    /// channel that does not exist is refused, and for one that exists only
    /// the queue can refuse.
    pub open spec fn places_playhead(channel_index: usize, placed: Result<(), InterfaceError>)
        -> bool {
        if channel_index >= NUM_CHANNELS {
            placed == Err::<(), InterfaceError>(InterfaceError::NoSuchChannel)
        } else {
            placed is Ok || placed == Err::<(), InterfaceError>(InterfaceError::QueueFull)
        }
    }

    /// The junction that is drawn from one place to another. Drawn to a
    /// place on its own channel, it is a reflection at that place. Drawn to
    /// another channel, it is a jump from where it was started to where it
    /// ends, and the arriving playhead goes on.
    pub open spec fn drawn_junction(
        source_channel_index: usize,
        source_channel_location: u64,
        pointer_channel_index: usize,
        pointer_location: u64,
    ) -> Junction {
        if pointer_channel_index == source_channel_index {
            Junction {
                enabled: true,
                location: pointer_location,
                junction_type: JunctionType::Reflect,
            }
        } else {
            Junction {
                enabled: true,
                location: source_channel_location,
                junction_type: JunctionType::Jump {
                    destination_channel_index: pointer_channel_index,
                    destination_location: pointer_location,
                    split: true,
                },
            }
        }
    }

    /// The control side's copy of each channel.
    pub closed spec fn channels(&self) -> Seq<ChannelInterface> {
        self.channels@
    }

    /// The summary that was received last.
    pub closed spec fn summary(&self) -> SequencerSummary {
        self.summary
    }

    /// The length of every channel, in frames.
    pub closed spec fn channel_length(&self) -> u64 {
        self.channel_length
    }

    /// The edit that adds a clip to a channel: it fills the next free clip
    /// slot of the channel.
    pub open spec fn clip_edit(&self, channel_index: usize, model: Clip) -> Result<
        SequencerControlMessage,
        InterfaceError,
    > {
        if channel_index >= NUM_CHANNELS {
            Err(InterfaceError::NoSuchChannel)
        } else if self.channels()[channel_index as int].active_clips >= MAX_CLIPS_PER_CHANNEL {
            Err(InterfaceError::NoFreeSlot)
        } else {
            Ok(
                SequencerControlMessage::SyncClip {
                    sequencer_location: SequencerLocation {
                        channel_index,
                        channel_location: self.channels()[channel_index as int].active_clips,
                    },
                    clip: model,
                },
            )
        }
    }

    /// The edit that adds a junction to a channel: it fills the next free
    /// junction slot of the channel. A junction that jumps to a channel that
    /// does not exist is refused like one that is added to such a channel.
    pub open spec fn junction_edit(&self, channel_index: usize, model: Junction) -> Result<
        SequencerControlMessage,
        InterfaceError,
    > {
        if channel_index >= NUM_CHANNELS || (model.junction_type matches JunctionType::Jump {
            destination_channel_index,
            ..
        } && destination_channel_index >= NUM_CHANNELS) {
            Err(InterfaceError::NoSuchChannel)
        } else if self.channels()[channel_index as int].active_junctions
            >= MAX_JUNCTIONS_PER_CHANNEL {
            Err(InterfaceError::NoFreeSlot)
        } else {
            Ok(
                SequencerControlMessage::SyncJunction {
                    sequencer_location: SequencerLocation {
                        channel_index,
                        channel_location: self.channels()[channel_index as int].active_junctions,
                    },
                    junction: model,
                },
            )
        }
    }

    /// The playhead that a press on a channel places: it plays from the
    /// pointer on, forward for the left button and backward for any other.
    pub open spec fn pressed_playhead(channel_location: u64, button: PointerButton) -> Playhead {
        Playhead {
            state: PlayheadState::Playing,
            location: channel_location,
            direction: if button == PointerButton::Left {
                PlayheadDirection::Forward
            } else {
                PlayheadDirection::Backward
            },
        }
    }

    /// The edit that places the playhead of a channel.
    pub open spec fn playhead_edit(channel_index: usize, playhead: Playhead) -> Result<
        SequencerControlMessage,
        InterfaceError,
    > {
        if channel_index >= NUM_CHANNELS {
            Err(InterfaceError::NoSuchChannel)
        } else {
            Ok(SequencerControlMessage::SyncPlayhead { channel_index, playhead })
        }
    }

    /// The edit that moves a clip along its channel.
    pub open spec fn move_edit(
        &self,
        channel_index: usize,
        clip_index: usize,
        pointer_location: u64,
        relative_location: u64,
    ) -> Result<SequencerControlMessage, InterfaceError> {
        if channel_index >= NUM_CHANNELS {
            Err(InterfaceError::NoSuchChannel)
        } else if clip_index >= MAX_CLIPS_PER_CHANNEL {
            Err(InterfaceError::NoSuchClip)
        } else {
            let clip = self.channels()[channel_index as int].clips[clip_index as int].model;
            if clip.channel_location_end < clip.channel_location_start
                || clip.channel_location_end - clip.channel_location_start
                > self.channel_length() {
                Err(InterfaceError::ClipDoesNotFit)
            } else {
                Ok(
                    SequencerControlMessage::SyncClip {
                        sequencer_location: SequencerLocation {
                            channel_index,
                            channel_location: clip_index,
                        },
                        clip: moved_clip(
                            clip,
                            self.channel_length(),
                            pointer_location,
                            relative_location,
                        ),
                    },
                )
            }
        }
    }

    /// Whether `after` and `next` are a possible outcome of a button of the
    /// pointer acting on an action. The left button going down on a clip
    /// takes hold of the clip, and on the junction lane starts to draw a
    /// junction from there. Any button going down elsewhere on a channel
    /// places the playhead of the channel at the pointer. Nothing else does
    /// anything.
    pub open spec fn acts(
        &self,
        after: &Self,
        action: Action,
        button: PointerButton,
        element_state: ButtonState,
        next: Result<State, InterfaceError>,
    ) -> bool {
        match action {
            Action::Channel {
                channel_action: ChannelAction::GrabClip { clip_index },
                channel_index,
                channel_location,
            } if button == PointerButton::Left && element_state == ButtonState::Pressed => {
                &&& next == self.grab(channel_index, clip_index, channel_location)
                &&& after.channels() == self.channels()
            },
            Action::Channel {
                channel_action: ChannelAction::CreateJunction,
                channel_index,
                channel_location,
            } if button == PointerButton::Left && element_state == ButtonState::Pressed => {
                &&& next == Ok::<State, InterfaceError>(
                    State::CreatingJunction {
                        source_channel_index: channel_index,
                        source_channel_location: channel_location,
                    },
                )
                &&& after.channels() == self.channels()
            },
            Action::Channel {
                channel_action: ChannelAction::SetPlayhead,
                channel_index,
                channel_location,
            } if element_state == ButtonState::Pressed => {
                &&& after.channels() == self.channels()
                &&& exists|placed: Result<(), InterfaceError>|
                    {
                        &&& #[trigger] Self::places_playhead(channel_index, placed)
                        &&& next == (match placed {
                            Ok(_) => Ok::<State, InterfaceError>(self.state()),
                            Err(error) => Err::<State, InterfaceError>(error),
                        })
                    }
            },
            _ => {
                &&& next == Ok::<State, InterfaceError>(self.state())
                &&& after.channels() == self.channels()
            },
        }
    }

    /// The control side of a new sequencer: nothing was added to any
    /// channel, and no summary has arrived.
    pub fn init(controller: SequencerController) -> (interface: Self)
        ensures
            interface.channels() == Seq::new(
                NUM_CHANNELS as nat,
                |index: int| ChannelInterface::empty(),
            ),
            interface.summary() == SequencerSummary::initial(),
            interface.channel_length() == DEFAULT_CHANNEL_LENGTH,
            interface.state() == (State::Hovering { potential_action: Action::NoAction }),
    {
        let channel = ChannelInterface {
            clips: [ClipInterface { model: Clip::default() }; MAX_CLIPS_PER_CHANNEL],
            junctions: [JunctionInterface { model: Junction::default() }; MAX_JUNCTIONS_PER_CHANNEL],
            active_clips: 0,
            active_junctions: 0,
        };
        let interface = SequencerInterface {
            controller,
            channels: [channel; NUM_CHANNELS],
            summary: SequencerSummary::default(),
            channel_length: DEFAULT_CHANNEL_LENGTH,
            state: State::default(),
        };
        proof {
            assert(interface.channels@ =~= Seq::new(
                NUM_CHANNELS as nat,
                |index: int| ChannelInterface::empty(),
            ));
        }
        interface
    }

    /// Decides `clip_edit`.
    pub fn get_clip_edit(&self, channel_index: usize, model: Clip) -> (edit: Result<
        SequencerControlMessage,
        InterfaceError,
    >)
        ensures
            edit == self.clip_edit(channel_index, model),
            edit matches Ok(message) ==> message.valid(),
    {
        if channel_index >= NUM_CHANNELS {
            Err(InterfaceError::NoSuchChannel)
        } else if self.channels[channel_index].active_clips >= MAX_CLIPS_PER_CHANNEL {
            Err(InterfaceError::NoFreeSlot)
        } else {
            Ok(
                SequencerControlMessage::SyncClip {
                    sequencer_location: SequencerLocation {
                        channel_index,
                        channel_location: self.channels[channel_index].active_clips,
                    },
                    clip: model,
                },
            )
        }
    }

    /// Decides `junction_edit`.
    pub fn get_junction_edit(&self, channel_index: usize, model: Junction) -> (edit: Result<
        SequencerControlMessage,
        InterfaceError,
    >)
        ensures
            edit == self.junction_edit(channel_index, model),
            edit matches Ok(message) ==> message.valid(),
    {
        let destination_exists = match model.junction_type {
            JunctionType::Jump { destination_channel_index, .. } => {
                destination_channel_index < NUM_CHANNELS
            },
            JunctionType::Reflect => true,
            JunctionType::Stop => true,
        };
        if channel_index >= NUM_CHANNELS || !destination_exists {
            Err(InterfaceError::NoSuchChannel)
        } else if self.channels[channel_index].active_junctions >= MAX_JUNCTIONS_PER_CHANNEL {
            Err(InterfaceError::NoFreeSlot)
        } else {
            Ok(
                SequencerControlMessage::SyncJunction {
                    sequencer_location: SequencerLocation {
                        channel_index,
                        channel_location: self.channels[channel_index].active_junctions,
                    },
                    junction: model,
                },
            )
        }
    }

    /// Decides `drawn_junction`.
    pub fn get_drawn_junction(
        source_channel_index: usize,
        source_channel_location: u64,
        pointer_channel_index: usize,
        pointer_location: u64,
    ) -> (junction: Junction)
        ensures
            junction == Self::drawn_junction(
                source_channel_index,
                source_channel_location,
                pointer_channel_index,
                pointer_location,
            ),
    {
        if pointer_channel_index == source_channel_index {
            Junction {
                enabled: true,
                location: pointer_location,
                junction_type: JunctionType::Reflect,
            }
        } else {
            Junction {
                enabled: true,
                location: source_channel_location,
                junction_type: JunctionType::Jump {
                    destination_channel_index: pointer_channel_index,
                    destination_location: pointer_location,
                    split: true,
                },
            }
        }
    }

    /// Decides `pressed_playhead`.
    pub fn get_pressed_playhead(channel_location: u64, button: PointerButton) -> (playhead:
        Playhead)
        ensures
            playhead == Self::pressed_playhead(channel_location, button),
    {
        Playhead {
            state: PlayheadState::Playing,
            location: channel_location,
            direction: match button {
                PointerButton::Left => PlayheadDirection::Forward,
                PointerButton::Right => PlayheadDirection::Backward,
                PointerButton::Middle => PlayheadDirection::Backward,
                PointerButton::Other => PlayheadDirection::Backward,
            },
        }
    }

    /// Decides `playhead_edit`.
    pub fn get_playhead_edit(&self, channel_index: usize, playhead: Playhead) -> (edit: Result<
        SequencerControlMessage,
        InterfaceError,
    >)
        ensures
            edit == Self::playhead_edit(channel_index, playhead),
            edit matches Ok(message) ==> message.valid(),
    {
        if channel_index >= NUM_CHANNELS {
            Err(InterfaceError::NoSuchChannel)
        } else {
            Ok(SequencerControlMessage::SyncPlayhead { channel_index, playhead })
        }
    }

    /// A sequencer has `NUM_CHANNELS` channels at all times, and so has the
    /// control side's picture of it.
    pub proof fn lemma_channel_count(&self)
        ensures
            self.channels().len() == NUM_CHANNELS,
    {
    }

    /// Decides `move_edit`.
    pub fn get_move_edit(
        &self,
        channel_index: usize,
        clip_index: usize,
        pointer_location: u64,
        relative_location: u64,
    ) -> (edit: Result<SequencerControlMessage, InterfaceError>)
        ensures
            edit == self.move_edit(channel_index, clip_index, pointer_location, relative_location),
            edit matches Ok(message) ==> message.valid(),
    {
        if channel_index >= NUM_CHANNELS {
            return Err(InterfaceError::NoSuchChannel);
        }
        if clip_index >= MAX_CLIPS_PER_CHANNEL {
            return Err(InterfaceError::NoSuchClip);
        }
        let clip = self.channels[channel_index].clips[clip_index].model;
        if clip.channel_location_end < clip.channel_location_start || clip.channel_location_end
            - clip.channel_location_start > self.channel_length {
            return Err(InterfaceError::ClipDoesNotFit);
        }
        let width: u64 = clip.channel_location_end - clip.channel_location_start;
        let wanted: u64 = if pointer_location >= relative_location {
            pointer_location - relative_location
        } else {
            0
        };
        let latest: u64 = self.channel_length - width;
        let start: u64 = if wanted <= latest {
            wanted
        } else {
            latest
        };
        Ok(
            SequencerControlMessage::SyncClip {
                sequencer_location: SequencerLocation {
                    channel_index,
                    channel_location: clip_index,
                },
                clip: Clip {
                    channel_location_start: start,
                    channel_location_end: start + width,
                    ..clip
                },
            },
        )
    }

    /// Adds a clip to a channel: the clip goes into the next free clip slot
    /// of the channel, here and, through the control queue, on the render
    /// side. The slot is answered.
    ///
    /// Where the edit cannot be made, or the queue refuses it, nothing
    /// changes here.
    pub fn add_clip(&mut self, channel_index: usize, model: Clip) -> (slot: Result<
        usize,
        InterfaceError,
    >)
        ensures
            final(self).summary() == old(self).summary(),
            final(self).channel_length() == old(self).channel_length(),
            final(self).state() == old(self).state(),
            match slot {
                Ok(slot) => {
                    &&& old(self).clip_edit(channel_index, model) is Ok
                    &&& slot == old(self).channels()[channel_index as int].active_clips
                    &&& final(self).channels() == old(self).channels().update(
                        channel_index as int,
                        old(self).channels()[channel_index as int].with_clip_added(model),
                    )
                },
                Err(error) => {
                    &&& final(self).channels() == old(self).channels()
                    &&& match old(self).clip_edit(channel_index, model) {
                        Ok(message) => error == InterfaceError::QueueFull,
                        Err(refusal) => error == refusal,
                    }
                },
            },
    {
        let message = match self.get_clip_edit(channel_index, model) {
            Ok(message) => message,
            Err(refusal) => {
                return Err(refusal);
            },
        };
        let accepted = self.controller.send(message).is_ok();
        self.settle_clip(channel_index, model, accepted)
    }

    /// Settles the adding of a clip once the queue has answered. Where the
    /// queue has accepted the edit, the clip is recorded in the next free
    /// clip slot of the channel, the slot counts as filled, and the slot is
    /// the answer. Where it has not, nothing is recorded and the answer is
    /// that the queue was full.
    pub fn settle_clip(&mut self, channel_index: usize, model: Clip, accepted: bool) -> (slot:
        Result<usize, InterfaceError>)
        requires
            channel_index < NUM_CHANNELS,
            old(self).channels()[channel_index as int].active_clips < MAX_CLIPS_PER_CHANNEL,
        ensures
            final(self).summary() == old(self).summary(),
            final(self).channel_length() == old(self).channel_length(),
            final(self).state() == old(self).state(),
            accepted ==> slot == Ok::<usize, InterfaceError>(
                old(self).channels()[channel_index as int].active_clips,
            ) && final(self).channels() == old(self).channels().update(
                channel_index as int,
                old(self).channels()[channel_index as int].with_clip_added(model),
            ),
            !accepted ==> slot == Err::<usize, InterfaceError>(InterfaceError::QueueFull) && final(self).channels() == old(self).channels(),
    {
        if !accepted {
            return Err(InterfaceError::QueueFull);
        }
        let slot: usize = self.channels[channel_index].active_clips;
        self.channels[channel_index].clips[slot] = ClipInterface { model };
        self.channels[channel_index].active_clips = slot + 1;
        proof {
            assert(self.channels@ =~= old(self).channels@.update(
                channel_index as int,
                old(self).channels@[channel_index as int].with_clip_added(model),
            ));
        }
        Ok(slot)
    }

    /// Adds a junction to a channel: the junction goes into the next free
    /// junction slot of the channel, here and, through the control queue, on
    /// the render side. The slot is answered.
    ///
    /// Where the edit cannot be made, or the queue refuses it, nothing
    /// changes here.
    pub fn handle_create_junction(&mut self, channel_index: usize, model: Junction) -> (slot:
        Result<usize, InterfaceError>)
        ensures
            final(self).summary() == old(self).summary(),
            final(self).channel_length() == old(self).channel_length(),
            final(self).state() == old(self).state(),
            old(self).adds_junction(final(self), channel_index, model, slot),
    {
        let message = match self.get_junction_edit(channel_index, model) {
            Ok(message) => message,
            Err(refusal) => {
                return Err(refusal);
            },
        };
        let accepted = self.controller.send(message).is_ok();
        self.settle_junction(channel_index, model, accepted)
    }

    /// Settles the adding of a junction once the queue has answered. Where
    /// the queue has accepted the edit, the junction is recorded in the next
    /// free junction slot of the channel, the slot counts as filled, and the
    /// slot is the answer. Where it has not, nothing is recorded and the
    /// answer is that the queue was full.
    pub fn settle_junction(&mut self, channel_index: usize, model: Junction, accepted: bool) -> (slot:
        Result<usize, InterfaceError>)
        requires
            channel_index < NUM_CHANNELS,
            old(self).channels()[channel_index as int].active_junctions
                < MAX_JUNCTIONS_PER_CHANNEL,
        ensures
            final(self).summary() == old(self).summary(),
            final(self).channel_length() == old(self).channel_length(),
            final(self).state() == old(self).state(),
            accepted ==> slot == Ok::<usize, InterfaceError>(
                old(self).channels()[channel_index as int].active_junctions,
            ) && final(self).channels() == old(self).channels().update(
                channel_index as int,
                old(self).channels()[channel_index as int].with_junction_added(model),
            ),
            !accepted ==> slot == Err::<usize, InterfaceError>(InterfaceError::QueueFull) && final(self).channels() == old(self).channels(),
    {
        if !accepted {
            return Err(InterfaceError::QueueFull);
        }
        let slot: usize = self.channels[channel_index].active_junctions;
        self.channels[channel_index].junctions[slot] = JunctionInterface { model };
        self.channels[channel_index].active_junctions = slot + 1;
        proof {
            assert(self.channels@ =~= old(self).channels@.update(
                channel_index as int,
                old(self).channels@[channel_index as int].with_junction_added(model),
            ));
        }
        Ok(slot)
    }

    /// Moves a clip along its channel, here and, through the control queue,
    /// on the render side. The clip as it stands after the move is answered.
    ///
    /// Where the edit cannot be made, or the queue refuses it, nothing
    /// changes here.
    pub fn handle_clip_move(
        &mut self,
        channel_index: usize,
        clip_index: usize,
        pointer_location: u64,
        relative_location: u64,
    ) -> (moved: Result<Clip, InterfaceError>)
        ensures
            final(self).summary() == old(self).summary(),
            final(self).channel_length() == old(self).channel_length(),
            final(self).state() == old(self).state(),
            old(self).moves_clip(
                final(self),
                channel_index,
                clip_index,
                pointer_location,
                relative_location,
                moved,
            ),
    {
        let message = match self.get_move_edit(
            channel_index,
            clip_index,
            pointer_location,
            relative_location,
        ) {
            Ok(message) => message,
            Err(refusal) => {
                return Err(refusal);
            },
        };
        let clip = match message {
            SequencerControlMessage::SyncClip { sequencer_location, clip } => clip,
            SequencerControlMessage::SyncJunction { sequencer_location, junction } => {
                return Err(InterfaceError::NoSuchClip);
            },
            SequencerControlMessage::SyncPlayhead { channel_index, playhead } => {
                return Err(InterfaceError::NoSuchClip);
            },
        };
        let accepted = self.controller.send(message).is_ok();
        self.settle_move(channel_index, clip_index, clip, accepted)
    }

    /// Settles the move of a clip once the queue has answered. Where the
    /// queue has accepted the edit, the clip as moved replaces the clip in
    /// its slot and is the answer. Where it has not, nothing is recorded and
    /// the answer is that the queue was full.
    pub fn settle_move(&mut self, channel_index: usize, clip_index: usize, clip: Clip, accepted: bool)
        -> (moved: Result<Clip, InterfaceError>)
        requires
            channel_index < NUM_CHANNELS,
            clip_index < MAX_CLIPS_PER_CHANNEL,
        ensures
            final(self).summary() == old(self).summary(),
            final(self).channel_length() == old(self).channel_length(),
            final(self).state() == old(self).state(),
            accepted ==> moved == Ok::<Clip, InterfaceError>(clip) && final(self).channels() == old(self).channels().update(
                channel_index as int,
                old(self).channels()[channel_index as int].with_clip(clip_index as int, clip),
            ),
            !accepted ==> moved == Err::<Clip, InterfaceError>(InterfaceError::QueueFull) && final(self).channels() == old(self).channels(),
    {
        if !accepted {
            return Err(InterfaceError::QueueFull);
        }
        self.channels[channel_index].clips[clip_index] = ClipInterface { model: clip };
        proof {
            assert(self.channels@ =~= old(self).channels@.update(
                channel_index as int,
                old(self).channels@[channel_index as int].with_clip(clip_index as int, clip),
            ));
        }
        Ok(clip)
    }

    /// Places the playhead of a channel on the render side. The playhead
    /// stays where it is put for one frame and moves on from there.
    pub fn handle_set_playhead(&mut self, channel_index: usize, playhead: Playhead) -> (placed:
        Result<(), InterfaceError>)
        ensures
            final(self).summary() == old(self).summary(),
            final(self).channel_length() == old(self).channel_length(),
            final(self).state() == old(self).state(),
            final(self).channels() == old(self).channels(),
            Self::places_playhead(channel_index, placed),
    {
        let message = match self.get_playhead_edit(channel_index, playhead) {
            Ok(message) => message,
            Err(refusal) => {
                return Err(refusal);
            },
        };
        match self.controller.send(message) {
            Ok(()) => Ok(()),
            Err(_) => Err(InterfaceError::QueueFull),
        }
    }

    /// Takes in the summaries that the render side has reported since the
    /// last call, and keeps the latest. Without a new summary the old one
    /// stays.
    ///
    /// Which events have arrived is decided by the render side: the summary
    /// is what taking in the latest summary of some run of events leaves.
    pub fn update(&mut self)
        ensures
            final(self).channels() == old(self).channels(),
            final(self).channel_length() == old(self).channel_length(),
            final(self).state() == old(self).state(),
            exists|events: Seq<crate::event::SequencerEvent>|
                events.len() <= crate::sequencer::RING_BUFFER_CAPACITY && final(self).summary()
                    == #[trigger] refreshed(
                    old(self).summary(),
                    crate::event::latest_of(None, events),
                ),
    {
        let latest = self.controller.latest_summary();
        self.take_summary(latest);
        proof {
            let events = choose|events: Seq<crate::event::SequencerEvent>|
                events.len() <= crate::sequencer::RING_BUFFER_CAPACITY && latest
                    == #[trigger] crate::event::latest_of(None, events);
            assert(self.summary() == refreshed(
                old(self).summary(),
                crate::event::latest_of(None, events),
            ));
        }
    }

    /// Takes in the latest summary that has arrived, if one has: it
    /// replaces the summary that was held. Nothing else changes.
    pub fn take_summary(&mut self, latest: Option<SequencerSummary>)
        ensures
            final(self).summary() == refreshed(old(self).summary(), latest),
            final(self).channels() == old(self).channels(),
            final(self).channel_length() == old(self).channel_length(),
            final(self).state() == old(self).state(),
    {
        match latest {
            Some(summary) => {
                self.summary = summary;
            },
            None => {},
        }
    }

    /// Acts on what a button of the pointer does to the action that the
    /// pointer hovers over. The left button going down on a clip takes hold
    /// of the clip, and on the junction lane starts to draw a junction. Any
    /// button going down elsewhere on a channel places the playhead of the
    /// channel at the pointer. Nothing else does anything. The state that
    /// follows is answered and kept; where something is refused, the state
    /// stays.
    pub fn handle_action(&mut self, action: Action, button: PointerButton, element_state: ButtonState)
        -> (next: Result<State, InterfaceError>)
        ensures
            final(self).summary() == old(self).summary(),
            final(self).channel_length() == old(self).channel_length(),
            final(self).state() == (match next {
                Ok(state) => state,
                Err(_) => old(self).state(),
            }),
            old(self).acts(final(self), action, button, element_state, next),
    {
        let pressed = match element_state {
            ButtonState::Pressed => true,
            ButtonState::Released => false,
        };
        let left = match button {
            PointerButton::Left => true,
            PointerButton::Right => false,
            PointerButton::Middle => false,
            PointerButton::Other => false,
        };
        match action {
            Action::Channel { channel_action, channel_index, channel_location } => {
                match channel_action {
                    ChannelAction::GrabClip { clip_index } => {
                        if !(left && pressed) {
                            return Ok(self.state);
                        }
                        if channel_index >= NUM_CHANNELS {
                            return Err(InterfaceError::NoSuchChannel);
                        }
                        if clip_index >= MAX_CLIPS_PER_CHANNEL {
                            return Err(InterfaceError::NoSuchClip);
                        }
                        let clip = self.channels[channel_index].clips[clip_index].model;
                        if channel_location < clip.channel_location_start {
                            return Err(InterfaceError::NotOnClip);
                        }
                        let state = State::GrabbingClip {
                            channel_index,
                            clip_index,
                            relative_location: channel_location - clip.channel_location_start,
                        };
                        self.state = state;
                        Ok(state)
                    },
                    ChannelAction::CreateJunction => {
                        if !(left && pressed) {
                            return Ok(self.state);
                        }
                        let state = State::CreatingJunction {
                            source_channel_index: channel_index,
                            source_channel_location: channel_location,
                        };
                        self.state = state;
                        Ok(state)
                    },
                    ChannelAction::ModifyJunction => Ok(self.state),
                    ChannelAction::SetPlayhead => {
                        if !pressed {
                            return Ok(self.state);
                        }
                        let playhead = Self::get_pressed_playhead(channel_location, button);
                        match self.handle_set_playhead(channel_index, playhead) {
                            Ok(()) => Ok(self.state),
                            Err(error) => Err(error),
                        }
                    },
                }
            },
            Action::NoAction => Ok(self.state),
        }
    }

    /// Acts on a button of the pointer while the pointer is at a location of
    /// a channel. While a clip is held, the left button coming up lets go of
    /// it. While a junction is drawn, the left button coming up ends the
    /// drawing and adds the junction that was drawn. While the pointer
    /// hovers, the button acts on what the pointer hovers over. Nothing else
    /// does anything.
    pub fn handle_mouse_input(
        &mut self,
        button: PointerButton,
        element_state: ButtonState,
        pointer_channel_index: usize,
        pointer_location: u64,
    ) -> (next: Result<State, InterfaceError>)
        ensures
            final(self).summary() == old(self).summary(),
            final(self).channel_length() == old(self).channel_length(),
            final(self).state() == (match next {
                Ok(state) => state,
                Err(_) => if old(self).state() is CreatingJunction {
                    State::Hovering { potential_action: Action::NoAction }
                } else {
                    old(self).state()
                },
            }),
            match old(self).state() {
                State::GrabbingClip { .. } => {
                    &&& final(self).channels() == old(self).channels()
                    &&& next == Ok::<State, InterfaceError>(
                        if button == PointerButton::Left && element_state == ButtonState::Released {
                            State::Hovering { potential_action: Action::NoAction }
                        } else {
                            old(self).state()
                        },
                    )
                },
                State::CreatingJunction { source_channel_index, source_channel_location } => {
                    if button == PointerButton::Left && element_state == ButtonState::Released {
                        exists|slot: Result<usize, InterfaceError>|
                            {
                                &&& #[trigger] old(self).adds_junction(
                                    final(self),
                                    source_channel_index,
                                    Self::drawn_junction(
                                        source_channel_index,
                                        source_channel_location,
                                        pointer_channel_index,
                                        pointer_location,
                                    ),
                                    slot,
                                )
                                &&& next == (match slot {
                                    Ok(_) => Ok::<State, InterfaceError>(
                                        State::Hovering { potential_action: Action::NoAction },
                                    ),
                                    Err(error) => Err::<State, InterfaceError>(error),
                                })
                            }
                    } else {
                        &&& final(self).channels() == old(self).channels()
                        &&& next == Ok::<State, InterfaceError>(old(self).state())
                    }
                },
                State::Hovering { potential_action } => old(self).acts(
                    final(self),
                    potential_action,
                    button,
                    element_state,
                    next,
                ),
            },
    {
        let released = match (button, element_state) {
            (PointerButton::Left, ButtonState::Released) => true,
            _ => false,
        };
        match self.state {
            State::GrabbingClip { .. } => {
                if released {
                    self.state = State::Hovering { potential_action: Action::NoAction };
                }
                Ok(self.state)
            },
            State::CreatingJunction { source_channel_index, source_channel_location } => {
                if !released {
                    return Ok(self.state);
                }
                let junction = Self::get_drawn_junction(
                    source_channel_index,
                    source_channel_location,
                    pointer_channel_index,
                    pointer_location,
                );
                let added = self.handle_create_junction(source_channel_index, junction);
                self.state = State::Hovering { potential_action: Action::NoAction };
                proof {
                    assert(old(self).adds_junction(self, source_channel_index, junction, added));
                }
                match added {
                    Ok(_) => Ok(self.state),
                    Err(error) => Err(error),
                }
            },
            State::Hovering { potential_action } => {
                self.handle_action(potential_action, button, element_state)
            },
        }
    }

    /// Acts on a move of the pointer to a location of a channel. A clip that
    /// is held moves along. While a junction is drawn nothing happens. A
    /// pointer that hovers does so over the action that a press at its new
    /// place would take.
    pub fn handle_cursor_move(&mut self, pointer_location: u64, potential_action: Action) -> (next:
        Result<State, InterfaceError>)
        ensures
            final(self).summary() == old(self).summary(),
            final(self).channel_length() == old(self).channel_length(),
            final(self).state() == (match next {
                Ok(state) => state,
                Err(_) => old(self).state(),
            }),
            match old(self).state() {
                State::GrabbingClip { channel_index, clip_index, relative_location } => {
                    exists|moved: Result<Clip, InterfaceError>|
                        {
                            &&& #[trigger] old(self).moves_clip(
                                final(self),
                                channel_index,
                                clip_index,
                                pointer_location,
                                relative_location,
                                moved,
                            )
                            &&& next == (match moved {
                                Ok(_) => Ok::<State, InterfaceError>(old(self).state()),
                                Err(error) => Err::<State, InterfaceError>(error),
                            })
                        }
                },
                State::CreatingJunction { .. } => {
                    &&& final(self).channels() == old(self).channels()
                    &&& next == Ok::<State, InterfaceError>(old(self).state())
                },
                State::Hovering { .. } => {
                    &&& final(self).channels() == old(self).channels()
                    &&& next == Ok::<State, InterfaceError>(State::Hovering { potential_action })
                },
            },
    {
        match self.state {
            State::GrabbingClip { channel_index, clip_index, relative_location } => {
                match self.handle_clip_move(
                    channel_index,
                    clip_index,
                    pointer_location,
                    relative_location,
                ) {
                    Ok(_) => Ok(self.state),
                    Err(error) => Err(error),
                }
            },
            State::CreatingJunction { .. } => Ok(self.state),
            State::Hovering { .. } => {
                self.state = State::Hovering { potential_action };
                Ok(self.state)
            },
        }
    }

    /// What the control side is doing with the pointer.
    pub fn get_state(&self) -> (state: State)
        ensures
            state == self.state(),
    {
        self.state
    }

    /// The summary that was received last.
    pub fn get_summary(&self) -> (summary: SequencerSummary)
        ensures
            summary == self.summary(),
    {
        self.summary
    }

    /// The control side's copy of a channel.
    pub fn get_channel(&self, channel_index: usize) -> (channel: Option<ChannelInterface>)
        ensures
            channel_index < NUM_CHANNELS ==> channel == Some(self.channels()[channel_index as int]),
            channel_index >= NUM_CHANNELS ==> channel is None,
    {
        if channel_index < NUM_CHANNELS {
            Some(self.channels[channel_index])
        } else {
            None
        }
    }
}

/// The summary that the control side holds once it has taken in the latest
/// summary that has arrived: that summary, and the one it held where none has
/// arrived.
pub open spec fn refreshed(held: SequencerSummary, latest: Option<SequencerSummary>) -> SequencerSummary {
    match latest {
        Some(summary) => summary,
        None => held,
    }
}

} // verus!
