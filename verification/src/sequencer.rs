//! The sequencer: a fixed set of channels and a sound bank, advanced one
//! output frame at a time.
//!
//! Each frame every playhead takes its step, the junctions under the
//! playheads are evaluated, what they stage is applied, and each channel
//! selects the frame of the sound bank that it sounds. At a fixed cadence the
//! sequencer also takes the edits that the control side has sent and reports
//! a summary back.

use vstd::prelude::*;
use rtrb::{Consumer, Producer};
use crate::channel::{
    first_junction_from, lemma_first_junction_found, Channel, JunctionType, Playhead,
    PlayheadDirection, PlayheadState, MAX_CLIPS_PER_CHANNEL, MAX_JUNCTIONS_PER_CHANNEL,
    UNIT_SCALE,
};
use crate::event::{
    applied_all, SequencerControlMessage, SequencerEvent, SequencerSummary, NUM_CHANNELS,
};
use crate::frame::StereoFrame;
use crate::queue::{pop, push, ring_buffer};
use crate::sound_bank::{frame_in, restocked, Sound, SoundBank};

verus! {

/// The length of every channel of a new sequencer, in frames.
pub const DEFAULT_CHANNEL_LENGTH: u64 = 500_000;

/// The cadence, in frames, at which edits are taken and summaries sent.
pub const SYNC_INTERVAL: u64 = 500;

/// The number of messages that each of the two queues holds.
pub const RING_BUFFER_CAPACITY: usize = 1024;

/// What the junction under the playhead of a channel stages: the channel
/// whose playhead is to be replaced, and the playhead to put there.
///
/// A jump stages a playing playhead at its destination, in the direction of
/// the arriving playhead. A reflection stages the arriving playhead, turned
/// around, for its own channel. A stop stages nothing, and neither does a
/// jump to a channel that does not exist.
pub open spec fn staged_by(channel: Channel, index: int) -> Option<(int, Playhead)> {
    match channel.current_junction() {
        Some(junction) => match junction.junction_type {
            JunctionType::Jump { destination_channel_index, destination_location, split } => {
                if destination_channel_index < NUM_CHANNELS {
                    Some(
                        (
                            destination_channel_index as int,
                            Playhead {
                                state: PlayheadState::Playing,
                                location: destination_location,
                                direction: channel.playhead.direction,
                            },
                        ),
                    )
                } else {
                    None
                }
            },
            JunctionType::Reflect => Some((index, channel.playhead.reflected())),
            JunctionType::Stop => None,
        },
        None => None,
    }
}

/// Whether the junction under the playhead of a channel halts that playhead:
/// a stop does, and so does a jump that does not split.
pub open spec fn halted_by_junction(channel: Channel) -> bool {
    match channel.current_junction() {
        Some(junction) => match junction.junction_type {
            JunctionType::Jump { destination_channel_index, destination_location, split } => !split,
            JunctionType::Reflect => false,
            JunctionType::Stop => true,
        },
        None => false,
    }
}

/// A channel after its own junction has been evaluated.
pub open spec fn after_junction(channel: Channel) -> Channel {
    if halted_by_junction(channel) {
        channel.stopped()
    } else {
        channel
    }
}

/// The playhead that the first `count` channels stage for the channel
/// `target`. Where several channels stage one for the same target, the last
/// of them in channel order prevails.
pub open spec fn staged_for(channels: Seq<Channel>, target: int, count: int) -> Option<Playhead>
    decreases count,
{
    if count <= 0 {
        None
    } else {
        match staged_by(channels[count - 1], count - 1) {
            Some(staged) => if staged.0 == target {
                Some(staged.1)
            } else {
                staged_for(channels, target, count - 1)
            },
            None => staged_for(channels, target, count - 1),
        }
    }
}

/// The channels after every playhead has taken its step.
pub open spec fn stepped_all(channels: Seq<Channel>) -> Seq<Channel> {
    Seq::new(channels.len(), |index: int| channels[index].stepped())
}

/// The channels after every junction has been evaluated on channels that
/// have taken their step. Nothing that the junctions stage is applied yet.
pub open spec fn after_junctions(stepped: Seq<Channel>) -> Seq<Channel> {
    Seq::new(stepped.len(), |index: int| after_junction(stepped[index]))
}

/// One channel at the end of a frame, given all channels after their step:
/// its own junction is evaluated, and the playhead that was staged for it,
/// if any, replaces its own.
pub open spec fn settled(stepped: Seq<Channel>, index: int) -> Channel {
    with_staged(after_junction(stepped[index]), staged_for(stepped, index, stepped.len() as int))
}

/// The channels after one frame. What the junctions stage is applied only
/// after every channel has been evaluated, so no channel sees the effect of
/// another channel's junction within the frame.
pub open spec fn next_channels(channels: Seq<Channel>) -> Seq<Channel> {
    Seq::new(channels.len(), |index: int| settled(stepped_all(channels), index))
}

/// The frame count after one more frame. The count starts over once
/// sixty-four bits are used up.
pub open spec fn next_count(total: u64) -> u64 {
    if total == u64::MAX {
        0
    } else {
        (total + 1) as u64
    }
}

/// A channel after what was staged for it, if anything, has been applied.
pub open spec fn with_staged(channel: Channel, staged: Option<Playhead>) -> Channel {
    match staged {
        Some(playhead) => Channel { playhead, ..channel },
        None => channel,
    }
}

/// The frame that a channel sounds, given the slots of the sound bank:
/// none where the playhead selects no address, or the address holds nothing.
pub open spec fn sounding<S>(slots: Seq<Option<Sound<S>>>, channel: Channel) -> Option<
    StereoFrame<S>,
> {
    match channel.current_sound_bank_index() {
        Some(address) => frame_in(slots, address),
        None => None,
    }
}

/// The frames that the channels sound, in channel order.
pub open spec fn sounding_all<S>(slots: Seq<Option<Sound<S>>>, channels: Seq<Channel>) -> Seq<
    Option<StereoFrame<S>>,
> {
    Seq::new(channels.len(), |index: int| sounding(slots, channels[index]))
}

/// The left samples of a row of frames.
pub open spec fn lefts<S>(frames: Seq<Option<StereoFrame<S>>>) -> Seq<Option<S>> {
    Seq::new(
        frames.len(),
        |index: int|
            match frames[index] {
                Some(frame) => Some(frame.0),
                None => None,
            },
    )
}

/// The right samples of a row of frames.
pub open spec fn rights<S>(frames: Seq<Option<StereoFrame<S>>>) -> Seq<Option<S>> {
    Seq::new(
        frames.len(),
        |index: int|
            match frames[index] {
                Some(frame) => Some(frame.1),
                None => None,
            },
    )
}

/// Whether `partials` are the running sums of a row of samples: the first
/// is silence, and each following one is the one before with the next sample
/// added, by the addition that the caller has brought. A sample that is
/// missing adds nothing.
pub open spec fn running_sums<S, A: Fn(S, S) -> S>(
    sum: A,
    silence: S,
    samples: Seq<Option<S>>,
    partials: Seq<S>,
) -> bool {
    &&& partials.len() == samples.len() + 1
    &&& partials[0] == silence
    &&& forall|index: int|
        0 <= index < samples.len() ==> match #[trigger] samples[index] {
            Some(sample) => call_ensures(sum, (partials[index], sample), partials[index + 1]),
            None => partials[index + 1] == partials[index],
        }
}

/// Whether `total` is what a row of samples adds up to, starting from
/// silence and adding the samples in order.
pub open spec fn sums_to<S, A: Fn(S, S) -> S>(
    sum: A,
    silence: S,
    samples: Seq<Option<S>>,
    total: S,
) -> bool {
    exists|partials: Seq<S>| #[trigger]
        running_sums(sum, silence, samples, partials) && partials.last() == total
}

/// Running sums do not move while no sample is added: up to the first
/// sample that is there they are silence.
pub proof fn lemma_silent_prefix<S, A: Fn(S, S) -> S>(
    sum: A,
    silence: S,
    samples: Seq<Option<S>>,
    partials: Seq<S>,
    count: int,
)
    requires
        running_sums(sum, silence, samples, partials),
        0 <= count <= samples.len(),
        forall|index: int| 0 <= index < count ==> (#[trigger] samples[index]) is None,
    ensures
        partials[count] == silence,
    decreases count,
{
    if count > 0 {
        lemma_silent_prefix(sum, silence, samples, partials, count - 1);
        assert(samples[count - 1] is None);
    }
}

/// Running sums do not move while no sample is added: from the last sample
/// that is there on they stay what they are.
pub proof fn lemma_silent_suffix<S, A: Fn(S, S) -> S>(
    sum: A,
    silence: S,
    samples: Seq<Option<S>>,
    partials: Seq<S>,
    from: int,
    count: int,
)
    requires
        running_sums(sum, silence, samples, partials),
        0 <= from <= count <= samples.len(),
        forall|index: int| from <= index < count ==> (#[trigger] samples[index]) is None,
    ensures
        partials[count] == partials[from],
    decreases count - from,
{
    if count > from {
        lemma_silent_suffix(sum, silence, samples, partials, from, count - 1);
        assert(samples[count - 1] is None);
    }
}

/// A row without samples adds up to silence.
pub proof fn lemma_silent_sum<S, A: Fn(S, S) -> S>(
    sum: A,
    silence: S,
    samples: Seq<Option<S>>,
    total: S,
)
    requires
        forall|index: int| 0 <= index < samples.len() ==> (#[trigger] samples[index]) is None,
        sums_to(sum, silence, samples, total),
    ensures
        total == silence,
{
    let partials = choose|partials: Seq<S>| #[trigger]
        running_sums(sum, silence, samples, partials) && partials.last() == total;
    lemma_silent_prefix(sum, silence, samples, partials, samples.len() as int);
}

/// A row with one sample adds up to what the caller's addition makes of
/// silence and that sample: nothing else is added, before or after.
pub proof fn lemma_single_sample_sum<S, A: Fn(S, S) -> S>(
    sum: A,
    silence: S,
    samples: Seq<Option<S>>,
    only: int,
    total: S,
)
    requires
        0 <= only < samples.len(),
        samples[only] is Some,
        forall|other: int|
            0 <= other < samples.len() && other != only ==> (#[trigger] samples[other]) is None,
        sums_to(sum, silence, samples, total),
    ensures
        samples[only] matches Some(sample) && call_ensures(sum, (silence, sample), total),
{
    let partials = choose|partials: Seq<S>| #[trigger]
        running_sums(sum, silence, samples, partials) && partials.last() == total;
    lemma_silent_prefix(sum, silence, samples, partials, only);
    lemma_silent_suffix(sum, silence, samples, partials, only + 1, samples.len() as int);
    assert(samples[only] is Some);
}

/// Whether `after` can be reached from `before` by a run of valid edits
/// that a queue of the sequencer's capacity can hold.
pub open spec fn edited(before: Seq<Channel>, after: Seq<Channel>) -> bool {
    exists|messages: Seq<SequencerControlMessage>|
        {
            &&& messages.len() <= RING_BUFFER_CAPACITY
            &&& forall|i: int| 0 <= i < messages.len() ==> (#[trigger] messages[i]).valid()
            &&& after == applied_all(before, messages)
        }
}

/// An edit that the sequencer refuses.
#[derive(Debug, Clone, Copy, PartialEq, Eq)]
pub enum SequencerError {
    /// The edit addresses a channel or a slot that does not exist.
    OutOfRange(SequencerControlMessage),
}

/// The control-side ends of the sequencer's two queues.
pub struct SequencerController {
    pub control_message_sender: Producer<SequencerControlMessage>,
    pub event_receiver: Consumer<SequencerEvent>,
}

impl SequencerController {
    /// Sends an edit to the render side. When the queue is full the edit
    /// comes back; nothing on the render side is touched either way.
    pub fn send(&mut self, message: SequencerControlMessage) -> (sent: Result<
        (),
        SequencerControlMessage,
    >)
        ensures
            sent matches Err(back) ==> back == message,
    {
        push(&mut self.control_message_sender, message)
    }

    /// The summary that the render side sent last, if any has arrived since
    /// the previous call. At most one queue's worth of events is read.
    ///
    /// Which events have arrived is decided by the render side: the answer
    /// is the summary of the last event of some run of events, and none
    /// where that run is empty.
    pub fn latest_summary(&mut self) -> (summary: Option<SequencerSummary>)
        ensures
            exists|events: Seq<SequencerEvent>|
                events.len() <= RING_BUFFER_CAPACITY && summary == #[trigger] crate::event::latest_of(
                    None,
                    events,
                ),
    {
        let ghost mut events: Seq<SequencerEvent> = Seq::empty();
        let mut latest: Option<SequencerSummary> = None;
        let mut budget: usize = RING_BUFFER_CAPACITY;
        while budget > 0
            invariant
                events.len() + budget <= RING_BUFFER_CAPACITY,
                latest == crate::event::latest_of(None, events),
            decreases budget,
        {
            match pop(&mut self.event_receiver) {
                Some(event) => {
                    latest = Self::keep_latest(latest, event);
                    proof {
                        events = events.push(event);
                    }
                },
                None => {
                    break ;
                },
            }
            budget = budget - 1;
        }
        latest
    }
}

impl SequencerController {
    /// The summary to hold once an event has arrived: the one that the
    /// event carries, whatever was held before.
    pub fn keep_latest(held: Option<SequencerSummary>, event: SequencerEvent) -> (kept: Option<
        SequencerSummary,
    >)
        ensures
            kept == Some(event.summary()),
            kept == crate::event::latest_of(held, seq![event]),
    {
        Some(event.get_summary())
    }
}

/// The render-side engine.
#[verifier::reject_recursive_types(S)]
pub struct Sequencer<S> {
    control_message_receiver: Consumer<SequencerControlMessage>,
    event_sender: Producer<SequencerEvent>,
    summary: SequencerSummary,
    channels: [Channel; NUM_CHANNELS],
    sound_bank: SoundBank<S>,
    refused: Option<SequencerControlMessage>,
}

impl<S: Copy> Sequencer<S> {
    /// The channels, in channel order.
    pub closed spec fn channels(&self) -> Seq<Channel> {
        self.channels@
    }

    /// The summary as of the last frame.
    pub closed spec fn summary(&self) -> SequencerSummary {
        self.summary
    }

    /// The slots of the sound bank.
    pub closed spec fn sounds(&self) -> Seq<Option<Sound<S>>> {
        self.sound_bank@
    }

    /// The edit that the sequencer has refused, if it has refused one. A
    /// refused edit is fatal: from then on the sequencer renders nothing and
    /// takes no edit.
    pub closed spec fn refused(&self) -> Option<SequencerControlMessage> {
        self.refused
    }

    /// Whether the next frame falls on the cadence at which edits are taken
    /// and a summary is sent.
    pub open spec fn at_sync_point(&self) -> bool {
        self.summary().total_frames_processed % SYNC_INTERVAL == 0
    }

    /// Whether `after` and `out_frame` are a possible outcome of rendering
    /// one frame from `self`.
    ///
    /// The sequencer has refused no edit, before or in the frame. On a
    /// frame whose number is a multiple of `SYNC_INTERVAL`, a run of valid
    /// edits is applied first; on any other frame none is. Then the
    /// channels advance by one frame, the sound bank has installed what has
    /// arrived, the summary shows the playheads and one frame more, and the
    /// output frame is what the channels sound, added up side by side in
    /// channel order, starting from silence.
    pub open spec fn renders<A: Fn(S, S) -> S>(
        &self,
        after: &Self,
        silence: S,
        sum: A,
        out_frame: StereoFrame<S>,
    ) -> bool {
        &&& self.refused() is None
        &&& after.refused() is None
        &&& restocked(self.sounds(), after.sounds())
        &&& exists|channels: Seq<Channel>|
            {
                &&& #[trigger] next_channels(channels) == after.channels()
                &&& if self.at_sync_point() {
                    edited(self.channels(), channels)
                } else {
                    channels == self.channels()
                }
            }
        &&& after.summary().shows(after.channels())
        &&& after.summary().total_frames_processed == next_count(
            self.summary().total_frames_processed,
        )
        &&& sums_to(
            sum,
            silence,
            lefts(sounding_all(after.sounds(), after.channels())),
            out_frame.0,
        )
        &&& sums_to(
            sum,
            silence,
            rights(sounding_all(after.sounds(), after.channels())),
            out_frame.1,
        )
    }

    /// Whether `after` and `refused` are a possible outcome of a frame that
    /// renders nothing because of an edit that is refused.
    ///
    /// Where the sequencer has refused an edit before, that edit is the
    /// answer again and nothing has changed. Otherwise the frame falls on
    /// the cadence, the edit addresses a channel or a slot that does not
    /// exist, the valid edits before it are applied, the refusal is kept,
    /// and the engine has not advanced.
    pub open spec fn refuses(&self, after: &Self, refused: SequencerControlMessage) -> bool {
        &&& after.refused() == Some(refused)
        &&& after.summary() == self.summary()
        &&& after.sounds() == self.sounds()
        &&& match self.refused() {
            Some(earlier) => earlier == refused && after.channels() == self.channels(),
            None => {
                &&& self.at_sync_point()
                &&& !refused.valid()
                &&& edited(self.channels(), after.channels())
            },
        }
    }

    /// A refused edit is fatal: a sequencer that has refused an edit renders
    /// no frame any more. Every later frame answers with the same edit and
    /// changes nothing.
    pub proof fn lemma_refusal_is_final<A: Fn(S, S) -> S>(
        &self,
        after: &Self,
        silence: S,
        sum: A,
        out_frame: StereoFrame<S>,
        refused: SequencerControlMessage,
    )
        requires
            self.refused() is Some,
        ensures
            !self.renders(after, silence, sum, out_frame),
            self.refuses(after, refused) ==> {
                &&& self.refused() == Some(refused)
                &&& after.refused() == self.refused()
                &&& after.channels() == self.channels()
                &&& after.summary() == self.summary()
                &&& after.sounds() == self.sounds()
            },
    {
    }

    /// A sequencer over the given sound bank, and the controller that edits
    /// it. Every channel is empty, has the default length and is at rest.
    pub fn new(sound_bank: SoundBank<S>) -> (ends: (SequencerController, Self))
        ensures
            ends.1.channels() == Seq::new(
                NUM_CHANNELS as nat,
                |index: int| Channel::empty(DEFAULT_CHANNEL_LENGTH),
            ),
            ends.1.summary() == SequencerSummary::initial(),
            ends.1.sounds() == sound_bank@,
            ends.1.refused() is None,
    {
        let (control_message_sender, control_message_receiver) = ring_buffer(RING_BUFFER_CAPACITY);
        let (event_sender, event_receiver) = ring_buffer(RING_BUFFER_CAPACITY);
        let sequencer_controller = SequencerController { control_message_sender, event_receiver };
        let sequencer = Sequencer {
            control_message_receiver,
            event_sender,
            summary: SequencerSummary::default(),
            channels: [Channel::new(DEFAULT_CHANNEL_LENGTH); NUM_CHANNELS],
            sound_bank,
            refused: None,
        };
        proof {
            assert(sequencer.channels@ =~= Seq::new(
                NUM_CHANNELS as nat,
                |index: int| Channel::empty(DEFAULT_CHANNEL_LENGTH),
            ));
        }
        (sequencer_controller, sequencer)
    }

    /// The summary as of the last frame.
    pub fn get_summary(&self) -> (summary: SequencerSummary)
        ensures
            summary == self.summary(),
    {
        self.summary
    }

    /// A channel as it stands, if it exists.
    pub fn get_channel(&self, channel_index: usize) -> (channel: Option<&Channel>)
        ensures
            channel_index < NUM_CHANNELS ==> channel == Some(&self.channels()[channel_index as int]),
            channel_index >= NUM_CHANNELS ==> channel is None,
    {
        if channel_index < NUM_CHANNELS {
            Some(&self.channels[channel_index])
        } else {
            None
        }
    }

    /// The edit that the sequencer has refused, if it has refused one.
    pub fn get_refused(&self) -> (refused: Option<SequencerControlMessage>)
        ensures
            refused == self.refused(),
    {
        self.refused
    }

    /// Applies one edit: the slot or the playhead that the edit addresses
    /// is overwritten with what the edit carries.
    ///
    /// An edit that addresses a channel or a slot that does not exist is
    /// refused as a whole: it changes no channel, and it is fatal. The
    /// sequencer keeps it, and answers every edit from then on with it.
    pub fn apply_message(&mut self, message: SequencerControlMessage) -> (outcome: Result<
        (),
        SequencerError,
    >)
        ensures
            final(self).summary() == old(self).summary(),
            final(self).sounds() == old(self).sounds(),
            match old(self).refused() {
                Some(earlier) => {
                    &&& outcome == Err::<(), SequencerError>(SequencerError::OutOfRange(earlier))
                    &&& final(self).channels() == old(self).channels()
                    &&& final(self).refused() == old(self).refused()
                },
                None => if message.valid() {
                    &&& outcome is Ok
                    &&& final(self).channels() == message.applied(old(self).channels())
                    &&& final(self).refused() is None
                } else {
                    &&& outcome == Err::<(), SequencerError>(SequencerError::OutOfRange(message))
                    &&& final(self).channels() == old(self).channels()
                    &&& final(self).refused() == Some(message)
                },
            },
    {
        match self.refused {
            Some(earlier) => {
                return Err(SequencerError::OutOfRange(earlier));
            },
            None => {},
        }
        if !message.is_valid() {
            self.refused = Some(message);
            return Err(SequencerError::OutOfRange(message));
        }
        match message {
            SequencerControlMessage::SyncClip { sequencer_location, clip } => {
                self.channels[sequencer_location.channel_index].clips[sequencer_location.channel_location] =
                    clip;
            },
            SequencerControlMessage::SyncJunction { sequencer_location, junction } => {
                self.channels[sequencer_location.channel_index].junctions[sequencer_location.channel_location] =
                    junction;
            },
            SequencerControlMessage::SyncPlayhead { channel_index, playhead } => {
                self.channels[channel_index].playhead_override_this_frame = true;
                self.channels[channel_index].playhead = playhead;
            },
        }
        proof {
            let index = message.channel_index();
            assert(self.channels@[index] == message.applied_to(old(self).channels@[index]));
            assert(self.channels@ =~= message.applied(old(self).channels@));
        }
        Ok(())
    }

    /// Takes the edits that the control side has sent, oldest first, and
    /// applies each. At most one queue's worth is taken per call, so the
    /// work is bounded; the call neither blocks nor waits for more.
    ///
    /// The first edit that addresses a channel or a slot that does not exist
    /// ends the call: it is refused, which is fatal, and what was queued
    /// behind it stays queued. A sequencer that has refused an edit before
    /// takes nothing from the queue and answers with that edit. Which edits
    /// have arrived is decided by the control side: the outcome is the old
    /// channels with some run of valid edits applied.
    pub fn handle_control_messages(&mut self) -> (outcome: Result<(), SequencerError>)
        ensures
            final(self).summary() == old(self).summary(),
            final(self).sounds() == old(self).sounds(),
            match outcome {
                Ok(()) => {
                    &&& old(self).refused() is None
                    &&& final(self).refused() is None
                    &&& edited(old(self).channels(), final(self).channels())
                },
                Err(SequencerError::OutOfRange(refused)) => {
                    &&& final(self).refused() == Some(refused)
                    &&& match old(self).refused() {
                        Some(earlier) => earlier == refused && final(self).channels() == old(
                            self,
                        ).channels(),
                        None => !refused.valid() && edited(
                            old(self).channels(),
                            final(self).channels(),
                        ),
                    }
                },
            },
    {
        match self.refused {
            Some(earlier) => {
                return Err(SequencerError::OutOfRange(earlier));
            },
            None => {},
        }
        let ghost mut messages: Seq<SequencerControlMessage> = Seq::empty();
        let mut outcome: Result<(), SequencerError> = Ok(());
        let mut budget: usize = RING_BUFFER_CAPACITY;
        while budget > 0
            invariant
                old(self).refused() is None,
                self.summary() == old(self).summary(),
                self.sounds() == old(self).sounds(),
                messages.len() + budget <= RING_BUFFER_CAPACITY,
                forall|i: int| 0 <= i < messages.len() ==> (#[trigger] messages[i]).valid(),
                self.channels() == applied_all(old(self).channels(), messages),
                match outcome {
                    Ok(()) => self.refused() is None,
                    Err(SequencerError::OutOfRange(refused)) => !refused.valid()
                        && self.refused() == Some(refused),
                },
            decreases budget,
        {
            match pop(&mut self.control_message_receiver) {
                Some(message) => {
                    outcome = self.apply_message(message);
                    if outcome.is_err() {
                        break ;
                    }
                    proof {
                        let ghost extended = messages.push(message);
                        assert(extended.drop_last() == messages);
                        messages = extended;
                    }
                },
                None => {
                    break ;
                },
            }
            budget = budget - 1;
        }
        outcome
    }

    /// Lets every playhead take its step.
    pub fn step_playheads_single_frame(&mut self)
        ensures
            final(self).summary() == old(self).summary(),
            final(self).sounds() == old(self).sounds(),
            final(self).refused() == old(self).refused(),
            final(self).channels() == stepped_all(old(self).channels()),
    {
        let mut index: usize = 0;
        while index < NUM_CHANNELS
            invariant
                index <= NUM_CHANNELS,
                self.summary() == old(self).summary(),
                self.sounds() == old(self).sounds(),
                self.refused() == old(self).refused(),
                forall|c: int| 0 <= c < index ==> #[trigger] self.channels@[c] == old(self).channels@[c].stepped(),
                forall|c: int| index <= c < NUM_CHANNELS ==> #[trigger] self.channels@[c] == old(self).channels@[c],
            decreases NUM_CHANNELS - index,
        {
            self.channels[index].step_playhead_single_frame();
            index = index + 1;
        }
        proof {
            assert(self.channels@ =~= stepped_all(old(self).channels@));
        }
    }

    /// Evaluates the junction under every playhead, in channel order. A
    /// junction that halts its own channel does so at once. What a junction
    /// stages for a channel, its own or another, is handed back instead of
    /// applied, so that no junction sees the effect of another.
    pub fn handle_junctions_single_frame(&mut self) -> (staged: [Option<Playhead>; NUM_CHANNELS])
        ensures
            final(self).summary() == old(self).summary(),
            final(self).sounds() == old(self).sounds(),
            final(self).refused() == old(self).refused(),
            final(self).channels() == after_junctions(old(self).channels()),
            forall|target: int|
                0 <= target < NUM_CHANNELS ==> #[trigger] staged[target] == staged_for(
                    old(self).channels(),
                    target,
                    NUM_CHANNELS as int,
                ),
    {
        let mut staged: [Option<Playhead>; NUM_CHANNELS] = [None; NUM_CHANNELS];
        let mut index: usize = 0;
        while index < NUM_CHANNELS
            invariant
                index <= NUM_CHANNELS,
                self.summary() == old(self).summary(),
                self.sounds() == old(self).sounds(),
                self.refused() == old(self).refused(),
                forall|c: int| 0 <= c < index ==> #[trigger] self.channels@[c] == after_junction(old(self).channels@[c]),
                forall|c: int| index <= c < NUM_CHANNELS ==> #[trigger] self.channels@[c] == old(self).channels@[c],
                forall|target: int|
                    0 <= target < NUM_CHANNELS ==> #[trigger] staged@[target] == staged_for(
                        old(self).channels@,
                        target,
                        index as int,
                    ),
            decreases NUM_CHANNELS - index,
        {
            let ghost before = staged@;
            match self.channels[index].get_current_junction() {
                Some(junction) => {
                    match junction.junction_type {
                        JunctionType::Jump {
                            destination_channel_index,
                            destination_location,
                            split,
                        } => {
                            if destination_channel_index < NUM_CHANNELS {
                                staged[destination_channel_index] = Some(
                                    Playhead {
                                        state: PlayheadState::Playing,
                                        location: destination_location,
                                        direction: self.channels[index].playhead.direction,
                                    },
                                );
                            }
                            if !split {
                                self.channels[index].stop();
                            }
                        },
                        JunctionType::Reflect => {
                            let playhead = self.channels[index].playhead;
                            staged[index] = Some(
                                Playhead { direction: playhead.direction.flip(), ..playhead },
                            );
                        },
                        JunctionType::Stop => {
                            self.channels[index].stop();
                        },
                    }
                },
                None => {},
            }
            proof {
                assert forall|target: int| 0 <= target < NUM_CHANNELS implies #[trigger] staged@[target]
                    == staged_for(old(self).channels@, target, index as int + 1) by {
                    assert(before[target] == staged_for(old(self).channels@, target, index as int));
                }
            }
            index = index + 1;
        }
        proof {
            assert(self.channels@ =~= after_junctions(old(self).channels@));
        }
        staged
    }

    /// Applies what the junctions of this frame have staged: a channel for
    /// which a playhead was staged takes it over.
    pub fn handle_playhead_mutations_single_frame(
        &mut self,
        staged: [Option<Playhead>; NUM_CHANNELS],
    )
        ensures
            final(self).summary() == old(self).summary(),
            final(self).sounds() == old(self).sounds(),
            final(self).refused() == old(self).refused(),
            final(self).channels().len() == NUM_CHANNELS,
            forall|c: int|
                0 <= c < NUM_CHANNELS ==> #[trigger] final(self).channels()[c] == with_staged(
                    old(self).channels()[c],
                    staged[c],
                ),
    {
        let mut index: usize = 0;
        while index < NUM_CHANNELS
            invariant
                index <= NUM_CHANNELS,
                self.summary() == old(self).summary(),
                self.sounds() == old(self).sounds(),
                self.refused() == old(self).refused(),
                forall|c: int| 0 <= c < index ==> #[trigger] self.channels@[c] == with_staged(old(self).channels@[c], staged@[c]),
                forall|c: int| index <= c < NUM_CHANNELS ==> #[trigger] self.channels@[c] == old(self).channels@[c],
            decreases NUM_CHANNELS - index,
        {
            match staged[index] {
                Some(playhead) => {
                    self.channels[index].playhead = playhead;
                },
                None => {},
            }
            index = index + 1;
        }
    }

    /// Brings the summary up to date: it shows every playhead as it stands,
    /// and one more frame.
    pub fn update_summary_single_frame(&mut self)
        ensures
            final(self).channels() == old(self).channels(),
            final(self).sounds() == old(self).sounds(),
            final(self).refused() == old(self).refused(),
            final(self).summary().shows(final(self).channels()),
            final(self).summary().total_frames_processed == next_count(
                old(self).summary().total_frames_processed,
            ),
    {
        let mut index: usize = 0;
        while index < NUM_CHANNELS
            invariant
                index <= NUM_CHANNELS,
                self.channels() == old(self).channels(),
                self.sounds() == old(self).sounds(),
                self.refused() == old(self).refused(),
                self.summary.total_frames_processed == old(self).summary.total_frames_processed,
                forall|c: int| 0 <= c < index ==> #[trigger] self.summary.playheads@[c] == self.channels@[c].playhead,
            decreases NUM_CHANNELS - index,
        {
            self.summary.playheads[index] = self.channels[index].playhead;
            index = index + 1;
        }
        if self.summary.total_frames_processed == u64::MAX {
            self.summary.total_frames_processed = 0;
        } else {
            self.summary.total_frames_processed = self.summary.total_frames_processed + 1;
        }
    }

    /// Advances the engine by one frame: the sound bank installs what has
    /// arrived, every playhead takes its step, the junctions are evaluated,
    /// what they stage is applied, and the summary is brought up to date.
    ///
    /// This and the steps that it is made of are the building blocks of
    /// `next_frame`. They do not ask whether an edit was refused; `next_frame`
    /// does, and calls none of them once one was.
    pub fn update_single_frame(&mut self)
        ensures
            final(self).refused() == old(self).refused(),
            restocked(old(self).sounds(), final(self).sounds()),
            final(self).channels() == next_channels(old(self).channels()),
            final(self).summary().shows(final(self).channels()),
            final(self).summary().total_frames_processed == next_count(
                old(self).summary().total_frames_processed,
            ),
    {
        self.sound_bank.update();
        self.step_playheads_single_frame();
        let staged = self.handle_junctions_single_frame();
        self.handle_playhead_mutations_single_frame(staged);
        self.update_summary_single_frame();
        proof {
            assert(self.channels() =~= next_channels(old(self).channels()));
        }
    }

    /// The frame that each channel sounds as the playheads stand: none for a
    /// channel that is stopped, that no enabled clip covers, or whose address
    /// holds nothing in the sound bank.
    pub fn output_single_frame(&self) -> (frames: [Option<StereoFrame<S>>; NUM_CHANNELS])
        ensures
            forall|c: int|
                0 <= c < NUM_CHANNELS ==> #[trigger] frames[c] == sounding(
                    self.sounds(),
                    self.channels()[c],
                ),
    {
        let mut frames: [Option<StereoFrame<S>>; NUM_CHANNELS] = [None; NUM_CHANNELS];
        let mut index: usize = 0;
        while index < NUM_CHANNELS
            invariant
                index <= NUM_CHANNELS,
                forall|c: int|
                    0 <= c < index ==> #[trigger] frames@[c] == sounding(
                        self.sound_bank@,
                        self.channels@[c],
                    ),
                forall|c: int| index <= c < NUM_CHANNELS ==> #[trigger] frames@[c] is None,
            decreases NUM_CHANNELS - index,
        {
            match self.channels[index].get_current_sound_bank_index() {
                Some(address) => {
                    frames[index] = self.sound_bank.get_frame(address);
                },
                None => {},
            }
            index = index + 1;
        }
        frames
    }

    /// The output frame as the playheads stand: what the channels sound,
    /// added up side by side in channel order, starting from silence. The
    /// addition is the caller's, in the arithmetic of the sample type.
    pub fn sum_output_single_frame<A: Fn(S, S) -> S>(&self, silence: S, sum: &A) -> (out_frame:
        StereoFrame<S>)
        requires
            forall|a: S, b: S| call_requires(*sum, (a, b)),
        ensures
            sums_to(
                *sum,
                silence,
                lefts(sounding_all(self.sounds(), self.channels())),
                out_frame.0,
            ),
            sums_to(
                *sum,
                silence,
                rights(sounding_all(self.sounds(), self.channels())),
                out_frame.1,
            ),
    {
        let frames = self.output_single_frame();
        let ghost sounded = sounding_all(self.sounds(), self.channels());
        let ghost mut left_sums: Seq<S> = seq![silence];
        let ghost mut right_sums: Seq<S> = seq![silence];
        let mut left = silence;
        let mut right = silence;
        let mut index: usize = 0;
        while index < NUM_CHANNELS
            invariant
                index <= NUM_CHANNELS,
                sounded.len() == NUM_CHANNELS,
                forall|a: S, b: S| call_requires(*sum, (a, b)),
                forall|c: int| 0 <= c < NUM_CHANNELS ==> #[trigger] frames@[c] == sounded[c],
                running_sums(*sum, silence, lefts(sounded).take(index as int), left_sums),
                running_sums(*sum, silence, rights(sounded).take(index as int), right_sums),
                left_sums.last() == left,
                right_sums.last() == right,
            decreases NUM_CHANNELS - index,
        {
            match frames[index] {
                Some(frame) => {
                    left = sum(left, frame.0);
                    right = sum(right, frame.1);
                },
                None => {},
            }
            proof {
                let ghost lefts_before = lefts(sounded).take(index as int);
                let ghost rights_before = rights(sounded).take(index as int);
                let ghost lefts_after = lefts(sounded).take(index as int + 1);
                let ghost rights_after = rights(sounded).take(index as int + 1);
                let ghost left_sums_before = left_sums;
                let ghost right_sums_before = right_sums;
                left_sums = left_sums.push(left);
                right_sums = right_sums.push(right);
                assert forall|c: int| 0 <= c < lefts_after.len() implies match #[trigger] lefts_after[c] {
                    Some(sample) => call_ensures(*sum, (left_sums[c], sample), left_sums[c + 1]),
                    None => left_sums[c + 1] == left_sums[c],
                } by {
                    if c < index {
                        assert(lefts_after[c] == lefts_before[c]);
                        assert(left_sums[c] == left_sums_before[c]);
                        assert(left_sums[c + 1] == left_sums_before[c + 1]);
                    }
                }
                assert forall|c: int| 0 <= c < rights_after.len() implies match #[trigger] rights_after[c] {
                    Some(sample) => call_ensures(*sum, (right_sums[c], sample), right_sums[c + 1]),
                    None => right_sums[c + 1] == right_sums[c],
                } by {
                    if c < index {
                        assert(rights_after[c] == rights_before[c]);
                        assert(right_sums[c] == right_sums_before[c]);
                        assert(right_sums[c + 1] == right_sums_before[c + 1]);
                    }
                }
            }
            index = index + 1;
        }
        proof {
            assert(lefts(sounded).take(NUM_CHANNELS as int) =~= lefts(sounded));
            assert(rights(sounded).take(NUM_CHANNELS as int) =~= rights(sounded));
        }
        StereoFrame(left, right)
    }

    /// Offers the summary to the control side. A full queue is not an error
    /// on the render side: the summary is dropped and rendering goes on.
    fn send_summary(&mut self)
        ensures
            final(self).channels() == old(self).channels(),
            final(self).sounds() == old(self).sounds(),
            final(self).refused() == old(self).refused(),
            final(self).summary() == old(self).summary(),
    {
        let event = self.tick();
        let _ = push(&mut self.event_sender, event);
    }

    /// The event that reports the summary as it stands.
    pub fn tick(&self) -> (event: SequencerEvent)
        ensures
            event == SequencerEvent::Tick(self.summary()),
    {
        SequencerEvent::Tick(self.summary)
    }

    /// A sequencer has `NUM_CHANNELS` channels at all times.
    pub proof fn lemma_channel_count(&self)
        ensures
            self.channels().len() == NUM_CHANNELS,
    {
    }

    /// Renders one output frame: what the channels sound in it, added up
    /// side by side in channel order, starting from silence. The addition is
    /// the caller's, in the arithmetic of the sample type.
    ///
    /// On every frame whose number is a multiple of `SYNC_INTERVAL` the
    /// pending edits are applied first, oldest first, and a summary is
    /// offered to the control side. Then the engine advances by one frame.
    /// An edit that addresses a channel or a slot that does not exist ends
    /// the call before the engine advances, and is fatal: every later call
    /// answers with that edit and changes nothing.
    pub fn next_frame<A: Fn(S, S) -> S>(&mut self, silence: S, sum: &A) -> (out_frame: Result<
        StereoFrame<S>,
        SequencerError,
    >)
        requires
            forall|a: S, b: S| call_requires(*sum, (a, b)),
        ensures
            match out_frame {
                Ok(out_frame) => old(self).renders(final(self), silence, *sum, out_frame),
                Err(SequencerError::OutOfRange(refused)) => old(self).refuses(final(self), refused),
            },
    {
        match self.refused {
            Some(earlier) => {
                return Err(SequencerError::OutOfRange(earlier));
            },
            None => {},
        }
        let ghost mut taken = self.channels();
        if self.summary.total_frames_processed % SYNC_INTERVAL == 0 {
            match self.handle_control_messages() {
                Ok(()) => {},
                Err(error) => {
                    return Err(error);
                },
            }
            self.send_summary();
        }
        proof {
            taken = self.channels();
        }
        self.update_single_frame();
        proof {
            assert(next_channels(taken) == self.channels());
        }
        Ok(self.sum_output_single_frame(silence, sum))
    }
}

/// A channel that plays through a clip at unit scale and without shift
/// sounds the source of the clip frame by frame: at distance `k` from the
/// start of the clip it sounds frame `k` of the source, as long as the
/// source is registered and reaches that far.
pub proof fn lemma_identity_clip_sounds<S>(
    slots: Seq<Option<Sound<S>>>,
    channel: Channel,
    slot: int,
)
    requires
        channel.playhead.state == PlayheadState::Playing,
        0 <= slot < MAX_CLIPS_PER_CHANNEL,
        channel.clips[slot].covers(channel.playhead.location),
        forall|earlier: int|
            0 <= earlier < slot ==> !(#[trigger] channel.clips[earlier]).covers(
                channel.playhead.location,
            ),
        channel.clips[slot].source_scale == UNIT_SCALE,
        channel.clips[slot].source_shift == 0,
        channel.clips[slot].source_index < slots.len(),
        slots[channel.clips[slot].source_index as int] matches Some(sound)
            && channel.playhead.location - channel.clips[slot].channel_location_start
            < sound.data.len(),
    ensures
        sounding(slots, channel) == Some(
            slots[channel.clips[slot].source_index as int]->0.data[channel.playhead.location
                - channel.clips[slot].channel_location_start],
        ),
{
    channel.lemma_identity_clip(slot);
}

/// Where one channel alone is playing, through a clip at unit scale and
/// without shift, the output frame is what the caller's addition makes of
/// silence and the frame of the source at the distance of the playhead
/// from the start of the clip. With an addition that leaves a sample added
/// to silence as it is, the output frame is that frame of the source.
pub proof fn lemma_identity_clip_alone<S, A: Fn(S, S) -> S>(
    sum: A,
    silence: S,
    slots: Seq<Option<Sound<S>>>,
    channels: Seq<Channel>,
    only: int,
    slot: int,
    out_frame: StereoFrame<S>,
)
    requires
        0 <= only < channels.len(),
        forall|other: int|
            0 <= other < channels.len() && other != only ==> (#[trigger] channels[other]).playhead.state
                == PlayheadState::Stopped,
        channels[only].playhead.state == PlayheadState::Playing,
        0 <= slot < MAX_CLIPS_PER_CHANNEL,
        channels[only].clips[slot].covers(channels[only].playhead.location),
        forall|earlier: int|
            0 <= earlier < slot ==> !(#[trigger] channels[only].clips[earlier]).covers(
                channels[only].playhead.location,
            ),
        channels[only].clips[slot].source_scale == UNIT_SCALE,
        channels[only].clips[slot].source_shift == 0,
        channels[only].clips[slot].source_index < slots.len(),
        slots[channels[only].clips[slot].source_index as int] matches Some(sound)
            && channels[only].playhead.location - channels[only].clips[slot].channel_location_start
            < sound.data.len(),
        sums_to(sum, silence, lefts(sounding_all(slots, channels)), out_frame.0),
        sums_to(sum, silence, rights(sounding_all(slots, channels)), out_frame.1),
    ensures
        ({
            let frame = slots[channels[only].clips[slot].source_index as int]->0.data[channels[only].playhead.location
                - channels[only].clips[slot].channel_location_start];
            &&& call_ensures(sum, (silence, frame.0), out_frame.0)
            &&& call_ensures(sum, (silence, frame.1), out_frame.1)
        }),
{
    lemma_identity_clip_sounds(slots, channels[only], slot);
    let frames = sounding_all(slots, channels);
    assert(frames[only] == sounding(slots, channels[only]));
    assert forall|other: int| 0 <= other < frames.len() && other != only implies (
    #[trigger] lefts(frames)[other]) is None && rights(frames)[other] is None by {
        assert(frames[other] == sounding(slots, channels[other]));
    }
    assert(lefts(frames)[only] is Some);
    assert(rights(frames)[only] is Some);
    lemma_single_sample_sum(sum, silence, lefts(frames), only, out_frame.0);
    assert forall|other: int| 0 <= other < frames.len() && other != only implies (
    #[trigger] rights(frames)[other]) is None by {
        assert(lefts(frames)[other] is None);
    }
    lemma_single_sample_sum(sum, silence, rights(frames), only, out_frame.1);
}

/// The channels after `frames` frames without an edit in between.
pub open spec fn channels_after(channels: Seq<Channel>, frames: nat) -> Seq<Channel>
    decreases frames,
{
    if frames == 0 {
        channels
    } else {
        next_channels(channels_after(channels, (frames - 1) as nat))
    }
}

/// Whether the junction under the playhead of channel `index` stages a
/// playhead for the channel `target`.
pub open spec fn stages_for(channel: Channel, index: int, target: int) -> bool {
    staged_by(channel, index) matches Some(staged) && staged.0 == target
}

/// Whether no channel holds an enabled junction.
pub open spec fn without_junctions(channels: Seq<Channel>) -> bool {
    forall|index: int, slot: int|
        0 <= index < channels.len() && 0 <= slot < MAX_JUNCTIONS_PER_CHANNEL ==> !(
        #[trigger] channels[index].junctions[slot]).enabled
}

/// Whether the junction that a playhead of the channel triggers at the
/// location is a reflection.
pub open spec fn reflects_at(channel: Channel, location: u64) -> bool {
    first_junction_from(channel.junctions@, location, 0) matches Some(slot)
        && channel.junctions[slot].junction_type is Reflect
}

/// Whether no enabled junction of any channel jumps to the channel `target`.
pub open spec fn no_jump_into(channels: Seq<Channel>, target: int) -> bool {
    forall|index: int, slot: int|
        0 <= index < channels.len() && 0 <= slot < MAX_JUNCTIONS_PER_CHANNEL ==> {
            let junction = #[trigger] channels[index].junctions[slot];
            junction.enabled ==> (junction.junction_type matches JunctionType::Jump {
                destination_channel_index,
                ..
            } ==> destination_channel_index != target)
        }
}

/// Where none of the first `count` channels stages a playhead for a channel,
/// none is staged for it.
pub proof fn lemma_nothing_staged(channels: Seq<Channel>, target: int, count: int)
    requires
        forall|index: int| 0 <= index < count ==> !stages_for(#[trigger] channels[index], index, target),
    ensures
        staged_for(channels, target, count) is None,
    decreases count,
{
    if count > 0 {
        assert(!stages_for(channels[count - 1], count - 1, target));
        lemma_nothing_staged(channels, target, count - 1);
    }
}

/// Where several channels stage a playhead for the same channel in one
/// frame, the last of them in channel order prevails.
pub proof fn lemma_last_staged_prevails(
    channels: Seq<Channel>,
    target: int,
    count: int,
    writer: int,
)
    requires
        0 <= writer < count,
        stages_for(channels[writer], writer, target),
        forall|index: int|
            writer < index < count ==> !stages_for(#[trigger] channels[index], index, target),
    ensures
        staged_by(channels[writer], writer) matches Some(staged) && staged_for(
            channels,
            target,
            count,
        ) == Some(staged.1),
    decreases count,
{
    if writer < count - 1 {
        assert(!stages_for(channels[count - 1], count - 1, target));
        lemma_last_staged_prevails(channels, target, count - 1, writer);
    }
}

/// A frame moves playheads and clears the marks of placed playheads. It
/// leaves the clips, the junctions and the length of every channel alone.
pub proof fn lemma_frame_keeps_layout(channels: Seq<Channel>, index: int)
    requires
        0 <= index < channels.len(),
    ensures
        next_channels(channels)[index].clips == channels[index].clips,
        next_channels(channels)[index].junctions == channels[index].junctions,
        next_channels(channels)[index].length == channels[index].length,
        !next_channels(channels)[index].playhead_override_this_frame,
{
}

/// The junction under the playhead of a channel that has taken its step is
/// one of the enabled junctions of the channel, at the place where the
/// playhead stands.
pub proof fn lemma_stepped_junction(channel: Channel)
    ensures
        channel.stepped().current_junction() matches Some(junction) ==> exists|slot: int|
            0 <= slot < MAX_JUNCTIONS_PER_CHANNEL && #[trigger] channel.junctions[slot] == junction
                && junction.enabled && junction.location == channel.stepped().playhead.location,
{
    let stepped = channel.stepped();
    assert(stepped.junctions == channel.junctions);
    lemma_first_junction_found(stepped.junctions@, stepped.playhead.location, 0);
    match first_junction_from(stepped.junctions@, stepped.playhead.location, 0) {
        Some(slot) => {
            assert(channel.junctions[slot].enabled);
        },
        None => {},
    }
}

/// Where no enabled junction jumps into a channel, no other channel stages
/// a playhead for it.
pub proof fn lemma_others_stage_nothing(channels: Seq<Channel>, target: int)
    requires
        no_jump_into(channels, target),
    ensures
        forall|other: int|
            0 <= other < channels.len() && other != target ==> !stages_for(
                #[trigger] stepped_all(channels)[other],
                other,
                target,
            ),
{
    assert forall|other: int| 0 <= other < channels.len() && other != target implies !stages_for(
        #[trigger] stepped_all(channels)[other],
        other,
        target,
    ) by {
        lemma_stepped_junction(channels[other]);
    }
}

/// On channels without enabled junctions a frame is nothing but the step of
/// every playhead.
pub proof fn lemma_frame_without_junctions(channels: Seq<Channel>)
    requires
        without_junctions(channels),
    ensures
        next_channels(channels) == stepped_all(channels),
        without_junctions(next_channels(channels)),
{
    let stepped = stepped_all(channels);
    assert forall|index: int| 0 <= index < channels.len() implies #[trigger] stepped[index].current_junction() is None by {
        lemma_stepped_junction(channels[index]);
    }
    assert forall|index: int| 0 <= index < channels.len() implies #[trigger] next_channels(channels)[index] == stepped[index] by {
        assert forall|other: int| 0 <= other < stepped.len() implies !stages_for(#[trigger] stepped[other], other, index) by {
            assert(stepped[other].current_junction() is None);
        }
        lemma_nothing_staged(stepped, index, stepped.len() as int);
        assert(stepped[index].current_junction() is None);
    }
    assert(next_channels(channels) =~= stepped);
    assert forall|index: int, slot: int|
        0 <= index < channels.len() && 0 <= slot < MAX_JUNCTIONS_PER_CHANNEL implies !(
    #[trigger] next_channels(channels)[index].junctions[slot]).enabled by {
        assert(stepped[index].junctions == channels[index].junctions);
        assert(!channels[index].junctions[slot].enabled);
    }
}

/// On channels without enabled junctions, and without edits, every channel
/// runs on its own: after any number of frames it is where its own steps
/// alone take it.
pub proof fn lemma_run_without_junctions(channels: Seq<Channel>, frames: nat, index: int)
    requires
        without_junctions(channels),
        0 <= index < channels.len(),
    ensures
        channels_after(channels, frames).len() == channels.len(),
        without_junctions(channels_after(channels, frames)),
        channels_after(channels, frames)[index] == channels[index].stepped_times(frames),
    decreases frames,
{
    if frames > 0 {
        lemma_run_without_junctions(channels, (frames - 1) as nat, index);
        lemma_frame_without_junctions(channels_after(channels, (frames - 1) as nat));
    }
}

/// A jump starts its destination channel in the frame in which the playhead
/// of the source channel reaches the junction: the destination plays from
/// the destination location on, in the direction of the arriving playhead,
/// unless a channel later in channel order stages a playhead for the same
/// destination in the same frame.
pub proof fn lemma_jump_starts_destination(
    channels: Seq<Channel>,
    source: int,
    destination: int,
)
    requires
        0 <= source < channels.len(),
        0 <= destination < channels.len(),
        destination < NUM_CHANNELS,
        stepped_all(channels)[source].current_junction() matches Some(junction)
            && junction.junction_type matches JunctionType::Jump { destination_channel_index, .. }
            && destination_channel_index == destination,
        forall|later: int|
            source < later < channels.len() ==> !stages_for(
                #[trigger] stepped_all(channels)[later],
                later,
                destination,
            ),
    ensures
        next_channels(channels)[destination].playhead == (Playhead {
            state: PlayheadState::Playing,
            location: stepped_all(channels)[source].current_junction()->0.junction_type->destination_location,
            direction: stepped_all(channels)[source].playhead.direction,
        }),
{
    let stepped = stepped_all(channels);
    lemma_last_staged_prevails(stepped, destination, stepped.len() as int, source);
}

/// A jump that does not split stops its source channel in the frame in which
/// the playhead reaches the junction, and a jump that splits leaves the
/// source playhead as its step left it, unless a playhead is staged for the
/// source channel in the same frame.
pub proof fn lemma_jump_settles_source(channels: Seq<Channel>, source: int)
    requires
        0 <= source < channels.len(),
        stepped_all(channels)[source].current_junction() matches Some(junction)
            && junction.junction_type is Jump,
        forall|index: int|
            0 <= index < channels.len() ==> !stages_for(
                #[trigger] stepped_all(channels)[index],
                index,
                source,
            ),
    ensures
        next_channels(channels)[source].playhead == (
        if stepped_all(channels)[source].current_junction()->0.junction_type->split {
            stepped_all(channels)[source].playhead
        } else {
            stepped_all(channels)[source].playhead.halted()
        }),
{
    let stepped = stepped_all(channels);
    lemma_nothing_staged(stepped, source, stepped.len() as int);
}

/// A reflection turns the playhead around in the frame in which the playhead
/// reaches the junction, and leaves its state and its location alone, unless
/// a channel later in channel order stages a playhead for the same channel
/// in the same frame. In the frame after, the junction is not evaluated
/// again: the playhead has moved off the junction or has stopped.
pub proof fn lemma_reflect_turns_once(channels: Seq<Channel>, index: int)
    requires
        0 <= index < channels.len(),
        stepped_all(channels)[index].current_junction() matches Some(junction)
            && junction.junction_type is Reflect,
        forall|later: int|
            index < later < channels.len() ==> !stages_for(
                #[trigger] stepped_all(channels)[later],
                later,
                index,
            ),
    ensures
        next_channels(channels)[index].playhead == stepped_all(channels)[index].playhead.reflected(),
        !next_channels(channels)[index].stepped().is_playing()
            || next_channels(channels)[index].stepped().playhead.location
            != stepped_all(channels)[index].playhead.location,
{
    let stepped = stepped_all(channels);
    lemma_last_staged_prevails(stepped, index, stepped.len() as int, index);
}

/// What keeps a playhead between zero and `bound`: the channel reflects at
/// both ends, no junction jumps into it, its playhead was not placed from
/// outside, and the playhead is inside the range, not at the upper end and
/// about to leave.
pub open spec fn bouncing(channels: Seq<Channel>, index: int, bound: u64) -> bool {
    &&& 0 <= index < channels.len()
    &&& reflects_at(channels[index], 0)
    &&& reflects_at(channels[index], bound)
    &&& no_jump_into(channels, index)
    &&& !channels[index].playhead_override_this_frame
    &&& channels[index].playhead.location <= bound
    &&& (channels[index].playhead.state == PlayheadState::Playing
        && channels[index].playhead.direction == PlayheadDirection::Forward
        ==> channels[index].playhead.location < bound)
}

/// A frame keeps a bouncing playhead bouncing.
pub proof fn lemma_bounce_step(channels: Seq<Channel>, index: int, bound: u64)
    requires
        bouncing(channels, index, bound),
    ensures
        bouncing(next_channels(channels), index, bound),
{
    let stepped = stepped_all(channels);
    let next = next_channels(channels);
    let own = stepped[index];
    assert(own.junctions == channels[index].junctions);
    lemma_stepped_junction(channels[index]);
    lemma_others_stage_nothing(channels, index);
    if stages_for(own, index, index) {
        lemma_last_staged_prevails(stepped, index, stepped.len() as int, index);
    } else {
        lemma_nothing_staged(stepped, index, stepped.len() as int);
    }
    assert forall|other: int, slot: int|
        0 <= other < next.len() && 0 <= slot < MAX_JUNCTIONS_PER_CHANNEL implies {
        let junction = #[trigger] next[other].junctions[slot];
        junction.enabled ==> (junction.junction_type matches JunctionType::Jump {
            destination_channel_index,
            ..
        } ==> destination_channel_index != index)
    } by {
        assert(next[other].junctions == channels[other].junctions);
        let junction = channels[other].junctions[slot];
    }
    assert(next[index].junctions == channels[index].junctions);
}

/// A playhead that bounces between reflections at zero and at `bound` never
/// leaves the range between them, however many frames pass without an edit.
pub proof fn lemma_bounce_contained(channels: Seq<Channel>, index: int, bound: u64, frames: nat)
    requires
        bouncing(channels, index, bound),
    ensures
        bouncing(channels_after(channels, frames), index, bound),
        channels_after(channels, frames)[index].playhead.location <= bound,
    decreases frames,
{
    if frames > 0 {
        lemma_bounce_contained(channels, index, bound, (frames - 1) as nat);
        lemma_bounce_step(channels_after(channels, (frames - 1) as nat), index, bound);
    }
}

/// Whether every enabled junction of a channel is a reflection.
pub open spec fn only_reflections(channel: Channel) -> bool {
    forall|slot: int|
        0 <= slot < MAX_JUNCTIONS_PER_CHANNEL ==> (#[trigger] channel.junctions[slot]).enabled
            ==> channel.junctions[slot].junction_type is Reflect
}

/// What keeps a playhead going back and forth between zero and `bound` for
/// good: it bounces, nothing on its channel but reflections can meet it, the
/// upper reflection lies inside the channel, and the playhead is playing and
/// not at the lower end about to leave.
pub open spec fn bouncing_on(channels: Seq<Channel>, index: int, bound: u64) -> bool {
    &&& bouncing(channels, index, bound)
    &&& only_reflections(channels[index])
    &&& bound < channels[index].length
    &&& channels[index].playhead.state == PlayheadState::Playing
    &&& (channels[index].playhead.direction == PlayheadDirection::Backward
        ==> channels[index].playhead.location > 0)
}

/// A frame keeps a playhead that goes back and forth going.
pub proof fn lemma_bounce_goes_on(channels: Seq<Channel>, index: int, bound: u64)
    requires
        bouncing_on(channels, index, bound),
    ensures
        bouncing_on(next_channels(channels), index, bound),
{
    lemma_bounce_step(channels, index, bound);
    let stepped = stepped_all(channels);
    let own = stepped[index];
    assert(next_channels(channels)[index].junctions == channels[index].junctions);
    lemma_stepped_junction(channels[index]);
    lemma_others_stage_nothing(channels, index);
    if stages_for(own, index, index) {
        lemma_last_staged_prevails(stepped, index, stepped.len() as int, index);
    } else {
        lemma_nothing_staged(stepped, index, stepped.len() as int);
    }
}

/// A playhead that goes back and forth between reflections at zero and at
/// `bound` keeps playing and stays between them, however many frames pass
/// without an edit.
pub proof fn lemma_keeps_bouncing(channels: Seq<Channel>, index: int, bound: u64, frames: nat)
    requires
        bouncing_on(channels, index, bound),
    ensures
        bouncing_on(channels_after(channels, frames), index, bound),
        channels_after(channels, frames)[index].playhead.state == PlayheadState::Playing,
        channels_after(channels, frames)[index].playhead.location <= bound,
    decreases frames,
{
    if frames > 0 {
        lemma_keeps_bouncing(channels, index, bound, (frames - 1) as nat);
        lemma_bounce_goes_on(channels_after(channels, (frames - 1) as nat), index, bound);
    }
}

} // verus!
