//! What travels through the two queues: edits from the control side to the
//! render side, and summaries the other way.

use vstd::prelude::*;
use crate::channel::{
    Channel, Clip, Junction, Playhead, MAX_CLIPS_PER_CHANNEL, MAX_JUNCTIONS_PER_CHANNEL,
};

verus! {

/// The number of channels of a sequencer.
pub const NUM_CHANNELS: usize = 4;

/// A slot of a channel: the channel, and the position of the slot in the
/// channel's clip or junction array.
#[derive(Debug, Clone, Copy, PartialEq, Eq, Structural)]
pub struct SequencerLocation {
    pub channel_index: usize,
    pub channel_location: usize,
}

/// An edit of the sequencer's state. Each one overwrites one slot or one
/// playhead as a whole.
#[derive(Debug, Clone, Copy, PartialEq, Eq, Structural)]
pub enum SequencerControlMessage {
    SyncClip { sequencer_location: SequencerLocation, clip: Clip },
    SyncJunction { sequencer_location: SequencerLocation, junction: Junction },
    SyncPlayhead { channel_index: usize, playhead: Playhead },
}

impl SequencerControlMessage {
    /// Whether the edit addresses a channel and a slot that exist. What the
    /// edit puts there is not looked at.
    pub open spec fn valid(self) -> bool {
        match self {
            SequencerControlMessage::SyncClip { sequencer_location, clip } => {
                &&& sequencer_location.channel_index < NUM_CHANNELS
                &&& sequencer_location.channel_location < MAX_CLIPS_PER_CHANNEL
            },
            SequencerControlMessage::SyncJunction { sequencer_location, junction } => {
                &&& sequencer_location.channel_index < NUM_CHANNELS
                &&& sequencer_location.channel_location < MAX_JUNCTIONS_PER_CHANNEL
            },
            SequencerControlMessage::SyncPlayhead { channel_index, playhead } => {
                channel_index < NUM_CHANNELS
            },
        }
    }

    /// Decides `valid`.
    pub fn is_valid(&self) -> (valid: bool)
        ensures
            valid == self.valid(),
    {
        match self {
            SequencerControlMessage::SyncClip { sequencer_location, clip } => {
                sequencer_location.channel_index < NUM_CHANNELS
                    && sequencer_location.channel_location < MAX_CLIPS_PER_CHANNEL
            },
            SequencerControlMessage::SyncJunction { sequencer_location, junction } => {
                sequencer_location.channel_index < NUM_CHANNELS
                    && sequencer_location.channel_location < MAX_JUNCTIONS_PER_CHANNEL
            },
            SequencerControlMessage::SyncPlayhead { channel_index, playhead } => {
                *channel_index < NUM_CHANNELS
            },
        }
    }

    /// The channel that the edit addresses.
    pub open spec fn channel_index(self) -> int {
        match self {
            SequencerControlMessage::SyncClip { sequencer_location, clip } => {
                sequencer_location.channel_index as int
            },
            SequencerControlMessage::SyncJunction { sequencer_location, junction } => {
                sequencer_location.channel_index as int
            },
            SequencerControlMessage::SyncPlayhead { channel_index, playhead } => {
                channel_index as int
            },
        }
    }

    /// The addressed channel after the edit.
    pub open spec fn applied_to(self, channel: Channel) -> Channel {
        match self {
            SequencerControlMessage::SyncClip { sequencer_location, clip } => {
                channel.with_clip(sequencer_location.channel_location as int, clip)
            },
            SequencerControlMessage::SyncJunction { sequencer_location, junction } => {
                channel.with_junction(sequencer_location.channel_location as int, junction)
            },
            SequencerControlMessage::SyncPlayhead { channel_index, playhead } => {
                channel.with_playhead(playhead)
            },
        }
    }

    /// The channels after the edit: the addressed channel is edited, the
    /// others stay as they are.
    pub open spec fn applied(self, channels: Seq<Channel>) -> Seq<Channel> {
        channels.update(self.channel_index(), self.applied_to(channels[self.channel_index()]))
    }
}

/// The channels after a run of edits, applied one after the other, first to
/// last.
pub open spec fn applied_all(channels: Seq<Channel>, messages: Seq<SequencerControlMessage>) -> Seq<
    Channel,
>
    decreases messages.len(),
{
    if messages.len() == 0 {
        channels
    } else {
        messages.last().applied(applied_all(channels, messages.drop_last()))
    }
}

/// Edits take effect in the order in which they are given, each exactly
/// once: a run of edits followed by a second run amounts to the first run,
/// and then the second run applied to what the first has left.
pub proof fn lemma_applied_in_order(
    channels: Seq<Channel>,
    first: Seq<SequencerControlMessage>,
    second: Seq<SequencerControlMessage>,
)
    ensures
        applied_all(channels, first + second) == applied_all(applied_all(channels, first), second),
    decreases second.len(),
{
    if second.len() == 0 {
        assert(first + second =~= first);
    } else {
        lemma_applied_in_order(channels, first, second.drop_last());
        assert((first + second).drop_last() =~= first + second.drop_last());
        assert((first + second).last() == second.last());
    }
}

/// An edit that follows a run of edits sees what the run has left.
pub proof fn lemma_applied_last(
    channels: Seq<Channel>,
    messages: Seq<SequencerControlMessage>,
    message: SequencerControlMessage,
)
    ensures
        applied_all(channels, messages.push(message)) == message.applied(
            applied_all(channels, messages),
        ),
{
    assert(messages.push(message).drop_last() =~= messages);
}

/// A clip that is sent before a junction of the same channel is in its slot
/// when the junction is in its own: once both edits are applied, the channel
/// holds the clip and the junction, and everything else is as it was.
pub proof fn lemma_clip_then_junction(
    channels: Seq<Channel>,
    channel_index: usize,
    clip_slot: usize,
    clip: Clip,
    junction_slot: usize,
    junction: Junction,
)
    requires
        channels.len() == NUM_CHANNELS,
        channel_index < NUM_CHANNELS,
        clip_slot < MAX_CLIPS_PER_CHANNEL,
        junction_slot < MAX_JUNCTIONS_PER_CHANNEL,
    ensures
        applied_all(
            channels,
            seq![
                SequencerControlMessage::SyncClip {
                    sequencer_location: SequencerLocation {
                        channel_index,
                        channel_location: clip_slot,
                    },
                    clip,
                },
                SequencerControlMessage::SyncJunction {
                    sequencer_location: SequencerLocation {
                        channel_index,
                        channel_location: junction_slot,
                    },
                    junction,
                },
            ],
        ) == channels.update(
            channel_index as int,
            channels[channel_index as int].with_clip(clip_slot as int, clip).with_junction(
                junction_slot as int,
                junction,
            ),
        ),
        channels[channel_index as int].with_clip(clip_slot as int, clip).with_junction(
            junction_slot as int,
            junction,
        ).clips[clip_slot as int] == clip,
        channels[channel_index as int].with_clip(clip_slot as int, clip).with_junction(
            junction_slot as int,
            junction,
        ).junctions[junction_slot as int] == junction,
{
    let first = SequencerControlMessage::SyncClip {
        sequencer_location: SequencerLocation { channel_index, channel_location: clip_slot },
        clip,
    };
    let second = SequencerControlMessage::SyncJunction {
        sequencer_location: SequencerLocation { channel_index, channel_location: junction_slot },
        junction,
    };
    let both = seq![first, second];
    lemma_applied_last(channels, Seq::empty(), first);
    assert(Seq::<SequencerControlMessage>::empty().push(first) =~= seq![first]);
    lemma_applied_last(channels, seq![first], second);
    assert(seq![first].push(second) =~= both);
    assert(applied_all(channels, both) == second.applied(first.applied(channels)));
    assert(second.applied(first.applied(channels)) =~= channels.update(
        channel_index as int,
        channels[channel_index as int].with_clip(clip_slot as int, clip).with_junction(
            junction_slot as int,
            junction,
        ),
    ));
}

/// What the render side reports to the control side.
#[derive(Debug, Clone, Copy, PartialEq, Eq)]
pub struct SequencerSummary {
    /// The playhead of each channel.
    pub playheads: [Playhead; NUM_CHANNELS],
    /// The number of frames rendered so far, counted modulo two to the
    /// sixty-fourth.
    pub total_frames_processed: u64,
}

impl SequencerSummary {
    /// The summary before the first frame: every playhead at rest at zero.
    pub open spec fn initial() -> SequencerSummary {
        SequencerSummary {
            playheads: [Playhead::initial(); NUM_CHANNELS],
            total_frames_processed: 0,
        }
    }

    /// Whether the summary shows the playheads of the given channels.
    pub open spec fn shows(self, channels: Seq<Channel>) -> bool {
        forall|index: int|
            0 <= index < NUM_CHANNELS ==> #[trigger] self.playheads[index]
                == channels[index].playhead
    }
}

impl Default for SequencerSummary {
    fn default() -> (summary: Self)
        ensures
            summary == SequencerSummary::initial(),
    {
        SequencerSummary { playheads: [Playhead::default(); NUM_CHANNELS], total_frames_processed: 0 }
    }
}

/// A message from the render side to the control side.
#[derive(Debug, Clone, Copy, PartialEq, Eq)]
pub enum SequencerEvent {
    Tick(SequencerSummary),
}

impl SequencerEvent {
    /// The summary that the event carries.
    pub open spec fn summary(self) -> SequencerSummary {
        match self {
            SequencerEvent::Tick(summary) => summary,
        }
    }

    pub fn get_summary(&self) -> (summary: SequencerSummary)
        ensures
            summary == self.summary(),
    {
        match self {
            SequencerEvent::Tick(summary) => *summary,
        }
    }
}

/// The summary that counts once a run of events has arrived: the summary of
/// the last event of the run, and `before` where the run is empty.
pub open spec fn latest_of(before: Option<SequencerSummary>, events: Seq<SequencerEvent>) -> Option<
    SequencerSummary,
> {
    if events.len() == 0 {
        before
    } else {
        Some(events.last().summary())
    }
}

} // verus!
