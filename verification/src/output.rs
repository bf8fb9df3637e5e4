//! The hardware output: which of the device's channels carry the left and
//! the right side of a frame and which stay silent, and the filling of an
//! output buffer with the frames that the sequencer renders.

use vstd::prelude::*;
use vstd::arithmetic::div_mod::{lemma_fundamental_div_mod, lemma_fundamental_div_mod_converse};
use crate::frame::{StereoChannel, StereoFrame};
use crate::sequencer::{Sequencer, SequencerError};

verus! {

/// The sample representations that an output device can ask for.
#[derive(Debug, Clone, Copy, PartialEq, Eq, Structural)]
pub enum SampleFormat {
    /// Signed sixteen-bit integers.
    I16,
    /// Unsigned sixteen-bit integers.
    U16,
    /// Thirty-two-bit floating point.
    F32,
}

/// What was negotiated with the output device.
#[derive(Debug, Clone, Copy, PartialEq, Eq)]
pub struct OutputConfig {
    /// The number of channels of the device.
    pub channels: usize,
    /// The device channels that carry the left and the right side. Each is
    /// taken modulo the number of channels.
    pub output_channels: (usize, usize),
    /// Frames per second.
    pub sample_rate: usize,
    pub sample_format: SampleFormat,
}

impl OutputConfig {
    /// The side of a frame that the device channel `slot` carries, or none
    /// for a channel that stays silent. Where both sides are configured for
    /// the same channel, it carries the left one.
    pub open spec fn side_of(self, slot: int) -> Option<StereoChannel> {
        if slot == self.output_channels.0 as int % self.channels as int {
            Some(StereoChannel::Left)
        } else if slot == self.output_channels.1 as int % self.channels as int {
            Some(StereoChannel::Right)
        } else {
            None
        }
    }

    /// The sample that the device channel `slot` is to receive.
    pub open spec fn sample_for<H>(self, slot: int, frame: StereoFrame<H>, silence: H) -> H {
        match self.side_of(slot) {
            Some(StereoChannel::Left) => frame.0,
            Some(StereoChannel::Right) => frame.1,
            None => silence,
        }
    }

    /// Decides `side_of` for one device channel.
    pub fn get_side(&self, slot: usize) -> (side: Option<StereoChannel>)
        requires
            self.channels > 0,
        ensures
            side == self.side_of(slot as int),
    {
        if slot == self.output_channels.0 % self.channels {
            Some(StereoChannel::Left)
        } else if slot == self.output_channels.1 % self.channels {
            Some(StereoChannel::Right)
        } else {
            None
        }
    }

    /// Writes one frame into the samples of one output instant: the left and
    /// the right sample go to their configured device channels, every other
    /// channel receives silence. An instant that is cut short is filled as
    /// far as it goes.
    pub fn write_frame<H: Copy>(&self, out_frame: &mut [H], frame: StereoFrame<H>, silence: H)
        requires
            self.channels > 0,
        ensures
            final(out_frame)@.len() == old(out_frame)@.len(),
            forall|slot: int|
                0 <= slot < final(out_frame)@.len() ==> #[trigger] final(out_frame)@[slot]
                    == self.sample_for(slot, frame, silence),
    {
        let length: usize = out_frame.len();
        let mut slot: usize = 0;
        while slot < length
            invariant
                self.channels > 0,
                slot <= length,
                out_frame@.len() == length,
                forall|done: int|
                    0 <= done < slot ==> #[trigger] out_frame@[done] == self.sample_for(
                        done,
                        frame,
                        silence,
                    ),
            decreases length - slot,
        {
            out_frame[slot] = match self.get_side(slot) {
                Some(StereoChannel::Left) => frame.left(),
                Some(StereoChannel::Right) => frame.right(),
                None => silence,
            };
            slot = slot + 1;
        }
    }
}

/// Whether `frames` are what a sequencer renders frame after frame on its
/// way through `states`, and `converted` are those frames in the sample
/// format of the device, by the conversion that the caller has brought.
pub open spec fn is_run<S: Copy, H, A: Fn(S, S) -> S, C: Fn(S) -> H>(
    states: Seq<Sequencer<S>>,
    frames: Seq<StereoFrame<S>>,
    converted: Seq<StereoFrame<H>>,
    silence: S,
    sum: A,
    convert: C,
) -> bool {
    &&& states.len() == frames.len() + 1
    &&& converted.len() == frames.len()
    &&& forall|instant: int|
        0 <= instant < frames.len() ==> {
            &&& states[instant].renders(
                &states[instant + 1],
                silence,
                sum,
                #[trigger] frames[instant],
            )
            &&& call_ensures(convert, (frames[instant].0,), converted[instant].0)
            &&& call_ensures(convert, (frames[instant].1,), converted[instant].1)
        }
}

impl OutputConfig {
    /// The number of output instants that a buffer of `length` samples
    /// spans. The last instant may be cut short.
    pub open spec fn instants(self, length: int) -> int {
        (length + self.channels - 1) / (self.channels as int)
    }

    /// Whether `data` holds the frames of `converted`, one per output
    /// instant and laid out for the device, in its first `filled` samples,
    /// and is as in `before` from there on.
    pub open spec fn holds<H>(
        self,
        data: Seq<H>,
        before: Seq<H>,
        filled: int,
        converted: Seq<StereoFrame<H>>,
        equilibrium: H,
    ) -> bool {
        &&& data.len() == before.len()
        &&& forall|index: int|
            0 <= index < data.len() ==> #[trigger] data[index] == (if index < filled {
                self.sample_for(
                    index % (self.channels as int),
                    converted[index / (self.channels as int)],
                    equilibrium,
                )
            } else {
                before[index]
            })
    }

    /// Fills an output buffer: for every output instant of the buffer the
    /// sequencer renders one frame, the frame is converted to the sample
    /// format of the device, and its two sides are written to their
    /// configured device channels, with silence on every other channel.
    ///
    /// An edit that the sequencer refuses ends the call. The instants before
    /// it are filled, and the rest of the buffer is left as it was.
    pub fn render<S: Copy, H: Copy, A: Fn(S, S) -> S, C: Fn(S) -> H>(
        &self,
        data: &mut [H],
        sequencer: &mut Sequencer<S>,
        silence: S,
        sum: &A,
        convert: &C,
        equilibrium: H,
    ) -> (outcome: Result<(), SequencerError>)
        requires
            self.channels > 0,
            forall|a: S, b: S| call_requires(*sum, (a, b)),
            forall|sample: S| call_requires(*convert, (sample,)),
        ensures
            exists|
                states: Seq<Sequencer<S>>,
                frames: Seq<StereoFrame<S>>,
                converted: Seq<StereoFrame<H>>,
            |
                {
                    &&& #[trigger] is_run(states, frames, converted, silence, *sum, *convert)
                    &&& states[0] == *old(sequencer)
                    &&& match outcome {
                        Ok(()) => {
                            &&& states.last() == *final(sequencer)
                            &&& frames.len() == self.instants(old(data)@.len() as int)
                            &&& self.holds(
                                final(data)@,
                                old(data)@,
                                old(data)@.len() as int,
                                converted,
                                equilibrium,
                            )
                        },
                        Err(SequencerError::OutOfRange(refused)) => {
                            &&& states.last().refuses(final(sequencer), refused)
                            &&& frames.len() * self.channels < old(data)@.len()
                            &&& self.holds(
                                final(data)@,
                                old(data)@,
                                frames.len() * self.channels,
                                converted,
                                equilibrium,
                            )
                        },
                    }
                },
    {
        let channels: usize = self.channels;
        let length: usize = data.len();
        let ghost mut states: Seq<Sequencer<S>> = seq![*sequencer];
        let ghost mut frames: Seq<StereoFrame<S>> = Seq::empty();
        let ghost mut converted: Seq<StereoFrame<H>> = Seq::empty();
        let mut start: usize = 0;
        proof {
            lemma_fundamental_div_mod_converse(channels - 1, channels as int, 0, channels - 1);
            assert(frames.len() * channels == 0) by (nonlinear_arith)
                requires
                    frames.len() == 0,
            ;
        }
        while start < length
            invariant
                channels == self.channels,
                channels > 0,
                forall|a: S, b: S| call_requires(*sum, (a, b)),
                forall|sample: S| call_requires(*convert, (sample,)),
                length == data@.len(),
                start <= length,
                start < length ==> start == frames.len() * channels,
                frames.len() == self.instants(start as int),
                is_run(states, frames, converted, silence, *sum, *convert),
                states[0] == *old(sequencer),
                states.last() == *sequencer,
                self.holds(data@, old(data)@, start as int, converted, equilibrium),
            decreases length - start,
        {
            let ghost done = frames.len() as int;
            let ghost data_before = data@;
            let frame = match sequencer.next_frame(silence, sum) {
                Ok(frame) => frame,
                Err(error) => {
                    return Err(error);
                },
            };
            let device_frame = StereoFrame(convert(frame.0), convert(frame.1));
            let remaining: usize = length - start;
            let width: usize = if remaining < channels {
                remaining
            } else {
                channels
            };
            let mut slot: usize = 0;
            while slot < width
                invariant
                    channels == self.channels,
                    channels > 0,
                    slot <= width,
                    width <= channels,
                    start + width <= length,
                    length == data@.len(),
                    length == data_before.len(),
                    forall|index: int|
                        0 <= index < length ==> #[trigger] data@[index] == (if start <= index
                            < start + slot {
                            self.sample_for(index - start, device_frame, equilibrium)
                        } else {
                            data_before[index]
                        }),
                decreases width - slot,
            {
                data[start + slot] = match self.get_side(slot) {
                    Some(StereoChannel::Left) => device_frame.left(),
                    Some(StereoChannel::Right) => device_frame.right(),
                    None => equilibrium,
                };
                slot = slot + 1;
            }
            proof {
                let ghost converted_before = converted;
                states = states.push(*sequencer);
                frames = frames.push(frame);
                converted = converted.push(device_frame);
                assert(start == done * channels);
                assert((done + 1) * channels == done * channels + channels) by (nonlinear_arith);
                assert forall|index: int| 0 <= index < length implies #[trigger] data@[index] == (
                if index < start + width {
                    self.sample_for(
                        index % (channels as int),
                        converted[index / (channels as int)],
                        equilibrium,
                    )
                } else {
                    old(data)@[index]
                }) by {
                    if index < start {
                        lemma_before_instant(channels as int, done, index);
                        assert(converted[index / (channels as int)] == converted_before[index / (
                        channels as int)]);
                    } else if index < start + width {
                        lemma_in_instant(channels as int, done, index - start);
                    }
                }
                if start + width < length {
                    lemma_in_instant(channels as int, done + 1, channels - 1);
                } else {
                    lemma_fundamental_div_mod_converse(
                        length + channels - 1,
                        channels as int,
                        done + 1,
                        width - 1,
                    );
                }
            }
            start = start + width;
        }
        Ok(())
    }
}

/// The sample at an offset into an output instant belongs to that instant,
/// at that offset.
proof fn lemma_in_instant(channels: int, done: int, offset: int)
    requires
        channels > 0,
        0 <= offset < channels,
    ensures
        (done * channels + offset) / channels == done,
        (done * channels + offset) % channels == offset,
{
    lemma_fundamental_div_mod_converse(done * channels + offset, channels, done, offset);
}

/// A sample before the start of an output instant belongs to an earlier
/// instant.
proof fn lemma_before_instant(channels: int, done: int, index: int)
    requires
        channels > 0,
        0 <= index < done * channels,
    ensures
        0 <= index / channels < done,
{
    lemma_fundamental_div_mod(index, channels);
    let instant = index / channels;
    let offset = index % channels;
    assert(0 <= offset < channels);
    assert(instant < done) by (nonlinear_arith)
        requires
            channels > 0,
            index == channels * instant + offset,
            0 <= offset,
            index < done * channels,
    ;
    assert(0 <= instant) by (nonlinear_arith)
        requires
            channels > 0,
            index == channels * instant + offset,
            offset < channels,
            0 <= index,
    ;
}

} // verus!
