//! Stereo frames: one sample instant across the left and the right output.
//!
//! The sample type is left open. The engine only moves samples around; it
//! never computes with them.

use vstd::prelude::*;

verus! {

/// One of the two sides of a stereo frame.
#[derive(Debug, Clone, Copy, PartialEq, Eq, Structural)]
pub enum StereoChannel {
    Left,
    Right,
}

/// A left sample and a right sample that sound together.
#[derive(Debug, Clone, Copy, PartialEq)]
pub struct StereoFrame<S>(pub S, pub S);

impl<S: Copy> StereoFrame<S> {
    /// The frame that carries the same sample on both sides.
    pub open spec fn duplicated(sample: S) -> StereoFrame<S> {
        StereoFrame(sample, sample)
    }

    /// The sample of the given side.
    pub open spec fn channel(self, channel: StereoChannel) -> S {
        match channel {
            StereoChannel::Left => self.0,
            StereoChannel::Right => self.1,
        }
    }

    pub fn get_channel(&self, channel: StereoChannel) -> (sample: S)
        ensures
            sample == self.channel(channel),
    {
        match channel {
            StereoChannel::Left => self.left(),
            StereoChannel::Right => self.right(),
        }
    }

    pub fn left(&self) -> (sample: S)
        ensures
            sample == self.0,
    {
        self.0
    }

    pub fn right(&self) -> (sample: S)
        ensures
            sample == self.1,
    {
        self.1
    }
}

/// Turns a mono stream into stereo frames, one sample at a time, by putting
/// each sample on both sides.
pub struct MonoToStereoFrame<S> {
    samples: Vec<S>,
    position: usize,
}

impl<S> MonoToStereoFrame<S> {
    #[verifier::type_invariant]
    spec fn position_in_range(self) -> bool {
        self.position <= self.samples.len()
    }
}

impl<S: Copy> MonoToStereoFrame<S> {
    /// The mono samples that have not been handed out yet.
    pub closed spec fn remaining(self) -> Seq<S> {
        self.samples@.subrange(self.position as int, self.samples.len() as int)
    }

    pub fn new(samples: Vec<S>) -> (stream: Self)
        ensures
            stream.remaining() == samples@,
    {
        proof {
            assert(samples@.subrange(0, samples.len() as int) =~= samples@);
        }
        MonoToStereoFrame { samples, position: 0 }
    }

    /// The next frame, or `None` once the mono stream is used up.
    pub fn next(&mut self) -> (frame: Option<StereoFrame<S>>)
        ensures
            old(self).remaining().len() == 0 ==> frame is None && final(self).remaining()
                == old(self).remaining(),
            old(self).remaining().len() > 0 ==> frame == Some(
                StereoFrame::duplicated(old(self).remaining()[0]),
            ) && final(self).remaining() == old(self).remaining().drop_first(),
    {
        proof {
            use_type_invariant(&*self);
        }
        if self.position < self.samples.len() {
            let sample = self.samples[self.position];
            self.position = self.position + 1;
            proof {
                assert(self.remaining() =~= old(self).remaining().drop_first());
            }
            Some(StereoFrame(sample, sample))
        } else {
            None
        }
    }
}

} // verus!
