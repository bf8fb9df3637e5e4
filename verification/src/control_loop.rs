//! A looping control timeline: a position that runs round a loop of a whole
//! number of intervals while the loop is playing.

use vstd::prelude::*;

verus! {

/// The number of trigger slots of a control loop.
pub const MAX_TRIGGERS: usize = 128;

/// The number of samples in one interval of a control loop.
pub const SAMPLES_PER_INTERVAL: u64 = 24_000;

/// A point of the control loop that starts a channel at a location.
#[derive(Debug, Clone, Copy, PartialEq, Eq, Structural)]
pub struct Trigger {
    location: u64,
    destination_channel_index: usize,
    destination_location: u64,
}

impl Trigger {
    /// The trigger that fills an unused slot.
    pub closed spec fn empty() -> Trigger {
        Trigger { location: 0, destination_channel_index: 0, destination_location: 0 }
    }
}

impl Default for Trigger {
    fn default() -> (trigger: Self)
        ensures
            trigger == Trigger::empty(),
    {
        Trigger { location: 0, destination_channel_index: 0, destination_location: 0 }
    }
}

pub struct ControlLoop {
    triggers: [Trigger; MAX_TRIGGERS],
    length: u64,
    location: u64,
    playing: bool,
    samples_per_interval: u64,
}

impl ControlLoop {
    #[verifier::type_invariant]
    spec fn location_in_round(self) -> bool {
        &&& self.samples_per_interval == SAMPLES_PER_INTERVAL
        &&& (self.length > 0 ==> self.location < self.length * SAMPLES_PER_INTERVAL)
        &&& (self.length == 0 ==> self.location == 0)
    }

    /// The number of intervals in one round of the loop.
    pub closed spec fn length(self) -> u64 {
        self.length
    }

    /// The position in the loop, in samples.
    pub closed spec fn location(self) -> u64 {
        self.location
    }

    pub closed spec fn playing(self) -> bool {
        self.playing
    }

    /// The number of samples in one interval.
    pub closed spec fn samples_per_interval(self) -> u64 {
        self.samples_per_interval
    }

    /// The triggers of the loop, slot by slot.
    pub closed spec fn triggers(self) -> Seq<Trigger> {
        self.triggers@
    }

    /// The number of samples in one round of the loop.
    pub open spec fn period(self) -> int {
        self.length() * SAMPLES_PER_INTERVAL
    }

    /// Whether the loop can run: a round has at least one sample, and the
    /// number of its samples fits into sixty-four bits.
    pub open spec fn can_run(self) -> bool {
        0 < self.period() <= u64::MAX
    }

    /// The position one sample after `location` in a loop of the given
    /// period.
    pub open spec fn following(location: u64, period: int) -> int {
        (location + 1) % period
    }

    /// A loop of `length` intervals, at rest at its start, with every
    /// trigger slot unused.
    pub fn new(length: u64) -> (control_loop: ControlLoop)
        ensures
            control_loop.length() == length,
            control_loop.location() == 0,
            !control_loop.playing(),
            control_loop.samples_per_interval() == SAMPLES_PER_INTERVAL,
            control_loop.triggers() == Seq::new(MAX_TRIGGERS as nat, |slot: int| Trigger::empty()),
    {
        let control_loop = ControlLoop {
            triggers: [Trigger::default(); MAX_TRIGGERS],
            length,
            location: 0,
            playing: false,
            samples_per_interval: SAMPLES_PER_INTERVAL,
        };
        proof {
            assert(control_loop.triggers@ =~= Seq::new(
                MAX_TRIGGERS as nat,
                |slot: int| Trigger::empty(),
            ));
        }
        control_loop
    }

    pub fn play(&mut self)
        ensures
            final(self).playing(),
            final(self).length() == old(self).length(),
            final(self).location() == old(self).location(),
            final(self).samples_per_interval() == old(self).samples_per_interval(),
            final(self).triggers() == old(self).triggers(),
    {
        proof {
            use_type_invariant(&*self);
        }
        self.playing = true;
    }

    pub fn stop(&mut self)
        ensures
            !final(self).playing(),
            final(self).length() == old(self).length(),
            final(self).location() == old(self).location(),
            final(self).samples_per_interval() == old(self).samples_per_interval(),
            final(self).triggers() == old(self).triggers(),
    {
        proof {
            use_type_invariant(&*self);
        }
        self.playing = false;
    }

    /// Decides `can_run`.
    pub fn is_runnable(&self) -> (runnable: bool)
        ensures
            runnable == self.can_run(),
    {
        proof {
            use_type_invariant(self);
        }
        self.length > 0 && self.length <= u64::MAX / SAMPLES_PER_INTERVAL
    }

    /// Moves a playing loop on by one sample; past the last sample of the
    /// round it starts over. A loop that is not playing stays where it is.
    ///
    /// A loop that is playing must be able to run: a round without samples
    /// has no next sample, and neither has one whose number of samples does
    /// not fit into sixty-four bits.
    pub fn update(&mut self)
        requires
            old(self).playing() ==> old(self).can_run(),
        ensures
            final(self).playing() == old(self).playing(),
            final(self).length() == old(self).length(),
            final(self).samples_per_interval() == old(self).samples_per_interval(),
            final(self).triggers() == old(self).triggers(),
            old(self).playing() ==> final(self).location() == Self::following(
                old(self).location(),
                old(self).period(),
            ) && final(self).location() < final(self).period(),
            !old(self).playing() ==> final(self).location() == old(self).location(),
    {
        proof {
            use_type_invariant(&*self);
        }
        if self.playing {
            let period: u64 = self.length * self.samples_per_interval;
            self.location = (self.location + 1) % period;
        }
    }

    /// The position in the loop, in samples. In a loop that has a round it
    /// lies inside the round, and otherwise at the start.
    pub fn get_location(&self) -> (location: u64)
        ensures
            location == self.location(),
            self.length() > 0 ==> location < self.period(),
            self.length() == 0 ==> location == 0,
    {
        proof {
            use_type_invariant(self);
        }
        self.location
    }

    pub fn is_playing(&self) -> (playing: bool)
        ensures
            playing == self.playing(),
    {
        self.playing
    }
}

} // verus!
