//! The registry of playable sound sources.
//!
//! The bank has two ends. The controller lives on the control side: it
//! assigns slots, keeps the metadata of what was registered and sends the
//! sample data through a bounded queue. The bank itself lives on the render
//! side: it installs what arrives and answers frame lookups without blocking.

use vstd::prelude::*;
use rtrb::{Consumer, Producer};
use crate::frame::StereoFrame;
use crate::queue::{pop, push, ring_buffer};

verus! {

/// The number of slots of a sound bank.
pub const MAX_SOUNDS: usize = 32;

/// The address of one frame of one registered sound source.
#[derive(Debug, Clone, Copy, PartialEq, Eq, Structural)]
pub struct SoundBankIndex {
    /// The slot of the source in the bank.
    pub source_index: usize,
    /// The offset of the frame from the start of the source.
    pub frame_index: usize,
}

/// What the control side knows about a registered source.
#[derive(Debug, PartialEq, Eq)]
pub struct SoundMetadata {
    pub name: String,
    /// The number of frames of the source.
    pub length: usize,
}

impl Clone for SoundMetadata {
    fn clone(&self) -> (copy: Self)
        ensures
            copy == *self,
    {
        SoundMetadata { name: self.name.clone(), length: self.length }
    }
}

/// A sound source: its stereo frames at the output rate, and its metadata.
pub struct Sound<S> {
    pub metadata: SoundMetadata,
    pub data: Vec<StereoFrame<S>>,
}

impl<S: Copy> Sound<S> {
    /// A source with the given frames; its recorded length is their number.
    pub fn new(name: String, data: Vec<StereoFrame<S>>) -> (sound: Self)
        ensures
            sound.metadata.name == name,
            sound.metadata.length == data.len(),
            sound.data == data,
    {
        let length: usize = data.len();
        Sound { metadata: SoundMetadata { name, length }, data }
    }
}

/// The one message from the controller to the bank: put a source, or
/// nothing, into a slot.
pub(crate) enum SoundBankControlMessage<S> {
    Install { index: usize, sound: Option<Sound<S>> },
}

impl<S> SoundBankControlMessage<S> {
    #[verifier::type_invariant]
    spec fn addresses_a_slot(self) -> bool {
        self->index < MAX_SOUNDS
    }
}

/// Why a source could not be registered.
#[derive(Debug, Clone, Copy, PartialEq, Eq, Structural)]
pub enum AddSoundError {
    /// Every slot is taken.
    NoFreeSlot,
    /// The queue to the render side had no room.
    QueueFull,
}

/// The first slot at or after `from` that holds no metadata.
pub open spec fn first_free_from(metadata: Seq<Option<SoundMetadata>>, from: int) -> Option<int>
    decreases metadata.len() - from,
{
    if from < 0 || from >= metadata.len() {
        None
    } else if metadata[from] is None {
        Some(from)
    } else {
        first_free_from(metadata, from + 1)
    }
}

/// The control-side end of a sound bank.
#[verifier::reject_recursive_types(S)]
pub struct SoundBankController<S> {
    metadata: Vec<Option<SoundMetadata>>,
    producer: Producer<SoundBankControlMessage<S>>,
}

impl<S> SoundBankController<S> {
    #[verifier::type_invariant]
    spec fn has_all_slots(self) -> bool {
        self.metadata.len() == MAX_SOUNDS
    }
}

impl<S> View for SoundBankController<S> {
    type V = Seq<Option<SoundMetadata>>;

    /// The metadata of each slot, `None` where nothing was registered.
    closed spec fn view(&self) -> Seq<Option<SoundMetadata>> {
        self.metadata@
    }
}

impl<S: Copy> SoundBankController<S> {
    /// Registers a source in the first free slot and sends its frames to the
    /// render side. The metadata is visible here at once; the frames can be
    /// looked up on the render side after the bank's next `update`.
    ///
    /// Without a free slot nothing happens. With one, success depends on the
    /// queue alone, and a source that the queue refuses leaves no trace.
    pub fn add_sound(&mut self, sound: Sound<S>) -> (slot: Result<usize, AddSoundError>)
        ensures
            final(self)@.len() == MAX_SOUNDS,
            first_free_from(old(self)@, 0) is None ==> slot == Err::<usize, AddSoundError>(
                AddSoundError::NoFreeSlot,
            ) && final(self)@ == old(self)@,
            first_free_from(old(self)@, 0) matches Some(free) ==> match slot {
                Ok(assigned) => assigned == free && final(self)@ == old(self)@.update(
                    free,
                    Some(sound.metadata),
                ),
                Err(error) => error == AddSoundError::QueueFull && final(self)@ == old(self)@,
            },
    {
        proof {
            use_type_invariant(&*self);
        }
        let mut index: usize = 0;
        while index < MAX_SOUNDS
            invariant
                index <= MAX_SOUNDS,
                self.metadata.len() == MAX_SOUNDS,
                self == old(self),
                first_free_from(self.metadata@, 0) == first_free_from(self.metadata@, index as int),
            decreases MAX_SOUNDS - index,
        {
            if self.metadata[index].is_none() {
                let metadata = sound.metadata.clone();
                let message = Self::install_message(index, sound);
                let accepted = push(&mut self.producer, message).is_ok();
                return self.settle_registration(index, metadata, accepted);
            }
            index = index + 1;
        }
        Err(AddSoundError::NoFreeSlot)
    }

    /// Settles a registration once the queue has answered. Where the queue
    /// has accepted the message, the metadata is recorded in the slot and
    /// the slot is the answer. Where it has not, nothing is recorded and
    /// the answer is that the queue was full.
    pub fn settle_registration(&mut self, index: usize, metadata: SoundMetadata, accepted: bool)
        -> (slot: Result<usize, AddSoundError>)
        requires
            index < MAX_SOUNDS,
        ensures
            final(self)@.len() == MAX_SOUNDS,
            accepted ==> slot == Ok::<usize, AddSoundError>(index) && final(self)@ == old(self)@.update(index as int, Some(metadata)),
            !accepted ==> slot == Err::<usize, AddSoundError>(AddSoundError::QueueFull) && final(self)@ == old(self)@,
    {
        proof {
            use_type_invariant(&*self);
        }
        if accepted {
            self.metadata[index] = Some(metadata);
            Ok(index)
        } else {
            Err(AddSoundError::QueueFull)
        }
    }

    /// The message that asks the bank to install a source in a slot: it
    /// names the slot and carries the source whole.
    pub(crate) fn install_message(index: usize, sound: Sound<S>) -> (message:
        SoundBankControlMessage<S>)
        requires
            index < MAX_SOUNDS,
        ensures
            message == (SoundBankControlMessage::Install { index, sound: Some(sound) }),
    {
        SoundBankControlMessage::Install { index, sound: Some(sound) }
    }

    /// The metadata of the source in a slot, if the slot exists and is taken.
    pub fn get(&self, index: usize) -> (metadata: Option<&SoundMetadata>)
        ensures
            self@.len() == MAX_SOUNDS,
            match metadata {
                Some(found) => index < MAX_SOUNDS && self@[index as int] == Some(*found),
                None => index >= MAX_SOUNDS || self@[index as int] is None,
            },
    {
        proof {
            use_type_invariant(self);
        }
        if index < MAX_SOUNDS {
            self.metadata[index].as_ref()
        } else {
            None
        }
    }
}

/// The slots of a bank after a run of installations, each of which replaces
/// the whole content of one slot.
pub open spec fn installed<S>(
    slots: Seq<Option<Sound<S>>>,
    installs: Seq<(int, Option<Sound<S>>)>,
) -> Seq<Option<Sound<S>>>
    decreases installs.len(),
{
    if installs.len() == 0 {
        slots
    } else {
        installed(slots, installs.drop_last()).update(installs.last().0, installs.last().1)
    }
}

/// Whether the slots `after` can be reached from `before` by a run of
/// installations that the queue of a sound bank can hold.
pub open spec fn restocked<S>(
    before: Seq<Option<Sound<S>>>,
    after: Seq<Option<Sound<S>>>,
) -> bool {
    exists|installs: Seq<(int, Option<Sound<S>>)>|
        {
            &&& installs.len() <= MAX_SOUNDS
            &&& forall|i: int|
                0 <= i < installs.len() ==> 0 <= (#[trigger] installs[i]).0 < MAX_SOUNDS
            &&& after == installed(before, installs)
        }
}

/// The render-side end of a sound bank.
#[verifier::reject_recursive_types(S)]
pub struct SoundBank<S> {
    sounds: Vec<Option<Sound<S>>>,
    consumer: Consumer<SoundBankControlMessage<S>>,
}

impl<S> SoundBank<S> {
    #[verifier::type_invariant]
    spec fn has_all_slots(self) -> bool {
        self.sounds.len() == MAX_SOUNDS
    }
}

impl<S> View for SoundBank<S> {
    type V = Seq<Option<Sound<S>>>;

    /// The source installed in each slot, `None` where there is none.
    closed spec fn view(&self) -> Seq<Option<Sound<S>>> {
        self.sounds@
    }
}

/// The frame at an address in the given slots: `None` where the slot does not
/// exist or is empty, or where the source ends before the frame.
pub open spec fn frame_in<S>(slots: Seq<Option<Sound<S>>>, index: SoundBankIndex) -> Option<
    StereoFrame<S>,
> {
    if index.source_index < slots.len() {
        match slots[index.source_index as int] {
            Some(sound) => if index.frame_index < sound.data.len() {
                Some(sound.data[index.frame_index as int])
            } else {
                None
            },
            None => None,
        }
    } else {
        None
    }
}

/// A lookup in a slot that does not exist, or that holds no source, finds no
/// frame, whatever the frame offset.
pub proof fn lemma_unregistered_is_silent<S>(slots: Seq<Option<Sound<S>>>, index: SoundBankIndex)
    requires
        index.source_index >= slots.len() || slots[index.source_index as int] is None,
    ensures
        frame_in(slots, index) is None,
{
}

/// A lookup in a registered source finds the frame at the offset, and finds
/// none from the end of the source on.
pub proof fn lemma_registered_frames<S>(slots: Seq<Option<Sound<S>>>, index: SoundBankIndex)
    requires
        index.source_index < slots.len(),
        slots[index.source_index as int] is Some,
    ensures
        index.frame_index < slots[index.source_index as int]->0.data.len() ==> frame_in(
            slots,
            index,
        ) == Some(slots[index.source_index as int]->0.data[index.frame_index as int]),
        index.frame_index >= slots[index.source_index as int]->0.data.len() ==> frame_in(
            slots,
            index,
        ) is None,
{
}

impl<S: Copy> SoundBank<S> {
    /// A bank and its controller, with the given sources registered and
    /// installed in slot order. Sources beyond the last slot are dropped.
    pub fn new(sounds: Vec<Sound<S>>) -> (ends: (SoundBankController<S>, SoundBank<S>))
        ensures
            ends.0@.len() == MAX_SOUNDS,
            ends.1@.len() == MAX_SOUNDS,
            forall|slot: int|
                0 <= slot < MAX_SOUNDS && slot < sounds.len() ==> #[trigger] ends.1@[slot] == Some(
                    sounds[slot],
                ) && ends.0@[slot] == Some(sounds[slot].metadata),
            forall|slot: int|
                sounds.len() <= slot < MAX_SOUNDS ==> #[trigger] ends.1@[slot] is None
                    && ends.0@[slot] is None,
    {
        let (producer, consumer) = ring_buffer(MAX_SOUNDS);
        let mut pending = sounds;
        pending.truncate(MAX_SOUNDS);
        let mut metadata: Vec<Option<SoundMetadata>> = Vec::new();
        let mut installed: Vec<Option<Sound<S>>> = Vec::new();
        while pending.len() > 0
            invariant
                installed.len() == metadata.len(),
                installed.len() + pending.len() <= MAX_SOUNDS,
                installed.len() + pending.len() <= sounds.len(),
                forall|offset: int|
                    0 <= offset < pending.len() ==> #[trigger] pending[offset] == sounds[installed.len()
                        + offset],
                forall|slot: int|
                    0 <= slot < installed.len() ==> #[trigger] installed[slot] == Some(sounds[slot])
                        && metadata[slot] == Some(sounds[slot].metadata),
                sounds.len() <= MAX_SOUNDS ==> installed.len() + pending.len() == sounds.len(),
                sounds.len() > MAX_SOUNDS ==> installed.len() + pending.len() == MAX_SOUNDS,
            decreases pending.len(),
        {
            let sound = pending.remove(0);
            metadata.push(Some(sound.metadata.clone()));
            installed.push(Some(sound));
        }
        while installed.len() < MAX_SOUNDS
            invariant
                installed.len() == metadata.len(),
                installed.len() <= MAX_SOUNDS,
                sounds.len() <= installed.len() || installed.len() == MAX_SOUNDS,
                forall|slot: int|
                    0 <= slot < installed.len() && slot < sounds.len() ==> #[trigger] installed[slot]
                        == Some(sounds[slot]) && metadata[slot] == Some(sounds[slot].metadata),
                forall|slot: int|
                    sounds.len() <= slot < installed.len() ==> #[trigger] installed[slot] is None
                        && metadata[slot] is None,
            decreases MAX_SOUNDS - installed.len(),
        {
            metadata.push(None);
            installed.push(None);
        }
        (SoundBankController { metadata, producer }, SoundBank { sounds: installed, consumer })
    }

    /// Installs what the controller has sent since the last call. A message
    /// replaces the content of one slot as a whole. At most `MAX_SOUNDS`
    /// messages are taken per call, so the work is bounded; the call neither
    /// blocks nor waits for more.
    ///
    /// Which messages have arrived is decided by the control side: the
    /// outcome is the old bank with some run of installations applied.
    pub fn update(&mut self)
        ensures
            final(self)@.len() == MAX_SOUNDS,
            restocked(old(self)@, final(self)@),
    {
        proof {
            use_type_invariant(&*self);
        }
        let ghost mut installs: Seq<(int, Option<Sound<S>>)> = Seq::empty();
        let mut budget: usize = MAX_SOUNDS;
        while budget > 0
            invariant
                self.sounds.len() == MAX_SOUNDS,
                installs.len() + budget <= MAX_SOUNDS,
                forall|i: int| 0 <= i < installs.len() ==> 0 <= (#[trigger] installs[i]).0 < MAX_SOUNDS,
                self.sounds@ == installed(old(self).sounds@, installs),
            decreases budget,
        {
            match pop(&mut self.consumer) {
                Some(message) => {
                    proof {
                        use_type_invariant(&message);
                    }
                    match message {
                        SoundBankControlMessage::Install { index, sound } => {
                            proof {
                                let ghost extended = installs.push((index as int, sound));
                                assert(extended.drop_last() == installs);
                                installs = extended;
                            }
                            self.install(index, sound);
                        },
                    }
                },
                None => {
                    break ;
                },
            }
            budget = budget - 1;
        }
        proof {
            assert(self@ == installed(old(self)@, installs));
        }
    }

    /// Puts a source, or nothing, into a slot. What the slot held before is
    /// replaced as a whole, and every other slot stays as it is.
    pub fn install(&mut self, index: usize, sound: Option<Sound<S>>)
        requires
            index < MAX_SOUNDS,
        ensures
            final(self)@ == old(self)@.update(index as int, sound),
            final(self)@.len() == MAX_SOUNDS,
    {
        proof {
            use_type_invariant(&*self);
        }
        self.sounds[index] = sound;
    }

    /// The frame at an address: `None` where the slot does not exist or is
    /// empty, or where the source ends before the frame.
    pub fn get_frame(&self, index: SoundBankIndex) -> (frame: Option<StereoFrame<S>>)
        ensures
            self@.len() == MAX_SOUNDS,
            frame == frame_in(self@, index),
    {
        proof {
            use_type_invariant(self);
        }
        if index.source_index < MAX_SOUNDS {
            match &self.sounds[index.source_index] {
                Some(sound) => {
                    if index.frame_index < sound.data.len() {
                        Some(sound.data[index.frame_index])
                    } else {
                        None
                    }
                },
                None => None,
            }
        } else {
            None
        }
    }
}

} // verus!
