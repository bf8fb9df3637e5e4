use state_machine::frame::{MonoToStereoFrame, StereoChannel, StereoFrame};
use state_machine::sound_bank::{
    AddSoundError, Sound, SoundBank, SoundBankIndex, SoundMetadata, MAX_SOUNDS,
};

fn sound(name: &str, samples: &[i16]) -> Sound<i16> {
    Sound::new(name.to_string(), samples.iter().map(|s| StereoFrame(*s, -*s)).collect())
}

fn at(source_index: usize, frame_index: usize) -> SoundBankIndex {
    SoundBankIndex { source_index, frame_index }
}

#[test]
fn stereo_frame_sides() {
    let frame = StereoFrame(3i16, -4i16);
    assert_eq!(frame.left(), 3);
    assert_eq!(frame.right(), -4);
    assert_eq!(frame.get_channel(StereoChannel::Left), 3);
    assert_eq!(frame.get_channel(StereoChannel::Right), -4);
}

#[test]
fn mono_to_stereo_duplicates_each_sample() {
    let mut stream = MonoToStereoFrame::new(vec![0.5f32, -0.25, 1.0]);
    assert_eq!(stream.next(), Some(StereoFrame(0.5, 0.5)));
    assert_eq!(stream.next(), Some(StereoFrame(-0.25, -0.25)));
    assert_eq!(stream.next(), Some(StereoFrame(1.0, 1.0)));
    assert_eq!(stream.next(), None);
    assert_eq!(stream.next(), None);
}

#[test]
fn mono_to_stereo_of_nothing_is_nothing() {
    let mut stream = MonoToStereoFrame::<i16>::new(Vec::new());
    assert_eq!(stream.next(), None);
}

#[test]
fn sound_records_its_length() {
    let kick = sound("kick", &[1, 2, 3]);
    assert_eq!(kick.metadata, SoundMetadata { name: "kick".to_string(), length: 3 });
    assert_eq!(kick.data, vec![StereoFrame(1, -1), StereoFrame(2, -2), StereoFrame(3, -3)]);
    assert_eq!(kick.metadata.clone(), kick.metadata);
}

#[test]
fn new_bank_holds_the_given_sounds_in_slot_order() {
    let (controller, bank) = SoundBank::new(vec![sound("kick", &[1, 2]), sound("snare", &[7])]);
    assert_eq!(controller.get(0), Some(&SoundMetadata { name: "kick".to_string(), length: 2 }));
    assert_eq!(controller.get(1), Some(&SoundMetadata { name: "snare".to_string(), length: 1 }));
    assert_eq!(controller.get(2), None);
    assert_eq!(bank.get_frame(at(0, 0)), Some(StereoFrame(1, -1)));
    assert_eq!(bank.get_frame(at(0, 1)), Some(StereoFrame(2, -2)));
    assert_eq!(bank.get_frame(at(1, 0)), Some(StereoFrame(7, -7)));
}

#[test]
fn get_frame_past_the_end_is_none() {
    let (_controller, bank) = SoundBank::new(vec![sound("kick", &[1, 2])]);
    assert_eq!(bank.get_frame(at(0, 2)), None);
    assert_eq!(bank.get_frame(at(0, usize::MAX)), None);
}

#[test]
fn get_frame_on_unregistered_index_is_none() {
    let (_controller, bank) = SoundBank::new(vec![sound("kick", &[1, 2])]);
    for source_index in 1..MAX_SOUNDS {
        assert_eq!(bank.get_frame(at(source_index, 0)), None);
    }
    assert_eq!(bank.get_frame(at(MAX_SOUNDS, 0)), None);
    assert_eq!(bank.get_frame(at(usize::MAX, 0)), None);
    let (_controller, empty) = SoundBank::<f32>::new(Vec::new());
    assert_eq!(empty.get_frame(at(0, 0)), None);
}

#[test]
fn metadata_lookup_out_of_range_is_none() {
    let (controller, _bank) = SoundBank::new(vec![sound("kick", &[1, 2])]);
    assert_eq!(controller.get(MAX_SOUNDS), None);
    assert_eq!(controller.get(usize::MAX), None);
}

#[test]
fn added_sound_is_visible_to_the_bank_only_after_update() {
    let (mut controller, mut bank) = SoundBank::new(vec![sound("kick", &[1, 2])]);
    assert_eq!(controller.add_sound(sound("hat", &[5, 6, 7])), Ok(1));
    assert_eq!(controller.get(1), Some(&SoundMetadata { name: "hat".to_string(), length: 3 }));
    assert_eq!(bank.get_frame(at(1, 2)), None);
    bank.update();
    assert_eq!(bank.get_frame(at(1, 2)), Some(StereoFrame(7, -7)));
    assert_eq!(bank.get_frame(at(0, 1)), Some(StereoFrame(2, -2)));
    bank.update();
    assert_eq!(bank.get_frame(at(1, 0)), Some(StereoFrame(5, -5)));
}

#[test]
fn sounds_take_the_next_free_slot() {
    let (mut controller, mut bank) = SoundBank::<i16>::new(Vec::new());
    for slot in 0..MAX_SOUNDS {
        let added = controller.add_sound(sound("s", &[slot as i16]));
        assert_eq!(added, Ok(slot));
    }
    bank.update();
    for slot in 0..MAX_SOUNDS {
        assert_eq!(bank.get_frame(at(slot, 0)), Some(StereoFrame(slot as i16, -(slot as i16))));
    }
}

#[test]
fn full_bank_refuses_another_sound() {
    let sounds = (0..MAX_SOUNDS).map(|i| sound("s", &[i as i16])).collect();
    let (mut controller, mut bank) = SoundBank::new(sounds);
    assert_eq!(controller.add_sound(sound("extra", &[99])), Err(AddSoundError::NoFreeSlot));
    bank.update();
    assert_eq!(bank.get_frame(at(MAX_SOUNDS - 1, 0)), Some(StereoFrame(31, -31)));
}

#[test]
fn sounds_beyond_the_last_slot_are_dropped_at_construction() {
    let sounds = (0..MAX_SOUNDS + 5).map(|i| sound("s", &[i as i16])).collect();
    let (controller, bank) = SoundBank::new(sounds);
    for slot in 0..MAX_SOUNDS {
        assert_eq!(controller.get(slot).map(|m| m.length), Some(1));
        assert_eq!(bank.get_frame(at(slot, 0)), Some(StereoFrame(slot as i16, -(slot as i16))));
    }
}

#[test]
fn install_replaces_one_slot_as_a_whole() {
    let (_controller, mut bank) = SoundBank::new(vec![sound("kick", &[1, 2]), sound("snare", &[7])]);
    bank.install(5, Some(sound("hat", &[9, 8, 7])));
    assert_eq!(bank.get_frame(at(5, 2)), Some(StereoFrame(7, -7)));
    assert_eq!(bank.get_frame(at(0, 1)), Some(StereoFrame(2, -2)));
    assert_eq!(bank.get_frame(at(1, 0)), Some(StereoFrame(7, -7)));
    bank.install(0, Some(sound("short", &[4])));
    assert_eq!(bank.get_frame(at(0, 0)), Some(StereoFrame(4, -4)));
    assert_eq!(bank.get_frame(at(0, 1)), None);
    bank.install(1, None);
    assert_eq!(bank.get_frame(at(1, 0)), None);
    assert_eq!(bank.get_frame(at(5, 0)), Some(StereoFrame(9, -9)));
    bank.install(MAX_SOUNDS - 1, Some(sound("last", &[3])));
    assert_eq!(bank.get_frame(at(MAX_SOUNDS - 1, 0)), Some(StereoFrame(3, -3)));
}

#[test]
fn update_installs_what_was_registered_and_leaves_the_rest() {
    let (mut controller, mut bank) = SoundBank::new(vec![sound("kick", &[1, 2])]);
    assert_eq!(controller.add_sound(sound("a", &[5])), Ok(1));
    assert_eq!(controller.add_sound(sound("b", &[6, 7])), Ok(2));
    bank.update();
    assert_eq!(bank.get_frame(at(0, 1)), Some(StereoFrame(2, -2)));
    assert_eq!(bank.get_frame(at(1, 0)), Some(StereoFrame(5, -5)));
    assert_eq!(bank.get_frame(at(1, 1)), None);
    assert_eq!(bank.get_frame(at(2, 1)), Some(StereoFrame(7, -7)));
    assert_eq!(bank.get_frame(at(3, 0)), None);
    bank.update();
    assert_eq!(bank.get_frame(at(2, 0)), Some(StereoFrame(6, -6)));
    assert_eq!(bank.get_frame(at(3, 0)), None);
}

#[test]
fn registration_is_settled_by_what_the_queue_answered() {
    let (mut controller, _bank) = SoundBank::<i16>::new(vec![sound("kick", &[1, 2])]);
    let metadata = SoundMetadata { name: "hat".to_string(), length: 3 };
    assert_eq!(
        controller.settle_registration(4, metadata.clone(), false),
        Err(AddSoundError::QueueFull)
    );
    assert_eq!(controller.get(4), None);
    assert_eq!(controller.settle_registration(4, metadata.clone(), true), Ok(4));
    assert_eq!(controller.get(4), Some(&metadata));
    assert_eq!(controller.get(0).map(|m| m.length), Some(2));
    assert_eq!(controller.get(1), None);
    assert_eq!(controller.get(5), None);
    assert_eq!(controller.add_sound(sound("next", &[1])), Ok(1));
}
