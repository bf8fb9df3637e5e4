use state_machine::channel::{
    Clip, Junction, JunctionType, Playhead, PlayheadDirection, PlayheadState,
    MAX_CLIPS_PER_CHANNEL, MAX_JUNCTIONS_PER_CHANNEL, UNIT_SCALE,
};
use state_machine::event::{
    SequencerControlMessage, SequencerLocation, SequencerSummary, NUM_CHANNELS,
};
use state_machine::interface::{
    Action, ButtonState, ChannelAction, ChannelInterface, ClipInterface, CursorIcon,
    InstrumentState, InterfaceError, JunctionInterface, PointerButton, SequencerInterface, State,
};
use state_machine::sequencer::{Sequencer, DEFAULT_CHANNEL_LENGTH, RING_BUFFER_CAPACITY};
use state_machine::sound_bank::SoundBank;

fn setup() -> (SequencerInterface, Sequencer<i16>) {
    let (_bank_controller, bank) = SoundBank::new(Vec::new());
    let (controller, sequencer) = Sequencer::new(bank);
    (SequencerInterface::init(controller), sequencer)
}

fn add(a: i16, b: i16) -> i16 {
    a + b
}

fn clip(start: u64, end: u64) -> Clip {
    Clip {
        enabled: true,
        source_index: 1,
        channel_location_start: start,
        channel_location_end: end,
        source_scale: UNIT_SCALE,
        source_shift: 0,
    }
}

fn reflect(location: u64) -> Junction {
    Junction { enabled: true, location, junction_type: JunctionType::Reflect }
}

fn playing(location: u64) -> Playhead {
    Playhead { state: PlayheadState::Playing, location, direction: PlayheadDirection::Forward }
}

#[test]
fn defaults_of_the_pointer_states() {
    assert_eq!(Action::default(), Action::NoAction);
    assert_eq!(State::default(), State::Hovering { potential_action: Action::NoAction });
    assert_eq!(InstrumentState::default(), InstrumentState::NotDoingAnything);
}

#[test]
fn new_interface_is_empty() {
    let (interface, _sequencer) = setup();
    for index in 0..NUM_CHANNELS {
        let channel = interface.get_channel(index).unwrap();
        assert_eq!(channel.active_clips, 0);
        assert_eq!(channel.active_junctions, 0);
        assert!(channel.clips.iter().all(|c| *c == ClipInterface { model: Clip::default() }));
        assert!(channel
            .junctions
            .iter()
            .all(|j| *j == JunctionInterface { model: Junction::default() }));
    }
    assert_eq!(interface.get_channel(NUM_CHANNELS), None::<ChannelInterface>);
    assert_eq!(interface.get_summary(), SequencerSummary::default());
}

#[test]
fn clips_fill_the_slots_in_order_on_both_sides() {
    let (mut interface, mut sequencer) = setup();
    assert_eq!(interface.add_clip(1, clip(0, 10)), Ok(0));
    assert_eq!(interface.add_clip(1, clip(20, 30)), Ok(1));
    assert_eq!(interface.add_clip(3, clip(5, 6)), Ok(0));
    let channel = interface.get_channel(1).unwrap();
    assert_eq!(channel.active_clips, 2);
    assert_eq!(channel.clips[0].model, clip(0, 10));
    assert_eq!(channel.clips[1].model, clip(20, 30));
    assert_eq!(channel.clips[2].model, Clip::default());
    assert_eq!(interface.get_channel(0).unwrap().active_clips, 0);
    sequencer.next_frame(0, &add).unwrap();
    assert_eq!(sequencer.get_channel(1).unwrap().clips[0], clip(0, 10));
    assert_eq!(sequencer.get_channel(1).unwrap().clips[1], clip(20, 30));
    assert_eq!(sequencer.get_channel(3).unwrap().clips[0], clip(5, 6));
    assert_eq!(sequencer.get_channel(0).unwrap().clips[0], Clip::default());
}

#[test]
fn clip_edit_names_the_next_free_slot() {
    let (mut interface, _sequencer) = setup();
    interface.add_clip(2, clip(0, 10)).unwrap();
    assert_eq!(
        interface.get_clip_edit(2, clip(3, 4)),
        Ok(SequencerControlMessage::SyncClip {
            sequencer_location: SequencerLocation { channel_index: 2, channel_location: 1 },
            clip: clip(3, 4)
        })
    );
    assert_eq!(interface.get_clip_edit(NUM_CHANNELS, clip(3, 4)), Err(InterfaceError::NoSuchChannel));
}

#[test]
fn full_channel_takes_no_more_clips() {
    let (mut interface, _sequencer) = setup();
    for slot in 0..MAX_CLIPS_PER_CHANNEL {
        assert_eq!(interface.add_clip(0, clip(slot as u64, slot as u64 + 1)), Ok(slot));
    }
    assert_eq!(interface.add_clip(0, clip(0, 1)), Err(InterfaceError::NoFreeSlot));
    assert_eq!(interface.get_channel(0).unwrap().active_clips, MAX_CLIPS_PER_CHANNEL);
    assert_eq!(interface.add_clip(1, clip(0, 1)), Ok(0));
}

#[test]
fn missing_channel_takes_nothing() {
    let (mut interface, _sequencer) = setup();
    assert_eq!(interface.add_clip(NUM_CHANNELS, clip(0, 1)), Err(InterfaceError::NoSuchChannel));
    assert_eq!(
        interface.handle_create_junction(NUM_CHANNELS, reflect(3)),
        Err(InterfaceError::NoSuchChannel)
    );
    assert_eq!(
        interface.handle_set_playhead(NUM_CHANNELS, playing(0)),
        Err(InterfaceError::NoSuchChannel)
    );
    assert_eq!(
        interface.handle_clip_move(NUM_CHANNELS, 0, 0, 0),
        Err(InterfaceError::NoSuchChannel)
    );
    assert_eq!(
        interface.handle_clip_move(0, MAX_CLIPS_PER_CHANNEL, 0, 0),
        Err(InterfaceError::NoSuchClip)
    );
}

#[test]
fn junctions_fill_the_slots_in_order_on_both_sides() {
    let (mut interface, mut sequencer) = setup();
    assert_eq!(interface.handle_create_junction(0, reflect(100)), Ok(0));
    assert_eq!(interface.handle_create_junction(0, reflect(0)), Ok(1));
    let channel = interface.get_channel(0).unwrap();
    assert_eq!(channel.active_junctions, 2);
    assert_eq!(channel.junctions[0].model, reflect(100));
    assert_eq!(channel.junctions[1].model, reflect(0));
    sequencer.next_frame(0, &add).unwrap();
    assert_eq!(sequencer.get_channel(0).unwrap().junctions[0], reflect(100));
    assert_eq!(sequencer.get_channel(0).unwrap().junctions[1], reflect(0));
    for slot in 2..MAX_JUNCTIONS_PER_CHANNEL {
        assert_eq!(interface.handle_create_junction(0, reflect(slot as u64)), Ok(slot));
    }
    assert_eq!(interface.handle_create_junction(0, reflect(7)), Err(InterfaceError::NoFreeSlot));
}

#[test]
fn junction_to_a_missing_channel_is_not_sent() {
    let (mut interface, mut sequencer) = setup();
    let jump = Junction {
        enabled: true,
        location: 1,
        junction_type: JunctionType::Jump {
            destination_channel_index: NUM_CHANNELS,
            destination_location: 0,
            split: false,
        },
    };
    assert_eq!(interface.handle_create_junction(0, jump), Err(InterfaceError::NoSuchChannel));
    assert_eq!(interface.get_channel(0).unwrap().active_junctions, 0);
    assert!(sequencer.next_frame(0, &add).is_ok());
}

#[test]
fn playhead_is_placed_on_the_render_side() {
    let (mut interface, mut sequencer) = setup();
    assert_eq!(interface.handle_set_playhead(2, playing(77)), Ok(()));
    sequencer.next_frame(0, &add).unwrap();
    assert_eq!(sequencer.get_channel(2).unwrap().playhead, playing(77));
}

#[test]
fn moved_clip_keeps_its_length_and_stays_on_the_channel() {
    let (mut interface, mut sequencer) = setup();
    interface.add_clip(0, clip(100, 150)).unwrap();
    assert_eq!(interface.handle_clip_move(0, 0, 300, 20), Ok(clip(280, 330)));
    assert_eq!(interface.get_channel(0).unwrap().clips[0].model, clip(280, 330));
    assert_eq!(interface.handle_clip_move(0, 0, 5, 20), Ok(clip(0, 50)));
    assert_eq!(
        interface.handle_clip_move(0, 0, DEFAULT_CHANNEL_LENGTH, 1),
        Ok(clip(DEFAULT_CHANNEL_LENGTH - 50, DEFAULT_CHANNEL_LENGTH))
    );
    assert_eq!(
        interface.handle_clip_move(0, 0, u64::MAX, 0),
        Ok(clip(DEFAULT_CHANNEL_LENGTH - 50, DEFAULT_CHANNEL_LENGTH))
    );
    sequencer.next_frame(0, &add).unwrap();
    assert_eq!(
        sequencer.get_channel(0).unwrap().clips[0],
        clip(DEFAULT_CHANNEL_LENGTH - 50, DEFAULT_CHANNEL_LENGTH)
    );
}

#[test]
fn clip_that_does_not_fit_is_not_moved() {
    let (mut interface, _sequencer) = setup();
    interface.add_clip(0, clip(10, 5)).unwrap();
    interface.add_clip(0, clip(0, DEFAULT_CHANNEL_LENGTH + 1)).unwrap();
    assert_eq!(interface.handle_clip_move(0, 0, 3, 0), Err(InterfaceError::ClipDoesNotFit));
    assert_eq!(interface.handle_clip_move(0, 1, 3, 0), Err(InterfaceError::ClipDoesNotFit));
    assert_eq!(interface.get_channel(0).unwrap().clips[0].model, clip(10, 5));
}

#[test]
fn full_queue_is_reported_and_changes_nothing() {
    let (mut interface, mut sequencer) = setup();
    for _ in 0..RING_BUFFER_CAPACITY {
        assert_eq!(interface.handle_set_playhead(0, playing(1)), Ok(()));
    }
    assert_eq!(interface.handle_set_playhead(0, playing(2)), Err(InterfaceError::QueueFull));
    assert_eq!(interface.add_clip(0, clip(0, 1)), Err(InterfaceError::QueueFull));
    assert_eq!(interface.handle_create_junction(0, reflect(1)), Err(InterfaceError::QueueFull));
    assert_eq!(interface.handle_clip_move(0, 0, 0, 0), Err(InterfaceError::QueueFull));
    let channel = interface.get_channel(0).unwrap();
    assert_eq!(channel.active_clips, 0);
    assert_eq!(channel.active_junctions, 0);
    sequencer.next_frame(0, &add).unwrap();
    assert_eq!(interface.add_clip(0, clip(0, 1)), Ok(0));
    assert_eq!(sequencer.get_channel(0).unwrap().playhead, playing(1));
}

#[test]
fn update_keeps_the_latest_summary() {
    let (mut interface, mut sequencer) = setup();
    interface.update();
    assert_eq!(interface.get_summary(), SequencerSummary::default());
    interface.handle_set_playhead(1, playing(10)).unwrap();
    for _ in 0..1001 {
        sequencer.next_frame(0, &add).unwrap();
    }
    interface.update();
    let summary = interface.get_summary();
    assert_eq!(summary.total_frames_processed, 1000);
    assert_eq!(summary.playheads[1], playing(1009));
    interface.update();
    assert_eq!(interface.get_summary(), summary);
}

fn over(channel_action: ChannelAction, channel_index: usize, channel_location: u64) -> Action {
    Action::Channel { channel_action, channel_index, channel_location }
}

fn hovering(potential_action: Action) -> State {
    State::Hovering { potential_action }
}

#[test]
fn cursor_shows_what_a_press_would_do() {
    let grabbing = State::GrabbingClip { channel_index: 0, clip_index: 0, relative_location: 0 };
    assert_eq!(grabbing.cursor_icon(), CursorIcon::Grabbing);
    let creating = State::CreatingJunction { source_channel_index: 0, source_channel_location: 0 };
    assert_eq!(creating.cursor_icon(), CursorIcon::Hand);
    assert_eq!(hovering(Action::NoAction).cursor_icon(), CursorIcon::Default);
    let grab = over(ChannelAction::GrabClip { clip_index: 1 }, 0, 0);
    assert_eq!(hovering(grab).cursor_icon(), CursorIcon::Grab);
    assert_eq!(hovering(over(ChannelAction::CreateJunction, 0, 0)).cursor_icon(), CursorIcon::Hand);
    assert_eq!(
        hovering(over(ChannelAction::ModifyJunction, 0, 0)).cursor_icon(),
        CursorIcon::Default
    );
    assert_eq!(
        hovering(over(ChannelAction::SetPlayhead, 0, 0)).cursor_icon(),
        CursorIcon::Crosshair
    );
}

#[test]
fn pointer_moves_change_what_it_hovers_over() {
    let (mut interface, _sequencer) = setup();
    assert_eq!(interface.get_state(), State::default());
    let action = over(ChannelAction::SetPlayhead, 1, 40);
    assert_eq!(interface.handle_cursor_move(40, action), Ok(hovering(action)));
    assert_eq!(interface.get_state(), hovering(action));
    assert_eq!(interface.handle_cursor_move(0, Action::NoAction), Ok(hovering(Action::NoAction)));
}

fn press(interface: &mut SequencerInterface, button: PointerButton) -> Result<State, InterfaceError> {
    interface.handle_mouse_input(button, ButtonState::Pressed, 0, 0)
}

fn release(
    interface: &mut SequencerInterface,
    button: PointerButton,
    channel_index: usize,
    location: u64,
) -> Result<State, InterfaceError> {
    interface.handle_mouse_input(button, ButtonState::Released, channel_index, location)
}

#[test]
fn press_on_a_channel_places_its_playhead() {
    let (mut interface, mut sequencer) = setup();
    let action = over(ChannelAction::SetPlayhead, 1, 40);
    interface.handle_cursor_move(40, action).unwrap();
    assert_eq!(release(&mut interface, PointerButton::Left, 1, 40), Ok(hovering(action)));
    sequencer.next_frame(0, &add).unwrap();
    assert_eq!(sequencer.get_channel(1).unwrap().playhead, Playhead::default());
    assert_eq!(press(&mut interface, PointerButton::Left), Ok(hovering(action)));
    let other = over(ChannelAction::SetPlayhead, 2, 7);
    interface.handle_cursor_move(7, other).unwrap();
    assert_eq!(press(&mut interface, PointerButton::Right), Ok(hovering(other)));
    for _ in 0..500 {
        sequencer.next_frame(0, &add).unwrap();
    }
    assert_eq!(sequencer.get_channel(1).unwrap().playhead, playing(40));
    assert_eq!(
        sequencer.get_channel(2).unwrap().playhead,
        Playhead {
            state: PlayheadState::Playing,
            location: 7,
            direction: PlayheadDirection::Backward
        }
    );
}

#[test]
fn junction_drawn_on_its_own_channel_is_a_reflection() {
    let (mut interface, mut sequencer) = setup();
    let action = over(ChannelAction::CreateJunction, 3, 250);
    interface.handle_cursor_move(250, action).unwrap();
    assert_eq!(press(&mut interface, PointerButton::Right), Ok(hovering(action)));
    let drawing = State::CreatingJunction { source_channel_index: 3, source_channel_location: 250 };
    assert_eq!(press(&mut interface, PointerButton::Left), Ok(drawing));
    assert_eq!(interface.get_state(), drawing);
    assert_eq!(interface.get_channel(3).unwrap().active_junctions, 0);
    assert_eq!(interface.handle_cursor_move(300, Action::NoAction), Ok(drawing));
    assert_eq!(release(&mut interface, PointerButton::Right, 3, 300), Ok(drawing));
    assert_eq!(press(&mut interface, PointerButton::Left), Ok(drawing));
    assert_eq!(release(&mut interface, PointerButton::Left, 3, 300), Ok(State::default()));
    assert_eq!(interface.get_state(), State::default());
    let channel = interface.get_channel(3).unwrap();
    assert_eq!(channel.active_junctions, 1);
    assert_eq!(channel.junctions[0].model, reflect(300));
    sequencer.next_frame(0, &add).unwrap();
    assert_eq!(sequencer.get_channel(3).unwrap().junctions[0], reflect(300));
}

#[test]
fn junction_drawn_to_another_channel_is_a_jump_that_splits() {
    let (mut interface, mut sequencer) = setup();
    let action = over(ChannelAction::CreateJunction, 0, 250);
    interface.handle_cursor_move(250, action).unwrap();
    press(&mut interface, PointerButton::Left).unwrap();
    assert_eq!(release(&mut interface, PointerButton::Left, 2, 900), Ok(State::default()));
    let jump = Junction {
        enabled: true,
        location: 250,
        junction_type: JunctionType::Jump {
            destination_channel_index: 2,
            destination_location: 900,
            split: true,
        },
    };
    assert_eq!(interface.get_channel(0).unwrap().junctions[0].model, jump);
    assert_eq!(interface.get_channel(2).unwrap().active_junctions, 0);
    sequencer.next_frame(0, &add).unwrap();
    assert_eq!(sequencer.get_channel(0).unwrap().junctions[0], jump);
}

#[test]
fn junction_that_cannot_be_added_ends_the_drawing() {
    let (mut interface, _sequencer) = setup();
    for (source, target, error) in [
        (9usize, 9usize, InterfaceError::NoSuchChannel),
        (0, 4, InterfaceError::NoSuchChannel),
    ] {
        interface.handle_cursor_move(5, over(ChannelAction::CreateJunction, source, 5)).unwrap();
        press(&mut interface, PointerButton::Left).unwrap();
        assert_eq!(release(&mut interface, PointerButton::Left, target, 7), Err(error));
        assert_eq!(interface.get_state(), State::default());
        assert_eq!(interface.get_channel(0).unwrap().active_junctions, 0);
    }
}

#[test]
fn clip_is_grabbed_dragged_and_released() {
    let (mut interface, mut sequencer) = setup();
    interface.add_clip(0, clip(100, 150)).unwrap();
    let grab = over(ChannelAction::GrabClip { clip_index: 0 }, 0, 120);
    interface.handle_cursor_move(120, grab).unwrap();
    let held = State::GrabbingClip { channel_index: 0, clip_index: 0, relative_location: 20 };
    assert_eq!(press(&mut interface, PointerButton::Left), Ok(held));
    assert_eq!(interface.get_state(), held);
    assert_eq!(interface.handle_cursor_move(300, Action::NoAction), Ok(held));
    assert_eq!(interface.get_channel(0).unwrap().clips[0].model, clip(280, 330));
    assert_eq!(release(&mut interface, PointerButton::Right, 0, 300), Ok(held));
    assert_eq!(press(&mut interface, PointerButton::Left), Ok(held));
    assert_eq!(release(&mut interface, PointerButton::Left, 0, 300), Ok(State::default()));
    assert_eq!(interface.handle_cursor_move(500, Action::NoAction), Ok(State::default()));
    assert_eq!(interface.get_channel(0).unwrap().clips[0].model, clip(280, 330));
    sequencer.next_frame(0, &add).unwrap();
    assert_eq!(sequencer.get_channel(0).unwrap().clips[0], clip(280, 330));
}

#[test]
fn press_that_cannot_be_acted_on_keeps_the_state() {
    let (mut interface, _sequencer) = setup();
    interface.add_clip(0, clip(100, 150)).unwrap();
    for (action, error) in [
        (over(ChannelAction::GrabClip { clip_index: 0 }, 0, 99), InterfaceError::NotOnClip),
        (over(ChannelAction::GrabClip { clip_index: 0 }, 4, 120), InterfaceError::NoSuchChannel),
        (over(ChannelAction::GrabClip { clip_index: 32 }, 0, 120), InterfaceError::NoSuchClip),
        (over(ChannelAction::SetPlayhead, 9, 120), InterfaceError::NoSuchChannel),
    ] {
        interface.handle_cursor_move(0, action).unwrap();
        assert_eq!(press(&mut interface, PointerButton::Left), Err(error));
        assert_eq!(interface.get_state(), hovering(action));
    }
}

#[test]
fn actions_without_effect_leave_everything_alone() {
    let (mut interface, _sequencer) = setup();
    for action in [Action::NoAction, over(ChannelAction::ModifyJunction, 0, 5)] {
        for button in
            [PointerButton::Left, PointerButton::Right, PointerButton::Middle, PointerButton::Other]
        {
            for element_state in [ButtonState::Pressed, ButtonState::Released] {
                let before = interface.get_state();
                assert_eq!(interface.handle_action(action, button, element_state), Ok(before));
                assert_eq!(interface.get_channel(0).unwrap().active_junctions, 0);
            }
        }
    }
}

#[test]
fn taken_summary_replaces_the_held_one() {
    let (mut interface, _sequencer) = setup();
    let mut summary = SequencerSummary::default();
    summary.total_frames_processed = 1500;
    summary.playheads[2] = playing(33);
    interface.take_summary(None);
    assert_eq!(interface.get_summary(), SequencerSummary::default());
    interface.take_summary(Some(summary));
    assert_eq!(interface.get_summary(), summary);
    interface.take_summary(None);
    assert_eq!(interface.get_summary(), summary);
    assert_eq!(interface.get_channel(2).unwrap().active_clips, 0);
    assert_eq!(interface.get_state(), State::default());
}

#[test]
fn playhead_edit_names_the_channel_and_carries_the_playhead() {
    let (interface, _sequencer) = setup();
    for channel_index in 0..NUM_CHANNELS {
        assert_eq!(
            interface.get_playhead_edit(channel_index, playing(12)),
            Ok(SequencerControlMessage::SyncPlayhead { channel_index, playhead: playing(12) })
        );
    }
    assert_eq!(
        interface.get_playhead_edit(NUM_CHANNELS, playing(12)),
        Err(InterfaceError::NoSuchChannel)
    );
}

#[test]
fn pressed_playhead_plays_from_the_pointer() {
    assert_eq!(SequencerInterface::get_pressed_playhead(40, PointerButton::Left), playing(40));
    for button in [PointerButton::Right, PointerButton::Middle, PointerButton::Other] {
        assert_eq!(
            SequencerInterface::get_pressed_playhead(7, button),
            Playhead {
                state: PlayheadState::Playing,
                location: 7,
                direction: PlayheadDirection::Backward
            }
        );
    }
}

#[test]
fn drawn_junction_reflects_at_home_and_jumps_abroad() {
    assert_eq!(SequencerInterface::get_drawn_junction(2, 100, 2, 340), reflect(340));
    assert_eq!(
        SequencerInterface::get_drawn_junction(2, 100, 0, 340),
        Junction {
            enabled: true,
            location: 100,
            junction_type: JunctionType::Jump {
                destination_channel_index: 0,
                destination_location: 340,
                split: true
            }
        }
    );
}

#[test]
fn adding_is_settled_by_what_the_queue_answered() {
    let (mut interface, _sequencer) = setup();
    assert_eq!(interface.settle_clip(2, clip(0, 10), false), Err(InterfaceError::QueueFull));
    assert_eq!(interface.get_channel(2).unwrap().active_clips, 0);
    assert_eq!(interface.get_channel(2).unwrap().clips[0].model, Clip::default());
    assert_eq!(interface.settle_clip(2, clip(0, 10), true), Ok(0));
    assert_eq!(interface.settle_clip(2, clip(20, 30), true), Ok(1));
    let channel = interface.get_channel(2).unwrap();
    assert_eq!(channel.active_clips, 2);
    assert_eq!(channel.clips[0].model, clip(0, 10));
    assert_eq!(channel.clips[1].model, clip(20, 30));
    assert_eq!(channel.clips[2].model, Clip::default());
    assert_eq!(interface.get_channel(1).unwrap().active_clips, 0);

    assert_eq!(interface.settle_junction(3, reflect(5), false), Err(InterfaceError::QueueFull));
    assert_eq!(interface.get_channel(3).unwrap().active_junctions, 0);
    assert_eq!(interface.settle_junction(3, reflect(5), true), Ok(0));
    assert_eq!(interface.settle_junction(3, reflect(9), true), Ok(1));
    let channel = interface.get_channel(3).unwrap();
    assert_eq!(channel.active_junctions, 2);
    assert_eq!(channel.junctions[1].model, reflect(9));
    assert_eq!(channel.active_clips, 0);
}

#[test]
fn move_is_settled_by_what_the_queue_answered() {
    let (mut interface, _sequencer) = setup();
    interface.add_clip(0, clip(100, 150)).unwrap();
    assert_eq!(interface.settle_move(0, 0, clip(7, 57), false), Err(InterfaceError::QueueFull));
    assert_eq!(interface.get_channel(0).unwrap().clips[0].model, clip(100, 150));
    assert_eq!(interface.settle_move(0, 0, clip(7, 57), true), Ok(clip(7, 57)));
    let channel = interface.get_channel(0).unwrap();
    assert_eq!(channel.clips[0].model, clip(7, 57));
    assert_eq!(channel.active_clips, 1);
    assert_eq!(channel.clips[1].model, Clip::default());
}
