use state_machine::control_loop::{ControlLoop, Trigger, MAX_TRIGGERS, SAMPLES_PER_INTERVAL};
use state_machine::playback::{delay_to_duration, Delay, Graph, Link};
use std::time::Duration;

fn link(source: u64, target: u64, millis: u64) -> Link {
    Link { source, target, delay: Delay::Milliseconds(millis) }
}

#[test]
fn delay_in_milliseconds_becomes_a_duration() {
    assert_eq!(delay_to_duration(Delay::Milliseconds(0)), Duration::from_millis(0));
    assert_eq!(delay_to_duration(Delay::Milliseconds(1_500)), Duration::new(1, 500_000_000));
    assert_eq!(delay_to_duration(Delay::Milliseconds(u64::MAX)), Duration::from_millis(u64::MAX));
    assert_ne!(delay_to_duration(Delay::Milliseconds(2)), Duration::from_millis(3));
}

#[test]
fn new_graph_has_no_links() {
    let graph = Graph::new();
    assert!(graph.link_map.is_empty());
}

#[test]
fn links_are_grouped_by_source_in_the_order_added() {
    let mut graph = Graph::new();
    graph.add_link(link(1, 2, 10));
    graph.add_link(link(3, 1, 20));
    graph.add_link(link(1, 4, 30));
    graph.add_link(link(1, 2, 40));
    assert_eq!(graph.link_map.len(), 2);
    assert_eq!(graph.link_map[&1], vec![link(1, 2, 10), link(1, 4, 30), link(1, 2, 40)]);
    assert_eq!(graph.link_map[&3], vec![link(3, 1, 20)]);
    assert!(!graph.link_map.contains_key(&2));
}

#[test]
fn new_loop_is_at_rest_at_its_start() {
    let control_loop = ControlLoop::new(4);
    assert_eq!(control_loop.get_location(), 0);
    assert!(!control_loop.is_playing());
    assert_eq!(SAMPLES_PER_INTERVAL, 24_000);
    assert_eq!(MAX_TRIGGERS, 128);
    assert_eq!(Trigger::default(), Trigger::default());
}

#[test]
fn loop_at_rest_does_not_move() {
    let mut control_loop = ControlLoop::new(1);
    control_loop.update();
    assert_eq!(control_loop.get_location(), 0);
    control_loop.play();
    control_loop.update();
    control_loop.stop();
    control_loop.update();
    assert_eq!(control_loop.get_location(), 1);
    assert!(!control_loop.is_playing());
}

#[test]
fn playing_loop_starts_over_after_its_last_sample() {
    let mut control_loop = ControlLoop::new(2);
    control_loop.play();
    assert!(control_loop.is_playing());
    let period = 2 * SAMPLES_PER_INTERVAL;
    for n in 1..period {
        control_loop.update();
        assert_eq!(control_loop.get_location(), n);
    }
    control_loop.update();
    assert_eq!(control_loop.get_location(), 0);
    control_loop.update();
    assert_eq!(control_loop.get_location(), 1);
}

#[test]
fn longest_loop_that_fits() {
    let mut control_loop = ControlLoop::new(u64::MAX / SAMPLES_PER_INTERVAL);
    control_loop.play();
    control_loop.update();
    assert_eq!(control_loop.get_location(), 1);
}

#[test]
fn loop_of_any_length_can_be_made() {
    for length in [0u64, 1, u64::MAX / SAMPLES_PER_INTERVAL + 1, u64::MAX] {
        let mut control_loop = ControlLoop::new(length);
        assert_eq!(control_loop.get_location(), 0);
        assert!(!control_loop.is_playing());
        assert!(!control_loop.is_runnable() || length == 1);
        control_loop.update();
        assert_eq!(control_loop.get_location(), 0);
        control_loop.play();
        control_loop.stop();
        assert_eq!(control_loop.get_location(), 0);
    }
}

#[test]
fn loops_that_can_run() {
    assert!(!ControlLoop::new(0).is_runnable());
    assert!(ControlLoop::new(1).is_runnable());
    assert!(ControlLoop::new(u64::MAX / SAMPLES_PER_INTERVAL).is_runnable());
    assert!(!ControlLoop::new(u64::MAX / SAMPLES_PER_INTERVAL + 1).is_runnable());
}
