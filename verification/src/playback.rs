//! A graph of sounds that trigger one another after a delay.

use vstd::prelude::*;
use std::collections::HashMap;
use std::time::Duration;

verus! {

/// The identifier of a sound.
pub type SoundID = u64;

pub enum PlaybackControlMessage {
    Play(SoundID),
    Pause,
    Stop,
}

#[derive(Debug, Clone, Copy, PartialEq, Eq, Structural)]
pub enum PlaybackState {
    Playing,
    Paused,
    Stopped,
}

/// The time between a sound and what it triggers.
#[derive(Debug, Clone, Copy, PartialEq, Eq, Structural)]
pub enum Delay {
    Milliseconds(u64),
}

/// The span of time that lasts the given number of milliseconds.
pub uninterp spec fn duration_of_millis(millis: u64) -> Duration;

/// `std::time::Duration::from_millis`: the span of time that lasts the given
/// number of whole milliseconds. The span depends on that number alone.
#[verifier::external_body]
fn duration_from_millis(millis: u64) -> (duration: Duration)
    ensures
        duration == duration_of_millis(millis),
{
    Duration::from_millis(millis)
}

impl Delay {
    /// The length of the delay in milliseconds.
    pub open spec fn millis(self) -> u64 {
        match self {
            Delay::Milliseconds(time) => time,
        }
    }
}

/// The span of time that a delay lasts.
pub fn delay_to_duration(delay: Delay) -> (duration: Duration)
    ensures
        duration == duration_of_millis(delay.millis()),
{
    match delay {
        Delay::Milliseconds(time) => duration_from_millis(time),
    }
}

/// An edge of the graph: playing `source` triggers `target` after `delay`.
#[derive(Debug, Clone, Copy, PartialEq, Eq, Structural)]
pub struct Link {
    pub source: SoundID,
    pub target: SoundID,
    pub delay: Delay,
}

/// The links of a graph, grouped by their source. The links of one source
/// are kept in the order in which they were added.
pub struct Graph {
    pub link_map: HashMap<SoundID, Vec<Link>>,
}

impl Graph {
    /// The links that leave a source, oldest first; none for a source that
    /// has no entry.
    pub open spec fn links_from(self, source: SoundID) -> Seq<Link> {
        if self.link_map@.contains_key(source) {
            self.link_map@[source]@
        } else {
            Seq::empty()
        }
    }

    /// A graph without links.
    pub fn new() -> (graph: Self)
        ensures
            graph.link_map@ == Map::<SoundID, Vec<Link>>::empty(),
            forall|source: SoundID| #[trigger] graph.links_from(source) == Seq::<Link>::empty(),
    {
        Graph { link_map: HashMap::new() }
    }

    /// Adds a link behind the links that its source already has. The links
    /// of every other source stay as they are.
    pub fn add_link(&mut self, link: Link)
        ensures
            final(self).link_map@.dom() == old(self).link_map@.dom().insert(link.source),
            final(self).links_from(link.source) == old(self).links_from(link.source).push(link),
            forall|other: SoundID|
                other != link.source ==> #[trigger] final(self).link_map@.contains_key(other)
                    == old(self).link_map@.contains_key(other) && (old(
                    self,
                ).link_map@.contains_key(other) ==> final(self).link_map@[other] == old(
                    self,
                ).link_map@[other]),
    {
        broadcast use vstd::std_specs::hash::group_hash_axioms;

        let source = link.source;
        let mut links = match self.link_map.remove(&source) {
            Some(links) => links,
            None => Vec::new(),
        };
        links.push(link);
        self.link_map.insert(source, links);
    }
}

} // verus!
