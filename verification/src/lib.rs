//! A sample-accurate, multi-channel audio sequencing engine.
//!
//! Independent playback timelines ("channels") are advanced one frame at a
//! time. Junctions placed on a channel redirect, reflect or stop its playhead,
//! clips map channel time onto registered sound sources, and a control side
//! edits the engine through bounded single-producer single-consumer queues.
//!
//! The render side is made of [`sequencer`], [`channel`], [`sound_bank`] and
//! [`output`]; [`event`] and [`queue`] carry what travels between the two
//! sides; [`interface`] is the control side's picture of the engine.
//! [`interpolator`] and [`frame`] prepare sound sources for the bank.
//! [`control_loop`], [`playback`] and [`grid`] are small models of their own:
//! a looping control timeline, a graph of sounds that trigger one another,
//! and a grid of cells on which items are placed.
//!
//! The engine never computes with samples. Where samples are added up or
//! converted, the caller brings the arithmetic of its sample type.

pub mod channel;
pub mod control_loop;
pub mod event;
pub mod frame;
pub mod grid;
pub mod interface;
pub mod interpolator;
pub mod output;
pub mod playback;
pub mod queue;
pub mod sequencer;
pub mod sound_bank;
