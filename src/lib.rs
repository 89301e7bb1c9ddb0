//! Bouncing-ball sequencer core: collision detection on a rectangular arena,
//! paired note-on/note-off events scheduled by due time, and their MIDI wire
//! encoding.

pub mod event;
pub mod geometry;
pub mod circle;
mod random;
pub mod ball;
pub mod collision;
pub mod queue;
pub mod trigger;
pub mod model;
