//! Timing-driven hit circles for a rhythm game: loading a timeline into a
//! roster, activating circles as the clock advances, resolving player input
//! to the topmost eligible circle, and composing the draw list of a frame.
//!
//! Every length and coordinate in this crate is an integer that counts
//! thousandths of a playfield unit, and every time is a count of
//! milliseconds, so that all arithmetic is exact.

pub mod approach;
pub mod circle;
pub mod clock;
pub mod compositor;
pub mod engine;
pub mod geometry;
pub mod loader;
pub mod resolve;
pub mod roster;
pub mod session;
