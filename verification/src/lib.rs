//! A small cooperative execution runtime for composing independently
//! developed plugins into one tick-driven program.
//!
//! The crate provides typed singleton storage for shared and thread-affine
//! values, a double-buffered message facility, named ordered batches of
//! systems ("stages"), pluggable tick-scheduling policies, and a two-phase
//! application lifecycle that drives all of it once per external tick.

pub mod app;
pub mod clock;
pub mod defaults;
pub mod message;
pub mod param;
pub mod sched;
pub mod stage;
pub mod state;
pub mod store;
pub mod system;
pub mod tags;
