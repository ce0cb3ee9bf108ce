//! Capture of pointer moves and left clicks as a timed log of actions, and
//! replay of such a log at an adjustable speed, repeated and cancellable.
//!
//! Coordinates are carried as an opaque position type `P`: the library never
//! computes with them, it only records and hands them back.

pub mod action;
pub mod playback;
pub mod recorder;
