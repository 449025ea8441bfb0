//! Decoding of a multi-touch digitizer's raw input-event stream into touch
//! events in display coordinates.

pub mod geometry;
pub mod laws;
pub mod multitouch;
