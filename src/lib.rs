//! The viewport compositor and frame scheduler of an image viewer.
//!
//! Each frame, `compositor::composite` turns the image on screen, the pan and
//! zoom state and the window's size into an RGBA buffer of exactly the window's
//! size: zoom and pan in the order that keeps motion continuous, a fit that
//! keeps the aspect ratio, nearest-neighbour resampling and transparent
//! letterboxing. `scheduler::FrameScheduler` plays animations: it advances,
//! rewinds, pauses and steps through frames, wrapping at both ends.

pub mod geometry;
pub mod raster;
pub mod pan;
pub mod zoom;
pub mod compositor;
pub mod scheduler;
pub mod association;
pub mod actions;
