//! A pull-based audio playback engine.
//!
//! Audio frames flow from a replaceable provider (a preloaded source or a
//! generative tone) through a driver that bridges a periodic backend callback
//! to provider pulls, interleaving channel-major buffers into the backend's
//! frame-major output.

pub mod buffer;
pub mod drivers;
pub mod providers;
pub mod sample;
