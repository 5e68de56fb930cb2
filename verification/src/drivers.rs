//! Audio drivers: configuration, lifecycle and the callback bridge.

pub mod driver;
pub mod engine;
