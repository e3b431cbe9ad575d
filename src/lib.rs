//! Frame pacing and swapchain lifecycle for a windowed presentation loop.
//!
//! The library decides; the embedding program talks to the graphics device.
//! Every handle the device hands out is carried here as its raw `u64` value.

pub mod extent;
pub mod negotiation;
pub mod sync;
pub mod swapchain;
pub mod scheduler;
pub mod recorder;
pub mod ownership;
pub mod setup;
