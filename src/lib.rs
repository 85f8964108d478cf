//! Randomised sine-pulse playback: phase accumulation and frame filling,
//! output-device choice, and the decisions of the pulse loop.
pub mod device;
pub mod errors;
pub mod schedule;
pub mod synth;

pub use errors::{Error, Result};
