//! Audio conditioning: sample-rate conversion, channel mixing and the WAV
//! container.

pub mod capture;
pub mod resampler;
pub mod wav;
