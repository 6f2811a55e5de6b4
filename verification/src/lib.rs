//! Removes silent stretches from a stereo linear-PCM recording.
//!
//! The pipeline classifies fixed-size frames of each channel with an
//! adaptive energy detector, picks the channel with more voiced frames,
//! and concatenates that channel's voiced frames into a mono output.
//! All arithmetic is exact: sample energies and thresholds are carried
//! as integer-scaled rationals, so every comparison the classifier makes
//! is the mathematical one, with no rounding.

pub mod codec;
pub mod config;
pub mod detector;
pub mod evaluator;
pub mod processor;
pub mod reconstruct;

pub use config::VadConfig;
pub use detector::VoiceActivityDetector;
pub use processor::AudioProcessor;
