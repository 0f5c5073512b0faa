//! Audio (PulseAudio) service: its error type.
pub mod error;
