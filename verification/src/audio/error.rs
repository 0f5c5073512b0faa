//! Errors of the audio service.
use vstd::prelude::*;

verus! {

/// Kind of audio device.
#[derive(Debug, Clone, Copy, PartialEq, Eq)]
pub enum DeviceType {
    /// Input device (microphone, sink monitor).
    Input,
    /// Output device (speakers, headphones).
    Output,
}

/// Kind of audio stream.
#[derive(Debug, Clone, Copy, PartialEq, Eq)]
pub enum StreamType {
    /// Playback stream (sink input).
    Playback,
    /// Recording stream (source output).
    Record,
}

/// PulseAudio service errors.
#[derive(Debug, Clone, PartialEq, Eq)]
pub enum Error {
    /// PulseAudio connection failed.
    ConnectionFailed(String),
    /// Device not found.
    DeviceNotFound {
        /// Device index that was not found.
        index: u32,
        /// Type of device (input/output).
        device_type: DeviceType,
    },
    /// Stream not found.
    StreamNotFound {
        /// Stream index that was not found.
        index: u32,
        /// Type of stream.
        stream_type: StreamType,
    },
    /// Command channel disconnected.
    CommandChannelDisconnected(String),
    /// Lock poisoned due to panic in another thread.
    LockPoisoned(String),
    /// Monitoring not initialized - missing required components for live monitoring.
    MonitoringNotInitialized(String),
    /// Service initialization failed.
    InitializationFailed(String),
}

} // verus!
