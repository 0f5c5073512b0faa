//! CAVA audio visualization: what the service keeps of libcava's structures and how it
//! reads libcava's status codes.
pub mod audio_output;
pub mod error;
pub mod plan;
