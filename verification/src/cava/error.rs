//! Errors of the visualization service.
use vstd::prelude::*;

verus! {

/// Errors that libcava reports.
#[derive(Debug, Clone, PartialEq, Eq)]
pub enum Error {
    /// `cava_init` returned a null plan.
    NullPlan,
    /// `cava_init` reported an error with this message.
    InitFailed(String),
    /// `audio_raw_init` returned this nonzero code.
    AudioRawInitFailed(i32),
}

} // verus!
