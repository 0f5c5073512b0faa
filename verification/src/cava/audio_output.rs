//! The output side of a libcava plan: the geometry of the visualization bars.
use vstd::prelude::*;

use crate::cava::error::Error;

verus! {

/// What the service keeps of libcava's `audio_raw` struct: its integer fields.
///
/// Before `audio_raw_init` all buffers are unallocated and every size is 0 except the
/// number of bars; libcava fills the rest in.
#[derive(Debug, Clone, Copy, PartialEq, Eq)]
pub struct AudioOutput {
    pub number_of_bars: i32,
    pub channels: i32,
    pub output_channels: i32,
    pub height: i32,
    pub lines: i32,
    pub width: i32,
    pub remainder: i32,
}

impl AudioOutput {
    /// Creates a new audio output handler for the specified number of bars. The count is
    /// converted as `bars as i32` (it wraps beyond `i32::MAX`).
    pub fn new(bars: usize) -> (res: Self)
        ensures
            res.number_of_bars == bars as i32,
            res.channels == 0,
            res.output_channels == 0,
            res.height == 0,
            res.lines == 0,
            res.width == 0,
            res.remainder == 0,
    {
        AudioOutput {
            number_of_bars: bars as i32,
            channels: 0,
            output_channels: 0,
            height: 0,
            lines: 0,
            width: 0,
            remainder: 0,
        }
    }

    /// Reads the return code of `audio_raw_init`: 0 is success.
    pub fn init_result(ret: i32) -> (res: Result<(), Error>)
        ensures
            ret == 0 ==> res is Ok,
            ret != 0 ==> res == Err::<(), Error>(Error::AudioRawInitFailed(ret)),
    {
        if ret != 0 {
            return Err(Error::AudioRawInitFailed(ret));
        }
        Ok(())
    }
}

} // verus!
