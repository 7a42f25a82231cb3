//! The error kinds a recording session can surface.

use vstd::prelude::*;

verus! {

/// Everything that can go wrong while setting up or finishing a recording.
///
/// `StreamError` is never returned by the session itself: stream-level
/// faults are reported asynchronously by the audio backend's error
/// callback, and the session keeps running through them.
#[derive(Clone, Copy, Debug, PartialEq, Eq, Structural)]
pub enum RecError {
    /// The host audio subsystem could not enumerate its input devices.
    EnumerationError,
    /// No enumerated input device name contained the requested substring.
    NoMatchingDevice,
    /// The device's negotiated sample format is not 32-bit float.
    UnsupportedFormat,
    /// Creating, writing or finalizing the output file failed.
    IoError,
    /// A stream-level fault reported by the backend's error callback.
    StreamError,
}

impl RecError {
    /// A short diagnostic for display by the caller.
    pub fn message(&self) -> (r: &'static str)
        ensures
            r@.len() > 0,
    {
        proof {
            reveal_strlit("could not enumerate input devices");
            reveal_strlit("no matching input device found");
            reveal_strlit("only the 32-bit float sample format is supported");
            reveal_strlit("output file error");
            reveal_strlit("audio stream error");
        }
        match self {
            RecError::EnumerationError => "could not enumerate input devices",
            RecError::NoMatchingDevice => "no matching input device found",
            RecError::UnsupportedFormat => "only the 32-bit float sample format is supported",
            RecError::IoError => "output file error",
            RecError::StreamError => "audio stream error",
        }
    }
}

} // verus!
