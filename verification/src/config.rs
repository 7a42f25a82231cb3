//! Stream-configuration data as plain values: what the session reads of
//! the host audio subsystem's device descriptions.

use vstd::prelude::*;

verus! {

/// The sample format a device delivers. Only `F32` is recordable here;
/// everything else is rejected at negotiation.
#[derive(Clone, Copy, Debug, PartialEq, Eq, Structural)]
pub enum SampleFormat {
    F32,
    I16,
    U16,
    Other,
}

/// A device's negotiated input configuration.
#[derive(Clone, Copy, Debug, PartialEq, Eq, Structural)]
pub struct StreamConfig {
    pub channels: u16,
    pub sample_rate: u32,
    pub sample_format: SampleFormat,
}

/// One supported-configuration range a device advertises, for listing.
#[derive(Clone, Copy, Debug, PartialEq, Eq, Structural)]
pub struct SupportedConfigRange {
    pub channels: u16,
    pub min_sample_rate: u32,
    pub max_sample_rate: u32,
    pub sample_format: SampleFormat,
}

/// The shape of the output file: channel count and sample rate of the
/// negotiated stream; the depth is always 16-bit integer PCM.
#[derive(Clone, Copy, Debug, PartialEq, Eq, Structural)]
pub struct WavFormat {
    pub channels: u16,
    pub sample_rate: u32,
}

impl WavFormat {
    /// The container's field widths bound what a format may hold: the
    /// channel pair count and the byte rate must fit their header fields.
    pub open spec fn wf(self) -> bool {
        &&& 1 <= self.channels
        &&& 2 * self.channels < 65536
        &&& (self.sample_rate as nat) * (self.channels as nat) * 2 < 4294967296
    }
}

/// Whether an advertised configuration range covers a device's default
/// configuration: same channel count and format, default rate within the
/// advertised bounds.
pub fn config_is_default(range: &SupportedConfigRange, default: &StreamConfig) -> (r: bool)
    ensures
        r == {
            &&& range.channels == default.channels
            &&& range.sample_format == default.sample_format
            &&& range.min_sample_rate <= default.sample_rate
            &&& default.sample_rate <= range.max_sample_rate
        },
{
    range.channels == default.channels && range.sample_format == default.sample_format
        && range.min_sample_rate <= default.sample_rate
        && default.sample_rate <= range.max_sample_rate
}

} // verus!
