//! The negotiated stream description, fixed once capture starts.

use vstd::prelude::*;

verus! {

/// Stream format as negotiated with the audio device. The fields mirror the
/// device's wave-format descriptor; the accumulator only reads `block_align`
/// (bytes per frame) and the analyzer only reads `samples_per_sec`.
#[derive(Clone, Copy, Debug, PartialEq, Eq, Structural)]
pub struct WaveFormatEx {
    pub format_tag: u16,
    pub channels: u16,
    pub samples_per_sec: u32,
    pub avg_bytes_per_sec: u32,
    pub block_align: u16,
    pub bits_per_sample: u16,
    pub size: u16,
}

impl WaveFormatEx {
    /// A format the accumulator can consume: every frame is non-empty and
    /// carries at least the two bytes of one 16-bit sample.
    pub open spec fn valid(self) -> bool {
        self.block_align >= 2
    }
}

} // verus!
