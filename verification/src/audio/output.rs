//! Audio output configuration.

use vstd::prelude::*;

verus! {

/// Configuration for the audio output device.
#[derive(Debug, Clone, Copy, PartialEq, Eq, Structural)]
pub struct AudioConfig {
    /// Sample rate in Hz
    pub sample_rate: u32,
    /// Buffer size in frames
    pub buffer_size: u32,
    /// Number of output channels
    pub channels: u16,
}

impl Default for AudioConfig {
    /// CD-rate stereo with a 512-frame buffer.
    fn default() -> (r: Self)
        ensures
            r == (AudioConfig { sample_rate: 44100, buffer_size: 512, channels: 2 }),
    {
        Self { sample_rate: 44100, buffer_size: 512, channels: 2 }
    }
}

impl AudioConfig {
    /// The output latency of one buffer, in microseconds: the buffer
    /// length over the sample rate.
    pub fn latency_micros(&self) -> (r: u64)
        requires
            self.sample_rate >= 1,
        ensures
            r == self.buffer_size as int * 1_000_000 / self.sample_rate as int,
    {
        (self.buffer_size as u64 * 1_000_000) / self.sample_rate as u64
    }
}

} // verus!
