//! Sampling rate information of the core decoder.

use vstd::prelude::*;
use super::error_codes::AacDecoderError;

verus! {

/// Sampling rate information: the frame length, the sampling frequency and its
/// index, which select the scale factor band layout of a frame.
#[derive(Clone, Copy, Debug, PartialEq, Eq, Structural)]
pub struct SamplingRateInfo {
    /// Samples per frame.
    pub frame_length: u16,
    /// Sampling frequency index.
    pub sampling_rate_index: u32,
    /// Sampling frequency.
    pub sampling_rate: u32,
}

impl SamplingRateInfo {
    /// Information with everything zero.
    pub fn new() -> (info: SamplingRateInfo)
        ensures
            info == (SamplingRateInfo { frame_length: 0, sampling_rate_index: 0, sampling_rate: 0 }),
    {
        SamplingRateInfo { frame_length: 0, sampling_rate_index: 0, sampling_rate: 0 }
    }

    /// Takes over the frame length, the sampling frequency index and the sampling
    /// frequency.
    pub fn init(&mut self, frame_length: u16, sampling_rate_index: u32, sampling_rate: u32) -> (r:
        Result<(), AacDecoderError>)
        ensures
            r is Ok,
            *final(self) == (SamplingRateInfo { frame_length, sampling_rate_index, sampling_rate }),
    {
        self.frame_length = frame_length;
        self.sampling_rate_index = sampling_rate_index;
        self.sampling_rate = sampling_rate;
        Ok(())
    }

    /// Returns the sampling frequency index.
    pub fn sampling_rate_index(&self) -> (i: u32)
        ensures
            i == self.sampling_rate_index,
    {
        self.sampling_rate_index
    }
}

impl Default for SamplingRateInfo {
    fn default() -> (info: SamplingRateInfo)
        ensures
            info == (SamplingRateInfo { frame_length: 0, sampling_rate_index: 0, sampling_rate: 0 }),
    {
        SamplingRateInfo::new()
    }
}

} // verus!
