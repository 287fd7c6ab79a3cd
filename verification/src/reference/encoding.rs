//! What the reference encoder is given and what it gives.

use vstd::prelude::*;

verus! {

/// An encoded stream: the AudioSpecificConfig and the access units.
#[derive(Debug)]
pub struct Encoded {
    pub config: Vec<u8>,
    pub units: Vec<Vec<u8>>,
}

/// Why the encoder is not run on an input.
#[derive(Clone, Copy, Debug, PartialEq, Eq, Structural)]
pub enum SettingsError {
    /// The decoder takes 48, 44.1 or 32 kHz, mono or stereo; the input's rate and
    /// channel count.
    UnsupportedInput { rate: u32, channels: usize },
    /// Frames are 480 or 512 samples; the frame length asked for.
    UnsupportedFrame(u32),
}

/// What the encoder is run on: 48, 44.1 or 32 kHz in one or two channels, in frames
/// of 480 or 512 samples.
pub open spec fn spec_check_settings(rate: u32, channels: usize, granule: u32) -> Result<(), SettingsError> {
    if !(rate == 48000 || rate == 44100 || rate == 32000) || !(channels == 1 || channels == 2) {
        Err(SettingsError::UnsupportedInput { rate, channels })
    } else if !(granule == 480 || granule == 512) {
        Err(SettingsError::UnsupportedFrame(granule))
    } else {
        Ok(())
    }
}

/// Checks that the encoder is run on what the decoder takes: 48, 44.1 or 32 kHz in
/// one or two channels, in frames of 480 or 512 samples.
pub fn check_settings(rate: u32, channels: usize, granule: u32) -> (r: Result<(), SettingsError>)
    ensures
        r == spec_check_settings(rate, channels, granule),
{
    if !(rate == 48000 || rate == 44100 || rate == 32000) || !(channels == 1 || channels == 2) {
        return Err(SettingsError::UnsupportedInput { rate, channels });
    }
    if !(granule == 480 || granule == 512) {
        return Err(SettingsError::UnsupportedFrame(granule));
    }
    Ok(())
}

} // verus!
