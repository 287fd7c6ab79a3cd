//! Code book numbers.

use vstd::prelude::*;

verus! {

/// Code book of a band whose spectrum is all zero.
pub const CBTYPE_ZERO_HCB: u8 = 0;

/// Escape code book.
pub const CBTYPE_ESCBOOK: u8 = 11;

/// Code book of the scale factors, which no section may use.
pub const CBTYPE_BOOKSCL: u8 = 12;

/// Perceptual noise substitution.
pub const CBTYPE_NOISE_HCB: u8 = 13;

/// Intensity stereo, out of phase.
pub const CBTYPE_INTENSITY_HCB2: u8 = 14;

/// Intensity stereo, in phase.
pub const CBTYPE_INTENSITY_HCB: u8 = 15;

} // verus!
