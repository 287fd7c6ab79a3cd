//! Sizes of the AAC decoder.

use vstd::prelude::*;

verus! {

/// Most output channels.
pub const MAX_CHANNELS: usize = 8;

/// Most syntax elements in the element table of a config.
pub const MAX_ELEMENTS: usize = 8;

/// Most samples per channel in one frame.
pub const MAX_FRAMESIZE: usize = 1024;

/// Most windows in a frame.
pub const MAX_WINDOWS: usize = 8;

/// Most scale factor bands of a short window.
pub const MAX_SFB_SHORT: usize = 16;

/// Entries of a per band table covering every window of a frame.
pub const MAX_WINS_X_SFBS: usize = 128;

} // verus!
