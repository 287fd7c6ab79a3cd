//! Sizes of the transport decoder's buffers.

use vstd::prelude::*;

verus! {

/// Largest AudioSpecificConfig taken, in bytes.
pub const MAX_CONF_SIZE: usize = 64;

/// Size of the buffer that holds one access unit, in bytes.
pub const TRANSPORTDEC_INBUF_SIZE: usize = 8192;

} // verus!
