//! The data formats of the reference tool: packet streams, WAV files, and what the
//! encoder is given and gives; and the generator of its test signals' noise.

pub mod rawpkts;
pub mod wav;
pub mod encoding;
pub mod rng;
