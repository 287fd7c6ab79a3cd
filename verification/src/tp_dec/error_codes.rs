//! Errors of the transport decoder.

use vstd::prelude::*;

verus! {

/// Transport decoder error.
#[derive(Clone, Copy, Debug, PartialEq, Eq, Structural)]
pub enum TpDecoderError {
    /// Something went wrong that no other code describes.
    UnknownError,
    /// A parameter is out of range.
    InvalidParameter,
    /// The stream uses something this decoder does not take.
    UnsupportedFormat,
    /// The data ended before the syntax did.
    NotEnoughBits,
    /// The data does not follow the syntax.
    ParseError,
    /// The data does not fit into the buffer.
    TooManyBits,
}

} // verus!
