//! Errors of the AAC decoder.

use vstd::prelude::*;
use crate::tp_dec::TpDecoderError;

verus! {

/// AAC decoder error.
#[derive(Clone, Copy, Debug, PartialEq, Eq, Structural)]
pub enum AacDecoderError {
    /// No error.
    AacDecOk,
    /// Memory could not be had.
    OutOfMemory,
    /// Something went wrong that no other code describes.
    Unknown,
    /// The access unit is cut short.
    NotEnoughBits,
    /// The stream uses something this decoder does not take.
    UnsupportedFormat,
    /// The channel configuration is not taken.
    UnsupportedChannelconfig,
    /// The sampling frequency is not taken.
    UnsupportedSamplingrate,
    /// The buffer for the decoded frame is too small.
    OutputBufferTooSmall,
    /// The access unit does not follow the syntax.
    ParseError,
    /// The access unit could not be decoded.
    DecodeFrameError,
    /// A section announces a code book that may not stand there.
    InvalidCodeBook,
    /// The temporal noise shaping data is broken.
    TnsReadError,
}

impl AacDecoderError {
    /// An error found while decoding an access unit, which leaves a concealed frame.
    pub open spec fn spec_is_decode_error(self) -> bool {
        self == AacDecoderError::ParseError || self == AacDecoderError::DecodeFrameError || self
            == AacDecoderError::InvalidCodeBook || self == AacDecoderError::TnsReadError
    }

    /// Whether this is an error found while decoding an access unit, after which a
    /// concealed frame is still put out.
    pub fn is_decode_error(&self) -> (r: bool)
        ensures
            r == self.spec_is_decode_error(),
    {
        match self {
            AacDecoderError::ParseError | AacDecoderError::DecodeFrameError
            | AacDecoderError::InvalidCodeBook | AacDecoderError::TnsReadError => true,
            _ => false,
        }
    }

    /// Whether a frame is put out despite this code: no error, or a decode error.
    pub fn is_output_valid(&self) -> (r: bool)
        ensures
            r == (*self == AacDecoderError::AacDecOk || self.spec_is_decode_error()),
    {
        match self {
            AacDecoderError::AacDecOk => true,
            _ => self.is_decode_error(),
        }
    }
}

/// The decoder error that a transport error stands for.
pub open spec fn from_tp_error(e: TpDecoderError) -> AacDecoderError {
    match e {
        TpDecoderError::UnsupportedFormat => AacDecoderError::UnsupportedFormat,
        TpDecoderError::NotEnoughBits => AacDecoderError::NotEnoughBits,
        _ => AacDecoderError::Unknown,
    }
}

impl From<TpDecoderError> for AacDecoderError {
    fn from(e: TpDecoderError) -> (r: AacDecoderError)
        ensures
            r == from_tp_error(e),
    {
        match e {
            TpDecoderError::UnsupportedFormat => AacDecoderError::UnsupportedFormat,
            TpDecoderError::NotEnoughBits => AacDecoderError::NotEnoughBits,
            _ => AacDecoderError::Unknown,
        }
    }
}

impl vstd::std_specs::convert::FromSpecImpl<TpDecoderError> for AacDecoderError {
    open spec fn obeys_from_spec() -> bool {
        true
    }

    open spec fn from_spec(v: TpDecoderError) -> AacDecoderError {
        from_tp_error(v)
    }
}

} // verus!
