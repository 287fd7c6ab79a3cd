//! What a decoded frame is: its sampling rate, its size and its channels.

use vstd::prelude::*;
use super::constants::MAX_CHANNELS;
use super::error_codes::AacDecoderError;
use crate::common::audio_channel_type::AudioChannelType;

verus! {

/// Information about the decoded output.
#[derive(Clone, Copy, Debug)]
pub struct OutputInfo {
    /// Sampling rate of the output.
    pub sampling_rate: u32,
    /// Samples per channel in one frame.
    pub frame_size: u16,
    /// Number of output channels.
    pub num_channels: u8,
    /// Where each output channel is meant to sound from.
    pub channel_type: [AudioChannelType; MAX_CHANNELS],
    /// Index of each output channel among those of its type.
    pub channel_indices: [u8; MAX_CHANNELS],
}

/// Output information with nothing in it.
pub open spec fn empty_output_info() -> OutputInfo {
    OutputInfo {
        sampling_rate: 0,
        frame_size: 0,
        num_channels: 0,
        channel_type: [AudioChannelType::NoChannel; MAX_CHANNELS],
        channel_indices: [0u8; MAX_CHANNELS],
    }
}

impl OutputInfo {
    /// Output information with nothing in it.
    pub fn new() -> (info: OutputInfo)
        ensures
            info == empty_output_info(),
    {
        OutputInfo {
            sampling_rate: 0,
            frame_size: 0,
            num_channels: 0,
            channel_type: [AudioChannelType::NoChannel; MAX_CHANNELS],
            channel_indices: [0u8; MAX_CHANNELS],
        }
    }
}

impl Default for OutputInfo {
    fn default() -> (info: OutputInfo)
        ensures
            info == empty_output_info(),
    {
        OutputInfo::new()
    }
}

/// Whether a decoding result leaves a frame to output: success, or a decode error
/// whose frame concealment makes up.
pub open spec fn result_is_output_valid(r: Result<(), AacDecoderError>) -> bool {
    match r {
        Ok(()) => true,
        Err(e) => e == AacDecoderError::AacDecOk || e.spec_is_decode_error(),
    }
}

/// Whether a decoding result leaves a frame to output.
pub fn is_output_valid(r: &Result<(), AacDecoderError>) -> (valid: bool)
    ensures
        valid == result_is_output_valid(*r),
{
    match r {
        Ok(()) => true,
        Err(e) => e.is_output_valid(),
    }
}

/// The output position of channel `ch` under the channel map of index `map_index`:
/// the maps of the channel configurations 1 to 14, in WAV order; a channel that
/// the map does not cover, or a map index past the table, keeps its position.
pub open spec fn map_value(ch: u8, map_index: u32) -> u8 {
    let m: Seq<u8> = if map_index == 1 || map_index == 2 {
        seq![0u8, 1]
    } else if map_index == 3 {
        seq![2u8, 0, 1]
    } else if map_index == 4 {
        seq![2u8, 0, 1, 3]
    } else if map_index == 5 {
        seq![2u8, 0, 1, 3, 4]
    } else if map_index == 6 {
        seq![2u8, 0, 1, 4, 5, 3]
    } else if map_index == 7 {
        seq![2u8, 6, 7, 0, 1, 4, 5, 3]
    } else if map_index == 11 {
        seq![2u8, 0, 1, 4, 5, 6, 3]
    } else if map_index == 12 {
        seq![2u8, 0, 1, 6, 7, 4, 5, 3]
    } else if map_index == 13 {
        seq![2u8, 6, 7, 0, 1, 10, 11, 4, 5, 8, 3, 9, 14, 12, 13, 18, 19, 15, 16, 17, 20, 21, 22, 23]
    } else if map_index == 14 {
        seq![2u8, 0, 1, 4, 5, 3, 6, 7]
    } else {
        Seq::empty()
    };
    if (ch as int) < m.len() {
        m[ch as int]
    } else {
        ch
    }
}

/// The maps of mono and stereo keep each channel where it is, so every channel of
/// such a frame lands within the frame's channels.
pub proof fn lemma_mono_and_stereo_maps_keep_channels(ch: u8, map_index: u32)
    requires
        map_index == 1 || map_index == 2,
        (ch as u32) < map_index,
    ensures
        map_value(ch, map_index) == ch,
        (map_value(ch, map_index) as u32) < map_index,
{
}

/// The output position of channel `ch` under the channel map of index `map_index`.
pub fn get_map_value(ch: u8, map_index: u32) -> (v: u8)
    ensures
        v == map_value(ch, map_index),
{
    let m: &[u8] = if map_index == 1 || map_index == 2 {
        &[0u8, 1]
    } else if map_index == 3 {
        &[2u8, 0, 1]
    } else if map_index == 4 {
        &[2u8, 0, 1, 3]
    } else if map_index == 5 {
        &[2u8, 0, 1, 3, 4]
    } else if map_index == 6 {
        &[2u8, 0, 1, 4, 5, 3]
    } else if map_index == 7 {
        &[2u8, 6, 7, 0, 1, 4, 5, 3]
    } else if map_index == 11 {
        &[2u8, 0, 1, 4, 5, 6, 3]
    } else if map_index == 12 {
        &[2u8, 0, 1, 6, 7, 4, 5, 3]
    } else if map_index == 13 {
        &[2u8, 6, 7, 0, 1, 10, 11, 4, 5, 8, 3, 9, 14, 12, 13, 18, 19, 15, 16, 17, 20, 21, 22, 23]
    } else if map_index == 14 {
        &[2u8, 0, 1, 4, 5, 3, 6, 7]
    } else {
        &[]
    };
    if (ch as usize) < m.len() {
        m[ch as usize]
    } else {
        ch
    }
}

/// The channel types after the first `n` channels of `types` were put where the map
/// of index `map_index` puts them, onto `init`.
pub open spec fn mapped<T>(types: Seq<T>, n: nat, map_index: u32, init: Seq<T>) -> Seq<T>
    decreases n,
{
    if n == 0 {
        init
    } else {
        mapped(types, (n - 1) as nat, map_index, init).update(
            map_value((n - 1) as u8, map_index) as int,
            types[n - 1],
        )
    }
}

/// Whether the map of index `map_index` keeps the first `n` channels within the
/// output channels.
pub open spec fn map_fits(n: nat, map_index: u32) -> bool {
    &&& n <= MAX_CHANNELS
    &&& forall|c: u8| c < n ==> (#[trigger] map_value(c, map_index)) < MAX_CHANNELS
}

} // verus!
