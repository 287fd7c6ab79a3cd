//! Where an output channel is meant to sound from.

use vstd::prelude::*;

verus! {

/// Audio channel type.
#[derive(Clone, Copy, Debug, PartialEq, Eq, Structural)]
pub enum AudioChannelType {
    /// No channel.
    NoChannel,
    /// Front speaker position.
    Front,
    /// Side speaker position.
    Side,
    /// Back speaker position.
    Back,
    /// Low frequency effects channel.
    Lfe,
}

impl Default for AudioChannelType {
    fn default() -> (t: AudioChannelType)
        ensures
            t == AudioChannelType::NoChannel,
    {
        AudioChannelType::NoChannel
    }
}

} // verus!
