//! MPEG-4 audio object types.

use vstd::prelude::*;

verus! {

/// Audio object type, as coded in an AudioSpecificConfig.
#[derive(Clone, Copy, Debug, PartialEq, Eq, Structural)]
pub enum AudioObjectType {
    /// No object type yet.
    AotNone,
    /// AAC Main (1).
    AotAacMain,
    /// AAC LC (2).
    AotAacLc,
    /// AAC SSR (3).
    AotAacSsr,
    /// AAC LTP (4).
    AotAacLtp,
    /// SBR (5).
    AotSbr,
    /// AAC scalable (6).
    AotAacScal,
    /// ER AAC LC (17).
    AotErAacLc,
    /// ER AAC LD (23).
    AotErAacLd,
    /// Parametric stereo (29).
    AotPs,
    /// ER AAC ELD (39).
    AotErAacEld,
    /// USAC (42).
    AotUsac,
    /// Any other object type, by its number.
    Other(u32),
}

/// The object type that `value` codes.
pub open spec fn aot_of(value: nat) -> AudioObjectType {
    if value == 1 {
        AudioObjectType::AotAacMain
    } else if value == 2 {
        AudioObjectType::AotAacLc
    } else if value == 3 {
        AudioObjectType::AotAacSsr
    } else if value == 4 {
        AudioObjectType::AotAacLtp
    } else if value == 5 {
        AudioObjectType::AotSbr
    } else if value == 6 {
        AudioObjectType::AotAacScal
    } else if value == 17 {
        AudioObjectType::AotErAacLc
    } else if value == 23 {
        AudioObjectType::AotErAacLd
    } else if value == 29 {
        AudioObjectType::AotPs
    } else if value == 39 {
        AudioObjectType::AotErAacEld
    } else if value == 42 {
        AudioObjectType::AotUsac
    } else {
        AudioObjectType::Other(value as u32)
    }
}

impl AudioObjectType {
    /// The object type that `value` codes.
    pub fn from_value(value: u32) -> (aot: AudioObjectType)
        ensures
            aot == aot_of(value as nat),
    {
        match value {
            1 => AudioObjectType::AotAacMain,
            2 => AudioObjectType::AotAacLc,
            3 => AudioObjectType::AotAacSsr,
            4 => AudioObjectType::AotAacLtp,
            5 => AudioObjectType::AotSbr,
            6 => AudioObjectType::AotAacScal,
            17 => AudioObjectType::AotErAacLc,
            23 => AudioObjectType::AotErAacLd,
            29 => AudioObjectType::AotPs,
            39 => AudioObjectType::AotErAacEld,
            42 => AudioObjectType::AotUsac,
            _ => AudioObjectType::Other(value),
        }
    }

    /// Whether this is ER AAC ELD.
    pub fn is_eld(&self) -> (r: bool)
        ensures
            r == (*self == AudioObjectType::AotErAacEld),
    {
        match self {
            AudioObjectType::AotErAacEld => true,
            _ => false,
        }
    }
}

impl Default for AudioObjectType {
    fn default() -> (aot: AudioObjectType)
        ensures
            aot == AudioObjectType::AotNone,
    {
        AudioObjectType::AotNone
    }
}

} // verus!
