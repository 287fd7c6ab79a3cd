//! Audio specific config (ASC)

use vstd::prelude::*;
use vstd::arithmetic::power2::lemma2_to64;
use super::super::error_codes::TpDecoderError;
use super::eld_specific_config::{self, spec_eld_specific_config};
use super::helper_functions::{get_aot, get_sample_rate, spec_get_aot, spec_get_sample_rate};
use crate::common::aot::AudioObjectType;
use crate::common::bitstream::{lemma_peek_bound, Bitstream, BitstreamView, MIN_VALID_BITS};
use crate::common::flags::ACFlags;

verus! {

/// Most bits that an AudioSpecificConfig takes from the bitstream.
pub const ASC_MAX_BITS: isize = 0x0100_0000;

/// The fields of an AudioSpecificConfig.
pub struct AscView {
    pub aot: AudioObjectType,
    pub channel_configuration: u8,
    pub sampling_frequency: u32,
    pub sampling_frequency_index: u8,
    pub ac_flags: ACFlags,
}

/// Audio specific config structure.
#[derive(Debug, Copy, Clone)]
pub struct AudioSpecificConfig {
    /// Audio object type.
    aot: AudioObjectType,
    /// Channel configuration index.
    channel_configuration: u8,
    /// Sampling frequency.
    sampling_frequency: u32,
    /// Sampling frequency index.
    sampling_frequency_index: u8,
    /// Audio codec flags.
    ac_flags: ACFlags,
}

impl View for AudioSpecificConfig {
    type V = AscView;

    closed spec fn view(&self) -> AscView {
        AscView {
            aot: self.aot,
            channel_configuration: self.channel_configuration,
            sampling_frequency: self.sampling_frequency,
            sampling_frequency_index: self.sampling_frequency_index,
            ac_flags: self.ac_flags,
        }
    }
}

/// The config that parsing starts from.
pub open spec fn initial_asc() -> AscView {
    AscView {
        aot: AudioObjectType::AotNone,
        channel_configuration: 0,
        sampling_frequency: 0,
        sampling_frequency_index: 15,
        ac_flags: ACFlags::empty_spec(),
    }
}

/// An AudioSpecificConfig of ER AAC ELD: the object type, the sampling frequency,
/// the channel configuration (1 or 2), the ELD specific config and `epConfig` (0),
/// all within the bits given. Gives the outcome, the fields as far as they were read,
/// and the bitstream after it.
#[verifier::opaque]
pub open spec fn spec_asc_parse(v: BitstreamView) -> (Result<(), TpDecoderError>, AscView, BitstreamView) {
    let (aot, v1) = spec_get_aot(v);
    let a1 = AscView { aot, ..initial_asc() };
    if aot != AudioObjectType::AotErAacEld {
        (Err(TpDecoderError::UnsupportedFormat), a1, v1)
    } else {
        let a2 = AscView { ac_flags: ACFlags { er: true, eld: true, frame_length: false }, ..a1 };
        let (rate, index, v2) = spec_get_sample_rate(v1);
        let a3 = AscView {
            sampling_frequency: rate as u32,
            sampling_frequency_index: index as u8,
            ..a2
        };
        if rate == 0 {
            (Err(TpDecoderError::ParseError), a3, v2)
        } else {
            let ch = v2.peek(4);
            let v3 = v2.skip(4);
            let a4 = AscView { channel_configuration: ch as u8, ..a3 };
            if ch == 0 || ch > 2 {
                (Err(TpDecoderError::UnsupportedFormat), a4, v3)
            } else {
                let (r, flags, v4) = spec_eld_specific_config(v3, a4.ac_flags, rate);
                let a5 = AscView { ac_flags: flags, ..a4 };
                if r is Err {
                    (r, a5, v4)
                } else {
                    let ep_config = v4.peek(2);
                    let v5 = v4.skip(2);
                    if ep_config > 0 {
                        (Err(TpDecoderError::UnsupportedFormat), a5, v5)
                    } else if v5.valid < 0 {
                        (Err(TpDecoderError::NotEnoughBits), a5, v5)
                    } else {
                        (Ok(()), a5, v5)
                    }
                }
            }
        }
    }
}

/// Samples per frame of a config with these flags.
pub open spec fn samples_per_frame_of(flags: ACFlags) -> u16 {
    if flags.frame_length {
        480
    } else {
        512
    }
}

/// An accepted config is ER AAC ELD in mono or stereo, at a sampling frequency other
/// than 0, with the error resilient and the ELD flag set.
pub proof fn lemma_accepted_config_is_plain_eld(v: BitstreamView)
    requires
        spec_asc_parse(v).0 is Ok,
    ensures
        ({
            let a = spec_asc_parse(v).1;
            &&& a.aot == AudioObjectType::AotErAacEld
            &&& 1 <= a.channel_configuration <= 2
            &&& a.sampling_frequency != 0
            &&& a.ac_flags.er && a.ac_flags.eld
        }),
{
    reveal(spec_asc_parse);
    let (rate, index, v2) = spec_get_sample_rate(spec_get_aot(v).1);
    lemma_peek_bound(v2, 4);
    lemma2_to64();
    if rate == spec_get_sample_rate(spec_get_aot(v).1).0 && v2.valid >= 0 {
        lemma_peek_bound(spec_get_aot(v).1.skip(4), 24);
    }
}

impl Default for AudioSpecificConfig {
    fn default() -> (asc: AudioSpecificConfig)
        ensures
            asc@ == (AscView {
                aot: AudioObjectType::AotNone,
                channel_configuration: 0,
                sampling_frequency: 0,
                sampling_frequency_index: 0,
                ac_flags: ACFlags::empty_spec(),
            }),
    {
        AudioSpecificConfig {
            aot: AudioObjectType::AotNone,
            channel_configuration: 0,
            sampling_frequency: 0,
            sampling_frequency_index: 0,
            ac_flags: ACFlags::empty(),
        }
    }
}

impl AudioSpecificConfig {
    /// Returns new instance of `AudioSpecificConfig`.
    pub fn new() -> (asc: AudioSpecificConfig)
        ensures
            asc@ == (AscView {
                aot: AudioObjectType::AotNone,
                channel_configuration: 0,
                sampling_frequency: 0,
                sampling_frequency_index: 0,
                ac_flags: ACFlags::empty_spec(),
            }),
    {
        AudioSpecificConfig::default()
    }

    /// Initialize an ASC structure.
    pub fn init(&mut self)
        ensures
            final(self)@ == initial_asc(),
    {
        self.reset();
        self.aot = AudioObjectType::AotNone;
        self.sampling_frequency_index = 0xf;
        self.ac_flags = ACFlags::empty();
    }

    /// Resets the ASC instance.
    pub fn reset(&mut self)
        ensures
            final(self)@ == (AscView { channel_configuration: 0, sampling_frequency: 0, ..old(self)@ }),
    {
        self.channel_configuration = 0;
        self.sampling_frequency = 0;
    }

    /// Parses an AudioSpecificConfig. ER AAC ELD in mono or stereo is the one
    /// configuration taken; everything else is an unsupported format.
    pub fn parse(&mut self, bs: &mut Bitstream) -> (r: Result<(), TpDecoderError>)
        requires
            old(bs).wf(),
            old(bs)@.valid >= MIN_VALID_BITS + ASC_MAX_BITS,
        ensures
            final(bs).wf(),
            (r, final(self)@, final(bs)@) == spec_asc_parse(old(bs)@),
    {
        reveal(spec_asc_parse);
        self.init();

        self.aot = get_aot(bs);
        if !self.aot.is_eld() {
            return Err(TpDecoderError::UnsupportedFormat);
        }
        self.ac_flags.insert(ACFlags::er().union(ACFlags::eld()));

        let (sampling_frequency, sampling_frequency_index) = get_sample_rate(bs);
        self.sampling_frequency = sampling_frequency;
        self.sampling_frequency_index = sampling_frequency_index;
        if self.sampling_frequency == 0 {
            return Err(TpDecoderError::ParseError);
        }

        let ghost v2 = bs@;
        let channel_configuration = bs.read(4);
        proof {
            lemma_peek_bound(v2, 4);
            lemma2_to64();
        }
        self.channel_configuration = channel_configuration as u8;
        if self.channel_configuration == 0 || self.channel_configuration > 2 {
            return Err(TpDecoderError::UnsupportedFormat);
        }

        let r = eld_specific_config::parse(self.sampling_frequency, &mut self.ac_flags, bs);
        if r.is_err() {
            return r;
        }

        if bs.read(2) > 0 {
            // epConfig > 0 not supported
            return Err(TpDecoderError::UnsupportedFormat);
        }

        if bs.valid_bits() < 0 {
            return Err(TpDecoderError::NotEnoughBits);
        }

        Ok(())
    }

    /// Returns Audio Object Type.
    pub fn aot(&self) -> (aot: AudioObjectType)
        ensures
            aot == self@.aot,
    {
        self.aot
    }

    /// Returns the channel configuration index.
    pub fn channel_config(&self) -> (c: u8)
        ensures
            c == self@.channel_configuration,
    {
        self.channel_configuration
    }

    /// Returns the sampling frequency.
    pub fn sampling_frequency(&self) -> (f: u32)
        ensures
            f == self@.sampling_frequency,
    {
        self.sampling_frequency
    }

    /// Returns the sampling frequency index.
    pub fn sampling_frequency_index(&self) -> (i: u8)
        ensures
            i == self@.sampling_frequency_index,
    {
        self.sampling_frequency_index
    }

    /// Returns samples per frame.
    pub fn samples_per_frame(&self) -> (n: u16)
        ensures
            n == samples_per_frame_of(self@.ac_flags),
    {
        if self.ac_flags.contains(ACFlags::frame_length()) {
            480
        } else {
            512
        }
    }

    /// Returns audio codec flags.
    pub fn ac_flags(&self) -> (f: ACFlags)
        ensures
            f == self@.ac_flags,
    {
        self.ac_flags
    }
}

} // verus!
