//! ELD specific config.

use vstd::prelude::*;
use vstd::arithmetic::power2::lemma2_to64;
use super::super::error_codes::TpDecoderError;
use super::helper_functions::{get_sample_rate, spec_get_sample_rate};
use crate::common::bitstream::{lemma_peek_bound, Bitstream, BitstreamView, MIN_VALID_BITS};
use crate::common::flags::ACFlags;

verus! {

/// Most bits that an ELD specific config takes from the bitstream.
pub const ELD_MAX_BITS: isize = 0x0080_0000;

/// Most bits one extension of an ELD specific config takes, its type field after it
/// included: its length fields and a payload of 15 + 255 + 65535 bytes.
pub const ELD_EXT_MAX_BITS: isize = 526472;

/// ELD extension type.
#[derive(Clone, Copy, Debug, PartialEq, Eq, Structural)]
pub enum EldExtType {
    /// Terminator (0).
    Term,
    /// Spatial audio object coding (1).
    Saoc,
    /// Low delay spatial audio coding, MPEG surround (2).
    Ldsac,
    /// Downscale information (3).
    DownscaleInfo,
    /// Unknown extension type.
    Unknown,
}

/// The extension type that `value` codes.
pub open spec fn eld_ext_type_of(value: u32) -> EldExtType {
    if value == 0 {
        EldExtType::Term
    } else if value == 1 {
        EldExtType::Saoc
    } else if value == 2 {
        EldExtType::Ldsac
    } else if value == 3 {
        EldExtType::DownscaleInfo
    } else {
        EldExtType::Unknown
    }
}

impl From<u32> for EldExtType {
    fn from(value: u32) -> (t: EldExtType)
        ensures
            t == eld_ext_type_of(value),
    {
        match value {
            0 => EldExtType::Term,
            1 => EldExtType::Saoc,
            2 => EldExtType::Ldsac,
            3 => EldExtType::DownscaleInfo,
            _ => EldExtType::Unknown,
        }
    }
}

impl vstd::std_specs::convert::FromSpecImpl<u32> for EldExtType {
    open spec fn obeys_from_spec() -> bool {
        true
    }

    open spec fn from_spec(v: u32) -> EldExtType {
        eld_ext_type_of(v)
    }
}

/// The length field of an extension, in bytes: 4 bits, 8 more after the escape
/// value 15, and 16 more after the escape value 255, the values added up.
pub open spec fn spec_eld_ext_len(v: BitstreamView) -> (nat, BitstreamView) {
    let l0 = v.peek(4);
    let v1 = v.skip(4);
    if l0 == 15 {
        let l1 = v1.peek(8);
        let v2 = v1.skip(8);
        if l1 == 255 {
            (15 + 255 + v2.peek(16), v2.skip(16))
        } else {
            (15 + l1, v2)
        }
    } else {
        (l0, v1)
    }
}

/// The extensions of an ELD specific config, from the one of type `ext_type` on, of
/// which `cnt` came before: at most 15, read while bits are left. Low delay MPEG
/// surround is refused; downscale information must repeat the core sampling
/// frequency `fs`; any other extension is skipped. The list must end with the
/// terminator.
pub open spec fn spec_eld_ext(v: BitstreamView, ext_type: nat, cnt: nat, fs: nat) -> (
    Result<(), TpDecoderError>,
    BitstreamView,
)
    decreases 15 - cnt,
{
    if ext_type == 0 || v.valid < 0 || cnt >= 15 {
        (
            if ext_type == 0 {
                Ok(())
            } else {
                Err(TpDecoderError::ParseError)
            },
            v,
        )
    } else {
        let (len, v1) = spec_eld_ext_len(v);
        if ext_type == 2 {
            (Err(TpDecoderError::UnsupportedFormat), v1)
        } else if ext_type == 3 {
            let (rate, index, v2) = spec_get_sample_rate(v1);
            if rate == 0 {
                (Err(TpDecoderError::ParseError), v2)
            } else if v2.peek(4) != 0 {
                (Err(TpDecoderError::ParseError), v2.skip(4))
            } else if rate != fs {
                (Err(TpDecoderError::UnsupportedFormat), v2.skip(4))
            } else {
                let v3 = v2.skip(4);
                spec_eld_ext(v3.skip(4), v3.peek(4), cnt + 1, fs)
            }
        } else {
            let v2 = v1.skip((8 * len) as int);
            spec_eld_ext(v2.skip(4), v2.peek(4), cnt + 1, fs)
        }
    }
}

/// The ELD specific config: the frame length flag, which sets `FRAME_LENGTH` in
/// `flags`; the resilience flags and the low delay SBR flag, all of which must be
/// zero; then the extensions.
pub open spec fn spec_eld_specific_config(v: BitstreamView, flags: ACFlags, fs: nat) -> (
    Result<(), TpDecoderError>,
    ACFlags,
    BitstreamView,
) {
    let frame_length_flag = v.peek(1);
    let v1 = v.skip(1);
    let flags1 = if frame_length_flag != 0 {
        flags.spec_union(ACFlags { er: false, eld: false, frame_length: true })
    } else {
        flags
    };
    let tools = v1.peek(4);
    let v2 = v1.skip(4);
    if tools != 0 {
        (Err(TpDecoderError::UnsupportedFormat), flags1, v2)
    } else {
        let (r, v3) = spec_eld_ext(v2.skip(4), v2.peek(4), 0, fs);
        (r, flags1, v3)
    }
}

/// Reads the length field of an extension.
fn read_eld_ext_len(bs: &mut Bitstream) -> (len: u32)
    requires
        old(bs).wf(),
        old(bs)@.valid >= MIN_VALID_BITS + 28,
    ensures
        final(bs).wf(),
        (len as nat, final(bs)@) == spec_eld_ext_len(old(bs)@),
        len <= 15 + 255 + 65535,
        final(bs)@.valid >= old(bs)@.valid - 28,
{
    proof {
        lemma2_to64();
        lemma_peek_bound(old(bs)@, 4);
    }
    let mut eld_ext_len = bs.read(4);
    let mut len = eld_ext_len;
    if len == 0xf {
        proof {
            lemma_peek_bound(bs@, 8);
        }
        len = bs.read(8);
        eld_ext_len += len;
        if len == 0xff {
            proof {
                lemma_peek_bound(bs@, 16);
            }
            len = bs.read(16);
            eld_ext_len += len;
        }
    }
    eld_ext_len
}

/// Parses the ELD specific config.
///
/// The error resilience tools (VCB11, RVLC, HCR), low delay SBR, low delay MPEG
/// surround and the downscaled mode are not decoded here, so a config announcing
/// one of them is refused.
pub fn parse(sampling_frequency: u32, ac_flags: &mut ACFlags, bs: &mut Bitstream) -> (r: Result<
    (),
    TpDecoderError,
>)
    requires
        old(bs).wf(),
        old(bs)@.valid >= MIN_VALID_BITS + ELD_MAX_BITS,
    ensures
        final(bs).wf(),
        (r, *final(ac_flags), final(bs)@) == spec_eld_specific_config(
            old(bs)@,
            *old(ac_flags),
            sampling_frequency as nat,
        ),
        final(bs)@.valid >= old(bs)@.valid - ELD_MAX_BITS,
{
    let frame_length_flag = bs.read_bit();
    ac_flags.insert(
        if frame_length_flag != 0 {
            ACFlags::frame_length()
        } else {
            ACFlags::empty()
        },
    );
    proof {
        assert(old(ac_flags).spec_union(ACFlags::empty_spec()) == *old(ac_flags));
    }

    // aacSectionDataResilienceFlag, aacScalefactorDataResilienceFlag,
    // aacSpectralDataResilienceFlag and ldSbrPresentFlag
    if bs.read(4) != 0 {
        return Err(TpDecoderError::UnsupportedFormat);
    }

    let ghost v_ext = bs@;
    let mut eld_ext_cnt: u32 = 0;
    let mut eld_ext_type = bs.read(4);
    let ghost target = spec_eld_ext(v_ext.skip(4), v_ext.peek(4), 0, sampling_frequency as nat);
    let ghost flags1 = *ac_flags;
    assert(spec_eld_specific_config(old(bs)@, *old(ac_flags), sampling_frequency as nat) == (
    target.0, flags1, target.1));

    // Parse ExtTypeConfigData.
    while EldExtType::from(eld_ext_type) != EldExtType::Term && bs.valid_bits() >= 0
        && eld_ext_cnt < 15
        invariant
            bs.wf(),
            eld_ext_cnt <= 15,
            old(bs)@.valid >= MIN_VALID_BITS + ELD_MAX_BITS,
            *ac_flags == flags1,
            spec_eld_specific_config(old(bs)@, *old(ac_flags), sampling_frequency as nat) == (
            target.0, flags1, target.1),
            bs@.valid >= old(bs)@.valid - 9 - eld_ext_cnt * ELD_EXT_MAX_BITS,
            spec_eld_ext(bs@, eld_ext_type as nat, eld_ext_cnt as nat, sampling_frequency as nat)
                == target,
        decreases 15 - eld_ext_cnt,
    {
        eld_ext_cnt += 1;

        let eld_ext_len = read_eld_ext_len(bs);

        match EldExtType::from(eld_ext_type) {
            EldExtType::Ldsac => return Err(TpDecoderError::UnsupportedFormat),
            EldExtType::DownscaleInfo => {
                let (downscaled_sampling_frequency, _) = get_sample_rate(bs);
                if downscaled_sampling_frequency == 0 {
                    return Err(TpDecoderError::ParseError);
                }
                if bs.read(4) != 0x0 {
                    return Err(TpDecoderError::ParseError);
                }
                if downscaled_sampling_frequency != sampling_frequency {
                    return Err(TpDecoderError::UnsupportedFormat);
                }
            },
            _ => bs.push((eld_ext_len * 8) as isize),
        };

        eld_ext_type = bs.read(4);
    }
    if EldExtType::from(eld_ext_type) != EldExtType::Term {
        return Err(TpDecoderError::ParseError);
    }

    Ok(())
}

} // verus!
