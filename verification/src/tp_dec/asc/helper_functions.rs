//! Fields that the AudioSpecificConfig and its extensions share.

use vstd::prelude::*;
use vstd::arithmetic::power2::lemma2_to64;
use crate::common::aot::{aot_of, AudioObjectType};
use crate::common::bitstream::{lemma_peek_bound, Bitstream, BitstreamView, MIN_VALID_BITS};

verus! {

/// The sampling frequency that a 4 bit index codes; 0 for a reserved index.
pub open spec fn sampling_rate_of_index(index: nat) -> nat {
    if index == 0 {
        96000
    } else if index == 1 {
        88200
    } else if index == 2 {
        64000
    } else if index == 3 {
        48000
    } else if index == 4 {
        44100
    } else if index == 5 {
        32000
    } else if index == 6 {
        24000
    } else if index == 7 {
        22050
    } else if index == 8 {
        16000
    } else if index == 9 {
        12000
    } else if index == 10 {
        11025
    } else if index == 11 {
        8000
    } else if index == 12 {
        7350
    } else {
        0
    }
}

/// The sampling frequencies of the indices fall strictly: a lower index codes a
/// higher frequency, so no two indices code the same one.
pub proof fn lemma_sampling_rates_fall(i: nat, j: nat)
    requires
        i < j < 13,
    ensures
        sampling_rate_of_index(i) > sampling_rate_of_index(j),
        sampling_rate_of_index(j) > 0,
{
}

/// Three indices further on, the sampling frequency is halved, down to index 11.
pub proof fn lemma_sampling_rates_halve(i: nat)
    requires
        i + 3 <= 11,
    ensures
        sampling_rate_of_index(i) == 2 * sampling_rate_of_index(i + 3),
{
}

/// The indices of the three rates each chain of halvings starts from: 48, 44.1 and
/// 32 kHz.
pub proof fn lemma_common_rates()
    ensures
        sampling_rate_of_index(3) == 48000,
        sampling_rate_of_index(4) == 44100,
        sampling_rate_of_index(5) == 32000,
        sampling_rate_of_index(12) == 7350,
{
}

/// The indices past 12 code no frequency.
pub proof fn lemma_reserved_indices_code_no_rate(i: nat)
    requires
        13 <= i,
    ensures
        sampling_rate_of_index(i) == 0,
{
}

/// The object type field: 5 bits, and 6 more after the escape value 31.
pub open spec fn spec_get_aot(v: BitstreamView) -> (AudioObjectType, BitstreamView) {
    let a = v.peek(5);
    let v1 = v.skip(5);
    if a == 31 {
        (aot_of(32 + v1.peek(6)), v1.skip(6))
    } else {
        (aot_of(a), v1)
    }
}

/// The sampling frequency field: a 4 bit index, and after the escape value 15 a
/// frequency of 24 bits, which counts as 0 when fewer bits are left. Gives the
/// frequency, the index and the bitstream after the field.
pub open spec fn spec_get_sample_rate(v: BitstreamView) -> (nat, nat, BitstreamView) {
    let index = v.peek(4);
    let v1 = v.skip(4);
    if index == 15 {
        if v1.valid < 24 {
            (0, 15, v1)
        } else {
            (v1.peek(24), 15, v1.skip(24))
        }
    } else {
        (sampling_rate_of_index(index), index, v1)
    }
}

/// The sampling frequency that a 4 bit index codes; 0 for a reserved index.
pub fn sampling_rate_from_index(index: u32) -> (rate: u32)
    ensures
        rate == sampling_rate_of_index(index as nat),
{
    match index {
        0 => 96000,
        1 => 88200,
        2 => 64000,
        3 => 48000,
        4 => 44100,
        5 => 32000,
        6 => 24000,
        7 => 22050,
        8 => 16000,
        9 => 12000,
        10 => 11025,
        11 => 8000,
        12 => 7350,
        _ => 0,
    }
}

/// Reads an audio object type.
pub fn get_aot(bs: &mut Bitstream) -> (aot: AudioObjectType)
    requires
        old(bs).wf(),
        old(bs)@.valid >= MIN_VALID_BITS + 11,
    ensures
        final(bs).wf(),
        (aot, final(bs)@) == spec_get_aot(old(bs)@),
{
    let a = bs.read(5);
    if a == 31 {
        let e = bs.read(6);
        proof {
            lemma_peek_bound(old(bs)@.skip(5), 6);
            lemma2_to64();
        }
        AudioObjectType::from_value(32 + e)
    } else {
        AudioObjectType::from_value(a)
    }
}

/// Reads a sampling frequency field. Returns the frequency, 0 where the index is
/// reserved or an explicit frequency is cut short, and the index.
pub fn get_sample_rate(bs: &mut Bitstream) -> (r: (u32, u8))
    requires
        old(bs).wf(),
        old(bs)@.valid >= MIN_VALID_BITS + 28,
    ensures
        final(bs).wf(),
        ({
            let (rate, index, v) = spec_get_sample_rate(old(bs)@);
            r.0 == rate && r.1 == index && final(bs)@ == v
        }),
{
    let index = bs.read(4);
    proof {
        lemma_peek_bound(old(bs)@, 4);
        lemma2_to64();
    }
    if index == 15 {
        if bs.valid_bits() < 24 {
            return (0, 15);
        }
        let rate = bs.read(24);
        (rate, 15)
    } else {
        (sampling_rate_from_index(index), index as u8)
    }
}

} // verus!
