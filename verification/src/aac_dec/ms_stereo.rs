//! Mid/side (M/S) coding

use vstd::prelude::*;
use vstd::arithmetic::power2::lemma2_to64;
use super::channel_info::IcsInfo;
use crate::common::bitstream::{
    lemma_peek_bound, lemma_skip_add, lemma_skip_zero, Bitstream, BitstreamView, MIN_VALID_BITS,
};

verus! {

/// Maximum number of bands
pub const JOINTSTEREO_MAX_BANDS: usize = 64;

/// What joint stereo data holds: how M/S is signalled, the M/S flags of each band
/// (bit `g` for window group `g`) and the number of bands they cover.
pub struct JointStereoView {
    pub ms_mask_present: u8,
    pub ms_used: Seq<u8>,
    pub max_sfb: nat,
}

/// The `k`th bit from `v` on.
pub open spec fn nth_bit(v: BitstreamView, k: int) -> u32 {
    v.skip(k).peek(1) as u32
}

/// The M/S flags of band `band` after `groups` window groups of `max_sfb` flags each
/// were read from `v` on: bit `g` is the flag of the band in group `g`.
pub open spec fn spec_ms_flags(v: BitstreamView, groups: nat, max_sfb: nat, band: int) -> u8
    decreases groups,
{
    if groups == 0 {
        0u8
    } else {
        spec_ms_flags(v, (groups - 1) as nat, max_sfb, band) | ((nth_bit(
            v,
            (groups - 1) * max_sfb + band,
        ) << ((groups - 1) as u32)) as u8)
    }
}

/// Structure holds Joint stereo data
#[derive(Debug)]
pub struct JointStereoData {
    ms_mask_present: u8,
    // Each item contains flags for up to 8 groups.
    ms_used: [u8; JOINTSTEREO_MAX_BANDS],
    max_sfb: usize,
}

impl View for JointStereoData {
    type V = JointStereoView;

    closed spec fn view(&self) -> JointStereoView {
        JointStereoView {
            ms_mask_present: self.ms_mask_present,
            ms_used: self.ms_used@,
            max_sfb: self.max_sfb as nat,
        }
    }
}

/// Joint stereo data with nothing set.
pub open spec fn empty_joint_stereo() -> JointStereoView {
    JointStereoView {
        ms_mask_present: 0,
        ms_used: Seq::new(JOINTSTEREO_MAX_BANDS as nat, |i: int| 0u8),
        max_sfb: 0,
    }
}

impl JointStereoData {
    /// Returns JointStereoData instance with default values.
    pub fn new() -> (jsd: JointStereoData)
        ensures
            jsd@ == empty_joint_stereo(),
    {
        let jsd = JointStereoData {
            ms_mask_present: 0,
            ms_used: [0u8;JOINTSTEREO_MAX_BANDS],
            max_sfb: 0,
        };
        assert(jsd@.ms_used =~= empty_joint_stereo().ms_used);
        jsd
    }

    /// Reset JointStereoData with default values.
    pub fn reset(&mut self)
        ensures
            final(self)@ == empty_joint_stereo(),
    {
        self.ms_mask_present = 0;
        self.ms_used = [0u8;JOINTSTEREO_MAX_BANDS];
        self.max_sfb = 0;
        assert(self@.ms_used =~= empty_joint_stereo().ms_used);
    }

    /// How M/S is signalled: 0 none, 1 per band, 2 all bands, 3 reserved.
    pub fn ms_mask_present(&self) -> (m: u8)
        ensures
            m == self@.ms_mask_present,
    {
        self.ms_mask_present
    }

    /// Number of bands the M/S flags cover.
    pub fn max_sfb(&self) -> (n: usize)
        ensures
            n == self@.max_sfb,
    {
        self.max_sfb
    }

    /// Returns ms_used[] data as immutable
    pub fn ms_used(&self) -> (flags: &[u8])
        ensures
            flags@ == self@.ms_used,
    {
        self.ms_used.as_slice()
    }

    /// Returns ms_used[] data as mutable
    pub fn ms_used_mut(&mut self) -> (flags: &mut [u8])
        ensures
            flags@ == old(self)@.ms_used,
            final(flags)@.len() == JOINTSTEREO_MAX_BANDS ==> final(self)@ == (JointStereoView {
                ms_used: final(flags)@,
                ..old(self)@
            }),
    {
        &mut self.ms_used
    }

    /// Reads joint stereo data from given bitstream: `ms_mask_present`, and where it
    /// is 1 a flag for each of the `max_sfb` bands of each window group.
    ///
    /// Returns `0`.
    pub fn read(&mut self, bs: &mut Bitstream, ics_info: &IcsInfo, max_sfb: usize) -> (r: i32)
        requires
            old(bs).wf(),
            old(bs)@.valid >= MIN_VALID_BITS + 2 + 8 * JOINTSTEREO_MAX_BANDS,
            ics_info.wf(),
            max_sfb <= JOINTSTEREO_MAX_BANDS,
        ensures
            r == 0,
            final(bs).wf(),
            ({
                let v = old(bs)@;
                let mask = v.peek(2);
                let groups = ics_info.window_groups as nat;
                &&& final(self)@.max_sfb == max_sfb
                &&& final(self)@.ms_mask_present == mask
                &&& final(self)@.ms_used.len() == JOINTSTEREO_MAX_BANDS
                &&& forall|b: int|
                    0 <= b < JOINTSTEREO_MAX_BANDS ==> #[trigger] final(self)@.ms_used[b] == if b
                        >= max_sfb {
                        old(self)@.ms_used[b]
                    } else if mask == 1 {
                        spec_ms_flags(v.skip(2), groups, max_sfb as nat, b)
                    } else if mask == 2 {
                        255u8
                    } else {
                        0u8
                    }
                &&& final(bs)@ == if mask == 1 {
                    v.skip(2 + groups * max_sfb)
                } else {
                    v.skip(2)
                }
            }),
    {
        let win_groups = ics_info.n_window_groups();
        self.max_sfb = max_sfb;
        let mut b: usize = 0;
        while b < max_sfb
            invariant
                b <= max_sfb <= JOINTSTEREO_MAX_BANDS,
                self.max_sfb == max_sfb,
                self.ms_mask_present == old(self).ms_mask_present,
                forall|i: int|
                    0 <= i < JOINTSTEREO_MAX_BANDS ==> #[trigger] self.ms_used@[i] == if i < b {
                        0u8
                    } else {
                        old(self).ms_used@[i]
                    },
            decreases max_sfb - b,
        {
            self.ms_used[b] = 0;
            b += 1;
        }
        let ghost v = bs@;
        let mask = bs.read(2);
        proof {
            lemma_peek_bound(v, 2);
            lemma2_to64();
        }
        self.ms_mask_present = mask as u8;
        let ghost v0 = bs@;

        match self.ms_mask_present {
            // read ms_used
            1 => {
                let mut group: usize = 0;
                proof {
                    lemma_skip_zero(v0);
                }
                while group < win_groups
                    invariant
                        group <= win_groups <= 8,
                        win_groups == ics_info.window_groups,
                        max_sfb <= JOINTSTEREO_MAX_BANDS,
                        v0.wf(),
                        v0.valid >= MIN_VALID_BITS + 8 * JOINTSTEREO_MAX_BANDS,
                        bs.wf(),
                        bs@ == v0.skip(group * max_sfb),
                        self.max_sfb == max_sfb,
                        self.ms_mask_present == 1,
                        forall|i: int|
                            0 <= i < JOINTSTEREO_MAX_BANDS ==> #[trigger] self.ms_used@[i] == if i
                                < max_sfb {
                                spec_ms_flags(v0, group as nat, max_sfb as nat, i)
                            } else {
                                old(self).ms_used@[i]
                            },
                    decreases win_groups - group,
                {
                    let mut band: usize = 0;
                    proof {
                        assert(group * max_sfb + max_sfb <= 8 * JOINTSTEREO_MAX_BANDS) by (nonlinear_arith)
                            requires
                                group < 8,
                                max_sfb <= JOINTSTEREO_MAX_BANDS,
                        ;
                    }
                    while band < max_sfb
                        invariant
                            group < win_groups <= 8,
                            band <= max_sfb <= JOINTSTEREO_MAX_BANDS,
                            v0.wf(),
                            v0.valid >= MIN_VALID_BITS + 8 * JOINTSTEREO_MAX_BANDS,
                            bs.wf(),
                            bs@ == v0.skip(group * max_sfb + band),
                            group * max_sfb + max_sfb <= 8 * JOINTSTEREO_MAX_BANDS,
                            self.max_sfb == max_sfb,
                            self.ms_mask_present == 1,
                            forall|i: int|
                                0 <= i < JOINTSTEREO_MAX_BANDS ==> #[trigger] self.ms_used@[i]
                                    == if i < band {
                                    spec_ms_flags(v0, (group + 1) as nat, max_sfb as nat, i)
                                } else if i < max_sfb {
                                    spec_ms_flags(v0, group as nat, max_sfb as nat, i)
                                } else {
                                    old(self).ms_used@[i]
                                },
                        decreases max_sfb - band,
                    {
                        let bit = bs.read_bit();
                        proof {
                            lemma_skip_add(v0, group * max_sfb + band, 1);
                        }
                        self.ms_used[band] = self.ms_used[band] | ((bit << (group as u32)) as u8);
                        band += 1;
                    }
                    proof {
                        assert(group * max_sfb + max_sfb == (group + 1) * max_sfb) by (nonlinear_arith);
                    }
                    group += 1;
                }
                proof {
                    lemma_skip_add(v, 2, win_groups * max_sfb);
                }
            },
            // full spectrum M/S, set all flags to 1
            2 => {
                let mut b: usize = 0;
                while b < max_sfb
                    invariant
                        b <= max_sfb <= JOINTSTEREO_MAX_BANDS,
                        self.max_sfb == max_sfb,
                        self.ms_mask_present == 2,
                        forall|i: int|
                            0 <= i < JOINTSTEREO_MAX_BANDS ==> #[trigger] self.ms_used@[i] == if i
                                < b {
                                255u8
                            } else if i < max_sfb {
                                0u8
                            } else {
                                old(self).ms_used@[i]
                            },
                    decreases max_sfb - b,
                {
                    self.ms_used[b] = 255;
                    b += 1;
                }
            },
            // no M/S, and 3 is reserved
            _ => {},
        }

        0
    }
}

impl Default for JointStereoData {
    fn default() -> (jsd: JointStereoData)
        ensures
            jsd@ == empty_joint_stereo(),
    {
        JointStereoData::new()
    }
}

} // verus!
