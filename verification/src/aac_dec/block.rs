//! Decoding of long and short blocks

use vstd::prelude::*;
use vstd::arithmetic::power2::lemma2_to64;
use super::channel_info::IcsInfo;
use super::constants::MAX_WINS_X_SFBS;
use super::error_codes::AacDecoderError;
use super::huff_dec::{lemma_scl_word_bounds, read_scl_word, spec_scl_word, SCL_NODES, SCL_WORD_MAX_BITS};
use super::pns::{PnsData, PnsView, NOISE_OFFSET};
use super::utils::{
    CBTYPE_BOOKSCL, CBTYPE_INTENSITY_HCB, CBTYPE_INTENSITY_HCB2, CBTYPE_NOISE_HCB, CBTYPE_ZERO_HCB,
};
use crate::common::bitstream::{lemma_peek_bound, Bitstream, BitstreamView, MIN_VALID_BITS};

verus! {

/// `s` with the entries from `from` up to `to` set to `val`.
pub open spec fn seq_fill(s: Seq<u8>, from: int, to: int, val: u8) -> Seq<u8> {
    Seq::new(s.len(), |i: int| if from <= i < to { val } else { s[i] })
}

/// Whether a section may use code book `cb`: never the scale factor book, and the
/// intensity books only where the channels share their window.
pub open spec fn is_valid_section_code_book(cb: nat, common_window: bool) -> bool {
    !(cb == CBTYPE_BOOKSCL || ((cb == CBTYPE_INTENSITY_HCB2 || cb == CBTYPE_INTENSITY_HCB)
        && !common_window))
}

/// The length of a section: fields of `n` bits added up for as long as they hold the
/// escape value `esc`, the first other value included. `None` where a field would
/// be read past the floor of valid bits.
pub open spec fn spec_sect_len(v: BitstreamView, n: nat, esc: nat) -> (Option<nat>, BitstreamView)
    decreases v.valid - MIN_VALID_BITS,
{
    if n == 0 || v.valid < MIN_VALID_BITS + n {
        (None, v)
    } else {
        let incr = v.peek(n);
        let v1 = v.skip(n as int);
        if incr == esc {
            let (r, v2) = spec_sect_len(v1, n, esc);
            (
                match r {
                    Some(l) => Some(esc + l),
                    None => None,
                },
                v2,
            )
        } else {
            (Some(incr), v1)
        }
    }
}

/// Reading a section length takes bits.
pub proof fn lemma_sect_len_consumes(v: BitstreamView, n: nat, esc: nat)
    ensures
        spec_sect_len(v, n, esc).0 is Some ==> spec_sect_len(v, n, esc).1.valid <= v.valid - n,
        spec_sect_len(v, n, esc).1.valid <= v.valid,
        v.valid >= MIN_VALID_BITS ==> spec_sect_len(v, n, esc).1.valid >= MIN_VALID_BITS,
    decreases v.valid - MIN_VALID_BITS,
{
    if n == 0 || v.valid < MIN_VALID_BITS + n {
    } else {
        let v1 = v.skip(n as int);
        if v.peek(n) == esc {
            lemma_sect_len_consumes(v1, n, esc);
        }
    }
}

/// The sections of one window group, from band `band` on: each a code book of 4
/// bits and a length, filling that many bands of `cb` from `base + band` on with the
/// code book, until `max_sfb` bands are covered; the rest of the group's `c` bands
/// then get the zero code book. A section past the group's bands is a frame error; a
/// code book that may not stand there is an invalid code book.
pub open spec fn spec_sections(
    v: BitstreamView,
    base: int,
    band: nat,
    max_sfb: nat,
    c: nat,
    n: nat,
    esc: nat,
    common_window: bool,
    cb: Seq<u8>,
) -> (AacDecoderError, Seq<u8>, BitstreamView)
    decreases v.valid - MIN_VALID_BITS,
{
    if band >= max_sfb {
        (AacDecoderError::AacDecOk, seq_fill(cb, base + band, base + c, CBTYPE_ZERO_HCB), v)
    } else if v.valid < MIN_VALID_BITS + 4 {
        (AacDecoderError::DecodeFrameError, cb, v)
    } else {
        let sect_cb = v.peek(4);
        let v1 = v.skip(4);
        let (len, v2) = spec_sect_len(v1, n, esc);
        proof {
            lemma_sect_len_consumes(v1, n, esc);
        }
        match len {
            None => (AacDecoderError::DecodeFrameError, cb, v2),
            Some(len) => if band + len > c {
                (AacDecoderError::DecodeFrameError, cb, v2)
            } else if !is_valid_section_code_book(sect_cb, common_window) {
                (AacDecoderError::InvalidCodeBook, cb, v2)
            } else {
                spec_sections(
                    v2,
                    base,
                    band + len,
                    max_sfb,
                    c,
                    n,
                    esc,
                    common_window,
                    seq_fill(cb, base + band, base + band + len, sect_cb as u8),
                )
            },
        }
    }
}

/// A long frame of one section covering its `max_sfb` bands: the section is
/// refused exactly where its code book is the scale factor book, or an intensity
/// book without a common window; any other book, the noise book among them, is
/// taken and stored for those bands, and the bands after them get the zero book.
pub proof fn lemma_one_section(v: BitstreamView, ics: IcsInfo, common_window: bool, cb: Seq<u8>)
    requires
        ics.long_block,
        ics.window_groups == 1,
        1 <= ics.max_sfb < 31,
        cb.len() == MAX_WINS_X_SFBS,
        v.valid >= MIN_VALID_BITS + 9,
        v.skip(4).peek(5) == ics.max_sfb,
    ensures
        ({
            let c = v.peek(4);
            let (r, cb1, _) = spec_section_data(v, ics, common_window, cb);
            let refused = c == 12 || ((c == 14 || c == 15) && !common_window);
            &&& refused ==> r == AacDecoderError::InvalidCodeBook
            &&& !refused ==> {
                &&& r == AacDecoderError::AacDecOk
                &&& forall|i: int| 0 <= i < ics.max_sfb ==> cb1[i] == c
                &&& forall|i: int| ics.max_sfb <= i < MAX_WINS_X_SFBS ==> cb1[i] == 0
            }
        }),
{
    assert(group_bands(ics) == 128) by (nonlinear_arith)
        requires
            ics.spec_windows_per_frame() == 1,
            group_bands(ics) == MAX_WINS_X_SFBS as nat / ics.spec_windows_per_frame(),
    ;
    let n = ics.max_sfb as nat;
    let c = v.peek(4);
    let v1 = v.skip(4);
    let v2 = v1.skip(5);
    assert(spec_sect_len(v1, 5, 31) == (Some(n), v2));
    lemma_sect_len_consumes(v1, 5, 31);
    let filled = seq_fill(cb, 0, n as int, c as u8);
    let done = seq_fill(filled, n as int, 128, CBTYPE_ZERO_HCB);
    if is_valid_section_code_book(c, common_window) {
        assert(spec_sections(v2, 0, n, n, 128, 5, 31, common_window, filled) == (
            AacDecoderError::AacDecOk,
            done,
            v2,
        ));
        assert(spec_sections(v, 0, 0, n, 128, 5, 31, common_window, cb) == (
            AacDecoderError::AacDecOk,
            done,
            v2,
        ));
        assert(spec_groups(v2, 1, 1, ics, common_window, done) == (
            AacDecoderError::AacDecOk,
            done,
            v2,
        ));
        lemma_peek_bound(v, 4);
        lemma2_to64();
        assert(c < 16);
    } else {
        assert(spec_sections(v, 0, 0, n, 128, 5, 31, common_window, cb).0
            == AacDecoderError::InvalidCodeBook);
    }
}

/// Bands of one window group in the code book table.
pub open spec fn group_bands(ics: IcsInfo) -> nat {
    MAX_WINS_X_SFBS as nat / ics.spec_windows_per_frame()
}

/// Width of the section length fields: 5 bits in a long block, 3 in a short one.
pub open spec fn sect_len_bits(ics: IcsInfo) -> nat {
    if ics.long_block {
        5
    } else {
        3
    }
}

/// Escape value of the section length fields.
pub open spec fn sect_escape_value(ics: IcsInfo) -> nat {
    if ics.long_block {
        31
    } else {
        7
    }
}

/// The section data of the window groups from group `g` on, up to `groups`; group `g`
/// fills the `group_bands` entries from `g * group_bands` on.
pub open spec fn spec_groups(
    v: BitstreamView,
    g: nat,
    groups: nat,
    ics: IcsInfo,
    common_window: bool,
    cb: Seq<u8>,
) -> (AacDecoderError, Seq<u8>, BitstreamView)
    decreases groups - g,
{
    if g >= groups {
        (AacDecoderError::AacDecOk, cb, v)
    } else {
        let c = group_bands(ics);
        let (r, cb2, v2) = spec_sections(
            v,
            (g * c) as int,
            0,
            ics.max_sfb as nat,
            c,
            sect_len_bits(ics),
            sect_escape_value(ics),
            common_window,
            cb,
        );
        if r == AacDecoderError::AacDecOk {
            spec_groups(v2, g + 1, groups, ics, common_window, cb2)
        } else {
            (r, cb2, v2)
        }
    }
}

/// The section data of a frame: that of each window group for which `cb` has room.
pub open spec fn spec_section_data(
    v: BitstreamView,
    ics: IcsInfo,
    common_window: bool,
    cb: Seq<u8>,
) -> (AacDecoderError, Seq<u8>, BitstreamView) {
    let room = cb.len() / group_bands(ics);
    let groups = if (ics.window_groups as nat) < room {
        ics.window_groups as nat
    } else {
        room
    };
    spec_groups(v, 0, groups, ics, common_window, cb)
}

/// Reads the length of a section.
fn read_sect_len(bs: &mut Bitstream, n_bits: u32, sect_esc_val: u32) -> (r: Option<u64>)
    requires
        old(bs).wf(),
        n_bits == 3 || n_bits == 5,
        sect_esc_val < 32,
    ensures
        final(bs).wf(),
        ({
            let (len, v) = spec_sect_len(old(bs)@, n_bits as nat, sect_esc_val as nat);
            &&& final(bs)@ == v
            &&& match (r, len) {
                (Some(a), Some(b)) => a == b,
                (None, None) => true,
                _ => false,
            }
        }),
        r matches Some(len) ==> len <= 32 * (old(bs)@.valid - final(bs)@.valid),
{
    let mut sect_len: u64 = 0;
    loop
        invariant
            bs.wf(),
            old(bs).wf(),
            n_bits == 3 || n_bits == 5,
            sect_esc_val < 32,
            sect_len <= 32 * (old(bs)@.valid - bs@.valid),
            old(bs)@.valid - bs@.valid <= 0x1_0000_0000,
            ({
                let (len, v) = spec_sect_len(old(bs)@, n_bits as nat, sect_esc_val as nat);
                let (rest, w) = spec_sect_len(bs@, n_bits as nat, sect_esc_val as nat);
                &&& v == w
                &&& len == match rest {
                    Some(l) => Some((sect_len + l) as nat),
                    None => None,
                }
            }),
        decreases bs@.valid - MIN_VALID_BITS,
    {
        if bs.valid_bits() < MIN_VALID_BITS + n_bits as isize {
            return None;
        }
        let ghost v = bs@;
        let sect_len_incr = bs.read(n_bits);
        proof {
            lemma_peek_bound(v, n_bits as nat);
            lemma2_to64();
        }
        if sect_len_incr == sect_esc_val {
            sect_len += sect_esc_val as u64;
        } else {
            return Some(sect_len + sect_len_incr as u64);
        }
    }
}

/// Reads section data
///
/// Reads the code book and the length of each section from `Bitstream` and fills
/// `code_book` with the code book of every scale factor band of each window group.
/// A section of length zero does not move on, so the loop also ends, as a frame
/// error, where reading would run past the floor of valid bits.
///
/// Returns `AacDecOk` on success, `InvalidCodeBook` or `DecodeFrameError` on failure.
pub fn read_section_data(
    bs: &mut Bitstream,
    ics_info: &IcsInfo,
    code_book: &mut [u8],
    common_window: bool,
) -> (r: AacDecoderError)
    requires
        old(bs).wf(),
        ics_info.wf(),
    ensures
        final(bs).wf(),
        (r, final(code_book)@, final(bs)@) == spec_section_data(
            old(bs)@,
            *ics_info,
            common_window,
            old(code_book)@,
        ),
{
    let long = ics_info.is_long_block();
    let n_bits: u32 = if long {
        5
    } else {
        3
    };
    // The escape value is the largest value of the field: 2^n_bits - 1.
    let sect_esc_val: u32 = if long {
        31
    } else {
        7
    };
    let windows = ics_info.windows_per_frame();
    proof {
        if long {
            assert(windows == 1);
            assert(128usize / windows == 128) by (nonlinear_arith)
                requires
                    windows == 1,
            ;
        } else {
            assert(windows == 8);
            assert(128usize / windows == 16) by (nonlinear_arith)
                requires
                    windows == 8,
            ;
        }
    }
    let c = MAX_WINS_X_SFBS / windows;
    let len = code_book.len();
    let room = len / c;
    let groups = if ics_info.n_window_groups() < room {
        ics_info.n_window_groups()
    } else {
        room
    };
    proof {
        let len = code_book@.len() as int;
        assert(groups * c <= len) by (nonlinear_arith)
            requires
                groups <= room,
                room == len / (c as int),
                c > 0,
                len >= 0,
        ;
    }
    let max_sfb = ics_info.max_sf_bands();
    let ghost target = spec_section_data(old(bs)@, *ics_info, common_window, old(code_book)@);

    let mut g: usize = 0;
    while g < groups
        invariant
            bs.wf(),
            ics_info.wf(),
            g <= groups,
            c == group_bands(*ics_info),
            c == 128 || c == 16,
            groups * c <= code_book@.len(),
            len == code_book@.len(),
            target == spec_section_data(old(bs)@, *ics_info, common_window, old(code_book)@),
            max_sfb == ics_info.max_sfb,
            n_bits == sect_len_bits(*ics_info),
            sect_esc_val == sect_escape_value(*ics_info),
            spec_groups(bs@, g as nat, groups as nat, *ics_info, common_window, code_book@)
                == target,
        decreases groups - g,
    {
        proof {
            assert(g * c + c <= groups * c) by (nonlinear_arith)
                requires
                    g < groups,
            ;
        }
        let base = g * c;
        let mut band: usize = 0;
        while band < max_sfb
            invariant
                bs.wf(),
                band <= c,
                base + c <= code_book@.len(),
                len == code_book@.len(),
                target == spec_section_data(old(bs)@, *ics_info, common_window, old(code_book)@),
                base == g * c,
                g < groups,
                c == group_bands(*ics_info),
                max_sfb == ics_info.max_sfb,
                n_bits == sect_len_bits(*ics_info),
                n_bits == 3 || n_bits == 5,
                sect_esc_val == sect_escape_value(*ics_info),
                ({
                    let (r, cb2, v2) = spec_sections(
                        bs@,
                        base as int,
                        band as nat,
                        max_sfb as nat,
                        c as nat,
                        n_bits as nat,
                        sect_esc_val as nat,
                        common_window,
                        code_book@,
                    );
                    target == if r == AacDecoderError::AacDecOk {
                        spec_groups(v2, (g + 1) as nat, groups as nat, *ics_info, common_window, cb2)
                    } else {
                        (r, cb2, v2)
                    }
                }),
            decreases bs@.valid - MIN_VALID_BITS,
        {
            if bs.valid_bits() < MIN_VALID_BITS + 4 {
                return AacDecoderError::DecodeFrameError;
            }
            let ghost v = bs@;
            let sect_cb = bs.read(4) as u8;
            proof {
                lemma_peek_bound(v, 4);
                lemma2_to64();
                lemma_sect_len_consumes(bs@, n_bits as nat, sect_esc_val as nat);
            }

            let sect_len = match read_sect_len(bs, n_bits, sect_esc_val) {
                Some(len) => len,
                None => return AacDecoderError::DecodeFrameError,
            };

            if band as u64 + sect_len > c as u64 {
                return AacDecoderError::DecodeFrameError;
            }

            // Check if decoded codebook index is feasible
            if (sect_cb == CBTYPE_BOOKSCL) || ((sect_cb == CBTYPE_INTENSITY_HCB2 || sect_cb
                == CBTYPE_INTENSITY_HCB) && !common_window) {
                return AacDecoderError::InvalidCodeBook;
            }

            // Store codebook index
            assert(sect_len <= c);
            let end = band + (sect_len as usize);
            let ghost before = code_book@;
            let mut k = base + band;
            while k < base + end
                invariant
                    base + band <= k <= base + end <= base + c <= code_book@.len(),
                    len == code_book@.len(),
                    code_book@ == seq_fill(before, base + band, k as int, sect_cb),
                decreases base + end - k,
            {
                code_book[k] = sect_cb;
                k += 1;
                assert(code_book@ =~= seq_fill(before, base + band, k as int, sect_cb));
            }
            band = end;
        }
        let ghost before = code_book@;
        let mut k = base + band;
        while k < base + c
            invariant
                base + band <= k <= base + c <= code_book@.len(),
                len == code_book@.len(),
                code_book@ == seq_fill(before, base + band, k as int, CBTYPE_ZERO_HCB),
            decreases base + c - k,
        {
            code_book[k] = CBTYPE_ZERO_HCB;
            k += 1;
            assert(code_book@ =~= seq_fill(before, base + band, k as int, CBTYPE_ZERO_HCB));
        }
        proof {
            assert((g + 1) * c == g * c + c) by (nonlinear_arith);
        }
        g += 1;
    }

    AacDecoderError::AacDecOk
}

/// What reading scale factors carries from band to band: the scale factor and the
/// intensity position, both coded as differences, the noise energy, the noise data,
/// the scale factors so far and the bitstream.
pub struct ScfState {
    pub factor: int,
    pub position: int,
    pub pns_nrg: int,
    pub pns: PnsView,
    pub sf: Seq<i16>,
    pub v: BitstreamView,
}

/// One scale factor code word read from `v` on: its value minus 60, the
/// difference it codes.
pub open spec fn scf_delta(v: BitstreamView) -> (Option<int>, BitstreamView) {
    let (w, v1) = spec_scl_word(v, 0, SCL_NODES as nat);
    (
        match w {
            Some(w) => Some(w - 60),
            None => None,
        },
        v1,
    )
}

/// The scale factor of entry `idx`, whose band has code book `cb`: none for the
/// zero book; an intensity position, coded as a difference and within
/// -287..=287, for the intensity books; a noise energy for the noise book, the
/// first coded in 9 bits against the global gain less `NOISE_OFFSET` and 256, the
/// rest as differences, the band marked as noise; otherwise a scale factor coded
/// as a difference, within 0..=255, stored less 100. `false` where a value is out of
/// its range.
pub open spec fn spec_scf_band(s: ScfState, cb: u8, idx: int) -> (bool, ScfState) {
    if cb == CBTYPE_ZERO_HCB {
        (true, ScfState { sf: s.sf.update(idx, 0i16), ..s })
    } else if cb == CBTYPE_INTENSITY_HCB2 || cb == CBTYPE_INTENSITY_HCB {
        let (d, v1) = scf_delta(s.v);
        match d {
            None => (false, ScfState { v: v1, ..s }),
            Some(d) => {
                let pos = s.position + d;
                if pos < -287 || pos > 287 {
                    (false, ScfState { v: v1, position: pos, ..s })
                } else {
                    (true, ScfState { v: v1, position: pos, sf: s.sf.update(idx, pos as i16), ..s })
                }
            },
        }
    } else if cb == CBTYPE_NOISE_HCB {
        let (d, v1) = if s.pns.active {
            scf_delta(s.v)
        } else {
            (Some(s.v.peek(9) as int), s.v.skip(9))
        };
        match d {
            None => (false, ScfState { v: v1, ..s }),
            Some(d) => {
                let nrg = s.pns_nrg + d;
                (
                    true,
                    ScfState {
                        v: v1,
                        pns_nrg: nrg,
                        pns: PnsView { active: true, used: s.pns.used.update(idx, true) },
                        sf: s.sf.update(idx, nrg as i16),
                        ..s
                    },
                )
            },
        }
    } else {
        let (d, v1) = scf_delta(s.v);
        match d {
            None => (false, ScfState { v: v1, ..s }),
            Some(d) => {
                let factor = s.factor + d;
                if factor < 0 || factor > 255 {
                    (false, ScfState { v: v1, factor, ..s })
                } else {
                    (true, ScfState { v: v1, factor, sf: s.sf.update(idx, (factor - 100) as i16), ..s })
                }
            },
        }
    }
}

/// The scale factors of the bands from `band` up to `max_sfb` of window group `g`,
/// whose entries start at `g * c`.
pub open spec fn spec_scf_group(s: ScfState, g: nat, band: nat, max_sfb: nat, c: nat, cb: Seq<u8>) -> (
    bool,
    ScfState,
)
    decreases max_sfb - band,
{
    if band >= max_sfb {
        (true, s)
    } else {
        let idx = (g * c + band) as int;
        let (ok, s1) = spec_scf_band(s, cb[idx], idx);
        if !ok {
            (false, s1)
        } else {
            spec_scf_group(s1, g, band + 1, max_sfb, c, cb)
        }
    }
}

/// The scale factors of the window groups from `g` up to `groups`.
pub open spec fn spec_scf_groups(s: ScfState, g: nat, groups: nat, max_sfb: nat, c: nat, cb: Seq<u8>) -> (
    bool,
    ScfState,
)
    decreases groups - g,
{
    if g >= groups {
        (true, s)
    } else {
        let (ok, s1) = spec_scf_group(s, g, 0, max_sfb, c, cb);
        if !ok {
            (false, s1)
        } else {
            spec_scf_groups(s1, g + 1, groups, max_sfb, c, cb)
        }
    }
}

/// The scale factor data of a frame: the scale factors of the bands of each window
/// group, starting from the global gain; `ParseError` at the first value out of its
/// range, `AacDecOk` otherwise. Gives the outcome, the scale factors, the noise data
/// and the bitstream after it.
pub open spec fn spec_scalefactor_data(
    v: BitstreamView,
    ics: IcsInfo,
    global_gain: i16,
    cb: Seq<u8>,
    sf: Seq<i16>,
    pns: PnsView,
) -> (AacDecoderError, Seq<i16>, PnsView, BitstreamView) {
    let s0 = ScfState {
        factor: global_gain as int,
        position: 0,
        pns_nrg: global_gain - NOISE_OFFSET - 256,
        pns,
        sf,
        v,
    };
    let (ok, s) = spec_scf_groups(s0, 0, ics.window_groups as nat, ics.max_sfb as nat, group_bands(ics), cb);
    (
        if ok {
            AacDecoderError::AacDecOk
        } else {
            AacDecoderError::ParseError
        },
        s.sf,
        s.pns,
        s.v,
    )
}

/// Whether `cb` codes spectral lines with a scale factor: not the zero, noise or
/// intensity books.
pub open spec fn is_spectral_book(cb: u8) -> bool {
    cb != CBTYPE_ZERO_HCB && cb != CBTYPE_NOISE_HCB && cb != CBTYPE_INTENSITY_HCB2 && cb
        != CBTYPE_INTENSITY_HCB
}

/// Scale factors are coded as differences: in a long frame of two bands with
/// spectral code books, the first band's scale factor is the global gain plus the
/// first difference read, the second adds the second difference to it, both stored
/// less 100.
pub proof fn lemma_scale_factors_accumulate(
    v: BitstreamView,
    ics: IcsInfo,
    global_gain: i16,
    cb: Seq<u8>,
    sf: Seq<i16>,
    pns: PnsView,
    d1: int,
    d2: int,
)
    requires
        ics.long_block,
        ics.window_groups == 1,
        ics.max_sfb == 2,
        cb.len() == MAX_WINS_X_SFBS,
        sf.len() == MAX_WINS_X_SFBS,
        is_spectral_book(cb[0]),
        is_spectral_book(cb[1]),
        scf_delta(v).0 == Some(d1),
        scf_delta(scf_delta(v).1).0 == Some(d2),
        0 <= global_gain + d1 <= 255,
        0 <= global_gain + d1 + d2 <= 255,
    ensures
        ({
            let (r, sf1, _, _) = spec_scalefactor_data(v, ics, global_gain, cb, sf, pns);
            &&& r == AacDecoderError::AacDecOk
            &&& sf1[0] == global_gain + d1 - 100
            &&& sf1[1] == global_gain + d1 + d2 - 100
        }),
{
    assert(group_bands(ics) == 128) by (nonlinear_arith)
        requires
            ics.spec_windows_per_frame() == 1,
            group_bands(ics) == MAX_WINS_X_SFBS as nat / ics.spec_windows_per_frame(),
    ;
    let s0 = ScfState {
        factor: global_gain as int,
        position: 0,
        pns_nrg: global_gain - NOISE_OFFSET - 256,
        pns,
        sf,
        v,
    };
    let (ok1, s1) = spec_scf_band(s0, cb[0], 0);
    assert(ok1 && s1.factor == global_gain + d1 && s1.sf[0] == global_gain + d1 - 100);
    let (ok2, s2) = spec_scf_band(s1, cb[1], 1);
    assert(ok2 && s2.sf[0] == global_gain + d1 - 100 && s2.sf[1] == global_gain + d1 + d2 - 100);
    assert(spec_scf_group(s2, 0, 2, 2, 128, cb) == (true, s2));
    assert(spec_scf_group(s1, 0, 1, 2, 128, cb) == (true, s2));
    assert(spec_scf_group(s0, 0, 0, 2, 128, cb) == (true, s2));
    assert(spec_scf_groups(s2, 1, 1, 2, 128, cb) == (true, s2));
    assert(spec_scf_groups(s0, 0, 1, 2, 128, cb) == (true, s2));
}

/// Intensity positions are coded as differences from 0: in a long frame of two
/// intensity bands, the first band's position is the first difference read and the
/// second adds the second difference to it.
pub proof fn lemma_intensity_positions_accumulate(
    v: BitstreamView,
    ics: IcsInfo,
    global_gain: i16,
    cb: Seq<u8>,
    sf: Seq<i16>,
    pns: PnsView,
    d1: int,
    d2: int,
)
    requires
        ics.long_block,
        ics.window_groups == 1,
        ics.max_sfb == 2,
        cb.len() == MAX_WINS_X_SFBS,
        sf.len() == MAX_WINS_X_SFBS,
        cb[0] == CBTYPE_INTENSITY_HCB || cb[0] == CBTYPE_INTENSITY_HCB2,
        cb[1] == CBTYPE_INTENSITY_HCB || cb[1] == CBTYPE_INTENSITY_HCB2,
        scf_delta(v).0 == Some(d1),
        scf_delta(scf_delta(v).1).0 == Some(d2),
        -287 <= d1 <= 287,
        -287 <= d1 + d2 <= 287,
    ensures
        ({
            let (r, sf1, _, _) = spec_scalefactor_data(v, ics, global_gain, cb, sf, pns);
            &&& r == AacDecoderError::AacDecOk
            &&& sf1[0] == d1
            &&& sf1[1] == d1 + d2
        }),
{
    assert(group_bands(ics) == 128) by (nonlinear_arith)
        requires
            ics.spec_windows_per_frame() == 1,
            group_bands(ics) == MAX_WINS_X_SFBS as nat / ics.spec_windows_per_frame(),
    ;
    let s0 = ScfState {
        factor: global_gain as int,
        position: 0,
        pns_nrg: global_gain - NOISE_OFFSET - 256,
        pns,
        sf,
        v,
    };
    let (ok1, s1) = spec_scf_band(s0, cb[0], 0);
    assert(ok1 && s1.position == d1 && s1.sf[0] == d1);
    let (ok2, s2) = spec_scf_band(s1, cb[1], 1);
    assert(ok2 && s2.sf[0] == d1 && s2.sf[1] == d1 + d2);
    assert(spec_scf_group(s2, 0, 2, 2, 128, cb) == (true, s2));
    assert(spec_scf_group(s1, 0, 1, 2, 128, cb) == (true, s2));
    assert(spec_scf_group(s0, 0, 0, 2, 128, cb) == (true, s2));
    assert(spec_scf_groups(s2, 1, 1, 2, 128, cb) == (true, s2));
    assert(spec_scf_groups(s0, 0, 1, 2, 128, cb) == (true, s2));
}

/// Noise energies are coded from the global gain: in a long frame of two noise
/// bands with no noise band read before, the first energy is the global gain less
/// `NOISE_OFFSET` and 256 plus a 9 bit value, the second adds the difference coded
/// after it; both bands are marked as noise.
pub proof fn lemma_noise_energies_accumulate(
    v: BitstreamView,
    ics: IcsInfo,
    global_gain: i16,
    cb: Seq<u8>,
    sf: Seq<i16>,
    pns: PnsView,
    d2: int,
)
    requires
        ics.long_block,
        ics.window_groups == 1,
        ics.max_sfb == 2,
        cb.len() == MAX_WINS_X_SFBS,
        sf.len() == MAX_WINS_X_SFBS,
        pns.used.len() == MAX_WINS_X_SFBS,
        !pns.active,
        cb[0] == CBTYPE_NOISE_HCB,
        cb[1] == CBTYPE_NOISE_HCB,
        scf_delta(v.skip(9)).0 == Some(d2),
        -20000 <= global_gain <= 20000,
        -60 <= d2 <= 60,
    ensures
        ({
            let (r, sf1, pns1, _) = spec_scalefactor_data(v, ics, global_gain, cb, sf, pns);
            let e1 = global_gain - 90 - 256 + v.peek(9);
            &&& r == AacDecoderError::AacDecOk
            &&& sf1[0] == e1
            &&& sf1[1] == e1 + d2
            &&& pns1.active && pns1.used[0] && pns1.used[1]
        }),
{
    assert(group_bands(ics) == 128) by (nonlinear_arith)
        requires
            ics.spec_windows_per_frame() == 1,
            group_bands(ics) == MAX_WINS_X_SFBS as nat / ics.spec_windows_per_frame(),
    ;
    lemma_peek_bound(v, 9);
    lemma2_to64();
    let s0 = ScfState {
        factor: global_gain as int,
        position: 0,
        pns_nrg: global_gain - NOISE_OFFSET - 256,
        pns,
        sf,
        v,
    };
    let e1 = global_gain - 90 - 256 + v.peek(9);
    let (ok1, s1) = spec_scf_band(s0, cb[0], 0);
    assert(ok1 && s1.pns_nrg == e1 && s1.sf[0] == e1 && s1.pns.active);
    let (ok2, s2) = spec_scf_band(s1, cb[1], 1);
    assert(ok2 && s2.sf[0] == e1 && s2.sf[1] == e1 + d2);
    assert(spec_scf_group(s2, 0, 2, 2, 128, cb) == (true, s2));
    assert(spec_scf_group(s1, 0, 1, 2, 128, cb) == (true, s2));
    assert(spec_scf_group(s0, 0, 0, 2, 128, cb) == (true, s2));
    assert(spec_scf_groups(s2, 1, 1, 2, 128, cb) == (true, s2));
    assert(spec_scf_groups(s0, 0, 1, 2, 128, cb) == (true, s2));
}

/// Reads one scale factor code word and gives the difference it codes.
fn read_scf_delta(bs: &mut Bitstream) -> (r: Option<i32>)
    requires
        old(bs).wf(),
        old(bs)@.valid >= MIN_VALID_BITS + SCL_WORD_MAX_BITS,
    ensures
        final(bs).wf(),
        final(bs)@.valid >= old(bs)@.valid - SCL_WORD_MAX_BITS,
        ({
            let (d, v) = scf_delta(old(bs)@);
            &&& final(bs)@ == v
            &&& match (r, d) {
                (Some(a), Some(b)) => a == b && -60 <= a < 0x4000,
                (None, None) => true,
                _ => false,
            }
        }),
{
    proof {
        lemma_scl_word_bounds(old(bs)@, 0, SCL_NODES as nat);
    }
    match read_scl_word(bs) {
        Some(w) => Some(w as i32 - 60),
        None => None,
    }
}

/// Reads scale factor data
///
/// Differential coded scale factors are read from `Bitstream` and decoded with the
/// scale factor code book, considering the `code_book` of each band: the zero
/// book has none, the intensity books give intensity positions, the noise book
/// gives noise energies and marks the band in `pns` as noise.
///
/// Returns `AacDecOk` on success and `ParseError` where an intensity position falls
/// outside -287..=287 or a scale factor outside 0..=255.
pub fn read_scalefactor_data(
    bs: &mut Bitstream,
    ics_info: &IcsInfo,
    global_gain: i16,
    code_book: &[u8],
    scale_factor: &mut [i16],
    pns: &mut PnsData,
) -> (r: AacDecoderError)
    requires
        old(bs).wf(),
        old(bs)@.valid >= MIN_VALID_BITS + MAX_WINS_X_SFBS * SCL_WORD_MAX_BITS,
        ics_info.wf(),
        ics_info.max_sfb <= group_bands(*ics_info),
        code_book@.len() == MAX_WINS_X_SFBS,
        old(scale_factor)@.len() == MAX_WINS_X_SFBS,
        -24000 <= global_gain <= 24000,
    ensures
        final(bs).wf(),
        r == AacDecoderError::AacDecOk || r == AacDecoderError::ParseError,
        (r, final(scale_factor)@, final(pns)@, final(bs)@) == spec_scalefactor_data(
            old(bs)@,
            *ics_info,
            global_gain,
            code_book@,
            old(scale_factor)@,
            old(pns)@,
        ),
{
    let windows = ics_info.windows_per_frame();
    proof {
        if windows == 1 {
            assert(128usize / windows == 128) by (nonlinear_arith)
                requires
                    windows == 1,
            ;
        } else {
            assert(128usize / windows == 16) by (nonlinear_arith)
                requires
                    windows == 8,
            ;
        }
    }
    let c = MAX_WINS_X_SFBS / windows;
    let groups = ics_info.n_window_groups();
    let max_sfb = ics_info.max_sf_bands();
    proof {
        assert(groups * c <= 128) by (nonlinear_arith)
            requires
                groups <= windows,
                (windows == 1 && c == 128) || (windows == 8 && c == 16),
        ;
    }
    let mut factor: i32 = global_gain as i32;
    let mut position: i32 = 0;
    let mut pns_nrg: i32 = global_gain as i32 - NOISE_OFFSET as i32 - 256;
    let ghost s0 = ScfState {
        factor: global_gain as int,
        position: 0,
        pns_nrg: global_gain - NOISE_OFFSET - 256,
        pns: old(pns)@,
        sf: old(scale_factor)@,
        v: old(bs)@,
    };
    let ghost target = spec_scf_groups(s0, 0, groups as nat, max_sfb as nat, c as nat, code_book@);
    assert(spec_scalefactor_data(old(bs)@, *ics_info, global_gain, code_book@, old(scale_factor)@, old(pns)@) == (
        if target.0 {
            AacDecoderError::AacDecOk
        } else {
            AacDecoderError::ParseError
        },
        target.1.sf,
        target.1.pns,
        target.1.v,
    ));
    let ghost mut k: int = 0;

    let mut g: usize = 0;
    while g < groups
        invariant
            bs.wf(),
            g <= groups,
            groups == ics_info.window_groups,
            max_sfb == ics_info.max_sfb,
            max_sfb <= c,
            c == group_bands(*ics_info),
            groups * c <= 128,
            code_book@.len() == MAX_WINS_X_SFBS,
            scale_factor@.len() == MAX_WINS_X_SFBS,
            -24000 <= global_gain <= 24000,
            0 <= k <= g * c,
            spec_scalefactor_data(old(bs)@, *ics_info, global_gain, code_book@, old(scale_factor)@, old(pns)@) == (
                if target.0 {
                    AacDecoderError::AacDecOk
                } else {
                    AacDecoderError::ParseError
                },
                target.1.sf,
                target.1.pns,
                target.1.v,
            ),
            old(bs)@.valid >= MIN_VALID_BITS + MAX_WINS_X_SFBS * SCL_WORD_MAX_BITS,
            bs@.valid >= old(bs)@.valid - SCL_WORD_MAX_BITS * k,
            factor == global_gain || 0 <= factor <= 255,
            -287 <= position <= 287,
            global_gain - 346 - 0x4000 * k <= pns_nrg <= global_gain - 346 + 0x4000 * k,
            spec_scf_groups(
                ScfState {
                    factor: factor as int,
                    position: position as int,
                    pns_nrg: pns_nrg as int,
                    pns: pns@,
                    sf: scale_factor@,
                    v: bs@,
                },
                g as nat,
                groups as nat,
                max_sfb as nat,
                c as nat,
                code_book@,
            ) == target,
        decreases groups - g,
    {
        proof {
            assert(g * c + c <= groups * c) by (nonlinear_arith)
                requires
                    g < groups,
            ;
        }
        let base = g * c;
        let mut band: usize = 0;
        while band < max_sfb
            invariant
                bs.wf(),
                g < groups,
                base == g * c,
                base + c <= 128,
                band <= max_sfb <= c,
                groups == ics_info.window_groups,
                max_sfb == ics_info.max_sfb,
                c == group_bands(*ics_info),
                code_book@.len() == MAX_WINS_X_SFBS,
                scale_factor@.len() == MAX_WINS_X_SFBS,
                -24000 <= global_gain <= 24000,
                0 <= k <= base + band,
            spec_scalefactor_data(old(bs)@, *ics_info, global_gain, code_book@, old(scale_factor)@, old(pns)@) == (
                if target.0 {
                    AacDecoderError::AacDecOk
                } else {
                    AacDecoderError::ParseError
                },
                target.1.sf,
                target.1.pns,
                target.1.v,
            ),
                old(bs)@.valid >= MIN_VALID_BITS + MAX_WINS_X_SFBS * SCL_WORD_MAX_BITS,
                bs@.valid >= old(bs)@.valid - SCL_WORD_MAX_BITS * k,
                factor == global_gain || 0 <= factor <= 255,
                -287 <= position <= 287,
                global_gain - 346 - 0x4000 * k <= pns_nrg <= global_gain - 346 + 0x4000 * k,
                ({
                    let (ok, s) = spec_scf_group(
                        ScfState {
                            factor: factor as int,
                            position: position as int,
                            pns_nrg: pns_nrg as int,
                            pns: pns@,
                            sf: scale_factor@,
                            v: bs@,
                        },
                        g as nat,
                        band as nat,
                        max_sfb as nat,
                        c as nat,
                        code_book@,
                    );
                    target == if ok {
                        spec_scf_groups(s, (g + 1) as nat, groups as nat, max_sfb as nat, c as nat, code_book@)
                    } else {
                        (false, s)
                    }
                }),
            decreases max_sfb - band,
        {
            let idx = base + band;
            proof {
                assert(bs@.valid >= MIN_VALID_BITS + SCL_WORD_MAX_BITS);
            }
            let cb = code_book[idx];
            let ghost cur = ScfState {
                factor: factor as int,
                position: position as int,
                pns_nrg: pns_nrg as int,
                pns: pns@,
                sf: scale_factor@,
                v: bs@,
            };
            proof {
                assert(spec_scf_group(cur, g as nat, band as nat, max_sfb as nat, c as nat, code_book@)
                    == {
                    let (ok, s1) = spec_scf_band(cur, cb, idx as int);
                    if !ok {
                        (false, s1)
                    } else {
                        spec_scf_group(s1, g as nat, (band + 1) as nat, max_sfb as nat, c as nat, code_book@)
                    }
                });
            }
            if cb == CBTYPE_ZERO_HCB {
                scale_factor[idx] = 0;
            } else if cb == CBTYPE_INTENSITY_HCB2 || cb == CBTYPE_INTENSITY_HCB {
                let temp = match read_scf_delta(bs) {
                    Some(d) => d,
                    None => {
assert(spec_scf_band(cur, cb, idx as int) == (false, ScfState { v: bs@, ..cur }));
                        assert(target == (false, ScfState { v: bs@, ..cur }));
                        return AacDecoderError::ParseError;
                    },
                };
                position = position + temp;
                if position < -287 || position > 287 {
                    return AacDecoderError::ParseError;
                }
                scale_factor[idx] = position as i16;
            } else if cb == CBTYPE_NOISE_HCB {
                let temp: i32 = if pns.is_pns_active() {
                    match read_scf_delta(bs) {
                        Some(d) => d,
                        None => return AacDecoderError::ParseError,
                    }
                } else {
                    pns.set_is_pns_active(true);
                    let ghost v = bs@;
                    let t = bs.read(9);
                    proof {
                        lemma_peek_bound(v, 9);
                        lemma2_to64();
                    }
                    t as i32
                };
                pns_nrg = pns_nrg + temp;
                scale_factor[idx] = pns_nrg as i16;
                pns.set_pns_used(idx);
            } else {
                let temp = match read_scf_delta(bs) {
                    Some(d) => d,
                    None => {
assert(spec_scf_band(cur, cb, idx as int) == (false, ScfState { v: bs@, ..cur }));
                        assert(target == (false, ScfState { v: bs@, ..cur }));
                        return AacDecoderError::ParseError;
                    },
                };
                factor = factor + temp;
                if factor < 0 || factor > 255 {
                    assert(spec_scf_band(cur, cb, idx as int) == (
                        false,
                        ScfState { v: bs@, factor: factor as int, ..cur },
                    ));
                    assert(target == (false, ScfState { v: bs@, factor: factor as int, ..cur }));
                    return AacDecoderError::ParseError;
                }
                scale_factor[idx] = (factor - 100) as i16;
            }
            proof {
                k = k + 1;
            }
            band += 1;
        }
        proof {
            assert((g + 1) * c == g * c + c) by (nonlinear_arith);
        }
        g += 1;
    }
    AacDecoderError::AacDecOk
}

} // verus!
