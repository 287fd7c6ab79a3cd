//! Huffman decoding of the scale factor code book.

use vstd::prelude::*;
use crate::common::bitstream::{lemma_peek_bound, Bitstream, BitstreamView, MIN_VALID_BITS};
use vstd::arithmetic::power2::lemma2_to64;

verus! {

/// Nodes of the scale factor code book's decoding tree.
pub const SCL_NODES: usize = 65;

/// Most bits one scale factor code word takes from the bitstream, in the steps the
/// tree is walked.
pub const SCL_WORD_MAX_BITS: isize = 130;

/// The decoding tree of the scale factor code book. Each node has an entry for each
/// value of the next two bits. An entry with its lowest bit clear leads to the node
/// `entry >> 2`; one with its lowest bit set ends the code word with the value
/// `entry >> 2`, and where its second bit is set, the word took one of the two bits
/// only.
pub const HUFFMAN_CODE_BOOK_SCL: [[u16; 4]; SCL_NODES] = [
    [0x00f3, 0x00f3, 0x0004, 0x0008],
    [0x00ef, 0x00ef, 0x00f5, 0x00e9],
    [0x00f9, 0x000c, 0x0010, 0x0014],
    [0x00e7, 0x00e7, 0x00ff, 0x00ff],
    [0x00e1, 0x0101, 0x00dd, 0x0105],
    [0x0018, 0x001c, 0x0020, 0x0028],
    [0x010b, 0x010b, 0x00db, 0x00db],
    [0x010f, 0x010f, 0x00d5, 0x0111],
    [0x00d1, 0x0115, 0x00cd, 0x0024],
    [0x011b, 0x011b, 0x00cb, 0x00cb],
    [0x002c, 0x0030, 0x0034, 0x0040],
    [0x00c7, 0x00c7, 0x011f, 0x011f],
    [0x0121, 0x00c1, 0x0125, 0x00bd],
    [0x0129, 0x00b9, 0x0038, 0x003c],
    [0x0133, 0x0133, 0x012f, 0x012f],
    [0x0137, 0x0137, 0x013b, 0x013b],
    [0x0044, 0x0048, 0x004c, 0x0058],
    [0x00b7, 0x00b7, 0x00af, 0x00af],
    [0x00b1, 0x013d, 0x00a9, 0x00a5],
    [0x0141, 0x00a1, 0x0050, 0x0054],
    [0x0147, 0x0147, 0x009f, 0x009f],
    [0x014b, 0x014b, 0x009b, 0x009b],
    [0x005c, 0x0060, 0x0064, 0x0070],
    [0x014f, 0x014f, 0x0095, 0x008d],
    [0x0155, 0x0085, 0x0091, 0x0089],
    [0x0151, 0x0081, 0x0068, 0x006c],
    [0x015f, 0x015f, 0x0167, 0x0167],
    [0x007b, 0x007b, 0x007f, 0x007f],
    [0x0074, 0x0078, 0x0080, 0x00b0],
    [0x0159, 0x0075, 0x0069, 0x006d],
    [0x0071, 0x0061, 0x0161, 0x007c],
    [0x0067, 0x0067, 0x005b, 0x005b],
    [0x0084, 0x0088, 0x008c, 0x009c],
    [0x005f, 0x005f, 0x0169, 0x0055],
    [0x004d, 0x000d, 0x0005, 0x0009],
    [0x0001, 0x0090, 0x0094, 0x0098],
    [0x018b, 0x018b, 0x018f, 0x018f],
    [0x0193, 0x0193, 0x0197, 0x0197],
    [0x019b, 0x019b, 0x01d7, 0x01d7],
    [0x00a0, 0x00a4, 0x00a8, 0x00ac],
    [0x0187, 0x0187, 0x016f, 0x016f],
    [0x0173, 0x0173, 0x0177, 0x0177],
    [0x017b, 0x017b, 0x017f, 0x017f],
    [0x0183, 0x0183, 0x01a3, 0x01a3],
    [0x00b4, 0x00c8, 0x00dc, 0x00f0],
    [0x00b8, 0x00bc, 0x00c0, 0x00c4],
    [0x01bf, 0x01bf, 0x01c3, 0x01c3],
    [0x01c7, 0x01c7, 0x01cb, 0x01cb],
    [0x01cf, 0x01cf, 0x01d3, 0x01d3],
    [0x01bb, 0x01bb, 0x01a7, 0x01a7],
    [0x00cc, 0x00d0, 0x00d4, 0x00d8],
    [0x01ab, 0x01ab, 0x01af, 0x01af],
    [0x01b3, 0x01b3, 0x01b7, 0x01b7],
    [0x01db, 0x01db, 0x001b, 0x001b],
    [0x0023, 0x0023, 0x0027, 0x0027],
    [0x00e0, 0x00e4, 0x00e8, 0x00ec],
    [0x002b, 0x002b, 0x0017, 0x0017],
    [0x019f, 0x019f, 0x01e3, 0x01e3],
    [0x01df, 0x01df, 0x0013, 0x0013],
    [0x001f, 0x001f, 0x003f, 0x003f],
    [0x00f4, 0x00f8, 0x00fc, 0x0100],
    [0x0043, 0x0043, 0x004b, 0x004b],
    [0x0053, 0x0053, 0x0047, 0x0047],
    [0x002f, 0x002f, 0x0033, 0x0033],
    [0x003b, 0x003b, 0x0037, 0x0037]
];

/// The scale factor code word from `v` on, walked from node `index`: its value and the
/// bitstream after it, or `None` where no word ends within `fuel` steps.
pub open spec fn spec_scl_word(v: BitstreamView, index: nat, fuel: nat) -> (Option<nat>, BitstreamView)
    decreases fuel,
{
    if fuel == 0 || index >= SCL_NODES {
        (None, v)
    } else {
        let val = HUFFMAN_CODE_BOOK_SCL[index as int][v.peek(2) as int];
        let v1 = v.skip(2);
        if val & 1u16 == 0u16 {
            spec_scl_word(v1, (val >> 2u16) as nat, (fuel - 1) as nat)
        } else if val & 2u16 != 0u16 {
            (Some((val >> 2u16) as nat), v1.skip(-1))
        } else {
            (Some((val >> 2u16) as nat), v1)
        }
    }
}

/// A code word's value fits in 14 bits, and walking takes at most two bits a step.
pub proof fn lemma_scl_word_bounds(v: BitstreamView, index: nat, fuel: nat)
    ensures
        spec_scl_word(v, index, fuel).0 matches Some(w) ==> w < 0x4000,
        spec_scl_word(v, index, fuel).1.valid >= v.valid - 2 * fuel,
        spec_scl_word(v, index, fuel).1.valid <= v.valid,
        spec_scl_word(v, index, fuel).1.buf == v.buf,
    decreases fuel,
{
    if fuel > 0 && index < SCL_NODES {
        lemma_peek_bound(v, 2);
        lemma2_to64();
        let val = HUFFMAN_CODE_BOOK_SCL[index as int][v.peek(2) as int];
        assert(val >> 2u16 < 0x4000u16) by (bit_vector);
        let v1 = v.skip(2);
        if val & 1u16 == 0u16 {
            lemma_scl_word_bounds(v1, (val >> 2u16) as nat, (fuel - 1) as nat);
        }
    }
}

/// Reads one code word of the scale factor code book. Returns its value, or `None`
/// where the walk does not reach a leaf within `SCL_NODES` steps, which a tree whose
/// entries lead only to later nodes never does.
pub fn read_scl_word(bs: &mut Bitstream) -> (r: Option<u16>)
    requires
        old(bs).wf(),
        old(bs)@.valid >= MIN_VALID_BITS + SCL_WORD_MAX_BITS,
    ensures
        final(bs).wf(),
        ({
            let (w, v) = spec_scl_word(old(bs)@, 0, SCL_NODES as nat);
            &&& final(bs)@ == v
            &&& match (r, w) {
                (Some(a), Some(b)) => a == b,
                (None, None) => true,
                _ => false,
            }
        }),
{
    let mut index: usize = 0;
    let mut steps: usize = 0;
    while steps < SCL_NODES
        invariant
            bs.wf(),
            steps <= SCL_NODES,
            bs@.valid >= old(bs)@.valid - 2 * steps,
            old(bs)@.valid >= MIN_VALID_BITS + SCL_WORD_MAX_BITS,
            index < SCL_NODES,
            spec_scl_word(old(bs)@, 0, SCL_NODES as nat) == spec_scl_word(
                bs@,
                index as nat,
                (SCL_NODES - steps) as nat,
            ),
        decreases SCL_NODES - steps,
    {
        let ghost v = bs@;
        let bits = bs.read(2);
        proof {
            lemma_peek_bound(v, 2);
            lemma2_to64();
        }
        let val = HUFFMAN_CODE_BOOK_SCL[index][bits as usize];
        if val & 1 == 0 {
            let next = (val >> 2) as usize;
            if next >= SCL_NODES {
                assert(spec_scl_word(bs@, next as nat, (SCL_NODES - steps - 1) as nat) == (
                    None::<nat>,
                    bs@,
                ));
                return None;
            }
            index = next;
            steps += 1;
        } else {
            if val & 2 != 0 {
                bs.push(-1);
            }
            return Some(val >> 2);
        }
    }
    None
}

} // verus!
