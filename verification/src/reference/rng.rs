//! The xorshift generator that the noise of the test signals is drawn from.

use vstd::prelude::*;

verus! {

/// The xorshift step: the state shifted and folded in, left by 13, right by 7 and
/// left by 17 bits.
pub open spec fn xorshift(x: u64) -> u64 {
    let a = x ^ (x << 13u64);
    let b = a ^ (a >> 7u64);
    b ^ (b << 17u64)
}

/// A xorshift generator.
#[derive(Clone, Copy, Debug)]
pub struct Rng(pub u64);

impl Rng {
    /// Advances the state one step and returns its top 53 bits.
    pub fn next_bits(&mut self) -> (bits: u64)
        ensures
            final(self).0 == xorshift(old(self).0),
            bits == final(self).0 >> 11u64,
            bits < 0x20_0000_0000_0000,
    {
        self.0 = self.0 ^ (self.0 << 13u64);
        self.0 = self.0 ^ (self.0 >> 7u64);
        self.0 = self.0 ^ (self.0 << 17u64);
        let x = self.0;
        assert(x >> 11u64 < 0x20_0000_0000_0000u64) by (bit_vector);
        x >> 11u64
    }
}

} // verus!
