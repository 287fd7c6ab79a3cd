//! Audio codec flags.

use vstd::prelude::*;

verus! {

/// Audio codec flags: which coding tools the stream uses.
#[derive(Clone, Copy, Debug, PartialEq, Eq, Structural)]
pub struct ACFlags {
    /// Error resilient syntax.
    pub er: bool,
    /// Enhanced low delay.
    pub eld: bool,
    /// The short frame: 480 samples instead of 512.
    pub frame_length: bool,
}

impl ACFlags {
    /// Error resilient syntax alone.
    pub fn er() -> (f: ACFlags)
        ensures
            f == (ACFlags { er: true, eld: false, frame_length: false }),
    {
        ACFlags { er: true, eld: false, frame_length: false }
    }

    /// Enhanced low delay alone.
    pub fn eld() -> (f: ACFlags)
        ensures
            f == (ACFlags { er: false, eld: true, frame_length: false }),
    {
        ACFlags { er: false, eld: true, frame_length: false }
    }

    /// The 480 sample frame alone.
    pub fn frame_length() -> (f: ACFlags)
        ensures
            f == (ACFlags { er: false, eld: false, frame_length: true }),
    {
        ACFlags { er: false, eld: false, frame_length: true }
    }

    /// No flag set.
    pub open spec fn empty_spec() -> ACFlags {
        ACFlags { er: false, eld: false, frame_length: false }
    }

    /// No flag set.
    pub fn empty() -> (f: ACFlags)
        ensures
            f == Self::empty_spec(),
    {
        ACFlags { er: false, eld: false, frame_length: false }
    }

    /// The flags set in either.
    pub open spec fn spec_union(self, other: ACFlags) -> ACFlags {
        ACFlags {
            er: self.er || other.er,
            eld: self.eld || other.eld,
            frame_length: self.frame_length || other.frame_length,
        }
    }

    /// The flags set in either.
    pub fn union(self, other: ACFlags) -> (f: ACFlags)
        ensures
            f == self.spec_union(other),
    {
        ACFlags {
            er: self.er || other.er,
            eld: self.eld || other.eld,
            frame_length: self.frame_length || other.frame_length,
        }
    }

    /// Sets the flags of `other` too.
    pub fn insert(&mut self, other: ACFlags)
        ensures
            *final(self) == old(self).spec_union(other),
    {
        *self = self.union(other);
    }

    /// Whether every flag of `other` is set.
    pub fn contains(&self, other: ACFlags) -> (r: bool)
        ensures
            r == ((other.er ==> self.er) && (other.eld ==> self.eld) && (other.frame_length
                ==> self.frame_length)),
    {
        (!other.er || self.er) && (!other.eld || self.eld) && (!other.frame_length
            || self.frame_length)
    }
}

impl core::ops::BitOr for ACFlags {
    type Output = ACFlags;

    fn bitor(self, other: ACFlags) -> (f: ACFlags)
        ensures
            f == self.spec_union(other),
    {
        self.union(other)
    }
}

impl vstd::std_specs::ops::BitOrSpecImpl for ACFlags {
    open spec fn obeys_bitor_spec() -> bool {
        true
    }

    open spec fn bitor_req(self, rhs: ACFlags) -> bool {
        true
    }

    open spec fn bitor_spec(self, rhs: ACFlags) -> ACFlags {
        self.spec_union(rhs)
    }
}

impl Default for ACFlags {
    fn default() -> (f: ACFlags)
        ensures
            f == (ACFlags { er: false, eld: false, frame_length: false }),
    {
        ACFlags::empty()
    }
}

/// Decoder flags: what a frame is asked for in place of decoding an access unit.
#[derive(Clone, Copy, Debug, PartialEq, Eq, Structural)]
pub struct AacDecFlags {
    /// Conceal a lost frame.
    pub conceal: bool,
    /// Flush the filter banks.
    pub flush: bool,
}

} // verus!
