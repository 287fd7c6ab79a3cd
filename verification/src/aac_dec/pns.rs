//! Perceptual noise substitution: which bands of a channel carry noise in place of
//! a coded spectrum.

use vstd::prelude::*;
use super::constants::MAX_WINS_X_SFBS;

verus! {

/// Offset of the noise energy against the global gain.
pub const NOISE_OFFSET: i16 = 90;

/// What noise substitution data holds: whether a noise band was read yet, and which
/// bands are noise.
pub struct PnsView {
    pub active: bool,
    pub used: Seq<bool>,
}

/// Noise substitution data of a channel.
#[derive(Debug)]
pub struct PnsData {
    pns_active: bool,
    pns_used: [bool; MAX_WINS_X_SFBS],
}

impl View for PnsData {
    type V = PnsView;

    closed spec fn view(&self) -> PnsView {
        PnsView { active: self.pns_active, used: self.pns_used@ }
    }
}

/// Noise substitution data with no noise band.
pub open spec fn empty_pns() -> PnsView {
    PnsView { active: false, used: Seq::new(MAX_WINS_X_SFBS as nat, |i: int| false) }
}

impl PnsData {
    /// Noise substitution data with no noise band.
    pub fn new() -> (pns: PnsData)
        ensures
            pns@ == empty_pns(),
    {
        let pns = PnsData { pns_active: false, pns_used: [false; MAX_WINS_X_SFBS] };
        assert(pns@.used =~= empty_pns().used);
        pns
    }

    /// Clears the data: no noise band.
    pub fn init(&mut self)
        ensures
            final(self)@ == empty_pns(),
    {
        *self = PnsData::new();
    }

    /// Whether a noise band was read.
    pub fn is_pns_active(&self) -> (active: bool)
        ensures
            active == self@.active,
    {
        self.pns_active
    }

    /// Notes whether a noise band was read.
    pub fn set_is_pns_active(&mut self, active: bool)
        ensures
            final(self)@ == (PnsView { active, ..old(self)@ }),
    {
        self.pns_active = active;
    }

    /// Which bands are noise.
    pub fn is_pns_used(&self) -> (used: &[bool])
        ensures
            used@ == self@.used,
    {
        self.pns_used.as_slice()
    }

    /// Marks band `band` as noise.
    pub fn set_pns_used(&mut self, band: usize)
        requires
            band < MAX_WINS_X_SFBS,
        ensures
            final(self)@ == (PnsView { used: old(self)@.used.update(band as int, true), ..old(self)@ }),
    {
        self.pns_used[band] = true;
    }
}

impl Default for PnsData {
    fn default() -> (pns: PnsData)
        ensures
            pns@ == empty_pns(),
    {
        PnsData::new()
    }
}

} // verus!
