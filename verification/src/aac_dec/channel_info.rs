//! Individual channel stream info: the window shape of a frame and how many scale
//! factor bands it codes.

use vstd::prelude::*;
use super::constants::MAX_WINDOWS;

verus! {

/// Individual channel stream info.
#[derive(Clone, Copy, Debug)]
pub struct IcsInfo {
    /// One long window rather than eight short ones.
    pub long_block: bool,
    /// Number of scale factor bands coded.
    pub max_sfb: u8,
    /// Number of window groups.
    pub window_groups: u8,
    /// Number of windows in each group.
    pub window_group_length: [u8; MAX_WINDOWS],
}

impl IcsInfo {
    /// Windows per frame: one long window, or eight short ones.
    pub open spec fn spec_windows_per_frame(&self) -> nat {
        if self.long_block {
            1
        } else {
            8
        }
    }

    /// The groups do not outnumber the windows.
    pub open spec fn wf(&self) -> bool {
        self.window_groups as nat <= self.spec_windows_per_frame()
    }

    /// Info before anything was read: a long block, no band and no group.
    pub fn new() -> (ics: IcsInfo)
        ensures
            ics.wf(),
            ics.long_block,
            ics.max_sfb == 0,
            ics.window_groups == 0,
            ics.window_group_length@ == seq![0u8, 0, 0, 0, 0, 0, 0, 0],
    {
        let ics = IcsInfo {
            long_block: true,
            max_sfb: 0,
            window_groups: 0,
            window_group_length: [0u8, 0, 0, 0, 0, 0, 0, 0],
        };
        assert(ics.window_group_length@ =~= seq![0u8, 0, 0, 0, 0, 0, 0, 0]);
        ics
    }

    /// The info of an ELD frame, whose `ics_info()` is `max_sfb` alone: one long
    /// window in one group.
    pub fn eld(max_sfb: u8) -> (ics: IcsInfo)
        ensures
            ics.wf(),
            ics.long_block,
            ics.max_sfb == max_sfb,
            ics.window_groups == 1,
            ics.window_group_length@ == seq![1u8, 0, 0, 0, 0, 0, 0, 0],
    {
        let ics = IcsInfo {
            long_block: true,
            max_sfb,
            window_groups: 1,
            window_group_length: [1u8, 0, 0, 0, 0, 0, 0, 0],
        };
        assert(ics.window_group_length@ =~= seq![1u8, 0, 0, 0, 0, 0, 0, 0]);
        ics
    }

    /// Whether the frame is one long window.
    pub fn is_long_block(&self) -> (r: bool)
        ensures
            r == self.long_block,
    {
        self.long_block
    }

    /// Number of windows in the frame.
    pub fn windows_per_frame(&self) -> (n: usize)
        ensures
            n == self.spec_windows_per_frame(),
    {
        if self.long_block {
            1
        } else {
            8
        }
    }

    /// Number of window groups.
    pub fn n_window_groups(&self) -> (n: usize)
        ensures
            n == self.window_groups,
    {
        self.window_groups as usize
    }

    /// Number of scale factor bands coded.
    pub fn max_sf_bands(&self) -> (n: usize)
        ensures
            n == self.max_sfb,
    {
        self.max_sfb as usize
    }

    /// Number of windows in each group.
    pub fn window_group_lengths(&self) -> (lengths: &[u8; MAX_WINDOWS])
        ensures
            *lengths == self.window_group_length,
    {
        &self.window_group_length
    }
}

impl Default for IcsInfo {
    fn default() -> (ics: IcsInfo)
        ensures
            ics.wf(),
            ics.long_block,
            ics.max_sfb == 0,
            ics.window_groups == 0,
    {
        IcsInfo::new()
    }
}

} // verus!
