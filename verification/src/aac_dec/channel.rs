//! The channel elements of the core decoder: the state a single channel element or
//! a channel pair element carries from one frame to the next.

use vstd::prelude::*;
use super::constants::MAX_FRAMESIZE;
use super::ms_stereo::{empty_joint_stereo, JointStereoData, JointStereoView};
use super::sr_info::SamplingRateInfo;
use crate::common::bs_element_id::ChannelElementId;

verus! {

/// Size of work buffer section, in bytes: two frames of 32 bit samples.
pub const WB_SECTION_SIZE: usize = MAX_FRAMESIZE * 2 * 4;

/// States of channel element.
#[derive(Clone, Copy, Debug, PartialEq, Eq, Structural)]
pub struct ElState {
    /// Channel element data has been read from bitstream.
    pub read: bool,
    /// Channel element spectral data decoded and is ready for output rendering.
    pub decoded: bool,
}

impl ElState {
    /// No state set.
    pub fn empty() -> (s: ElState)
        ensures
            s == (ElState { read: false, decoded: false }),
    {
        ElState { read: false, decoded: false }
    }
}

/// Common Channel Data.
///
/// This structure is used for common data of CPE/SCE.
#[derive(Debug)]
pub struct CommonChannelData {
    /// Work space of the spectral decoding, reused for 16 and 32 bit samples.
    scratch_work_buffer: Vec<u8>,
    sr_info: SamplingRateInfo,
}

impl CommonChannelData {
    /// The sampling rate information the data was initialised with.
    pub closed spec fn spec_sr_info(&self) -> SamplingRateInfo {
        self.sr_info
    }

    /// The work buffer.
    pub closed spec fn spec_scratch(&self) -> Seq<u8> {
        self.scratch_work_buffer@
    }

    /// Returns default initialized CommonChannelData instance.
    pub fn new() -> (ccd: CommonChannelData)
        ensures
            ccd.spec_scratch() == Seq::new(WB_SECTION_SIZE as nat, |i: int| 0u8),
            ccd.spec_sr_info() == (SamplingRateInfo {
                frame_length: 0,
                sampling_rate_index: 0,
                sampling_rate: 0,
            }),
    {
        let mut scratch_work_buffer: Vec<u8> = Vec::with_capacity(WB_SECTION_SIZE);
        while scratch_work_buffer.len() < WB_SECTION_SIZE
            invariant
                scratch_work_buffer.len() <= WB_SECTION_SIZE,
                forall|i: int| 0 <= i < scratch_work_buffer.len() ==> scratch_work_buffer@[i] == 0u8,
            decreases WB_SECTION_SIZE - scratch_work_buffer.len(),
        {
            scratch_work_buffer.push(0u8);
        }
        assert(scratch_work_buffer@ =~= Seq::new(WB_SECTION_SIZE as nat, |i: int| 0u8));
        CommonChannelData { scratch_work_buffer, sr_info: SamplingRateInfo::new() }
    }

    /// Initializes CommonChannelData instance with the sampling rate information.
    pub fn init(&mut self, sr_info: &SamplingRateInfo)
        ensures
            final(self).spec_sr_info() == *sr_info,
            final(self).spec_scratch() == old(self).spec_scratch(),
    {
        self.sr_info = *sr_info;
    }

    /// The sampling rate information.
    pub fn sr_info(&self) -> (info: &SamplingRateInfo)
        ensures
            *info == self.spec_sr_info(),
    {
        &self.sr_info
    }

    /// The work buffer.
    pub fn scratch_work_buffer(&self) -> (buffer: &[u8])
        ensures
            buffer@ == self.spec_scratch(),
    {
        self.scratch_work_buffer.as_slice()
    }
}

impl Default for CommonChannelData {
    fn default() -> (ccd: CommonChannelData)
        ensures
            ccd.spec_scratch() == Seq::new(WB_SECTION_SIZE as nat, |i: int| 0u8),
            ccd.spec_sr_info() == (SamplingRateInfo {
                frame_length: 0,
                sampling_rate_index: 0,
                sampling_rate: 0,
            }),
    {
        CommonChannelData::new()
    }
}

/// Number of channels an element of type `element_type` carries.
pub open spec fn channels_of(element_type: ChannelElementId) -> nat {
    match element_type {
        ChannelElementId::Cpe => 2,
        ChannelElementId::Sce => 1,
        _ => 0,
    }
}

/// What a channel element carries from frame to frame: its type and channel count,
/// whether its channels share their window, its joint stereo data (a pair's only),
/// the frame length and its state.
pub struct ChannelElementView {
    pub element_type: ChannelElementId,
    pub num_channels: u8,
    pub frame_length: nat,
    pub common_window: bool,
    pub js_data: Option<JointStereoView>,
    pub state_flags: ElState,
}

/// A channel element of type `element_type` as set up for frames of
/// `frame_length` samples: the channel count of its type, a pair's joint stereo
/// data cleared, no common window and no state set.
pub open spec fn initialized_element(element_type: ChannelElementId, frame_length: nat) -> ChannelElementView {
    ChannelElementView {
        element_type,
        num_channels: channels_of(element_type) as u8,
        frame_length,
        common_window: false,
        js_data: if channels_of(element_type) > 1 {
            Some(empty_joint_stereo())
        } else {
            None
        },
        state_flags: ElState { read: false, decoded: false },
    }
}

/// A channel element as reset before a frame: the channels of a pair share their
/// window, the joint stereo data is cleared and no state is set.
pub open spec fn reset_view(o: ChannelElementView) -> ChannelElementView {
    ChannelElementView {
        common_window: o.num_channels == 2,
        js_data: if o.num_channels > 1 && o.js_data is Some {
            Some(empty_joint_stereo())
        } else {
            o.js_data
        },
        state_flags: ElState { read: false, decoded: false },
        ..o
    }
}

/// ChannelElement Data.
///
/// This structure is used for a channel element. For example: SCE/CPE
#[derive(Debug)]
pub struct ChannelElement {
    js_data: Option<JointStereoData>,
    common_window: bool,
    num_channels: u8,
    frame_length: usize,
    element_type: ChannelElementId,
    state_flags: ElState,
}

impl View for ChannelElement {
    type V = ChannelElementView;

    closed spec fn view(&self) -> ChannelElementView {
        ChannelElementView {
            element_type: self.element_type,
            num_channels: self.num_channels,
            frame_length: self.frame_length as nat,
            common_window: self.common_window,
            js_data: match self.js_data {
                Some(js) => Some(js@),
                None => None,
            },
            state_flags: self.state_flags,
        }
    }
}

impl ChannelElement {
    /// Returns default initialized ChannelElement instance.
    pub fn new() -> (el: ChannelElement)
        ensures
            el@ == (ChannelElementView {
                element_type: ChannelElementId::NoElement,
                num_channels: 0,
                frame_length: 0,
                common_window: false,
                js_data: None,
                state_flags: ElState { read: false, decoded: false },
            }),
    {
        ChannelElement {
            js_data: None,
            common_window: false,
            num_channels: 0,
            frame_length: 0,
            element_type: ChannelElementId::NoElement,
            state_flags: ElState::empty(),
        }
    }

    /// Initializes ChannelElement instance for an element of type `element_type`
    /// and frames of `frame_length` samples; a channel pair gets joint stereo data.
    pub fn init(&mut self, sr_info: &SamplingRateInfo, element_type: ChannelElementId, frame_length: usize)
        ensures
            final(self)@ == (ChannelElementView {
                element_type,
                num_channels: channels_of(element_type) as u8,
                frame_length: frame_length as nat,
                js_data: if channels_of(element_type) > 1 {
                    Some(empty_joint_stereo())
                } else {
                    old(self)@.js_data
                },
                ..old(self)@
            }),
    {
        let num_channels = Self::get_num_channels(element_type);

        if num_channels > 1 {
            self.js_data = Some(JointStereoData::new());
        }
        self.frame_length = frame_length;
        self.num_channels = num_channels as u8;
        self.element_type = element_type;
    }

    /// Returns the number of channels in the channel element.
    pub fn num_channels(&self) -> (n: u8)
        ensures
            n == self@.num_channels,
    {
        self.num_channels
    }

    /// Returns the state flags of the channel element.
    pub fn state_flags(&self) -> (s: ElState)
        ensures
            s == self@.state_flags,
    {
        self.state_flags
    }

    /// Returns number of channels for the channel element.
    pub fn get_num_channels(element_type: ChannelElementId) -> (n: usize)
        ensures
            n == channels_of(element_type),
    {
        match element_type {
            ChannelElementId::Cpe => 2,
            ChannelElementId::Sce => 1,
            _ => 0,
        }
    }

    /// Resets the channel element before a frame: the channels of a pair share
    /// their window, the joint stereo data is cleared and no state is set.
    pub fn reset(&mut self)
        ensures
            final(self)@ == reset_view(old(self)@),
    {
        // The channels of an ELD channel pair always share their window.
        self.common_window = self.num_channels == 2;

        if self.num_channels > 1 {
            // Reset ms_stereo data.
            if let Some(js_data) = &mut self.js_data {
                js_data.reset();
            }
        }

        self.state_flags = ElState::empty();
    }
}

impl Default for ChannelElement {
    fn default() -> (el: ChannelElement)
        ensures
            el@ == (ChannelElementView {
                element_type: ChannelElementId::NoElement,
                num_channels: 0,
                frame_length: 0,
                common_window: false,
                js_data: None,
                state_flags: ElState { read: false, decoded: false },
            }),
    {
        ChannelElement::new()
    }
}

} // verus!
