//! AAC decoder core: the channel elements a configuration calls for, and how far
//! the decoder has come in starting up.

use vstd::prelude::*;
use super::channel::{channels_of, initialized_element, reset_view, ChannelElement, CommonChannelData, WB_SECTION_SIZE};
use super::config::Config;
use super::constants::{MAX_CHANNELS, MAX_ELEMENTS};
use super::output_info::{
    empty_output_info, get_map_value, is_output_valid, map_fits, map_value, mapped, result_is_output_valid,
    OutputInfo,
};
use super::error_codes::AacDecoderError;
use super::sr_info::SamplingRateInfo;
use crate::common::bs_element_id::ChannelElementId;
use crate::common::flags::AacDecFlags;
use crate::common::bitstream::{lemma_aligned, lemma_skip_zero, MIN_VALID_BITS};
use crate::tp_dec::{ReconfigState, TransportDec};

verus! {

/// AAC decoder initialization state.
#[derive(Copy, Clone, Debug, PartialEq, Eq, Structural)]
pub enum InitState {
    /// Decoder instance uninitialized.
    Uninitialized,
    /// Decoder instance initialized according to provided decoder configuration.
    Startup,
    /// Decoder instance initialized and first access unit successfully parsed.
    Complete,
}

impl Default for InitState {
    fn default() -> (s: InitState)
        ensures
            s == InitState::Uninitialized,
    {
        InitState::Uninitialized
    }
}

/// The types of the channel elements among the first `n` elements of `config`.
pub open spec fn channel_element_types(config: Config, n: nat) -> Seq<ChannelElementId>
    decreases n,
{
    if n == 0 {
        Seq::empty()
    } else {
        let prev = channel_element_types(config, (n - 1) as nat);
        let t = config.element_config@[n - 1].element_type;
        if t.spec_is_channel_element() {
            prev.push(t)
        } else {
            prev
        }
    }
}

/// Number of elements of the element table of `config` that are taken: all it
/// names, as far as the table reaches.
pub open spec fn element_count(config: Config) -> nat {
    if config.num_elements as nat <= MAX_ELEMENTS {
        config.num_elements as nat
    } else {
        MAX_ELEMENTS as nat
    }
}

/// Number of channels that the first `k` element types carry.
pub open spec fn channels_of_types(types: Seq<ChannelElementId>, k: nat) -> nat
    decreases k,
{
    if k == 0 {
        0
    } else {
        channels_of_types(types, (k - 1) as nat) + channels_of(types[k - 1])
    }
}

/// Counting the channels of a prefix does not look past it.
proof fn lemma_channels_of_prefix(types: Seq<ChannelElementId>, t: ChannelElementId, k: nat)
    requires
        k <= types.len(),
    ensures
        channels_of_types(types.push(t), k) == channels_of_types(types, k),
    decreases k,
{
    if k > 0 {
        lemma_channels_of_prefix(types, t, (k - 1) as nat);
    }
}

/// How a frame goes on once its bitstream was read, or not read: it ends with the
/// output information of a result, or the time signal is rendered first,
/// concealed or not, and the frame then ends with the result.
#[derive(Clone, Copy, Debug)]
pub enum FrameEnd {
    /// The frame ends with this result.
    Report(Result<(), AacDecoderError>),
    /// The time signal is rendered, concealed where `conceal` is set, and the frame
    /// ends with `result`, or with an unknown error if rendering fails.
    Render { conceal: bool, result: Result<(), AacDecoderError> },
}

/// AAC decoder core.
#[derive(Debug)]
pub struct Process {
    /// Common channel data for the AAC decoder.
    pub common_channel_data: CommonChannelData,
    /// The channel elements, one for each in the element table of the configuration.
    pub channel_elements: Vec<ChannelElement>,
    /// Number of core channels in the decoder.
    pub num_core_channels: u8,
    /// Indicates the current decoder startup phase.
    pub init_state: InitState,
}

impl Process {
    /// Whether the core holds nothing: no element, no channel, not initialized.
    pub open spec fn is_empty(&self) -> bool {
        &&& self.channel_elements@.len() == 0
        &&& self.num_core_channels == 0
        &&& self.init_state == InitState::Uninitialized
    }

    /// Whether the core is set up for `config`: a channel element for each one in
    /// its element table, freshly set up for that type and the frame length, the
    /// channels counted.
    pub open spec fn is_set_up_for(&self, config: Config) -> bool {
        let types = channel_element_types(config, element_count(config));
        &&& self.channel_elements@.len() == types.len()
        &&& forall|i: int|
            0 <= i < types.len() ==> (#[trigger] self.channel_elements@[i])@ == initialized_element(
                types[i],
                config.frame_length as nat,
            )
        &&& self.num_core_channels == config.num_channels
        &&& self.common_channel_data.spec_sr_info() == (SamplingRateInfo {
            frame_length: config.frame_length,
            sampling_rate_index: config.sampling_frequency_index as u32,
            sampling_rate: config.sampling_frequency,
        })
    }

    /// Creates a new instance.
    ///
    /// Returns a default-initialized AAC deocder core instance.
    pub fn new() -> (p: Process)
        ensures
            p.is_empty(),
            p.common_channel_data.spec_scratch() == Seq::new(WB_SECTION_SIZE as nat, |i: int| 0u8),
            p.common_channel_data.spec_sr_info() == (SamplingRateInfo {
                frame_length: 0,
                sampling_rate_index: 0,
                sampling_rate: 0,
            }),
    {
        Process {
            common_channel_data: CommonChannelData::new(),
            channel_elements: Vec::new(),
            num_core_channels: 0,
            init_state: InitState::Uninitialized,
        }
    }

    /// Initializes the AAC decoder core for `decoder_config`. When asked to allocate
    /// for a changed configuration, it sets up a channel element for each one in
    /// the element table and starts up; a channel count that does not add up to the
    /// configuration's is refused as out of memory, with the core emptied.
    pub fn init(&mut self, decoder_config: &Config, config_mode: ReconfigState, config_changed: bool) -> (r:
        Result<(), AacDecoderError>)
        ensures
            config_mode == ReconfigState::AllocMem && config_changed ==> {
                let types = channel_element_types(*decoder_config, element_count(*decoder_config));
                if channels_of_types(types, types.len()) == decoder_config.num_channels {
                    &&& r is Ok
                    &&& final(self).is_set_up_for(*decoder_config)
                    &&& final(self).init_state == InitState::Startup
                    &&& final(self).common_channel_data.spec_scratch()
                        == old(self).common_channel_data.spec_scratch()
                } else {
                    &&& r == Err::<(), AacDecoderError>(AacDecoderError::OutOfMemory)
                    &&& final(self).is_empty()
                }
            },
            !(config_mode == ReconfigState::AllocMem && config_changed) ==> {
                &&& r is Ok
                &&& *final(self) == *old(self)
            },
    {
        // Check if samplerate changed.
        let mut sampling_rate_info = SamplingRateInfo::new();
        sampling_rate_info.init(
            decoder_config.frame_length,
            decoder_config.sampling_frequency_index as u32,
            decoder_config.sampling_frequency,
        )?;

        if config_mode == ReconfigState::AllocMem && config_changed {
            // Allocate all memory structures for each channel.
            let mut ch: u32 = 0;
            self.channel_elements = Vec::new();

            let num_elements: usize = if (decoder_config.num_elements as usize) <= MAX_ELEMENTS {
                decoder_config.num_elements as usize
            } else {
                MAX_ELEMENTS
            };
            let mut e: usize = 0;
            while e < num_elements
                invariant
                    e <= num_elements <= MAX_ELEMENTS,
                    num_elements == element_count(*decoder_config),
                    self.common_channel_data == old(self).common_channel_data,
                    ({
                        let types = channel_element_types(*decoder_config, e as nat);
                        &&& self.channel_elements@.len() == types.len()
                        &&& types.len() <= e
                        &&& ch == channels_of_types(types, types.len())
                        &&& ch <= 2 * e
                        &&& forall|i: int|
                            0 <= i < types.len() ==> (#[trigger] self.channel_elements@[i])@
                                == initialized_element(types[i], decoder_config.frame_length as nat)
                    }),
                decreases num_elements - e,
            {
                let element_type = decoder_config.element_config[e].element_type;
                if element_type.is_channel_element() {
                    let mut el = ChannelElement::new();
                    el.init(&sampling_rate_info, element_type, decoder_config.frame_length as usize);
                    ch += el.num_channels() as u32;
                    self.channel_elements.push(el);
                    proof {
                        let prev = channel_element_types(*decoder_config, e as nat);
                        let types = channel_element_types(*decoder_config, (e + 1) as nat);
                        assert(types == prev.push(element_type));
                        lemma_channels_of_prefix(prev, element_type, prev.len());
                        assert(channels_of_types(types, types.len()) == channels_of_types(prev, prev.len()) + channels_of(element_type));
                    }
                }
                e += 1;
            }
            if ch != decoder_config.num_channels as u32 {
                return self.bail_from_init();
            }

            self.common_channel_data.init(&sampling_rate_info);

            self.num_core_channels = decoder_config.num_channels;
            self.init_state = InitState::Startup;
        }

        Ok(())
    }

    /// De-initializes the AAC decoder core.
    pub fn deinit(&mut self)
        ensures
            final(self).is_empty(),
            final(self).common_channel_data.spec_scratch() == Seq::new(WB_SECTION_SIZE as nat, |i: int| 0u8),
    {
        *self = Process::new();
    }

    /// Resets the channel elements before a frame.
    pub fn reset(&mut self)
        ensures
            final(self).channel_elements@.len() == old(self).channel_elements@.len(),
            forall|i: int|
                0 <= i < old(self).channel_elements@.len() ==> (#[trigger] final(self).channel_elements@[i])@
                    == reset_view(old(self).channel_elements@[i]@),
            final(self).num_core_channels == old(self).num_core_channels,
            final(self).init_state == old(self).init_state,
            final(self).common_channel_data == old(self).common_channel_data,
    {
        let mut i: usize = 0;
        while i < self.channel_elements.len()
            invariant
                i <= self.channel_elements@.len() == old(self).channel_elements@.len(),
                forall|j: int|
                    0 <= j < old(self).channel_elements@.len() ==> {
                        let o = (#[trigger] old(self).channel_elements@[j])@;
                        let n = self.channel_elements@[j]@;
                        if j < i {
                            n == reset_view(o)
                        } else {
                            n == o
                        }
                    },
                self.num_core_channels == old(self).num_core_channels,
                self.init_state == old(self).init_state,
                self.common_channel_data == old(self).common_channel_data,
            decreases old(self).channel_elements@.len() - i,
        {
            let mut el = self.channel_elements.remove(i);
            el.reset();
            self.channel_elements.insert(i, el);
            i += 1;
        }
    }

    /// Gets decoder initialization state.
    pub fn init_state(&self) -> (s: InitState)
        ensures
            s == self.init_state,
    {
        self.init_state
    }

    /// States whether all channel elements have been read.
    pub fn all_channel_elements_read(&self) -> (r: bool)
        ensures
            r == forall|i: int|
                0 <= i < self.channel_elements@.len() ==> (#[trigger] self.channel_elements@[i])@.state_flags.read,
    {
        let mut i: usize = 0;
        while i < self.channel_elements.len()
            invariant
                i <= self.channel_elements@.len(),
                forall|j: int| 0 <= j < i ==> (#[trigger] self.channel_elements@[j])@.state_flags.read,
            decreases self.channel_elements@.len() - i,
        {
            if !self.channel_elements[i].state_flags().read {
                return false;
            }
            i += 1;
        }
        true
    }

    /// Sanity checks and alignment when having finished reading a raw data block:
    /// all channel elements and channels of the configuration must have been read;
    /// the bitstream then moves to the next byte boundary counted from
    /// `au_start_anchor`, the valid bits where the access unit began, the distance to
    /// which fits an `isize`.
    pub fn end_raw_data_block(
        &mut self,
        tp_dec: &mut TransportDec,
        decoder_config: &Config,
        channel_element_count: u8,
        aac_channels: u8,
        au_start_anchor: isize,
    ) -> (r: Result<(), AacDecoderError>)
        requires
            old(tp_dec).wf(),
            old(tp_dec).bits().valid >= MIN_VALID_BITS + 8,
            isize::MIN + 8 <= old(tp_dec).bits().valid - au_start_anchor <= isize::MAX,
        ensures
            *final(self) == *old(self),
            final(tp_dec).wf(),
            final(tp_dec).config_found() == old(tp_dec).config_found(),
            ({
                let v = old(tp_dec).bits();
                let aligned = v.skip(v.alignment_bits(au_start_anchor as int));
                let read_all = decoder_config.num_channel_elements == channel_element_count
                    && old(self).num_core_channels == aac_channels && forall|i: int|
                    0 <= i < old(self).channel_elements@.len()
                        ==> (#[trigger] old(self).channel_elements@[i])@.state_flags.read;
                &&& !read_all ==> r == Err::<(), AacDecoderError>(AacDecoderError::ParseError)
                    && final(tp_dec).bits() == v
                &&& read_all ==> final(tp_dec).bits() == aligned && r == if aligned.valid < 0 {
                    Err::<(), AacDecoderError>(AacDecoderError::ParseError)
                } else {
                    Ok(())
                }
            }),
    {
        // Check if whole number of channels and elements have been read.
        if decoder_config.num_channel_elements != channel_element_count || self.num_core_channels
            != aac_channels {
            return Err(AacDecoderError::ParseError);
        }

        // Check if all channel elements have been read.
        if !self.all_channel_elements_read() {
            return Err(AacDecoderError::ParseError);
        }

        // Byte alignment with respect to the first bit of the `raw_data_block()`.
        let ghost v = tp_dec.bits();
        proof {
            lemma_aligned(v, au_start_anchor as int);
        }
        tp_dec.bs_mut().align(au_start_anchor);

        // Check if all bits of the `raw_data_block()` have been read.
        let trailing_bits = tp_dec.trailing_bits(au_start_anchor);

        if (tp_dec.remaining_au_bits() < trailing_bits) || (trailing_bits != 0) {
            return Err(AacDecoderError::ParseError);
        }

        // Put the bitbuffer at the end of the `raw_data_block()`.
        proof {
            lemma_skip_zero(tp_dec.bits());
        }
        tp_dec.bs_mut().push(trailing_bits);

        Ok(())
    }

    /// Deinitialize again and return with an error if something went wrong during
    /// initialization.
    fn bail_from_init(&mut self) -> (r: Result<(), AacDecoderError>)
        ensures
            final(self).is_empty(),
            r == Err::<(), AacDecoderError>(AacDecoderError::OutOfMemory),
    {
        self.deinit();
        Err(AacDecoderError::OutOfMemory)
    }
}

impl Process {
    /// Whether `info` is the output information of a frame decoded with result
    /// `ret_val` under `config`: where the result leaves a frame to output, its
    /// sampling rate, size and channels, each channel's type and index put where the
    /// channel map puts the channel; otherwise nothing.
    pub open spec fn is_output_info_of(
        &self,
        info: OutputInfo,
        ret_val: Result<(), AacDecoderError>,
        config: Config,
    ) -> bool {
        let e = empty_output_info();
        if result_is_output_valid(ret_val) {
            let n = self.num_core_channels as nat;
            let m = config.channel_map_index as u32;
            &&& info.sampling_rate == config.sampling_frequency
            &&& info.frame_size == config.samples_per_frame
            &&& info.num_channels == self.num_core_channels
            &&& info.channel_type@ == mapped(config.channel_type@, n, m, e.channel_type@)
            &&& info.channel_indices@ == mapped(config.channel_indices@, n, m, e.channel_indices@)
        } else {
            &&& info.sampling_rate == 0
            &&& info.frame_size == 0
            &&& info.num_channels == 0
            &&& info.channel_type@ == e.channel_type@
            &&& info.channel_indices@ == e.channel_indices@
        }
    }

    /// The checks a frame starts with: an output buffer, where one is given, must
    /// hold `samples_per_frame` samples of each channel (else the output buffer is
    /// too small), the work buffer a frame of each channel, and the decoder must
    /// have been configured (else an unknown error). Then the bitstream is read
    /// (`Ok(true)`) unless the frame is to be concealed or flushed (`Ok(false)`).
    pub fn decode_frame_start(
        &self,
        time_len: Option<usize>,
        work_len: usize,
        flags: AacDecFlags,
        decoder_config: &Config,
    ) -> (r: Result<bool, AacDecoderError>)
        ensures
            r == if time_len is Some && time_len->0 < decoder_config.samples_per_frame
                * decoder_config.num_channels {
                Err(AacDecoderError::OutputBufferTooSmall)
            } else if work_len < decoder_config.frame_length * decoder_config.num_channels {
                Err(AacDecoderError::Unknown)
            } else if self.init_state == InitState::Uninitialized {
                Err(AacDecoderError::Unknown)
            } else {
                Ok::<bool, AacDecoderError>(!(flags.conceal || flags.flush))
            },
    {
        let spf = decoder_config.samples_per_frame as u64;
        let fl = decoder_config.frame_length as u64;
        let nch = decoder_config.num_channels as u64;
        assert(spf * nch <= 0xffff * 0xff && fl * nch <= 0xffff * 0xff) by (nonlinear_arith)
            requires
                spf <= 0xffff,
                fl <= 0xffff,
                nch <= 0xff,
        ;
        if let Some(len) = time_len {
            if (len as u64) < spf * nch {
                return Err(AacDecoderError::OutputBufferTooSmall);
            }
        }
        if (work_len as u64) < fl * nch {
            return Err(AacDecoderError::Unknown);
        }
        if self.init_state == InitState::Uninitialized {
            return Err(AacDecoderError::Unknown);
        }
        Ok(!(flags.conceal || flags.flush))
    }

    /// How a frame goes on after its bitstream was read (`read`) with `decode_state`,
    /// or was not read. Read without an output buffer, the frame ends with the read's
    /// result. A decoder that has not completed its start-up ends the frame with an
    /// unknown error. A result that leaves no frame to output ends it; otherwise the
    /// time signal is rendered into the output buffer, concealed where the frame was
    /// to be concealed or the result is an error, and with no output buffer the
    /// frame ends with an unknown error.
    pub fn decode_frame_end(
        &self,
        read: bool,
        decode_state: Result<(), AacDecoderError>,
        time_given: bool,
        flags: AacDecFlags,
    ) -> (r: FrameEnd)
        ensures
            r == if read && !time_given {
                FrameEnd::Report(decode_state)
            } else {
                let state = if self.init_state != InitState::Complete {
                    Err(AacDecoderError::Unknown)
                } else {
                    decode_state
                };
                if !result_is_output_valid(state) {
                    FrameEnd::Report(state)
                } else if !time_given {
                    FrameEnd::Report(Err(AacDecoderError::Unknown))
                } else {
                    FrameEnd::Render { conceal: flags.conceal || state is Err, result: state }
                }
            },
    {
        if read && !time_given {
            return FrameEnd::Report(decode_state);
        }
        let mut state = decode_state;
        if self.init_state != InitState::Complete {
            state = Err(AacDecoderError::Unknown);
        }
        if !is_output_valid(&state) {
            return FrameEnd::Report(state);
        }
        if !time_given {
            return FrameEnd::Report(Err(AacDecoderError::Unknown));
        }
        let failed = match state {
            Ok(()) => false,
            Err(_) => true,
        };
        FrameEnd::Render { conceal: flags.conceal || failed, result: state }
    }

    /// What reading an access unit ends with, given the result `status` of reading
    /// its elements and whether the terminator was reached (`reached_end`): a read
    /// that stopped short of the terminator is a parse error. On an error the
    /// bitstream moves on to the byte boundary counted from `au_start_anchor`; on
    /// success a decoder in its start-up has completed it.
    pub fn finish_read(
        &mut self,
        tp_dec: &mut TransportDec,
        au_start_anchor: isize,
        status: Result<(), AacDecoderError>,
        reached_end: bool,
    ) -> (r: Result<(), AacDecoderError>)
        requires
            old(tp_dec).wf(),
            old(tp_dec).bits().valid >= MIN_VALID_BITS + 8,
            isize::MIN <= old(tp_dec).bits().valid - au_start_anchor <= isize::MAX,
        ensures
            final(tp_dec).wf(),
            final(tp_dec).config_found() == old(tp_dec).config_found(),
            r == if status is Ok && !reached_end {
                Err(AacDecoderError::ParseError)
            } else {
                status
            },
            r is Err ==> {
                &&& final(tp_dec).bits() == old(tp_dec).bits().skip(
                    (old(tp_dec).bits().valid - au_start_anchor) % 8,
                )
                &&& *final(self) == *old(self)
            },
            r is Ok ==> {
                &&& *final(tp_dec) == *old(tp_dec)
                &&& final(self).init_state == if old(self).init_state == InitState::Startup {
                    InitState::Complete
                } else {
                    old(self).init_state
                }
                &&& final(self).channel_elements == old(self).channel_elements
                &&& final(self).common_channel_data == old(self).common_channel_data
                &&& final(self).num_core_channels == old(self).num_core_channels
            },
    {
        let mut error_status = status;
        // Check whether ID_END is successfully completed.
        if !reached_end && error_status.is_ok() {
            error_status = Err(AacDecoderError::ParseError);
        }
        if error_status.is_err() {
            // Push the bitbuffer to the end of the raw_data_block().
            let trailing_bits = tp_dec.trailing_bits(au_start_anchor);
            tp_dec.bs_mut().push(trailing_bits);
        } else if self.init_state == InitState::Startup {
            self.init_state = InitState::Complete;
        }
        error_status
    }

    /// Creates the output information of a frame decoded with result `ret_val`:
    /// `Ok` with it on success, and the error with it otherwise.
    pub fn create_output_info(&self, ret_val: Result<(), AacDecoderError>, decoder_config: &Config) -> (r:
        Result<OutputInfo, (AacDecoderError, OutputInfo)>)
        requires
            result_is_output_valid(ret_val) ==> map_fits(
                self.num_core_channels as nat,
                decoder_config.channel_map_index as u32,
            ),
        ensures
            match (r, ret_val) {
                (Ok(info), Ok(())) => self.is_output_info_of(info, ret_val, *decoder_config),
                (Err((e, info)), Err(f)) => e == f && self.is_output_info_of(
                    info,
                    ret_val,
                    *decoder_config,
                ),
                _ => false,
            },
    {
        let mut output_info = OutputInfo::new();
        let ghost e = empty_output_info();
        if is_output_valid(&ret_val) {
            output_info.sampling_rate = decoder_config.sampling_frequency;
            output_info.frame_size = decoder_config.samples_per_frame;
            output_info.num_channels = self.num_core_channels;
            let map_index = decoder_config.channel_map_index as u32;
            let mut c: u8 = 0;
            while c < output_info.num_channels
                invariant
                    c <= output_info.num_channels == self.num_core_channels,
                    map_fits(self.num_core_channels as nat, map_index),
                    map_index == decoder_config.channel_map_index,
                    output_info.sampling_rate == decoder_config.sampling_frequency,
                    output_info.frame_size == decoder_config.samples_per_frame,
                    output_info.channel_type@ == mapped(decoder_config.channel_type@, c as nat, map_index, e.channel_type@),
                    output_info.channel_indices@ == mapped(decoder_config.channel_indices@, c as nat, map_index, e.channel_indices@),
                decreases output_info.num_channels - c,
            {
                let mapped_channel = get_map_value(c, map_index) as usize;
                assert(map_value(c, map_index) < MAX_CHANNELS);
                output_info.channel_type[mapped_channel] = decoder_config.channel_type[c as usize];
                output_info.channel_indices[mapped_channel] = decoder_config.channel_indices[c as usize];
                c += 1;
            }
        }
        match ret_val {
            Err(e) => Err((e, output_info)),
            Ok(()) => Ok(output_info),
        }
    }
}

impl Default for Process {
    fn default() -> (p: Process)
        ensures
            p.is_empty(),
    {
        Process::new()
    }
}

} // verus!
