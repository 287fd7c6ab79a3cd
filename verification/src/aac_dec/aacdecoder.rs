//! Advanced audio coding (AAC) decoder: the configuration it runs with and the core
//! set up for it.

use vstd::prelude::*;
use super::channel::WB_SECTION_SIZE;
use super::config::{channel_element_of, Config};
use super::error_codes::AacDecoderError;
use super::output_info::{map_fits, result_is_output_valid, OutputInfo};
use crate::common::flags::AacDecFlags;
use super::process::{channel_element_types, element_count, channels_of_types, InitState, Process};
use crate::tp_dec::asc::audio_specific_config::{samples_per_frame_of, AscView};
use crate::tp_dec::{AudioSpecificConfig, ReconfigState};

verus! {

/// Whether the ER AAC ELD config `a` differs from `config` in what the decoder is set
/// up for: the sampling frequency, the samples per frame, the channel configuration
/// or the object type.
pub open spec fn config_differs(a: AscView, config: Config) -> bool {
    a.sampling_frequency != config.sampling_frequency || samples_per_frame_of(a.ac_flags)
        != config.samples_per_frame || a.channel_configuration != config.channel_config || a.aot
        != config.aot
}

/// A configuration built from a mono or stereo config calls for one channel element,
/// which carries all of its channels.
pub proof fn lemma_built_config_elements(config: Config, a: AscView)
    requires
        config.is_built_from(a),
        a.channel_configuration == 1 || a.channel_configuration == 2,
    ensures
        channel_element_types(config, element_count(config)) == seq![
            channel_element_of(a.channel_configuration),
        ],
        channels_of_types(
            channel_element_types(config, element_count(config)),
            1,
        ) == config.num_channels,
{
    reveal_with_fuel(channel_element_types, 4);
    let types = channel_element_types(config, 3);
    assert(types =~= seq![channel_element_of(a.channel_configuration)]);
    reveal_with_fuel(channels_of_types, 2);
}

/// A config of another channel configuration, sampling frequency, frame size or
/// object type than the configuration differs from it.
pub proof fn lemma_other_channels_differ(a: AscView, config: Config)
    requires
        a.channel_configuration != config.channel_config || a.sampling_frequency
            != config.sampling_frequency || samples_per_frame_of(a.ac_flags)
            != config.samples_per_frame || a.aot != config.aot,
    ensures
        config_differs(a, config),
{
}

/// A configuration built from a config is no change from that config.
pub proof fn lemma_same_config_is_no_change(config: Config, a: AscView)
    requires
        config.is_built_from(a),
    ensures
        !config_differs(a, config),
{
}

/// AAC decoder.
#[derive(Debug)]
pub struct AacDecoder {
    /// Configuration for the decoder.
    pub config: Config,
    /// AAC decoder core.
    pub aac_core: Process,
}

impl AacDecoder {
    /// Whether the decoder runs with no configuration.
    pub open spec fn is_empty(&self) -> bool {
        self.config.is_empty() && self.aac_core.is_empty()
    }

    /// Creates a new `AacDecoder` instance.
    pub fn new() -> (d: AacDecoder)
        ensures
            d.is_empty(),
    {
        AacDecoder { config: Config::empty(), aac_core: Process::new() }
    }

    /// Frees what was allocated for the config the decoder runs with.
    pub fn free_memory(&mut self)
        ensures
            final(self).is_empty(),
            final(self).aac_core.common_channel_data.spec_scratch() == Seq::new(
                WB_SECTION_SIZE as nat,
                |i: int| 0u8,
            ),
    {
        self.aac_core.deinit();
        self.config = Config::empty();
    }

    /// Hands a parsed config to the decoder.
    ///
    /// When detecting, `is_config_changed` is set to whether the config differs from
    /// the one the decoder runs with; when taking over, the core is set up anew if it
    /// does, and the config is stored. A config the decoder cannot run with is
    /// refused; when taking over, the decoder is emptied then.
    pub fn update_config(
        &mut self,
        asc: &AudioSpecificConfig,
        config_mode: ReconfigState,
        is_config_changed: &mut bool,
    ) -> (r: Result<(), AacDecoderError>)
        ensures
            Config::spec_init_result(asc@) is Err ==> {
                &&& r == Config::spec_init_result(asc@)
                &&& *final(is_config_changed) == *old(is_config_changed)
                &&& config_mode == ReconfigState::AllocMem ==> final(self).is_empty()
                &&& config_mode == ReconfigState::DetCfgChange ==> *final(self) == *old(self)
            },
            Config::spec_init_result(asc@) is Ok ==> {
                &&& r is Ok
                &&& config_mode == ReconfigState::DetCfgChange ==> {
                    &&& *final(is_config_changed) == config_differs(asc@, old(self).config)
                    &&& *final(self) == *old(self)
                }
                &&& config_mode == ReconfigState::AllocMem ==> {
                    &&& *final(is_config_changed) == *old(is_config_changed)
                    &&& final(self).config.is_built_from(asc@)
                    &&& *old(is_config_changed) ==> {
                        &&& final(self).aac_core.is_set_up_for(final(self).config)
                        &&& final(self).aac_core.init_state == InitState::Startup
                        &&& final(self).aac_core.common_channel_data.spec_scratch()
                            == old(self).aac_core.common_channel_data.spec_scratch()
                    }
                    &&& !*old(is_config_changed) ==> final(self).aac_core == old(self).aac_core
                }
            },
    {
        let mut decoder_config = Config::empty();
        if let Err(err) = decoder_config.init(asc) {
            if config_mode == ReconfigState::AllocMem {
                self.free_memory();
            }
            return Err(err);
        }

        // Detect config change.
        if config_mode == ReconfigState::DetCfgChange {
            *is_config_changed = decoder_config.is_config_change(&self.config);
        }

        proof {
            lemma_built_config_elements(decoder_config, asc@);
        }
        // Initialize AAC core decoder, and update decoder config.
        if let Err(err) = self.aac_core.init(&decoder_config, config_mode, *is_config_changed) {
            if config_mode == ReconfigState::AllocMem {
                self.free_memory();
            }
            return Err(err);
        }

        if config_mode == ReconfigState::AllocMem {
            // Store new decoder config.
            self.config = decoder_config;
        }

        Ok(())
    }
}

impl AacDecoder {
    /// Creates the output information of a frame decoded with result `ret_val`.
    pub fn create_output_info(&self, ret_val: Result<(), AacDecoderError>) -> (r: Result<
        OutputInfo,
        (AacDecoderError, OutputInfo),
    >)
        requires
            result_is_output_valid(ret_val) ==> map_fits(
                self.aac_core.num_core_channels as nat,
                self.config.channel_map_index as u32,
            ),
        ensures
            match (r, ret_val) {
                (Ok(info), Ok(())) => self.aac_core.is_output_info_of(info, ret_val, self.config),
                (Err((e, info)), Err(f)) => e == f && self.aac_core.is_output_info_of(
                    info,
                    ret_val,
                    self.config,
                ),
                _ => false,
            },
    {
        self.aac_core.create_output_info(ret_val, &self.config)
    }

    /// The checks a frame of the decoder starts with: concealing and flushing at
    /// once, or a decoder without configuration, is an unknown error.
    pub fn process_start(&self, flags: AacDecFlags) -> (r: Result<(), AacDecoderError>)
        ensures
            r == if flags.conceal && flags.flush {
                Err(AacDecoderError::Unknown)
            } else if self.aac_core.init_state == InitState::Uninitialized {
                Err(AacDecoderError::Unknown)
            } else {
                Ok::<(), AacDecoderError>(())
            },
    {
        // Concealment and flushing are not possible at the same time.
        if flags.conceal && flags.flush {
            return Err(AacDecoderError::Unknown);
        }
        // Decoder must at least be initialized by means of asc.
        if self.aac_core.init_state() == InitState::Uninitialized {
            return Err(AacDecoderError::Unknown);
        }
        Ok(())
    }

    /// Decides whether a decoded frame may be handed out into an output buffer of
    /// `time_len` samples: a frame whose result leaves nothing to output ends with
    /// that error, and a buffer smaller than the frame's channels times its size
    /// with `OutputBufferTooSmall`; `Ok` means the frame may be interleaved into the
    /// buffer, after which it ends with its own result. This function only decides;
    /// it writes nothing.
    pub fn process_output(
        &self,
        frame: &Result<OutputInfo, (AacDecoderError, OutputInfo)>,
        time_len: usize,
    ) -> (r: Result<(), AacDecoderError>)
        ensures
            r == match *frame {
                Err((e, info)) => if !(e == AacDecoderError::AacDecOk || e.spec_is_decode_error()) {
                    Err(e)
                } else if time_len < info.num_channels * info.frame_size {
                    Err(AacDecoderError::OutputBufferTooSmall)
                } else {
                    Ok::<(), AacDecoderError>(())
                },
                Ok(info) => if time_len < info.num_channels * info.frame_size {
                    Err(AacDecoderError::OutputBufferTooSmall)
                } else {
                    Ok::<(), AacDecoderError>(())
                },
            },
    {
        let info = match frame {
            Ok(info) => info,
            Err((e, info)) => {
                if !e.is_output_valid() {
                    return Err(*e);
                }
                info
            },
        };
        // Check whether time data buffer is large enough.
        let nch = info.num_channels as u64;
        let size = info.frame_size as u64;
        assert(nch * size <= 0xff * 0xffff) by (nonlinear_arith)
            requires
                nch <= 0xff,
                size <= 0xffff,
        ;
        if (time_len as u64) < nch * size {
            return Err(AacDecoderError::OutputBufferTooSmall);
        }
        Ok(())
    }
}

impl Default for AacDecoder {
    fn default() -> (d: AacDecoder)
        ensures
            d.is_empty(),
    {
        AacDecoder::new()
    }
}

} // verus!
