//! Advanced audio coding (AAC) decoder

pub mod aacdecoder;
pub mod block;
pub mod channel;
pub mod channel_info;
pub mod config;
pub mod constants;
pub mod error_codes;
pub mod huff_dec;
pub mod ms_stereo;
pub mod output_info;
pub mod pns;
pub mod process;
pub mod sr_info;
pub mod utils;

pub use constants::MAX_CHANNELS;
pub use error_codes::AacDecoderError;
pub use output_info::OutputInfo;

use vstd::prelude::*;
use aacdecoder::{config_differs, lemma_same_config_is_no_change, AacDecoder};
use config::{lemma_built_config_unique, Config};
use error_codes::from_tp_error;
use output_info::empty_output_info;
use channel::WB_SECTION_SIZE;
use process::InitState;
use crate::common::bitstream::BitstreamView;
use crate::tp_dec::{lemma_transport_ext_equal, spec_parse_config, ReconfigState, TransportDec, TRANSPORTDEC_INBUF_SIZE};

verus! {

/// AAC decoder instance: the transport decoder that takes the access units in, and
/// the decoder that runs with the configuration it was given.
#[derive(Debug)]
pub struct AacDecoderInstance {
    /// AAC decoder handle.
    aac_decoder: AacDecoder,
    /// Transport decoder handle.
    transport_decoder: TransportDec,
}

impl AacDecoderInstance {
    /// The decoder.
    pub closed spec fn decoder(&self) -> AacDecoder {
        self.aac_decoder
    }

    /// The transport decoder.
    pub closed spec fn transport(&self) -> TransportDec {
        self.transport_decoder
    }

    pub open spec fn wf(&self) -> bool {
        self.transport().wf()
    }

    /// What configuring `before` with the bytes `conf` comes to: `after` and the
    /// result `r`. A refused config leaves the decoder as it was. A taken one is
    /// what the decoder runs with from then on, and access units are let in; the
    /// core is set up anew where the config differs from the one before, and left
    /// as it was where it does not.
    pub open spec fn config_raw_outcome(
        before: AacDecoderInstance,
        conf: Seq<u8>,
        after: AacDecoderInstance,
        r: Result<(), AacDecoderError>,
    ) -> bool {
        match spec_parse_config(conf) {
            Err(e) => {
                &&& r == Err::<(), AacDecoderError>(from_tp_error(e))
                &&& after == before
            },
            Ok(a) => match Config::spec_init_result(a) {
                Err(e) => {
                    &&& r == Err::<(), AacDecoderError>(e)
                    &&& after == before
                },
                Ok(()) => {
                    let d = after.decoder();
                    &&& r == Ok::<(), AacDecoderError>(())
                    &&& d.config.is_built_from(a)
                    &&& after.transport().config_found()
                    &&& after.transport().stream() == before.transport().stream()
                    &&& config_differs(a, before.decoder().config) ==> {
                        &&& d.aac_core.is_set_up_for(d.config)
                        &&& d.aac_core.init_state == InitState::Startup
                        &&& d.aac_core.common_channel_data.spec_scratch() == Seq::new(
                            WB_SECTION_SIZE as nat,
                            |i: int| 0u8,
                        )
                    }
                    &&& !config_differs(a, before.decoder().config) ==> d.aac_core
                        == before.decoder().aac_core
                },
            },
        }
    }

    /// Creates a new `AacDecoderInstance` instance: no configuration, and no access
    /// unit let in.
    pub fn new() -> (inst: AacDecoderInstance)
        ensures
            inst.wf(),
            inst.decoder().is_empty(),
            !inst.transport().config_found(),
            inst.transport().bits().valid == 0,
    {
        AacDecoderInstance { aac_decoder: AacDecoder::new(), transport_decoder: TransportDec::new() }
    }

    /// Fills AAC decoder's internal input buffer with one access unit: the last
    /// `bytes_valid` bytes of `buffer`.
    ///
    /// Returns the number of remaining valid bytes, which is zero; an access unit
    /// larger than the buffer is refused as an unknown error, its first bytes taken.
    pub fn fill(&mut self, buffer: &[u8], bytes_valid: usize) -> (r: Result<usize, AacDecoderError>)
        requires
            old(self).wf(),
            bytes_valid <= buffer@.len(),
        ensures
            final(self).wf(),
            final(self).decoder() == old(self).decoder(),
            final(self).transport().config_found() == old(self).transport().config_found(),
            ({
                let n = if bytes_valid > TRANSPORTDEC_INBUF_SIZE {
                    TRANSPORTDEC_INBUF_SIZE as int
                } else {
                    bytes_valid as int
                };
                let start = buffer@.len() - bytes_valid;
                &&& final(self).transport().bits() == (BitstreamView {
                    pos: 0,
                    valid: 0,
                    fill: 0,
                    ..old(self).transport().bits()
                }).fed(buffer@.subrange(start, start + n))
                &&& r == if bytes_valid > TRANSPORTDEC_INBUF_SIZE {
                    Err::<usize, AacDecoderError>(AacDecoderError::Unknown)
                } else {
                    Ok(0)
                }
            }),
    {
        match self.transport_decoder.fill_data(buffer, bytes_valid) {
            Ok(valid_bytes) => Ok(valid_bytes),
            Err((_remain_bytes, e)) => Err(AacDecoderError::from(e)),
        }
    }

    /// The first step of decoding a frame: the access unit in the buffer is taken,
    /// or the frame is refused with the transport's error, mapped to the decoder's,
    /// and empty output information. The instance is left as it was.
    pub fn decode_start(&mut self) -> (r: Result<(), (AacDecoderError, OutputInfo)>)
        ensures
            *final(self) == *old(self),
            match TransportDec::access_unit_result(old(self).transport()) {
                Ok(()) => r is Ok,
                Err(e) => r matches Err((f, info)) && f == from_tp_error(e) && info.num_channels == 0
                    && info.frame_size == 0 && info.sampling_rate == 0 && info.channel_type@
                    == empty_output_info().channel_type@ && info.channel_indices@
                    == empty_output_info().channel_indices@,
            },
    {
        // Read transport header.
        match self.transport_decoder.read_access_unit() {
            Ok(()) => Ok(()),
            Err(e) => Err((AacDecoderError::from(e), OutputInfo::new())),
        }
    }

    /// Clears internal bit stream buffer of transport layers.
    /// The decoder starts decoding at new data passed after this event
    /// and any previous bit stream data is discarded.
    pub fn clear(&mut self)
        requires
            old(self).wf(),
        ensures
            final(self).wf(),
            final(self).decoder() == old(self).decoder(),
            final(self).transport().config_found() == old(self).transport().config_found(),
            final(self).transport().bits() == (BitstreamView {
                pos: 0,
                valid: 0,
                fill: 0,
                ..old(self).transport().bits()
            }),
    {
        self.transport_decoder.reset();
    }

    /// Explicitly configures the decoder by passing a raw AudioSpecificConfig
    /// (ASC), contained in a binary buffer. ER AAC ELD in mono or stereo, without
    /// SBR, is the one configuration taken.
    ///
    /// A refused config leaves the decoder as it was. A taken one is what the
    /// decoder runs with from then on; where it differs from the one before, the
    /// core is set up anew, and access units are let in.
    pub fn config_raw(&mut self, conf: &[u8]) -> (r: Result<(), AacDecoderError>)
        requires
            old(self).wf(),
        ensures
            final(self).wf(),
            Self::config_raw_outcome(*old(self), conf@, *final(self), r),
    {
        let asc = match self.transport_decoder.parse_config(conf) {
            Ok(asc) => asc,
            Err(e) => return Err(AacDecoderError::from(e)),
        };

        let mut is_config_changed = false;

        // The config goes to the decoder in the order `ReconfigState::all()` gives:
        // first to detect a change, then to take it over.
        let config_mode = ReconfigState::DetCfgChange;
        self.aac_decoder.update_config(&asc, config_mode, &mut is_config_changed)?;
        if is_config_changed {
            self.aac_decoder.free_memory();
        }

        let config_mode = ReconfigState::AllocMem;
        self.aac_decoder.update_config(&asc, config_mode, &mut is_config_changed)?;

        self.transport_decoder.set_config_found();

        Ok(())
    }
}

/// Whether the core decodes as many channels as the configuration has, and the
/// configuration as many as its channel configuration says.
pub open spec fn channels_agree(d: AacDecoderInstance) -> bool {
    &&& d.decoder().aac_core.num_core_channels == d.decoder().config.num_channels
    &&& d.decoder().config.num_channels == d.decoder().config.channel_config
}

/// Configuring keeps the channel counts in agreement; after a config is taken,
/// the core decodes as many channels as its channel configuration says.
pub proof fn lemma_config_raw_sets_channel_count(
    d0: AacDecoderInstance,
    conf: Seq<u8>,
    d1: AacDecoderInstance,
    r: Result<(), AacDecoderError>,
)
    requires
        channels_agree(d0),
        AacDecoderInstance::config_raw_outcome(d0, conf, d1, r),
    ensures
        channels_agree(d1),
        r is Ok ==> (spec_parse_config(conf) matches Ok(a)
            && d1.decoder().aac_core.num_core_channels == a.channel_configuration),
{
}

/// A new instance's channel counts agree.
pub proof fn lemma_new_channels_agree(d: AacDecoderInstance)
    requires
        d.decoder().is_empty(),
    ensures
        channels_agree(d),
{
}

/// Configuring twice with the same bytes: the second call gives what the first gave
/// and leaves the decoder as the first left it.
pub proof fn lemma_config_raw_idempotent(
    d0: AacDecoderInstance,
    d1: AacDecoderInstance,
    d2: AacDecoderInstance,
    conf: Seq<u8>,
    r1: Result<(), AacDecoderError>,
    r2: Result<(), AacDecoderError>,
)
    requires
        AacDecoderInstance::config_raw_outcome(d0, conf, d1, r1),
        AacDecoderInstance::config_raw_outcome(d1, conf, d2, r2),
    ensures
        r2 == r1,
        d2 == d1,
{
    if let Ok(a) = spec_parse_config(conf) {
        if Config::spec_init_result(a) is Ok {
            lemma_same_config_is_no_change(d1.aac_decoder.config, a);
            lemma_built_config_unique(d2.aac_decoder.config, d1.aac_decoder.config, a);
            assert(d2.aac_decoder == d1.aac_decoder);
            lemma_transport_ext_equal(d2.transport_decoder, d1.transport_decoder);
        }
    }
}

impl Default for AacDecoderInstance {
    fn default() -> (inst: AacDecoderInstance)
        ensures
            inst.wf(),
            inst.decoder().is_empty(),
            !inst.transport().config_found(),
    {
        AacDecoderInstance::new()
    }
}

} // verus!
