//! AAC decoder configuration

use vstd::prelude::*;
use super::constants::{MAX_CHANNELS, MAX_ELEMENTS};
use super::error_codes::AacDecoderError;
use crate::common::aot::AudioObjectType;
use crate::common::audio_channel_type::AudioChannelType;
use crate::common::bs_element_id::ChannelElementId;
use crate::common::flags::ACFlags;
use crate::tp_dec::asc::audio_specific_config::{samples_per_frame_of, AscView};
use crate::tp_dec::AudioSpecificConfig;

verus! {

/// Element configuration.
#[derive(Clone, Copy, Debug, PartialEq, Eq, Structural)]
pub struct ElementConfig {
    /// Element type.
    pub element_type: ChannelElementId,
}

/// The sampling frequencies the decoder runs at.
pub open spec fn is_supported_sampling_rate(f: u32) -> bool {
    f == 96000 || f == 88200 || f == 64000 || f == 16000 || f == 12000 || f == 11025 || f == 8000
        || f == 7350 || f == 48000 || f == 44100 || f == 32000 || f == 24000 || f == 22050
}

/// The element that carries the channels of a channel configuration.
pub open spec fn channel_element_of(channel_config: u8) -> ChannelElementId {
    if channel_config == 1 {
        ChannelElementId::Sce
    } else {
        ChannelElementId::Cpe
    }
}

/// AAC decoder configuration, derived from the parsed ASC.
#[derive(Clone, Copy, Debug)]
pub struct Config {
    /// Element-wise configuration: the element type of each element.
    pub element_config: [ElementConfig; MAX_ELEMENTS],
    /// Audio channel type of each output audio channel.
    pub channel_type: [AudioChannelType; MAX_CHANNELS],
    /// Audio channel index for each output audio channel.
    pub channel_indices: [u8; MAX_CHANNELS],
    /// Index to access one line of the channel map table.
    pub channel_map_index: u8,
    /// Number of bitstream elements.
    pub num_elements: u8,
    /// Number of channel elements, i.e. the SCE or the CPE.
    pub num_channel_elements: u8,
    /// Total number of channels given by the ASC.
    pub num_channels: u8,
    /// Channel config index as given by the ASC.
    pub channel_config: u8,
    /// Audio codec flags.
    pub ac_flags: ACFlags,
    /// Audio object type.
    pub aot: AudioObjectType,
    /// Frame length of the core decoder, which is also the number of samples per
    /// channel in one decoded frame.
    pub frame_length: u16,
    /// Samples per output frame.
    pub samples_per_frame: u16,
    /// Sampling frequency of the decoder output.
    pub sampling_frequency: u32,
    /// Sampling frequency index.
    pub sampling_frequency_index: u8,
}

impl Config {
    /// Whether this is the empty configuration.
    pub open spec fn is_empty(&self) -> bool {
        &&& forall|i: int|
            0 <= i < MAX_ELEMENTS ==> (#[trigger] self.element_config@[i]).element_type
                == ChannelElementId::NoElement
        &&& forall|i: int|
            0 <= i < MAX_CHANNELS ==> #[trigger] self.channel_type@[i] == AudioChannelType::NoChannel
        &&& forall|i: int| 0 <= i < MAX_CHANNELS ==> #[trigger] self.channel_indices@[i] == 0
        &&& self.channel_map_index == 0
        &&& self.num_elements == 0
        &&& self.num_channel_elements == 0
        &&& self.num_channels == 0
        &&& self.channel_config == 0
        &&& self.ac_flags == ACFlags::empty_spec()
        &&& self.aot == AudioObjectType::AotNone
        &&& self.frame_length == 0
        &&& self.samples_per_frame == 0
        &&& self.sampling_frequency == 0
        &&& self.sampling_frequency_index == 0
    }

    /// Whether this is the configuration for the ER AAC ELD config `a` of one or two
    /// channels: one channel element, the ER extension element and the terminator;
    /// front channels indexed in order; the rest taken from `a`.
    pub open spec fn is_built_from(&self, a: AscView) -> bool {
        let ch = a.channel_configuration;
        &&& self.element_config@[0].element_type == channel_element_of(ch)
        &&& self.element_config@[1].element_type == ChannelElementId::Ext
        &&& self.element_config@[2].element_type == ChannelElementId::End
        &&& forall|i: int|
            3 <= i < MAX_ELEMENTS ==> (#[trigger] self.element_config@[i]).element_type
                == ChannelElementId::NoElement
        &&& forall|i: int|
            0 <= i < MAX_CHANNELS ==> #[trigger] self.channel_type@[i] == (if i < ch {
                AudioChannelType::Front
            } else {
                AudioChannelType::NoChannel
            })
        &&& forall|i: int|
            0 <= i < MAX_CHANNELS ==> #[trigger] self.channel_indices@[i] == (if i < ch {
                i as u8
            } else {
                0
            })
        &&& self.num_elements == 3
        &&& self.num_channel_elements == 1
        &&& self.num_channels == ch
        &&& self.channel_map_index == ch
        &&& self.channel_config == ch
        &&& self.ac_flags == a.ac_flags
        &&& self.aot == a.aot
        &&& self.frame_length == samples_per_frame_of(a.ac_flags)
        &&& self.samples_per_frame == samples_per_frame_of(a.ac_flags)
        &&& self.sampling_frequency == a.sampling_frequency
        &&& self.sampling_frequency_index == a.sampling_frequency_index
    }

    /// What a configuration built from `a` comes to: refused unless it is mono or
    /// stereo at a supported sampling frequency.
    pub open spec fn spec_init_result(a: AscView) -> Result<(), AacDecoderError> {
        if a.channel_configuration != 1 && a.channel_configuration != 2 {
            Err(AacDecoderError::UnsupportedChannelconfig)
        } else if !is_supported_sampling_rate(a.sampling_frequency) {
            Err(AacDecoderError::UnsupportedSamplingrate)
        } else {
            Ok(())
        }
    }

    /// The empty configuration.
    pub fn empty() -> (c: Config)
        ensures
            c.is_empty(),
    {
        let e = ElementConfig { element_type: ChannelElementId::NoElement };
        let c = Config {
            element_config: [e, e, e, e, e, e, e, e],
            channel_type: [AudioChannelType::NoChannel;MAX_CHANNELS],
            channel_indices: [0u8;MAX_CHANNELS],
            channel_map_index: 0,
            num_elements: 0,
            num_channel_elements: 0,
            num_channels: 0,
            channel_config: 0,
            ac_flags: ACFlags::empty(),
            aot: AudioObjectType::AotNone,
            frame_length: 0,
            samples_per_frame: 0,
            sampling_frequency: 0,
            sampling_frequency_index: 0,
        };
        assert(forall|i: int|
            0 <= i < MAX_ELEMENTS ==> (#[trigger] c.element_config@[i]).element_type
                == ChannelElementId::NoElement);
        assert(forall|i: int|
            0 <= i < MAX_CHANNELS ==> #[trigger] c.channel_type@[i] == AudioChannelType::NoChannel);
        assert(forall|i: int| 0 <= i < MAX_CHANNELS ==> #[trigger] c.channel_indices@[i] == 0);
        c
    }

    /// Initializes the configuration from the parsed ASC.
    ///
    /// On a channel configuration other than mono or stereo the configuration is left
    /// empty; otherwise it is built from `asc`, and refused if the sampling
    /// frequency is not supported.
    pub fn init(&mut self, asc: &AudioSpecificConfig) -> (r: Result<(), AacDecoderError>)
        ensures
            r == Self::spec_init_result(asc@),
            r != Err::<(), AacDecoderError>(AacDecoderError::UnsupportedChannelconfig)
                ==> final(self).is_built_from(asc@),
            r == Err::<(), AacDecoderError>(AacDecoderError::UnsupportedChannelconfig)
                ==> final(self).is_empty(),
    {
        *self = Config::empty();

        // Build element table: the one channel element, then the ER extension
        // element and the terminator.
        let channel_element = match asc.channel_config() {
            1 => ChannelElementId::Sce,
            2 => ChannelElementId::Cpe,
            _ => return Err(AacDecoderError::UnsupportedChannelconfig),
        };
        self.element_config[0] = ElementConfig { element_type: channel_element };
        self.element_config[1] = ElementConfig { element_type: ChannelElementId::Ext };
        self.element_config[2] = ElementConfig { element_type: ChannelElementId::End };
        self.num_channel_elements = 1;
        self.num_elements = 3;

        // Set number of channels.
        self.num_channels = asc.channel_config();

        // Set channel map index according to given channel config.
        self.channel_map_index = asc.channel_config();

        // Set channel description (type and index)
        let ghost element_config = self.element_config;
        let mut ch_index: u8 = 0;
        while ch_index < self.num_channels
            invariant
                ch_index <= self.num_channels <= 2,
                self.num_channels == asc@.channel_configuration,
                self.element_config == element_config,
                self.num_channel_elements == 1,
                self.num_elements == 3,
                self.channel_map_index == asc@.channel_configuration,
                forall|i: int|
                    0 <= i < MAX_CHANNELS ==> #[trigger] self.channel_type@[i] == (if i
                        < ch_index {
                        AudioChannelType::Front
                    } else {
                        AudioChannelType::NoChannel
                    }),
                forall|i: int|
                    0 <= i < MAX_CHANNELS ==> #[trigger] self.channel_indices@[i] == (if i
                        < ch_index {
                        i as u8
                    } else {
                        0
                    }),
            decreases self.num_channels - ch_index,
        {
            self.channel_type[ch_index as usize] = AudioChannelType::Front;
            self.channel_indices[ch_index as usize] = ch_index;
            ch_index += 1;
        }

        self.channel_config = asc.channel_config();
        self.ac_flags = asc.ac_flags();

        self.aot = asc.aot();
        self.frame_length = asc.samples_per_frame();
        self.samples_per_frame = asc.samples_per_frame();

        self.sampling_frequency = asc.sampling_frequency();
        self.sampling_frequency_index = asc.sampling_frequency_index();

        self.check_sampling_rate()
    }

    /// Compares two AAC decoder config structs and determine whether the decoder's
    /// configuration has changed.
    ///
    /// Returns `true` if configuration changed, otherwise `false`.
    pub fn is_config_change(&self, config2: &Self) -> (changed: bool)
        ensures
            changed == spec_is_config_change(*self, *config2),
    {
        if (self.sampling_frequency != config2.sampling_frequency) || (self.samples_per_frame
            != config2.samples_per_frame) {
            return true;
        }

        if self.channel_config != config2.channel_config {
            return true;
        }

        if self.aot != config2.aot {
            return true;
        }

        false
    }

    /// Checks if the given sampling frequency is supported.
    fn check_sampling_rate(&self) -> (r: Result<(), AacDecoderError>)
        ensures
            r == if is_supported_sampling_rate(self.sampling_frequency) {
                Ok::<(), AacDecoderError>(())
            } else {
                Err(AacDecoderError::UnsupportedSamplingrate)
            },
    {
        // Verify if the sampling frequency is among the supported values.
        match self.sampling_frequency {
            96000 | 88200 | 64000 | 16000 | 12000 | 11025 | 8000 | 7350 | 48000 | 44100 | 32000
            | 24000 | 22050 => Ok(()),
            _ => Err(AacDecoderError::UnsupportedSamplingrate),
        }
    }
}

/// Whether two configurations differ in what the decoder is set up for: the sampling
/// frequency, the samples per frame, the channel configuration or the object type.
pub open spec fn spec_is_config_change(a: Config, b: Config) -> bool {
    a.sampling_frequency != b.sampling_frequency || a.samples_per_frame != b.samples_per_frame
        || a.channel_config != b.channel_config || a.aot != b.aot
}

/// A configuration never differs from itself, and whether two differ does not depend
/// on their order.
pub proof fn lemma_config_change_reflexive_symmetric(a: Config, b: Config)
    ensures
        !spec_is_config_change(a, a),
        spec_is_config_change(a, b) == spec_is_config_change(b, a),
{
}

/// A configuration built from a config is the one: two built from the same config
/// are equal.
pub proof fn lemma_built_config_unique(c1: Config, c2: Config, a: AscView)
    requires
        c1.is_built_from(a),
        c2.is_built_from(a),
    ensures
        c1 == c2,
{
    assert(c1.element_config =~= c2.element_config) by {
        assert forall|i: int| 0 <= i < MAX_ELEMENTS implies c1.element_config[i]
            == c2.element_config[i] by {
            assert(c1.element_config@[i].element_type == c2.element_config@[i].element_type);
        }
    }
    assert(c1.channel_type =~= c2.channel_type) by {
        assert forall|i: int| 0 <= i < MAX_CHANNELS implies c1.channel_type[i]
            == c2.channel_type[i] by {
            assert(c1.channel_type@[i] == c2.channel_type@[i]);
        }
    }
    assert(c1.channel_indices =~= c2.channel_indices) by {
        assert forall|i: int| 0 <= i < MAX_CHANNELS implies c1.channel_indices[i]
            == c2.channel_indices[i] by {
            assert(c1.channel_indices@[i] == c2.channel_indices@[i]);
        }
    }
}

/// Configurations of different channel configurations, sampling frequencies,
/// frame sizes or object types are a change.
pub proof fn lemma_differing_configs_are_a_change(a: Config, b: Config)
    requires
        a.channel_config != b.channel_config || a.sampling_frequency != b.sampling_frequency
            || a.samples_per_frame != b.samples_per_frame || a.aot != b.aot,
    ensures
        spec_is_config_change(a, b),
{
}

impl Default for Config {
    fn default() -> (c: Config)
        ensures
            c.is_empty(),
    {
        Config::empty()
    }
}

} // verus!
