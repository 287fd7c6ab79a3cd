use aac::aac_dec::config::Config;
use aac::aac_dec::AacDecoderError;
use aac::common::audio_channel_type::AudioChannelType;
use aac::common::bs_element_id::ChannelElementId;
use aac::tp_dec::TransportDec;

fn config_of(asc: &[u8]) -> (Config, Result<(), AacDecoderError>) {
    let asc = TransportDec::new().parse_config(asc).unwrap();
    let mut config = Config::default();
    let r = config.init(&asc);
    (config, r)
}

#[test]
fn stereo_config() {
    let (config, r) = config_of(&[0xf8, 0xe6, 0x50, 0x00]);
    assert_eq!(r, Ok(()));
    assert_eq!(config.element_config[0].element_type, ChannelElementId::Cpe);
    assert_eq!(config.element_config[1].element_type, ChannelElementId::Ext);
    assert_eq!(config.element_config[2].element_type, ChannelElementId::End);
    assert_eq!(config.num_elements, 3);
    assert_eq!(config.num_channel_elements, 1);
    assert_eq!(config.num_channels, 2);
    assert_eq!(config.channel_type[..3], [AudioChannelType::Front, AudioChannelType::Front, AudioChannelType::NoChannel]);
    assert_eq!(config.channel_indices[..3], [0, 1, 0]);
    assert_eq!(config.frame_length, 480);
    assert_eq!(config.samples_per_frame, 480);
    assert_eq!(config.sampling_frequency, 48000);
}

#[test]
fn config_change_is_symmetric_and_never_from_itself() {
    let (a, _) = config_of(&[0xf8, 0xe6, 0x50, 0x00]);
    let (b, _) = config_of(&[0xf8, 0xe6, 0x40, 0x00]);
    assert!(!a.is_config_change(&a));
    assert!(a.is_config_change(&b));
    assert!(b.is_config_change(&a));
    assert!(!a.is_config_change(&Config::default().clone()) == false);
}

#[test]
fn decode_errors() {
    assert!(AacDecoderError::ParseError.is_decode_error());
    assert!(AacDecoderError::DecodeFrameError.is_output_valid());
    assert!(AacDecoderError::AacDecOk.is_output_valid());
    assert!(!AacDecoderError::UnsupportedFormat.is_decode_error());
    assert!(!AacDecoderError::NotEnoughBits.is_output_valid());
}
