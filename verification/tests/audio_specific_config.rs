use aac::common::aot::AudioObjectType;
use aac::common::bitstream::{Bitstream, Mode};
use aac::common::flags::ACFlags;
use aac::tp_dec::{AudioSpecificConfig, TpDecoderError};

fn parse(conf: &[u8]) -> (AudioSpecificConfig, Result<(), TpDecoderError>) {
    let mut bs = Bitstream::new(16, Mode::Reader);
    bs.init(conf, 8 * conf.len());
    let mut asc = AudioSpecificConfig::new();
    let result = asc.parse(&mut bs);
    (asc, result)
}

#[test]
fn init() {
    let mut asc: AudioSpecificConfig = Default::default();
    asc.init();
    assert!(asc.sampling_frequency_index() == 15);
    assert!(asc.aot() == AudioObjectType::AotNone);
    assert!(asc.ac_flags() == ACFlags::empty());
    assert!(asc.channel_config() == 0);
    assert!(asc.sampling_frequency() == 0);
}

#[test]
fn eld_48k_stereo_480() {
    let (asc, result) = parse(&[0xf8, 0xe6, 0x50, 0x00]);
    assert_eq!(result, Ok(()));
    assert!(asc.aot() == AudioObjectType::AotErAacEld);
    assert_eq!(asc.sampling_frequency(), 48000);
    assert_eq!(asc.sampling_frequency_index(), 3);
    assert_eq!(asc.channel_config(), 2);
    assert_eq!(asc.samples_per_frame(), 480);
    assert!(asc.ac_flags() == ACFlags::er() | ACFlags::eld() | ACFlags::frame_length());
}

#[test]
fn eld_48k_stereo_512() {
    let (asc, result) = parse(&[0xf8, 0xe6, 0x40, 0x00]);
    assert_eq!(result, Ok(()));
    assert_eq!(asc.samples_per_frame(), 512);
}

#[test]
fn truncated() {
    let (_, result) = parse(&[0xf8, 0xe6, 0x50]);
    assert_eq!(result, Err(TpDecoderError::NotEnoughBits));
}

#[test]
fn aac_lc() {
    let (_, result) = parse(&[0x12, 0x10]);
    assert_eq!(result, Err(TpDecoderError::UnsupportedFormat));
}
