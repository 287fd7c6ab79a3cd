//! Which AudioSpecificConfigs the decoder takes: plain ER AAC ELD, mono or stereo,
//! and nothing else.

use aac::aac_dec::{AacDecoderError, AacDecoderInstance};

/// An ER AAC ELD config: object type 39, then the fields given, then
/// `ELDEXT_TERM` and `epConfig` 0.
fn eld(sampling_frequency_index: u32, channel_configuration: u32, eld_flags: u32) -> Vec<u8> {
    let mut bits: u64 = 0;
    let mut width = 0;
    let mut push = |value: u32, n: u32| {
        bits = (bits << n) | u64::from(value);
        width += n;
    };
    push(31, 5);
    push(39 - 32, 6);
    push(sampling_frequency_index, 4);
    push(channel_configuration, 4);
    // frameLengthFlag, the three resilience flags, ldSbrPresentFlag
    push(eld_flags, 5);
    push(0, 4);
    push(0, 2);
    let pad = (8 - width % 8) % 8;
    bits <<= pad;
    width += pad;
    (0..width / 8).rev().map(|i| (bits >> (8 * i)) as u8).collect()
}

fn config(asc: &[u8]) -> Result<(), AacDecoderError> {
    AacDecoderInstance::new().config_raw(asc)
}

#[test]
fn plain_eld_is_accepted() {
    // 48 kHz stereo with 480-sample frames: what Apple Screen Sharing sends.
    assert_eq!(eld(3, 2, 0b10000), [0xf8, 0xe6, 0x50, 0x00]);
    for sampling_frequency_index in [3, 4, 5] {
        for channel_configuration in [1, 2] {
            for frame_length_flag in [0, 1] {
                let asc = eld(sampling_frequency_index, channel_configuration, frame_length_flag << 4);
                assert_eq!(config(&asc), Ok(()), "{asc:02x?}");
            }
        }
    }
}

#[test]
fn everything_else_is_refused() {
    // AAC-LC, 44.1 kHz, stereo.
    assert_eq!(config(&[0x12, 0x10]), Err(AacDecoderError::UnsupportedFormat));
    // HE-AAC with explicit SBR signalling.
    assert_eq!(config(&[0x2b, 0x92, 0x08, 0x00]), Err(AacDecoderError::UnsupportedFormat));
    // ER AAC LD.
    assert_eq!(config(&[0xb9, 0x90, 0x00]), Err(AacDecoderError::UnsupportedFormat));
    // ELD with more than two channels, or a program config element.
    assert_eq!(config(&eld(3, 6, 0b10000)), Err(AacDecoderError::UnsupportedFormat));
    assert_eq!(config(&eld(3, 0, 0b10000)), Err(AacDecoderError::UnsupportedFormat));
    // ELD with VCB11, RVLC, HCR or low delay SBR.
    for flag in [0b01000, 0b00100, 0b00010, 0b00001] {
        assert_eq!(config(&eld(3, 2, 0b10000 | flag)), Err(AacDecoderError::UnsupportedFormat));
    }
}

#[test]
fn refused_config_keeps_the_running_one() {
    let mut decoder = AacDecoderInstance::new();
    assert_eq!(decoder.config_raw(&[0xf8, 0xe6, 0x50, 0x00]), Ok(()));
    assert_eq!(decoder.config_raw(&[0x12, 0x10]), Err(AacDecoderError::UnsupportedFormat));
    // Access units are still let in: the decoder still runs with the ELD config.
    assert_eq!(decoder.fill(&[0x00, 0x01], 2), Ok(0));
}

#[test]
fn truncated_config_is_not_enough_bits() {
    assert_eq!(config(&[0xf8, 0xe6, 0x50]), Err(AacDecoderError::NotEnoughBits));
}

#[test]
fn explicit_unsupported_rate_is_refused() {
    // ELD with the escape index and an explicit 50 kHz, mono, 480 samples.
    let mut bits: u64 = 0;
    let mut width = 0;
    let mut push = |value: u64, n: u32| {
        bits = (bits << n) | value;
        width += n;
    };
    push(31, 5);
    push(7, 6);
    push(15, 4);
    push(50_000, 24);
    push(1, 4);
    push(0b10000, 5);
    push(0, 4);
    push(0, 2);
    let pad = (8 - width % 8) % 8;
    bits <<= pad;
    width += pad;
    let asc: Vec<u8> = (0..width / 8).rev().map(|i| (bits >> (8 * i)) as u8).collect();
    assert_eq!(config(&asc), Err(AacDecoderError::UnsupportedSamplingrate));
}

#[test]
fn too_long_config_is_refused() {
    assert_eq!(config(&[0u8; 65]), Err(AacDecoderError::UnsupportedFormat));
}

#[test]
fn oversized_access_unit_is_refused() {
    let mut decoder = AacDecoderInstance::new();
    let unit = vec![0u8; 8193];
    assert_eq!(decoder.fill(&unit, unit.len()), Err(AacDecoderError::Unknown));
    let unit = vec![0u8; 8192];
    assert_eq!(decoder.fill(&unit, unit.len()), Ok(0));
}

#[test]
fn the_same_config_twice_gives_the_same_answer() {
    let mut decoder = AacDecoderInstance::new();
    assert_eq!(decoder.config_raw(&[0xf8, 0xe6, 0x50, 0x00]), Ok(()));
    assert_eq!(decoder.config_raw(&[0xf8, 0xe6, 0x50, 0x00]), Ok(()));
    let mut refusing = AacDecoderInstance::new();
    assert_eq!(refusing.config_raw(&[0x12, 0x10]), Err(AacDecoderError::UnsupportedFormat));
    assert_eq!(refusing.config_raw(&[0x12, 0x10]), Err(AacDecoderError::UnsupportedFormat));
}

#[test]
fn decoding_takes_an_access_unit_only_after_a_config() {
    let mut decoder = AacDecoderInstance::new();
    assert_eq!(decoder.decode_start().unwrap_err().0, AacDecoderError::NotEnoughBits);
    assert_eq!(decoder.fill(&[1, 2], 2), Ok(0));
    let (e, info) = decoder.decode_start().unwrap_err();
    assert_eq!(e, AacDecoderError::Unknown);
    assert_eq!(info.num_channels, 0);
    assert_eq!(decoder.config_raw(&[0xf8, 0xe6, 0x50, 0x00]), Ok(()));
    assert_eq!(decoder.fill(&[1, 2], 2), Ok(0));
    assert!(decoder.decode_start().is_ok());
}
