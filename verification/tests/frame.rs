use aac::aac_dec::aacdecoder::AacDecoder;
use aac::aac_dec::output_info::{get_map_value, OutputInfo};
use aac::aac_dec::process::{FrameEnd, InitState, Process};
use aac::aac_dec::AacDecoderError;
use aac::common::audio_channel_type::AudioChannelType;
use aac::common::flags::AacDecFlags;
use aac::tp_dec::{ReconfigState, TransportDec};

const DECODE: AacDecFlags = AacDecFlags { conceal: false, flush: false };
const CONCEAL: AacDecFlags = AacDecFlags { conceal: true, flush: false };
const FLUSH: AacDecFlags = AacDecFlags { conceal: false, flush: true };

/// A decoder configured for 48 kHz stereo with 480 sample frames.
fn stereo_decoder() -> AacDecoder {
    let asc = TransportDec::new().parse_config(&[0xf8, 0xe6, 0x50, 0x00]).unwrap();
    let mut decoder = AacDecoder::new();
    let mut changed = false;
    for mode in ReconfigState::all() {
        decoder.update_config(&asc, mode, &mut changed).unwrap();
    }
    decoder
}

#[test]
fn a_frame_starts_with_its_buffers_and_a_configuration() {
    let decoder = stereo_decoder();
    let core = &decoder.aac_core;
    let config = &decoder.config;
    assert_eq!(core.init_state(), InitState::Startup);
    assert_eq!(core.decode_frame_start(Some(960), 960, DECODE, config), Ok(true));
    assert_eq!(core.decode_frame_start(None, 960, CONCEAL, config), Ok(false));
    assert_eq!(core.decode_frame_start(Some(959), 960, DECODE, config), Err(AacDecoderError::OutputBufferTooSmall));
    assert_eq!(core.decode_frame_start(Some(960), 959, FLUSH, config), Err(AacDecoderError::Unknown));
    assert_eq!(Process::new().decode_frame_start(Some(960), 960, DECODE, config), Err(AacDecoderError::Unknown));
}

#[test]
fn a_frame_renders_only_after_the_start_up() {
    let mut decoder = stereo_decoder();
    assert!(matches!(
        decoder.aac_core.decode_frame_end(true, Ok(()), true, DECODE),
        FrameEnd::Report(Err(AacDecoderError::Unknown))
    ));
    assert!(matches!(decoder.aac_core.decode_frame_end(true, Ok(()), false, DECODE), FrameEnd::Report(Ok(()))));

    // The first access unit read to its end completes the start-up.
    let mut tp = TransportDec::new();
    assert_eq!(tp.fill_data(&[0u8; 4], 4), Ok(0));
    let anchor = tp.remaining_au_bits();
    tp.bs_mut().read(32);
    assert_eq!(decoder.aac_core.finish_read(&mut tp, anchor, Ok(()), true), Ok(()));
    assert_eq!(decoder.aac_core.init_state(), InitState::Complete);

    assert!(matches!(
        decoder.aac_core.decode_frame_end(true, Ok(()), true, DECODE),
        FrameEnd::Render { conceal: false, result: Ok(()) }
    ));
    assert!(matches!(
        decoder.aac_core.decode_frame_end(true, Err(AacDecoderError::ParseError), true, DECODE),
        FrameEnd::Render { conceal: true, result: Err(AacDecoderError::ParseError) }
    ));
    assert!(matches!(
        decoder.aac_core.decode_frame_end(true, Err(AacDecoderError::NotEnoughBits), true, DECODE),
        FrameEnd::Report(Err(AacDecoderError::NotEnoughBits))
    ));
    assert!(matches!(
        decoder.aac_core.decode_frame_end(false, Ok(()), false, CONCEAL),
        FrameEnd::Report(Err(AacDecoderError::Unknown))
    ));
    assert!(matches!(
        decoder.aac_core.decode_frame_end(false, Ok(()), true, CONCEAL),
        FrameEnd::Render { conceal: true, result: Ok(()) }
    ));
}

#[test]
fn a_read_short_of_the_terminator_is_a_parse_error() {
    let mut decoder = stereo_decoder();
    let mut tp = TransportDec::new();
    assert_eq!(tp.fill_data(&[0u8; 4], 4), Ok(0));
    let anchor = tp.remaining_au_bits();
    tp.bs_mut().read(3);
    assert_eq!(decoder.aac_core.finish_read(&mut tp, anchor, Ok(()), false), Err(AacDecoderError::ParseError));
    // The bitstream moved on to the byte boundary.
    assert_eq!(tp.remaining_au_bits(), 24);
    assert_eq!(decoder.aac_core.init_state(), InitState::Startup);
}

#[test]
fn output_info_of_a_stereo_frame() {
    let decoder = stereo_decoder();
    let info = decoder.create_output_info(Ok(())).unwrap();
    assert_eq!(info.sampling_rate, 48000);
    assert_eq!(info.frame_size, 480);
    assert_eq!(info.num_channels, 2);
    assert_eq!(info.channel_type[..3], [AudioChannelType::Front, AudioChannelType::Front, AudioChannelType::NoChannel]);
    assert_eq!(info.channel_indices[..2], [0, 1]);
    let (e, info) = decoder.create_output_info(Err(AacDecoderError::ParseError)).unwrap_err();
    assert_eq!(e, AacDecoderError::ParseError);
    assert_eq!(info.num_channels, 2);
    let (e, info) = decoder.create_output_info(Err(AacDecoderError::NotEnoughBits)).unwrap_err();
    assert_eq!(e, AacDecoderError::NotEnoughBits);
    assert_eq!(info.num_channels, 0);
    assert_eq!(info.frame_size, 0);
}

#[test]
fn channel_maps() {
    assert_eq!(get_map_value(1, 2), 1);
    assert_eq!(get_map_value(0, 3), 2);
    assert_eq!(get_map_value(5, 2), 5);
    assert_eq!(get_map_value(3, 99), 3);
}

#[test]
fn the_decoder_hands_out_frames_that_fit() {
    let decoder = stereo_decoder();
    assert_eq!(decoder.process_start(AacDecFlags { conceal: true, flush: true }), Err(AacDecoderError::Unknown));
    assert_eq!(decoder.process_start(DECODE), Ok(()));
    assert_eq!(AacDecoder::new().process_start(DECODE), Err(AacDecoderError::Unknown));
    let mut info = OutputInfo::new();
    info.num_channels = 2;
    info.frame_size = 480;
    assert_eq!(decoder.process_output(&Ok(info), 960), Ok(()));
    assert_eq!(decoder.process_output(&Ok(info), 959), Err(AacDecoderError::OutputBufferTooSmall));
    assert_eq!(decoder.process_output(&Err((AacDecoderError::ParseError, info)), 960), Ok(()));
    assert_eq!(decoder.process_output(&Err((AacDecoderError::Unknown, info)), 960), Err(AacDecoderError::Unknown));
}
