use aac::aac_dec::block::read_section_data;
use aac::aac_dec::channel_info::IcsInfo;
use aac::aac_dec::constants;
use aac::aac_dec::AacDecoderError;
use aac::common::bitstream::{Bitstream, Mode};

/// A bitstream holding the fields given, most significant bit first.
fn fields(fields: &[(u32, u32)]) -> Bitstream {
    let mut bytes = Vec::new();
    let mut acc: u64 = 0;
    let mut width = 0;
    for &(value, n) in fields {
        acc = (acc << n) | u64::from(value);
        width += n;
        while width >= 8 {
            bytes.push((acc >> (width - 8)) as u8);
            width -= 8;
        }
    }
    if width > 0 {
        bytes.push((acc << (8 - width)) as u8);
    }
    bytes.resize(16, 0);
    let mut bs = Bitstream::new(bytes.len(), Mode::Reader);
    bs.init(&bytes, 8 * bytes.len());
    bs
}

#[test]
fn long_block_sections() {
    let ics_info = IcsInfo::eld(3);
    let mut bs = fields(&[(1, 4), (2, 5), (11, 4), (1, 5)]);
    let mut code_book = vec![7_u8; constants::MAX_WINS_X_SFBS];
    let r = read_section_data(&mut bs, &ics_info, &mut code_book, false);
    assert_eq!(r, AacDecoderError::AacDecOk);
    assert_eq!(code_book[..3], [1, 1, 11]);
    assert!(code_book[3..].iter().all(|&cb| cb == 0));
    assert_eq!(bs.valid_bits(), 128 - 18);
}

#[test]
fn escaped_section_length() {
    // 31 + 31 + 2 = 64 bands of code book 5.
    let ics_info = IcsInfo::eld(64);
    let mut bs = fields(&[(5, 4), (31, 5), (31, 5), (2, 5)]);
    let mut code_book = vec![7_u8; constants::MAX_WINS_X_SFBS];
    assert_eq!(read_section_data(&mut bs, &ics_info, &mut code_book, false), AacDecoderError::AacDecOk);
    assert!(code_book[..64].iter().all(|&cb| cb == 5));
    assert!(code_book[64..].iter().all(|&cb| cb == 0));
}

#[test]
fn section_past_the_bands_is_a_frame_error() {
    let ics_info = IcsInfo::eld(3);
    // 31 * 4 + 5 = 129 bands, more than a long window has.
    let mut bs = fields(&[(1, 4), (31, 5), (31, 5), (31, 5), (31, 5), (5, 5)]);
    let mut code_book = vec![7_u8; constants::MAX_WINS_X_SFBS];
    assert_eq!(read_section_data(&mut bs, &ics_info, &mut code_book, false), AacDecoderError::DecodeFrameError);
}

#[test]
fn scale_factor_code_book_is_invalid() {
    let ics_info = IcsInfo::eld(1);
    let mut bs = fields(&[(12, 4), (1, 5)]);
    let mut code_book = vec![0_u8; constants::MAX_WINS_X_SFBS];
    assert_eq!(read_section_data(&mut bs, &ics_info, &mut code_book, true), AacDecoderError::InvalidCodeBook);
}

#[test]
fn intensity_needs_a_common_window() {
    let ics_info = IcsInfo::eld(1);
    let mut code_book = vec![0_u8; constants::MAX_WINS_X_SFBS];
    let mut bs = fields(&[(15, 4), (1, 5)]);
    assert_eq!(read_section_data(&mut bs, &ics_info, &mut code_book, false), AacDecoderError::InvalidCodeBook);
    let mut bs = fields(&[(14, 4), (1, 5)]);
    assert_eq!(read_section_data(&mut bs, &ics_info, &mut code_book, true), AacDecoderError::AacDecOk);
    assert_eq!(code_book[0], 14);
}

#[test]
fn short_block_groups() {
    let ics_info = IcsInfo { long_block: false, max_sfb: 2, window_groups: 2, window_group_length: [4, 4, 0, 0, 0, 0, 0, 0] };
    let mut bs = fields(&[(2, 4), (2, 3), (3, 4), (1, 3), (4, 4), (1, 3)]);
    let mut code_book = vec![9_u8; constants::MAX_WINS_X_SFBS];
    assert_eq!(read_section_data(&mut bs, &ics_info, &mut code_book, false), AacDecoderError::AacDecOk);
    assert_eq!(code_book[0..2], [2, 2]);
    assert!(code_book[2..16].iter().all(|&cb| cb == 0));
    assert_eq!(code_book[16..18], [3, 4]);
    assert!(code_book[18..32].iter().all(|&cb| cb == 0));
    assert!(code_book[32..].iter().all(|&cb| cb == 9));
}

#[test]
fn no_group_reads_nothing() {
    let bit_buffer = vec![0; 8];
    let mut bs_reader = Bitstream::new(bit_buffer.len(), Mode::Reader);
    bs_reader.init(&bit_buffer, 64);
    let ics_info = IcsInfo::new();
    let mut code_book = vec![0_u8; constants::MAX_WINS_X_SFBS];
    let error_status = read_section_data(&mut bs_reader, &ics_info, &mut code_book, true);
    assert_eq!(error_status, AacDecoderError::AacDecOk);
    assert_eq!(bs_reader.valid_bits(), 64);
}
