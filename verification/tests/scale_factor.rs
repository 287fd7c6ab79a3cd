use aac::aac_dec::block::read_scalefactor_data;
use aac::aac_dec::channel_info::IcsInfo;
use aac::aac_dec::constants;
use aac::aac_dec::huff_dec::read_scl_word;
use aac::aac_dec::pns::PnsData;
use aac::aac_dec::AacDecoderError;
use aac::common::bitstream::{Bitstream, Mode};

/// A reader of the fields written, each `(value, bits)`.
fn fields(fields: &[(u32, u8)]) -> Bitstream {
    let mut writer = Bitstream::new(32, Mode::Writer);
    let mut n = 0;
    for &(value, bits) in fields {
        writer.write(value, bits);
        n += usize::from(bits);
    }
    let mut reader = Bitstream::new(writer.buffer().len(), Mode::Reader);
    reader.init(writer.buffer(), n);
    reader
}

#[test]
fn scale_factor_code_words() {
    // "0" is 60, "100" is 59, "1010" is 61, "1011" is 58.
    let mut bs = fields(&[(0, 1), (0b100, 3), (0b1010, 4), (0b1011, 4)]);
    assert_eq!(read_scl_word(&mut bs), Some(60));
    assert_eq!(read_scl_word(&mut bs), Some(59));
    assert_eq!(read_scl_word(&mut bs), Some(61));
    assert_eq!(read_scl_word(&mut bs), Some(58));
    assert_eq!(bs.valid_bits(), 0);
}

#[test]
fn scale_factors_intensity_and_noise() {
    let ics_info = IcsInfo::eld(4);
    let mut code_book = vec![0_u8; constants::MAX_WINS_X_SFBS];
    code_book[..4].copy_from_slice(&[1, 15, 13, 0]);
    let mut scale_factor = vec![7_i16; constants::MAX_WINS_X_SFBS];
    let mut pns = PnsData::new();
    // factor +0, position +1, first noise energy 266 in 9 bits.
    let mut bs = fields(&[(0, 1), (0b1010, 4), (266, 9)]);
    let r = read_scalefactor_data(&mut bs, &ics_info, 100, &code_book, &mut scale_factor, &mut pns);
    assert_eq!(r, AacDecoderError::AacDecOk);
    assert_eq!(scale_factor[..5], [0, 1, 100 - 90 - 256 + 266, 0, 7]);
    assert!(pns.is_pns_active());
    assert_eq!(pns.is_pns_used()[..4], [false, false, true, false]);
    assert_eq!(bs.valid_bits(), 0);
}

#[test]
fn a_scale_factor_past_255_is_a_parse_error() {
    let ics_info = IcsInfo::eld(1);
    let mut code_book = vec![0_u8; constants::MAX_WINS_X_SFBS];
    code_book[0] = 5;
    let mut scale_factor = vec![0_i16; constants::MAX_WINS_X_SFBS];
    let mut pns = PnsData::new();
    let mut bs = fields(&[(0b1010, 4)]);
    let r = read_scalefactor_data(&mut bs, &ics_info, 255, &code_book, &mut scale_factor, &mut pns);
    assert_eq!(r, AacDecoderError::ParseError);
}

#[test]
fn zero_bands_read_nothing() {
    let ics_info = IcsInfo::eld(3);
    let code_book = vec![0_u8; constants::MAX_WINS_X_SFBS];
    let mut scale_factor = vec![9_i16; constants::MAX_WINS_X_SFBS];
    let mut pns = PnsData::new();
    let mut bs = fields(&[(0xff, 8)]);
    let r = read_scalefactor_data(&mut bs, &ics_info, 0, &code_book, &mut scale_factor, &mut pns);
    assert_eq!(r, AacDecoderError::AacDecOk);
    assert_eq!(scale_factor[..4], [0, 0, 0, 9]);
    assert_eq!(bs.valid_bits(), 8);
}
