use aac::aac_dec::channel_info::IcsInfo;
use aac::aac_dec::ms_stereo::{JointStereoData, JOINTSTEREO_MAX_BANDS};
use aac::common::bitstream::{Bitstream, Mode};

/// A bitstream holding `bytes`, read from bit `skip` on.
fn reader(bytes: &[u8], skip: isize) -> Bitstream {
    let mut bs = Bitstream::new(bytes.len(), Mode::Reader);
    bs.init(bytes, 8 * bytes.len());
    bs.push(skip);
    bs
}

/// An ELD `ics_info()`, which is `max_sfb` alone, followed by `tail`.
fn read_ics_info(max_sfb: u32, tail: u32, tail_bits: u8) -> (IcsInfo, Bitstream) {
    let mut bitstream_writer = Bitstream::new(8, Mode::Writer);
    bitstream_writer.write(max_sfb, 6);
    bitstream_writer.write(tail, tail_bits);

    let mut bitstream_reader = Bitstream::new(bitstream_writer.buffer().len(), Mode::Reader);
    bitstream_reader.init(bitstream_writer.buffer(), 6 + usize::from(tail_bits));

    let ics_info = IcsInfo::eld(bitstream_reader.read(6) as u8);
    (ics_info, bitstream_reader)
}

#[test]
fn new_jointstereo_data() {
    let jsd = JointStereoData::new();
    assert_eq!(jsd.ms_mask_present(), 0);
    assert_eq!(jsd.ms_used(), [0_u8; JOINTSTEREO_MAX_BANDS]);
    assert_eq!(jsd.max_sfb(), 0);
}

#[test]
fn read_ms_mask_present_1() {
    // 0b01       - ms_mask_present
    // 0b01010101 - ms_used flags
    let (ics_info, mut bitstream_reader) = read_ics_info(8, 0b0101010101, 10);
    let max_sfb = ics_info.max_sf_bands();

    let mut jsd = JointStereoData::new();
    let ret = jsd.read(&mut bitstream_reader, &ics_info, max_sfb);

    assert_eq!(ret, 0);
    assert_eq!(jsd.max_sfb(), 8);
    assert_eq!(jsd.ms_mask_present(), 1);
    assert_eq!(jsd.ms_used()[0..max_sfb], [0, 1, 0, 1, 0, 1, 0, 1]);
}

#[test]
fn read_ms_mask_present_2() {
    let (ics_info, mut bitstream_reader) = read_ics_info(30, 0b10, 2);
    let max_sfb = ics_info.max_sf_bands();

    let mut jsd = JointStereoData::new();
    let ret = jsd.read(&mut bitstream_reader, &ics_info, max_sfb);

    assert_eq!(ret, 0);
    assert_eq!(jsd.max_sfb(), 30);
    assert_eq!(jsd.ms_mask_present(), 2);
    assert_eq!(jsd.ms_used()[0..max_sfb], [255; 30]);
}

#[test]
fn no_ms_leaves_flags_clear_and_reads_two_bits() {
    let ics_info = IcsInfo::eld(4);
    let mut bs = reader(&[0b0011_1111], 0);
    let mut jsd = JointStereoData::new();
    assert_eq!(jsd.read(&mut bs, &ics_info, 4), 0);
    assert_eq!(jsd.ms_mask_present(), 0);
    assert_eq!(jsd.ms_used()[0..4], [0, 0, 0, 0]);
    assert_eq!(bs.valid_bits(), 6);
}

#[test]
fn reset_clears_what_was_read() {
    let ics_info = IcsInfo::eld(3);
    let mut bs = reader(&[0b1000_0000], 0);
    let mut jsd = JointStereoData::new();
    jsd.read(&mut bs, &ics_info, 3);
    assert_eq!(jsd.ms_used()[0..3], [255, 255, 255]);
    jsd.reset();
    assert_eq!(jsd.ms_mask_present(), 0);
    assert_eq!(jsd.max_sfb(), 0);
    assert_eq!(jsd.ms_used(), [0_u8; JOINTSTEREO_MAX_BANDS]);
}

#[test]
fn flags_of_two_groups() {
    // Two short window groups, two bands: flags of group 0 then of group 1.
    let ics_info = IcsInfo { long_block: false, max_sfb: 2, window_groups: 2, window_group_length: [4, 4, 0, 0, 0, 0, 0, 0] };
    // 0b01, then group 0: 1 0, group 1: 1 1
    let mut bs = reader(&[0b0110_1100], 0);
    let mut jsd = JointStereoData::new();
    jsd.read(&mut bs, &ics_info, 2);
    assert_eq!(jsd.ms_used()[0..2], [0b11, 0b10]);
}
