use aac::common::bitstream::{Bitstream, Mode};

fn reader(bytes: &[u8]) -> Bitstream {
    let mut bs = Bitstream::new(bytes.len(), Mode::Reader);
    bs.init(bytes, 8 * bytes.len());
    bs
}

#[test]
fn reads_most_significant_bit_first() {
    let mut bs = reader(&[0b1010_0011, 0xff]);
    assert_eq!(bs.read(1), 1);
    assert_eq!(bs.read(3), 0b010);
    assert_eq!(bs.read(6), 0b0011_11);
    assert_eq!(bs.valid_bits(), 6);
    assert_eq!(bs.read_bit(), 1);
}

#[test]
fn reads_thirty_two_bits() {
    let mut bs = reader(&[0xde, 0xad, 0xbe, 0xef]);
    assert_eq!(bs.read(32), 0xdead_beef);
    assert_eq!(bs.valid_bits(), 0);
}

#[test]
fn reading_past_the_data_wraps_and_goes_negative() {
    let mut bs = reader(&[0x80]);
    assert_eq!(bs.read(8), 0x80);
    // The ring starts over.
    assert_eq!(bs.read(4), 0x8);
    assert_eq!(bs.valid_bits(), -4);
}

#[test]
fn pushing_back_undoes_a_read() {
    let mut bs = reader(&[0x12, 0x34, 0x56]);
    let first = bs.read(12);
    bs.push(-12);
    assert_eq!(bs.valid_bits(), 24);
    assert_eq!(bs.read(12), first);
    bs.push(4);
    assert_eq!(bs.read(8), 0x56);
}

#[test]
fn feeding_takes_the_last_bytes_and_reports_what_did_not_fit() {
    let mut bs = Bitstream::new(4, Mode::Reader);
    // Only the last three of the five bytes are fed.
    assert_eq!(bs.feed(&[0xaa, 0xbb, 0x01, 0x02, 0x03], 3), 0);
    assert_eq!(bs.valid_bits(), 24);
    // One byte of room is left.
    assert_eq!(bs.feed(&[0x04, 0x05], 2), 1);
    assert_eq!(bs.valid_bits(), 32);
    assert_eq!(bs.read(24), 0x010203);
    assert_eq!(bs.read(8), 0x04);
    // What was read is room again, and feeding wraps around the ring.
    assert_eq!(bs.feed(&[0x06, 0x07], 2), 0);
    assert_eq!(bs.read(16), 0x0607);
}

#[test]
fn align_moves_to_the_next_byte_boundary() {
    let mut bs = reader(&[0xff, 0x0f]);
    let anchor = bs.valid_bits();
    bs.read(3);
    bs.align(anchor);
    assert_eq!(bs.valid_bits(), 8);
    assert_eq!(bs.read(8), 0x0f);
    bs.align(anchor);
    assert_eq!(bs.valid_bits(), 0);
}

#[test]
fn reset_empties_the_buffer() {
    let mut bs = reader(&[0x55]);
    bs.read(3);
    bs.reset();
    assert_eq!(bs.valid_bits(), 0);
    assert_eq!(bs.read(8), 0x55);
}

#[test]
fn what_is_written_is_read_back_in_order() {
    let mut writer = Bitstream::new(8, Mode::Writer);
    writer.write(0b101101, 6);
    writer.write(0x3ff, 10);
    writer.write(0xdead_beef, 32);
    assert_eq!(writer.valid_bits(), 48);
    assert_eq!(writer.buffer()[0..6], [0b1011_0111, 0b1111_1111, 0xde, 0xad, 0xbe, 0xef]);

    let mut reader = Bitstream::new(writer.buffer().len(), Mode::Reader);
    reader.init(writer.buffer(), 48);
    assert_eq!(reader.read(6), 0b101101);
    assert_eq!(reader.read(10), 0x3ff);
    assert_eq!(reader.read(32), 0xdead_beef);
    assert_eq!(reader.valid_bits(), 0);
}

#[test]
fn a_write_keeps_only_the_low_bits_and_clears_ones_set_before() {
    let mut writer = Bitstream::new(2, Mode::Writer);
    writer.init(&[0xff, 0xff], 0);
    writer.write(0b1_0010, 4);
    assert_eq!(writer.buffer(), [0b0010_1111, 0xff]);
    assert_eq!(writer.valid_bits(), 4);
}
