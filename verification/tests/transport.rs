use aac::tp_dec::{ReconfigState, TpDecoderError, TransportDec, MAX_CONF_SIZE};

#[test]
fn reconfiguration_order() {
    assert_eq!(ReconfigState::all(), [ReconfigState::DetCfgChange, ReconfigState::AllocMem]);
}

#[test]
fn parse_config_gives_the_eld_config() {
    let tp = TransportDec::new();
    let asc = tp.parse_config(&[0xf8, 0xe6, 0x50, 0x00]).unwrap();
    assert_eq!(asc.sampling_frequency(), 48000);
    assert_eq!(asc.channel_config(), 2);
    assert_eq!(asc.samples_per_frame(), 480);
}

#[test]
fn parse_config_refuses_a_long_config() {
    let tp = TransportDec::new();
    let conf = vec![0xf8; MAX_CONF_SIZE + 1];
    assert_eq!(tp.parse_config(&conf).unwrap_err(), TpDecoderError::UnsupportedFormat);
}

#[test]
fn access_units_wait_for_a_config() {
    let mut tp = TransportDec::new();
    assert_eq!(tp.read_access_unit(), Err(TpDecoderError::NotEnoughBits));
    assert_eq!(tp.fill_data(&[1, 2, 3], 3), Ok(0));
    assert_eq!(tp.remaining_au_bits(), 24);
    assert_eq!(tp.read_access_unit(), Err(TpDecoderError::UnknownError));
    tp.set_config_found();
    assert_eq!(tp.read_access_unit(), Ok(()));
    tp.reset();
    assert_eq!(tp.read_access_unit(), Err(TpDecoderError::NotEnoughBits));
}

#[test]
fn fill_data_refuses_what_does_not_fit() {
    let mut tp = TransportDec::new();
    let unit = vec![0u8; 8200];
    assert_eq!(tp.fill_data(&unit, unit.len()), Err((8, TpDecoderError::TooManyBits)));
    assert_eq!(tp.remaining_au_bits(), 8 * 8192);
}

#[test]
fn trailing_bits_up_to_the_byte_boundary() {
    let mut tp = TransportDec::new();
    assert_eq!(tp.fill_data(&[0xff, 0xff], 2), Ok(0));
    let anchor = tp.remaining_au_bits();
    tp.bs_mut().read(3);
    assert_eq!(tp.trailing_bits(anchor), 5);
    tp.bs_mut().read(5);
    assert_eq!(tp.trailing_bits(anchor), 0);
}

#[test]
fn a_filled_access_unit_is_read_back_byte_for_byte() {
    let mut tp = TransportDec::new();
    tp.bs_mut().read(5);
    let unit = [0xde, 0xad, 0xbe, 0xef, 0x01];
    assert_eq!(tp.fill_data(&unit, unit.len()), Ok(0));
    for byte in unit {
        assert_eq!(tp.bs_mut().read(8), u32::from(byte));
    }
    assert_eq!(tp.remaining_au_bits(), 0);
}

#[test]
fn a_found_config_stays_found_through_fills_and_resets() {
    let mut tp = TransportDec::new();
    tp.set_config_found();
    assert_eq!(tp.read_access_unit(), Err(TpDecoderError::NotEnoughBits));
    assert_eq!(tp.fill_data(&[7], 1), Ok(0));
    assert_eq!(tp.read_access_unit(), Ok(()));
    tp.reset();
    assert_eq!(tp.read_access_unit(), Err(TpDecoderError::NotEnoughBits));
    let unit = vec![1u8; 9000];
    assert!(tp.fill_data(&unit, unit.len()).is_err());
    tp.set_config_found();
    assert_eq!(tp.read_access_unit(), Ok(()));
}
