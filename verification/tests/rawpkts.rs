use aac::reference::rawpkts::{packets, parse, stream, PacketError};

#[test]
fn stream_and_parse_round_trip() {
    let config = vec![0xf8, 0xe6, 0x50, 0x00];
    let units = vec![vec![1, 2, 3], vec![], vec![9; 300]];
    let bytes = stream(&config, &units);
    assert_eq!(bytes[..8], [4, 0, 0, 0, 0xf8, 0xe6, 0x50, 0x00]);
    assert_eq!(bytes[8..15], [3, 0, 0, 0, 1, 2, 3]);
    assert_eq!(bytes[19..21], [44, 1]);
    let (c, u) = parse(&bytes).unwrap();
    assert_eq!(c, config);
    assert_eq!(u, units);
}

#[test]
fn cut_short_streams_are_refused() {
    assert_eq!(packets(&[3, 0, 0]), Err(PacketError::LengthCutShort));
    assert_eq!(packets(&[3, 0, 0, 0, 1, 2]), Err(PacketError::PacketCutShort(3)));
    assert_eq!(packets(&[0, 0, 0, 0x80]), Err(PacketError::NegativeLength));
    assert_eq!(packets(&[1, 0, 0, 0, 7, 2, 0]), Err(PacketError::LengthCutShort));
    assert_eq!(packets(&[]), Ok(vec![]));
    assert_eq!(parse(&[]), Err(PacketError::NoConfig));
}

#[test]
fn a_config_alone_has_no_units() {
    let (c, u) = parse(&[2, 0, 0, 0, 0xab, 0xcd]).unwrap();
    assert_eq!(c, vec![0xab, 0xcd]);
    assert!(u.is_empty());
}
