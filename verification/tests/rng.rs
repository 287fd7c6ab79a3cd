use aac::reference::rng::Rng;

#[test]
fn xorshift_steps_from_the_signal_seed() {
    let mut rng = Rng(0x9e3779b97f4a7c15);
    assert_eq!(rng.next_bits(), 0x1b836ef5c17e69);
    assert_eq!(rng.0, 0xdc1b77ae0bf34dad);
    assert_eq!(rng.next_bits(), 0xc9e1dd7204dcc);
    assert_eq!(rng.next_bits(), 0xf60f9d23cb20c);
    assert_eq!(rng.0, 0x7b07ce91e5906136);
}

#[test]
fn drawn_bits_fit_in_53() {
    let mut rng = Rng(u64::MAX);
    for _ in 0..1000 {
        assert!(rng.next_bits() < 1 << 53);
    }
}
