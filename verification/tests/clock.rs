use flake::clock::millis_of;

#[test]
fn millis_of_a_reading_are_its_low_64_bits() {
    assert_eq!(millis_of(Some(0)), 0);
    assert_eq!(millis_of(Some(1)), 1);
    assert_eq!(millis_of(Some(1_700_000_000_000)), 1_700_000_000_000);
    assert_eq!(millis_of(Some(u64::MAX as u128)), u64::MAX);
    assert_eq!(millis_of(Some(1 << 64)), 0);
    assert_eq!(millis_of(Some((1 << 64) + 5)), 5);
    assert_eq!(millis_of(Some((7 << 64) + 123456789)), 123456789);
    assert_eq!(millis_of(Some(u128::MAX)), u64::MAX);
}

#[test]
fn millis_of_no_reading_are_zero() {
    assert_eq!(millis_of(None), 0);
}
