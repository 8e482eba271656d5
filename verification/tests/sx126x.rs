use stm32wl_hal::sx126x::{Error, Sx126x};

#[test]
fn new_and_accessors() {
    let mut radio: Sx126x<u32, &str> = Sx126x::new(7, "rf-switch");
    assert_eq!(*radio.as_subghz(), 7);
    *radio.as_mut_subghz() = 9;
    assert_eq!(*radio.as_subghz(), 9);
}

#[test]
fn error_variants() {
    let transport: Error<u8, u16> = Error::SubGhz(3);
    let bandwidth: Error<u8, u16> = Error::Bandwidth(500);
    assert!(matches!(transport, Error::SubGhz(3)));
    assert!(matches!(bandwidth, Error::Bandwidth(500)));
}
