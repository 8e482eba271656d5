use stm32wl_hal::ratio::Ratio;

#[test]
fn new_keeps_the_pair() {
    let r = Ratio::new(100, 801);
    assert_eq!(r.numer(), 100);
    assert_eq!(r.denom(), 801);
}

#[test]
fn to_integer_rounds_toward_zero() {
    assert_eq!(Ratio::new(7, 2).to_integer(), 3);
    assert_eq!(Ratio::new(-7, 2).to_integer(), -3);
    assert_eq!(Ratio::new(7, -2).to_integer(), -3);
    assert_eq!(Ratio::new(-7, -2).to_integer(), 3);
    assert_eq!(Ratio::new(6, 3).to_integer(), 2);
    assert_eq!(Ratio::new(0, 5).to_integer(), 0);
}

#[test]
fn to_integer_extremes() {
    assert_eq!(Ratio::new(i32::MIN, 1).to_integer(), i32::MIN);
    assert_eq!(Ratio::new(i32::MIN, 2).to_integer(), i32::MIN / 2);
    assert_eq!(Ratio::new(i32::MAX, -1).to_integer(), -i32::MAX);
}
