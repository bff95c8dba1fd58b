use idle_loc::fixed::{Fixed, SCALE};

#[test]
fn multiplication_rounds_down() {
    let a = Fixed::from_raw(3);
    let b = Fixed::from_milli(500);
    assert_eq!(a.mul(b), Fixed::from_raw(1));
    assert_eq!(Fixed::from_int(3).mul(Fixed::from_milli(1500)), Fixed::from_milli(4500));
}

#[test]
fn multiplication_of_large_values() {
    let big = Fixed::from_int(u64::MAX);
    assert_eq!(big.mul(Fixed::one()), big);
    assert_eq!(big.mul(big), Fixed::from_raw(u128::MAX));
    let r = Fixed::from_raw(u128::MAX).mul(Fixed::from_milli(500));
    assert_eq!(r, Fixed::from_raw(u128::MAX / 2));
}

#[test]
fn subtraction_clamps_at_zero() {
    assert_eq!(Fixed::from_int(2).sub(Fixed::from_int(5)), Fixed::zero());
    assert_eq!(Fixed::from_int(5).sub(Fixed::from_int(2)), Fixed::from_int(3));
}

#[test]
fn addition_saturates() {
    let max = Fixed::from_raw(u128::MAX);
    assert_eq!(max.add(Fixed::one()), max);
}

#[test]
fn whole_part_and_small_units() {
    assert_eq!(Fixed::from_milli(2999).whole(), 2);
    assert_eq!(Fixed::from_micro(5).raw, 5_000);
    assert_eq!(Fixed::one().raw, SCALE);
    assert_eq!(Fixed::from_int(7).div_int(2), Fixed::from_milli(3500));
    assert_eq!(Fixed::from_int(3).min(Fixed::from_int(2)), Fixed::from_int(2));
}
