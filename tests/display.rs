use idle_loc::fixed::Fixed;
use idle_loc::speedrun::{clock_string, progress};

#[test]
fn progress_million_of_sextillion() {
    let loc = Fixed::from_int(1_000_000);
    let target = Fixed::from_raw(1_000_000_000_000_000_000_000 * 1_000_000_000);
    let p = progress(loc, target);
    assert_eq!(p, Fixed::from_raw(285_714_285));
}

#[test]
fn progress_stays_between_zero_and_one() {
    let target = Fixed::from_int(1_000);
    assert_eq!(progress(Fixed::zero(), target), Fixed::zero());
    assert_eq!(progress(Fixed::from_milli(500), target), Fixed::zero());
    assert_eq!(progress(Fixed::from_int(10), target), Fixed::from_raw(333_333_333));
    assert_eq!(progress(Fixed::from_int(5_000), target), Fixed::one());
    assert_eq!(progress(Fixed::from_raw(u128::MAX), target), Fixed::one());
}

#[test]
fn progress_towards_a_small_target() {
    let target = Fixed::from_int(5);
    assert_eq!(progress(Fixed::from_int(1), target), Fixed::zero());
    assert_eq!(progress(Fixed::from_int(2), target), Fixed::from_milli(500));
    assert_eq!(progress(Fixed::from_int(5), target), Fixed::one());
}

#[test]
fn progress_towards_a_target_of_one() {
    let target = Fixed::one();
    assert_eq!(progress(Fixed::zero(), target), Fixed::zero());
    assert_eq!(progress(Fixed::one(), target), Fixed::one());
}

#[test]
fn progress_counts_tenths_of_a_decade() {
    let target = Fixed::from_int(1_000_000);
    // 3162 is just below 10^3.5: 3.4 decades out of 6
    assert_eq!(progress(Fixed::from_int(3_162), target), Fixed::from_raw(566_666_666));
    // 3163 reaches 10^3.5
    assert_eq!(progress(Fixed::from_int(3_163), target), Fixed::from_raw(583_333_333));
}

#[test]
fn clock_rendering() {
    assert_eq!(clock_string(0), "0:00:00.00");
    assert_eq!(clock_string(61_010), "0:01:01.01");
    assert_eq!(clock_string(3_600_000 * 123 + 59_999), "123:00:59.99");
}

