use idle_loc::constants::GameConstants;
use idle_loc::cost::purchase_cost;
use idle_loc::fixed::Fixed;

#[test]
fn first_and_second_unit_prices() {
    let base = Fixed::from_int(10);
    let rate = Fixed::from_milli(1100);
    assert_eq!(purchase_cost(base, rate, 0, 1), Fixed::from_int(10));
    assert_eq!(purchase_cost(base, rate, 1, 1), Fixed::from_int(11));
    assert_eq!(purchase_cost(base, rate, 0, 2), Fixed::from_int(21));
}

#[test]
fn zero_units_cost_nothing() {
    let base = Fixed::from_int(10);
    let rate = Fixed::from_milli(1100);
    for owned in [0u64, 1, 7, 1000] {
        assert_eq!(purchase_cost(base, rate, owned, 0), Fixed::zero());
    }
}

#[test]
fn pricing_strictly_increases() {
    let c = GameConstants::default();
    let mut previous = purchase_cost(c.interns_loc_base_cost, c.interns_loc_growth_rate, 0, 1);
    for n in 1u64..200 {
        let next = purchase_cost(c.interns_loc_base_cost, c.interns_loc_growth_rate, n, 1);
        assert!(previous.raw < next.raw, "unit {} is not dearer", n);
        previous = next;
    }
}

#[test]
fn batch_equals_split_purchases() {
    let c = GameConstants::default();
    let base = c.junior_devs_loc_base_cost;
    let rate = c.junior_devs_loc_growth_rate;
    for (n, k1, k2) in [(0u64, 1u64, 1u64), (3, 2, 3), (10, 0, 4), (25, 7, 0), (40, 5, 6)] {
        let whole = purchase_cost(base, rate, n, k1 + k2);
        let split = purchase_cost(base, rate, n, k1).add(purchase_cost(base, rate, n + k1, k2));
        assert_eq!(whole, split);
    }
}

#[test]
fn unit_growth_rate_is_linear() {
    let base = Fixed::from_int(15);
    assert_eq!(purchase_cost(base, Fixed::one(), 4, 6), Fixed::from_int(90));
}

#[test]
fn growth_is_exact_when_representable() {
    // 10 * 1.5 * 1.5 = 22.5
    let base = Fixed::from_int(10);
    let rate = Fixed::from_milli(1500);
    assert_eq!(purchase_cost(base, rate, 2, 1), Fixed::from_milli(22_500));
}

#[test]
fn growth_rounds_up_each_step() {
    // 3 raw units * 1.5 = 4.5, rounded up to 5; 5 * 1.5 = 7.5, rounded up to 8
    let rate = Fixed::from_milli(1500);
    let base = Fixed::from_raw(3);
    assert_eq!(purchase_cost(base, rate, 1, 1), Fixed::from_raw(5));
    assert_eq!(purchase_cost(base, rate, 2, 1), Fixed::from_raw(8));
}

#[test]
fn tiny_base_prices_still_rise() {
    let rate = Fixed::from_milli(1015);
    let base = Fixed::from_raw(1);
    assert_eq!(purchase_cost(base, rate, 0, 1), Fixed::from_raw(1));
    assert_eq!(purchase_cost(base, rate, 1, 1), Fixed::from_raw(2));
    let slow = Fixed::from_micro(1_000_100);
    let small = Fixed::from_micro(1);
    assert_eq!(purchase_cost(small, slow, 0, 1), Fixed::from_raw(1_000));
    assert_eq!(purchase_cost(small, slow, 1, 1), Fixed::from_raw(1_001));
    for (base, rate) in [(base, rate), (small, slow)] {
        let mut previous = purchase_cost(base, rate, 0, 1);
        for n in 1u64..300 {
            let next = purchase_cost(base, rate, n, 1);
            assert!(previous.raw < next.raw, "unit {} is not dearer", n);
            previous = next;
        }
    }
}

#[test]
fn prices_saturate() {
    let base = Fixed::from_raw(u128::MAX / 2);
    let rate = Fixed::from_int(2);
    assert_eq!(purchase_cost(base, rate, 3, 1), Fixed::from_raw(u128::MAX));
    assert_eq!(purchase_cost(base, rate, 0, 3), Fixed::from_raw(u128::MAX));
}

#[test]
fn huge_batches_saturate_quickly() {
    let c = GameConstants::default();
    let cost = purchase_cost(c.interns_loc_base_cost, c.interns_loc_growth_rate, 0, u64::MAX);
    assert_eq!(cost, Fixed::from_raw(u128::MAX));
}

#[test]
fn free_units_stay_free() {
    assert_eq!(purchase_cost(Fixed::zero(), Fixed::one(), 3, u64::MAX), Fixed::zero());
}
