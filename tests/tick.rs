use idle_loc::constants::GameConstants;
use idle_loc::engine::{advance_stocks, auto_production, convert_bugs, outflow, tick_rates, Params, Stocks};
use idle_loc::fixed::Fixed;
use idle_loc::research::Effect;

fn params() -> Params {
    Params::from_constants(&GameConstants::default())
}

#[test]
fn ten_interns_write_a_tenth_of_a_line() {
    let p = params();
    let s = Stocks { interns: Fixed::from_int(10), ..Stocks::zero() };
    let (loc, bugs) = auto_production(&s, &p);
    assert_eq!(loc, Fixed::from_milli(100));
    assert_eq!(bugs, Fixed::from_milli(200));
    let after = advance_stocks(s, &p, false, false);
    assert_eq!(after.loc, Fixed::from_milli(100));
    assert_eq!(after.bugs, Fixed::from_milli(200));
}

#[test]
fn conversion_is_capped_at_the_bug_stock() {
    let created = Fixed::from_milli(250);
    let c = convert_bugs(Fixed::from_int(5), created, Fixed::from_int(8));
    assert_eq!(c.converted, Fixed::from_int(5));
    assert_eq!(c.bugs, created);
}

#[test]
fn conversion_below_capacity_of_the_stock() {
    let c = convert_bugs(Fixed::from_int(5), Fixed::from_int(1), Fixed::from_int(2));
    assert_eq!(c.converted, Fixed::from_int(2));
    assert_eq!(c.bugs, Fixed::from_int(4));
}

#[test]
fn conversion_inside_a_tick() {
    let p = params();
    let s = Stocks { bugs: Fixed::from_int(5), pms: Fixed::from_int(800), ..Stocks::zero() };
    // 800 PMs * 1.0 * 0.01 = 8 bugs of capacity, only 5 exist
    let after = advance_stocks(s, &p, false, false);
    assert_eq!(after.features, Fixed::from_int(5));
    assert_eq!(after.bugs, Fixed::zero());
}

#[test]
fn zero_dt_changes_no_quantity() {
    let p = Params { dt: Fixed::zero(), ..params() };
    let s = Stocks {
        loc: Fixed::from_int(12),
        bugs: Fixed::from_int(3),
        features: Fixed::from_int(1),
        interns: Fixed::from_int(4),
        manual_interns: Fixed::from_int(2),
        junior_devs: Fixed::from_int(5),
        manual_junior_devs: Fixed::from_int(1),
        senior_devs: Fixed::from_int(6),
        manual_senior_devs: Fixed::from_int(3),
        retired_devs: Fixed::from_int(2),
        hrs: Fixed::from_int(7),
        manual_hrs: Fixed::from_int(1),
        pms: Fixed::from_int(9),
        manual_pms: Fixed::from_int(2),
    };
    assert_eq!(advance_stocks(s, &p, true, true), s);
}

#[test]
fn promotion_conserves_the_population() {
    let k = Fixed::from_micro(400);
    let auto = Fixed::from_milli(12_345);
    let manual = Fixed::from_milli(6_789);
    let o = outflow(auto, manual, k);
    let before = auto.raw + manual.raw;
    let after = o.moved.raw + o.auto.raw + o.manual.raw;
    assert!(after <= before && after + 2 >= before);
    assert_eq!(o.moved, Fixed::from_raw(7_653_600));
}

#[test]
fn retirement_and_promotions_in_a_tick() {
    let p = params();
    let s = Stocks {
        interns: Fixed::from_int(100),
        junior_devs: Fixed::from_int(100),
        senior_devs: Fixed::from_int(100),
        ..Stocks::zero()
    };
    let after = advance_stocks(s, &p, true, true);
    // retirement 0.01 * 0.01 of 100 seniors
    assert_eq!(after.retired_devs, Fixed::from_milli(10));
    // interns promoted at 0.04 * 0.01
    assert_eq!(after.interns, Fixed::from_milli(99_960));
    // juniors: 100 * (1 - 0.0002) + 0.04 promoted interns
    assert_eq!(after.junior_devs, Fixed::from_milli(100_020));
    // seniors: 100 * (1 - 0.0001) + 0.02 promoted juniors
    assert_eq!(after.senior_devs, Fixed::from_milli(100_010));
}

#[test]
fn hr_hires_into_auto_counts() {
    let p = params();
    let s = Stocks { manual_hrs: Fixed::from_int(100), ..Stocks::zero() };
    let after = advance_stocks(s, &p, false, false);
    // 100 * 0.01 * 0.9 * 0.01
    assert_eq!(after.interns, Fixed::from_micro(9_000));
    assert_eq!(after.manual_interns, Fixed::zero());
    // 100 * 0.001 * 0.09 * 0.01
    assert_eq!(after.junior_devs, Fixed::from_micro(90));
    // 100 * 0.0001 * 0.01 * 0.01 = 0.000001, then retirement keeps 99.99% of it
    assert_eq!(after.senior_devs, Fixed::from_raw(999));
    assert_eq!(after.retired_devs, Fixed::zero());
}

#[test]
fn display_rates_are_per_second() {
    let p = params();
    let s = Stocks { interns: Fixed::from_int(10), ..Stocks::zero() };
    let r = tick_rates(&s, &p, 100);
    assert_eq!(r.loc_dt, Fixed::from_int(1));
    assert_eq!(r.bugs_created_dt, Fixed::from_int(2));
    assert_eq!(r.features_dt, Fixed::zero());
}

#[test]
fn effects_apply_in_order() {
    let p = params();
    let effects = vec![
        Effect::ScaleInternsOutput(Fixed::from_int(2)),
        Effect::SplitRetirement(Fixed::from_milli(500)),
        Effect::ScaleInternsOutput(Fixed::from_int(3)),
    ];
    let q = p.apply_all(&effects);
    assert_eq!(q.interns_loc_dt, Fixed::from_int(6));
    assert_eq!(q.senior_devs_retirement_ratio_dt, Fixed::from_milli(5));
    assert_eq!(q.senior_devs_management_ratio_dt, Fixed::from_milli(5));
    assert_eq!(q.dt, p.dt);
}
