//! Geometric pricing of repeatable purchases.
//!
//! The first unit of a producer costs `base`; each further unit costs the
//! previous unit's price times `rate`, rounded up to the next raw unit, so
//! the `n`-th unit (counting from zero) costs `base * rate^n` up to rounding,
//! and with a rate above one every unit is strictly dearer than the one
//! before. Buying several units costs the sum of their unit prices.

use vstd::prelude::*;
use crate::fixed::{fx, fx_add, fx_mul_up, fx_zero, Fixed, SCALE};

verus! {

/// Price of the `n`-th unit.
pub open spec fn unit_price(base: Fixed, rate: Fixed, n: nat) -> Fixed
    decreases n,
{
    if n == 0 {
        base
    } else {
        fx_mul_up(unit_price(base, rate, (n - 1) as nat), rate)
    }
}

/// Exact (unsaturated) raw total of the units `owned .. owned + units`.
pub open spec fn total_price(base: Fixed, rate: Fixed, owned: nat, units: nat) -> int
    decreases units,
{
    if units == 0 {
        0
    } else {
        total_price(base, rate, owned, (units - 1) as nat) + unit_price(
            base,
            rate,
            (owned + units - 1) as nat,
        ).raw
    }
}

/// Cost of buying `units` more units when `owned` are already held.
pub open spec fn purchase_cost_spec(base: Fixed, rate: Fixed, owned: nat, units: nat) -> Fixed {
    fx(total_price(base, rate, owned, units))
}

pub proof fn lemma_total_price_nonneg(base: Fixed, rate: Fixed, owned: nat, units: nat)
    ensures
        total_price(base, rate, owned, units) >= 0,
    decreases units,
{
    if units > 0 {
        lemma_total_price_nonneg(base, rate, owned, (units - 1) as nat);
    }
}

proof fn lemma_total_price_grows(base: Fixed, rate: Fixed, owned: nat, u1: nat, u2: nat)
    requires
        u1 <= u2,
    ensures
        total_price(base, rate, owned, u1) <= total_price(base, rate, owned, u2),
    decreases u2,
{
    if u1 < u2 {
        lemma_total_price_grows(base, rate, owned, u1, (u2 - 1) as nat);
    }
}

proof fn lemma_free_units(base: Fixed, rate: Fixed, owned: nat, units: nat)
    requires
        base.raw == 0,
    ensures
        total_price(base, rate, owned, units) == 0,
    decreases units,
{
    if units > 0 {
        lemma_free_units(base, rate, owned, (units - 1) as nat);
        lemma_free_unit_price(base, rate, (owned + units - 1) as nat);
    }
}

proof fn lemma_free_unit_price(base: Fixed, rate: Fixed, n: nat)
    requires
        base.raw == 0,
    ensures
        unit_price(base, rate, n).raw == 0,
    decreases n,
{
    if n > 0 {
        lemma_free_unit_price(base, rate, (n - 1) as nat);
        let p = unit_price(base, rate, (n - 1) as nat);
        assert(p.raw as int * rate.raw as int == 0);
    }
}

/// Total price of `units` units when `owned` are already held (saturating).
pub fn purchase_cost(base: Fixed, rate: Fixed, owned: u64, units: u64) -> (r: Fixed)
    ensures
        r == purchase_cost_spec(base, rate, owned as nat, units as nat),
{
    if base.is_zero() {
        proof {
            lemma_free_units(base, rate, owned as nat, units as nat);
        }
        return Fixed::zero();
    }
    let mut price = base;
    let mut i: u64 = 0;
    while i < owned
        invariant
            i <= owned,
            price == unit_price(base, rate, i as nat),
        decreases owned - i,
    {
        price = price.mul_up(rate);
        i = i + 1;
    }
    let mut total = Fixed::zero();
    let mut j: u64 = 0;
    while j < units
        invariant
            j <= units,
            price == unit_price(base, rate, (owned + j) as nat),
            total == fx(total_price(base, rate, owned as nat, j as nat)),
        decreases units - j,
    {
        proof {
            lemma_total_price_nonneg(base, rate, owned as nat, j as nat);
            assert(price == unit_price(base, rate, (owned + (j + 1) - 1) as nat));
        }
        total = total.add(price);
        price = price.mul_up(rate);
        j = j + 1;
        if total.raw == u128::MAX {
            // saturated: further units cannot lower the total
            proof {
                lemma_total_price_grows(base, rate, owned as nat, j as nat, units as nat);
            }
            return total;
        }
    }
    total
}

/// Buying nothing costs nothing, whatever is already owned.
pub proof fn lemma_zero_units_cost_nothing(base: Fixed, rate: Fixed, owned: nat)
    ensures
        purchase_cost_spec(base, rate, owned, 0) == fx_zero(),
{
}

proof fn lemma_total_price_split(base: Fixed, rate: Fixed, n: nat, k1: nat, k2: nat)
    ensures
        total_price(base, rate, n, k1 + k2) == total_price(base, rate, n, k1) + total_price(
            base,
            rate,
            n + k1,
            k2,
        ),
    decreases k2,
{
    if k2 > 0 {
        lemma_total_price_split(base, rate, n, k1, (k2 - 1) as nat);
        assert((k1 + k2 - 1) as nat == k1 + (k2 - 1) as nat);
        assert(n + (k1 + k2) - 1 == (n + k1) + k2 - 1);
    }
}

/// Buying `k1 + k2` units at once costs the same as buying `k1` units and
/// then `k2` more (both sides saturate at the largest quantity).
pub proof fn lemma_batch_equivalence(base: Fixed, rate: Fixed, n: nat, k1: nat, k2: nat)
    ensures
        purchase_cost_spec(base, rate, n, k1 + k2) == fx_add(
            purchase_cost_spec(base, rate, n, k1),
            purchase_cost_spec(base, rate, n + k1, k2),
        ),
{
    lemma_total_price_split(base, rate, n, k1, k2);
    lemma_total_price_nonneg(base, rate, n, k1);
    lemma_total_price_nonneg(base, rate, n + k1, k2);
}

/// One step of the price chain: with a rate above one, a positive price
/// below saturation rises by at least one raw unit.
proof fn lemma_step_rises(p: Fixed, rate: Fixed)
    requires
        rate.raw > SCALE,
        0 < p.raw < u128::MAX,
    ensures
        fx_mul_up(p, rate).raw > p.raw,
{
    let s = SCALE as int;
    let x = p.raw as int;
    let pr = x * rate.raw as int;
    assert(pr >= x * s + x) by (nonlinear_arith)
        requires
            rate.raw > s,
            x > 0,
            pr == x * rate.raw as int,
    ;
    vstd::arithmetic::div_mod::lemma_div_is_ordered(x * s, pr, s);
    vstd::arithmetic::div_mod::lemma_div_by_multiple(x, s);
    vstd::arithmetic::div_mod::lemma_fundamental_div_mod(pr, s);
    if pr / s == x {
        // the product is not a multiple of SCALE, so rounding adds one
        assert(pr % s == pr - s * x);
        assert(pr % s != 0);
    }
}

proof fn lemma_price_positive(base: Fixed, rate: Fixed, n: nat)
    requires
        rate.raw > SCALE,
        base.raw > 0,
    ensures
        unit_price(base, rate, n).raw > 0,
    decreases n,
{
    if n > 0 {
        lemma_price_positive(base, rate, (n - 1) as nat);
        let p = unit_price(base, rate, (n - 1) as nat);
        if p.raw < u128::MAX {
            lemma_step_rises(p, rate);
        } else {
            assert(p.raw as int * rate.raw as int >= p.raw as int * SCALE) by (nonlinear_arith)
                requires
                    rate.raw > SCALE,
                    p.raw > 0,
            ;
            vstd::arithmetic::div_mod::lemma_div_is_ordered(
                p.raw as int * SCALE,
                p.raw as int * rate.raw as int,
                SCALE as int,
            );
            vstd::arithmetic::div_mod::lemma_div_by_multiple(p.raw as int, SCALE as int);
        }
    }
}

/// With a growth rate above one and any positive base price, each further
/// unit is strictly dearer than the one before, as long as the earlier
/// unit's price is below the saturation point.
pub proof fn lemma_monotonic_pricing(base: Fixed, rate: Fixed, n: nat)
    requires
        rate.raw > SCALE,
        base.raw > 0,
        purchase_cost_spec(base, rate, n, 1).raw < u128::MAX,
    ensures
        purchase_cost_spec(base, rate, n, 1).raw < purchase_cost_spec(base, rate, n + 1, 1).raw,
{
    let price_n = unit_price(base, rate, n);
    let price_next = unit_price(base, rate, n + 1);
    assert(total_price(base, rate, n, 0) == 0);
    assert(total_price(base, rate, n + 1, 0) == 0);
    assert(total_price(base, rate, n, 1) == price_n.raw) by {
        assert((n + 1 - 1) as nat == n);
    }
    assert(total_price(base, rate, (n + 1) as nat, 1) == price_next.raw) by {
        assert((n + 1 + 1 - 1) as nat == n + 1);
    }
    assert(purchase_cost_spec(base, rate, n, 1) == price_n);
    assert(purchase_cost_spec(base, rate, n + 1, 1) == price_next);
    lemma_price_positive(base, rate, n);
    assert(price_next == fx_mul_up(price_n, rate));
    lemma_step_rises(price_n, rate);
}

} // verus!
