//! Non-negative fixed-point quantities with nine decimal places.
//!
//! Every operation is total: results that would fall below zero are clamped
//! to zero and results beyond the representable range saturate at the
//! largest value.

use vstd::prelude::*;

verus! {

/// Number of raw units in one whole unit.
pub const SCALE: u128 = 1_000_000_000;

/// A non-negative quantity, stored as `raw / SCALE`.
#[derive(Clone, Copy, Debug, PartialEq, Eq, Structural)]
pub struct Fixed {
    pub raw: u128,
}

/// Clamps a mathematical integer into the raw range.
pub open spec fn clamp_raw(x: int) -> u128 {
    if x > u128::MAX {
        u128::MAX
    } else if x < 0 {
        0
    } else {
        x as u128
    }
}

pub open spec fn fx(raw: int) -> Fixed {
    Fixed { raw: clamp_raw(raw) }
}

/// Saturating sum.
pub open spec fn fx_add(a: Fixed, b: Fixed) -> Fixed {
    fx(a.raw as int + b.raw as int)
}

/// Difference, clamped at zero.
pub open spec fn fx_sub(a: Fixed, b: Fixed) -> Fixed {
    fx(a.raw as int - b.raw as int)
}

/// Product rounded down to the nearest raw unit, saturating.
pub open spec fn fx_mul(a: Fixed, b: Fixed) -> Fixed {
    fx(a.raw as int * b.raw as int / SCALE as int)
}

/// Product rounded up to the next raw unit, saturating.
pub open spec fn fx_mul_up(a: Fixed, b: Fixed) -> Fixed {
    let ab = a.raw as int * b.raw as int;
    let carry: int = if ab % (SCALE as int) == 0 {
        0
    } else {
        1
    };
    fx(ab / SCALE as int + carry)
}

/// Quotient by a positive whole number, rounded down.
pub open spec fn fx_div_int(a: Fixed, d: int) -> Fixed {
    fx(a.raw as int / d)
}

pub open spec fn fx_min(a: Fixed, b: Fixed) -> Fixed {
    if a.raw <= b.raw {
        a
    } else {
        b
    }
}

pub open spec fn fx_one() -> Fixed {
    Fixed { raw: SCALE }
}

pub open spec fn fx_zero() -> Fixed {
    Fixed { raw: 0 }
}

/// The whole part, rounded down.
pub open spec fn fx_whole(a: Fixed) -> int {
    a.raw as int / SCALE as int
}

impl Fixed {
    pub fn zero() -> (r: Fixed)
        ensures
            r == fx_zero(),
    {
        Fixed { raw: 0 }
    }

    pub fn one() -> (r: Fixed)
        ensures
            r == fx_one(),
    {
        Fixed { raw: SCALE }
    }

    pub fn from_raw(raw: u128) -> (r: Fixed)
        ensures
            r.raw == raw,
    {
        Fixed { raw }
    }

    /// `n` whole units.
    pub fn from_int(n: u64) -> (r: Fixed)
        ensures
            r.raw == n * SCALE,
    {
        assert(n * SCALE <= u64::MAX * SCALE) by (nonlinear_arith)
            requires
                n <= u64::MAX,
        ;
        Fixed { raw: n as u128 * SCALE }
    }

    /// `n / 1000` units.
    pub fn from_milli(n: u64) -> (r: Fixed)
        ensures
            r.raw == n * 1_000_000,
    {
        assert(n * 1_000_000 <= u64::MAX * 1_000_000) by (nonlinear_arith)
            requires
                n <= u64::MAX,
        ;
        Fixed { raw: n as u128 * 1_000_000 }
    }

    /// `n / 1_000_000` units.
    pub fn from_micro(n: u64) -> (r: Fixed)
        ensures
            r.raw == n * 1_000,
    {
        assert(n * 1_000 <= u64::MAX * 1_000) by (nonlinear_arith)
            requires
                n <= u64::MAX,
        ;
        Fixed { raw: n as u128 * 1_000 }
    }

    pub fn is_zero(self) -> (r: bool)
        ensures
            r == (self.raw == 0),
    {
        self.raw == 0
    }

    pub fn lt(self, other: Fixed) -> (r: bool)
        ensures
            r == (self.raw < other.raw),
    {
        self.raw < other.raw
    }

    pub fn add(self, other: Fixed) -> (r: Fixed)
        ensures
            r == fx_add(self, other),
    {
        Fixed { raw: self.raw.saturating_add(other.raw) }
    }

    pub fn sub(self, other: Fixed) -> (r: Fixed)
        ensures
            r == fx_sub(self, other),
    {
        Fixed { raw: self.raw.saturating_sub(other.raw) }
    }

    pub fn min(self, other: Fixed) -> (r: Fixed)
        ensures
            r == fx_min(self, other),
    {
        if self.raw <= other.raw {
            self
        } else {
            other
        }
    }

    pub fn div_int(self, d: u64) -> (r: Fixed)
        requires
            d > 0,
        ensures
            r == fx_div_int(self, d as int),
    {
        Fixed { raw: self.raw / (d as u128) }
    }

    /// The whole part, saturating at `u64::MAX`.
    pub fn whole(self) -> (r: u64)
        ensures
            r as int == if fx_whole(self) > u64::MAX {
                u64::MAX as int
            } else {
                fx_whole(self)
            },
    {
        let w = self.raw / SCALE;
        if w > u64::MAX as u128 {
            u64::MAX
        } else {
            w as u64
        }
    }

    pub fn mul(self, other: Fixed) -> (r: Fixed)
        ensures
            r == fx_mul(self, other),
    {
        let (floor, _) = product(self.raw, other.raw);
        Fixed { raw: floor }
    }

    /// Product rounded up to the next raw unit, saturating.
    pub fn mul_up(self, other: Fixed) -> (r: Fixed)
        ensures
            r == fx_mul_up(self, other),
    {
        let (floor, exact) = product(self.raw, other.raw);
        if exact {
            Fixed { raw: floor }
        } else {
            Fixed { raw: floor.saturating_add(1) }
        }
    }
}

/// `a * b / SCALE` rounded down and saturating, and whether the division
/// was exact.
fn product(a: u128, b: u128) -> (r: (u128, bool))
    ensures
        r.0 == clamp_raw(a as int * b as int / SCALE as int),
        r.1 == ((a as int * b as int) % (SCALE as int) == 0),
{
    let q = a / SCALE;
    let rem = a % SCALE;
    let bq = b / SCALE;
    let br = b % SCALE;
    assert(rem * br < SCALE * SCALE) by (nonlinear_arith)
        requires
            rem < SCALE,
            br < SCALE,
    ;
    let low = rem * br / SCALE;
    let exact = (rem * br) % SCALE == 0;
    assert(rem * bq <= u128::MAX) by (nonlinear_arith)
        requires
            rem < SCALE,
            bq * SCALE <= b,
            b <= u128::MAX,
    ;
    let mid = rem * bq;
    proof {
        let ab = a as int * b as int;
        assert(a == q * SCALE + rem);
        assert(b == bq * SCALE + br);
        assert(ab == (q * b + rem * bq) * SCALE + rem * br) by (nonlinear_arith)
            requires
                a == q * SCALE + rem,
                b == bq * SCALE + br,
                ab == a * b,
        ;
        let rr = (rem * br) as int % (SCALE as int);
        assert(rem * br == low * SCALE + rr);
        assert(ab == (q * b + rem * bq + low) * SCALE + rr) by (nonlinear_arith)
            requires
                ab == (q * b + rem * bq) * SCALE + rem * br,
                rem * br == low * SCALE + rr,
        ;
        vstd::arithmetic::div_mod::lemma_fundamental_div_mod_converse(
            ab,
            SCALE as int,
            q * b + rem * bq + low,
            rr,
        );
    }
    match q.checked_mul(b) {
        None => {
            assert(q * b <= a * b / SCALE as int);
            (u128::MAX, exact)
        },
        Some(high) => (high.saturating_add(mid).saturating_add(low), exact),
    }
}

} // verus!
