//! Speedrun display: a progress ratio on a logarithmic scale, and the
//! elapsed time rendered as `H:MM:SS.CC`.

use vstd::prelude::*;
use vstd::string::StringExecFns;
use crate::fixed::{fx, fx_one, fx_whole, fx_zero, Fixed, SCALE};

verus! {

/// Whole decades of `n`: `floor(log10(n))` for `n >= 1`, and zero below ten.
pub open spec fn decades(n: nat) -> nat
    decreases n,
{
    if n < 10 {
        0
    } else {
        1 + decades(n / 10)
    }
}

/// The four leading digits of `n >= 1`, as a number in `1000 ..= 9999`
/// (shorter numbers are padded with zeros on the right).
pub open spec fn mantissa4(n: nat) -> nat
    decreases n,
{
    if n >= 10000 {
        mantissa4(n / 10)
    } else {
        padded4(n)
    }
}

pub open spec fn padded4(n: nat) -> nat
    decreases 10000 - n,
{
    if 0 < n < 1000 {
        padded4(n * 10)
    } else {
        n
    }
}

/// `1000 * 10^(i / 10)` rounded up, for `i` in `1 ..= 9`.
pub open spec fn tenth_threshold(i: nat) -> nat {
    if i == 1 {
        1259
    } else if i == 2 {
        1585
    } else if i == 3 {
        1996
    } else if i == 4 {
        2512
    } else if i == 5 {
        3163
    } else if i == 6 {
        3982
    } else if i == 7 {
        5012
    } else if i == 8 {
        6310
    } else {
        7944
    }
}

/// How many of the thresholds `1 ..= i` the mantissa `m` reaches.
pub open spec fn tenths_reached(m: nat, i: nat) -> nat
    decreases i,
{
    if i == 0 {
        0
    } else if m >= tenth_threshold(i) {
        i
    } else {
        tenths_reached(m, (i - 1) as nat)
    }
}

/// An approximation of `10 * log10(n)` for `n >= 1`, in whole tenths of a
/// decade: the whole decades exactly, the tenths read from the four leading
/// digits against thresholds rounded up. It never exceeds
/// `floor(10 * log10(n))` and is at most one tenth below it, which happens
/// just above a tenth boundary (`125893` gives `50`, not `51`).
pub open spec fn log_tenths(n: nat) -> nat {
    10 * decades(n) + tenths_reached(mantissa4(n), 9)
}

/// `max(whole part of x, 1)`.
pub open spec fn at_least_one(x: Fixed) -> nat {
    if fx_whole(x) >= 1 {
        fx_whole(x) as nat
    } else {
        1
    }
}

/// `log10(max(loc, 1)) / log10(max(target, 1))`, clamped to `[0, 1]`, with
/// both logarithms taken in tenths of a decade. A target whose logarithm
/// rounds to zero counts as reached once `loc` is at least the target.
pub open spec fn progress_spec(loc: Fixed, target: Fixed) -> Fixed {
    let l = log_tenths(at_least_one(loc));
    let t = log_tenths(at_least_one(target));
    if t == 0 {
        if loc.raw >= target.raw {
            fx_one()
        } else {
            fx_zero()
        }
    } else if l >= t {
        fx_one()
    } else {
        fx(l * SCALE as int / t as int)
    }
}

proof fn lemma_decades_monotone(n: nat, m: nat)
    requires
        n <= m,
    ensures
        decades(n) <= decades(m),
    decreases m,
{
    if n >= 10 {
        lemma_decades_monotone(n / 10, m / 10);
    }
}

proof fn lemma_decades_bound(n: nat)
    requires
        n <= u128::MAX,
    ensures
        decades(n) <= 38,
{
    lemma_decades_monotone(n, u128::MAX as nat);
    assert(decades(u128::MAX as nat) == 38) by {
        reveal_with_fuel(decades, 40);
    }
}

fn decades_of(n: u128) -> (r: u128)
    ensures
        r == decades(n as nat),
        r <= 38,
{
    proof {
        lemma_decades_bound(n as nat);
    }
    let mut cur = n;
    let mut count: u128 = 0;
    while cur >= 10
        invariant
            count + decades(cur as nat) == decades(n as nat),
            count + cur <= n,
        decreases cur,
    {
        count = count + 1;
        cur = cur / 10;
    }
    count
}

fn mantissa4_of(n: u128) -> (r: u128)
    requires
        n >= 1,
    ensures
        r == mantissa4(n as nat),
        1000 <= r < 10000,
{
    let mut cur = n;
    while cur >= 10000
        invariant
            cur >= 1,
            mantissa4(cur as nat) == mantissa4(n as nat),
        decreases cur,
    {
        cur = cur / 10;
    }
    while cur < 1000
        invariant
            1 <= cur < 10000,
            padded4(cur as nat) == mantissa4(n as nat),
        decreases 10000 - cur,
    {
        cur = cur * 10;
    }
    cur
}

fn threshold(i: u128) -> (r: u128)
    ensures
        r == tenth_threshold(i as nat),
{
    if i == 1 {
        1259
    } else if i == 2 {
        1585
    } else if i == 3 {
        1996
    } else if i == 4 {
        2512
    } else if i == 5 {
        3163
    } else if i == 6 {
        3982
    } else if i == 7 {
        5012
    } else if i == 8 {
        6310
    } else {
        7944
    }
}

fn tenths_of(m: u128) -> (r: u128)
    ensures
        r == tenths_reached(m as nat, 9),
        r <= 9,
{
    let mut i: usize = 9;
    while i > 0
        invariant
            i <= 9,
            tenths_reached(m as nat, 9) == tenths_reached(m as nat, i as nat),
        decreases i,
    {
        if m >= threshold(i as u128) {
            return i as u128;
        }
        i = i - 1;
    }
    0
}

/// `log_tenths(n)` for `n >= 1`.
fn log_tenths_of(n: u128) -> (r: u128)
    requires
        n >= 1,
    ensures
        r == log_tenths(n as nat),
        r <= 389,
{
    let d = decades_of(n);
    let m = mantissa4_of(n);
    10 * d + tenths_of(m)
}

/// Progress towards `target` on a logarithmic scale, between zero and one.
pub fn progress(loc: Fixed, target: Fixed) -> (r: Fixed)
    ensures
        r == progress_spec(loc, target),
        r.raw <= SCALE,
{
    let wl = loc.raw / SCALE;
    let wt = target.raw / SCALE;
    let l = log_tenths_of(if wl >= 1 { wl } else { 1 });
    let t = log_tenths_of(if wt >= 1 { wt } else { 1 });
    if t == 0 {
        if loc.raw >= target.raw {
            Fixed::one()
        } else {
            Fixed::zero()
        }
    } else if l >= t {
        Fixed::one()
    } else {
        assert(l * SCALE <= u128::MAX) by (nonlinear_arith)
            requires
                l < t,
                t <= 389,
        ;
        assert(l * SCALE < t * SCALE) by (nonlinear_arith)
            requires
                l < t,
        ;
        assert(l * SCALE / (t as int) <= SCALE as int) by (nonlinear_arith)
            requires
                l * SCALE < t * SCALE,
                t > 0,
        ;
        Fixed::from_raw(l * SCALE / t)
    }
}

// ---------------------------------------------------------------------------
// Elapsed time

pub open spec fn digit_char(d: nat) -> char {
    if d == 0 {
        '0'
    } else if d == 1 {
        '1'
    } else if d == 2 {
        '2'
    } else if d == 3 {
        '3'
    } else if d == 4 {
        '4'
    } else if d == 5 {
        '5'
    } else if d == 6 {
        '6'
    } else if d == 7 {
        '7'
    } else if d == 8 {
        '8'
    } else {
        '9'
    }
}

/// Decimal digits of `n`, without leading zeros.
pub open spec fn decimal_text(n: nat) -> Seq<char>
    decreases n,
{
    if n < 10 {
        seq![digit_char(n)]
    } else {
        decimal_text(n / 10).push(digit_char(n % 10))
    }
}

/// `n` below one hundred as exactly two digits.
pub open spec fn two_digits(n: nat) -> Seq<char> {
    seq![digit_char(n / 10), digit_char(n % 10)]
}

/// `H:MM:SS.CC` for a duration of `ms` milliseconds; hours are unbounded.
pub open spec fn clock_text(ms: nat) -> Seq<char> {
    decimal_text(ms / 3_600_000) + seq![':'] + two_digits((ms / 60_000) % 60) + seq![':']
        + two_digits((ms / 1000) % 60) + seq!['.'] + two_digits((ms / 10) % 100)
}

fn digit_str(d: u64) -> (r: &'static str)
    requires
        d < 10,
    ensures
        r@ == seq![digit_char(d as nat)],
{
    proof {
        reveal_strlit("0");
        reveal_strlit("1");
        reveal_strlit("2");
        reveal_strlit("3");
        reveal_strlit("4");
        reveal_strlit("5");
        reveal_strlit("6");
        reveal_strlit("7");
        reveal_strlit("8");
        reveal_strlit("9");
    }
    let r = if d == 0 {
        "0"
    } else if d == 1 {
        "1"
    } else if d == 2 {
        "2"
    } else if d == 3 {
        "3"
    } else if d == 4 {
        "4"
    } else if d == 5 {
        "5"
    } else if d == 6 {
        "6"
    } else if d == 7 {
        "7"
    } else if d == 8 {
        "8"
    } else {
        "9"
    };
    assert(r@ =~= seq![digit_char(d as nat)]);
    r
}

fn push_decimal(out: &mut String, n: u64)
    ensures
        final(out)@ == old(out)@ + decimal_text(n as nat),
    decreases n,
{
    if n >= 10 {
        push_decimal(out, n / 10);
    }
    out.append(digit_str(n % 10));
    assert(final(out)@ =~= old(out)@ + decimal_text(n as nat));
}

fn push_two_digits(out: &mut String, n: u64)
    requires
        n < 100,
    ensures
        final(out)@ == old(out)@ + two_digits(n as nat),
{
    out.append(digit_str(n / 10));
    out.append(digit_str(n % 10));
    assert(final(out)@ =~= old(out)@ + two_digits(n as nat));
}

/// Renders a duration of `ms` milliseconds as `H:MM:SS.CC`.
pub fn clock_string(ms: u64) -> (r: String)
    ensures
        r@ == clock_text(ms as nat),
{
    let mut out = String::new();
    push_decimal(&mut out, ms / 3_600_000);
    out.append(":");
    push_two_digits(&mut out, (ms / 60_000) % 60);
    out.append(":");
    push_two_digits(&mut out, (ms / 1000) % 60);
    out.append(".");
    push_two_digits(&mut out, (ms / 10) % 100);
    proof {
        reveal_strlit(":");
        reveal_strlit(".");
    }
    assert(out@ =~= clock_text(ms as nat));
    out
}

} // verus!
