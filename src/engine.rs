//! The production tick: one step of simulated time applied to the
//! quantities, in a fixed order of sub-steps.

use vstd::prelude::*;
use crate::constants::GameConstants;
use crate::fixed::{fx, fx_add, fx_div_int, fx_min, fx_mul, fx_one, fx_sub, fx_zero, Fixed, SCALE};
use crate::research::Effect;

verus! {

/// Every resource and population quantity of a session. For each dev tier,
/// HRs and PMs, the bare field is the automatically grown sub-count and the
/// `manual_` field the purchased one.
#[derive(Clone, Copy, Debug, PartialEq, Eq, Structural)]
pub struct Stocks {
    pub loc: Fixed,
    pub bugs: Fixed,
    pub features: Fixed,
    pub interns: Fixed,
    pub manual_interns: Fixed,
    pub junior_devs: Fixed,
    pub manual_junior_devs: Fixed,
    pub senior_devs: Fixed,
    pub manual_senior_devs: Fixed,
    pub retired_devs: Fixed,
    pub hrs: Fixed,
    pub manual_hrs: Fixed,
    pub pms: Fixed,
    pub manual_pms: Fixed,
}

/// The rates and ratios that drive production; unlocks may change them.
#[derive(Clone, Copy, Debug, PartialEq, Eq, Structural)]
pub struct Params {
    pub loc_per_clicks: Fixed,
    pub debug_per_clicks: Fixed,
    pub manual_bugs_ratio: Fixed,
    pub interns_loc_dt: Fixed,
    pub junior_devs_loc_dt: Fixed,
    pub senior_devs_loc_dt: Fixed,
    pub interns_bugs_ratio: Fixed,
    pub junior_devs_bugs_ratio: Fixed,
    pub senior_devs_bugs_ratio: Fixed,
    pub hrs_interns_dt: Fixed,
    pub hrs_interns_quota: Fixed,
    pub hrs_junior_devs_dt: Fixed,
    pub hrs_junior_devs_quota: Fixed,
    pub hrs_senior_devs_dt: Fixed,
    pub hrs_senior_devs_quota: Fixed,
    pub pms_bugs_conversion_dt: Fixed,
    pub interns_promotion_ratio_dt: Fixed,
    pub junior_devs_promotion_ratio_dt: Fixed,
    pub senior_devs_retirement_ratio_dt: Fixed,
    pub senior_devs_management_ratio_dt: Fixed,
    pub dt: Fixed,
}

/// Amounts per real second observed during the last tick.
#[derive(Clone, Copy, Debug, PartialEq, Eq, Structural)]
pub struct Rates {
    pub loc_dt: Fixed,
    /// Bugs created per second, before conversion.
    pub bugs_created_dt: Fixed,
    /// Bugs converted to features per second.
    pub features_dt: Fixed,
}

/// The outcome of moving a share of a population out of its tier.
#[derive(Clone, Copy, Debug, PartialEq, Eq, Structural)]
pub struct Outflow {
    /// How much of the population left the tier.
    pub moved: Fixed,
    /// What remains of the automatically grown sub-count.
    pub auto: Fixed,
    /// What remains of the manually purchased sub-count.
    pub manual: Fixed,
}

/// The outcome of converting bugs into features.
#[derive(Clone, Copy, Debug, PartialEq, Eq, Structural)]
pub struct Conversion {
    pub bugs: Fixed,
    pub converted: Fixed,
}

pub open spec fn zero_stocks() -> Stocks {
    Stocks {
        loc: fx_zero(),
        bugs: fx_zero(),
        features: fx_zero(),
        interns: fx_zero(),
        manual_interns: fx_zero(),
        junior_devs: fx_zero(),
        manual_junior_devs: fx_zero(),
        senior_devs: fx_zero(),
        manual_senior_devs: fx_zero(),
        retired_devs: fx_zero(),
        hrs: fx_zero(),
        manual_hrs: fx_zero(),
        pms: fx_zero(),
        manual_pms: fx_zero(),
    }
}

pub open spec fn initial_params(c: GameConstants) -> Params {
    Params {
        loc_per_clicks: c.loc_per_clicks,
        debug_per_clicks: c.debug_per_clicks,
        manual_bugs_ratio: c.manual_bugs_ratio,
        interns_loc_dt: c.interns_loc_dt,
        junior_devs_loc_dt: c.junior_devs_loc_dt,
        senior_devs_loc_dt: c.senior_devs_loc_dt,
        interns_bugs_ratio: c.interns_bugs_ratio,
        junior_devs_bugs_ratio: c.junior_devs_bugs_ratio,
        senior_devs_bugs_ratio: c.senior_devs_bugs_ratio,
        hrs_interns_dt: c.hrs_interns_dt,
        hrs_interns_quota: c.hrs_interns_quota,
        hrs_junior_devs_dt: c.hrs_junior_devs_dt,
        hrs_junior_devs_quota: c.hrs_junior_devs_quota,
        hrs_senior_devs_dt: c.hrs_senior_devs_dt,
        hrs_senior_devs_quota: c.hrs_senior_devs_quota,
        pms_bugs_conversion_dt: c.pms_bugs_conversion_dt,
        interns_promotion_ratio_dt: c.interns_promotion_ratio_dt,
        junior_devs_promotion_ratio_dt: c.junior_devs_promotion_ratio_dt,
        senior_devs_retirement_ratio_dt: c.senior_devs_retirement_ratio_dt,
        senior_devs_management_ratio_dt: fx_zero(),
        dt: c.dt,
    }
}

// ---------------------------------------------------------------------------
// Deferred effects

pub open spec fn apply_effect(p: Params, e: Effect) -> Params {
    match e {
        Effect::ScaleInternsOutput(m) => Params {
            interns_loc_dt: fx_mul(p.interns_loc_dt, m),
            ..p
        },
        Effect::SplitRetirement(share) => Params {
            senior_devs_retirement_ratio_dt: fx_mul(
                p.senior_devs_retirement_ratio_dt,
                fx_sub(fx_one(), share),
            ),
            senior_devs_management_ratio_dt: fx_mul(p.senior_devs_retirement_ratio_dt, share),
            ..p
        },
    }
}

/// The effects applied one after the other, in queue order.
pub open spec fn apply_effects(p: Params, effects: Seq<Effect>) -> Params
    decreases effects.len(),
{
    if effects.len() == 0 {
        p
    } else {
        apply_effect(apply_effects(p, effects.drop_last()), effects.last())
    }
}

// ---------------------------------------------------------------------------
// Sub-steps of a tick

/// Output of one dev tier: its whole population times its rate.
pub open spec fn tier_output(auto: Fixed, manual: Fixed, rate: Fixed) -> Fixed {
    fx_mul(fx_add(auto, manual), rate)
}

pub open spec fn interns_output(s: Stocks, p: Params) -> Fixed {
    tier_output(s.interns, s.manual_interns, p.interns_loc_dt)
}

pub open spec fn junior_devs_output(s: Stocks, p: Params) -> Fixed {
    tier_output(s.junior_devs, s.manual_junior_devs, p.junior_devs_loc_dt)
}

pub open spec fn senior_devs_output(s: Stocks, p: Params) -> Fixed {
    tier_output(s.senior_devs, s.manual_senior_devs, p.senior_devs_loc_dt)
}

/// Lines of code the dev tiers write during one tick.
pub open spec fn auto_loc(s: Stocks, p: Params) -> Fixed {
    fx_mul(
        fx_add(fx_add(interns_output(s, p), junior_devs_output(s, p)), senior_devs_output(s, p)),
        p.dt,
    )
}

/// Bugs the dev tiers create during one tick.
pub open spec fn auto_bugs(s: Stocks, p: Params) -> Fixed {
    fx_mul(
        fx_add(
            fx_add(
                fx_mul(interns_output(s, p), p.interns_bugs_ratio),
                fx_mul(junior_devs_output(s, p), p.junior_devs_bugs_ratio),
            ),
            fx_mul(senior_devs_output(s, p), p.senior_devs_bugs_ratio),
        ),
        p.dt,
    )
}

/// Bugs the PMs could convert during one tick.
pub open spec fn conversion_capacity(s: Stocks, p: Params) -> Fixed {
    fx_mul(fx_mul(fx_add(s.pms, s.manual_pms), p.pms_bugs_conversion_dt), p.dt)
}

/// Conversion never takes more bugs than there are.
pub open spec fn conversion_spec(bugs: Fixed, created: Fixed, capacity: Fixed) -> Conversion {
    Conversion {
        bugs: fx_add(fx_sub(bugs, fx_min(bugs, capacity)), created),
        converted: fx_min(bugs, capacity),
    }
}

/// Devs of one tier that the HRs hire during one tick.
pub open spec fn hired(s: Stocks, p: Params, rate: Fixed, quota: Fixed) -> Fixed {
    fx_mul(fx_mul(fx_mul(fx_add(s.hrs, s.manual_hrs), rate), quota), p.dt)
}

/// A population leaves its tier at ratio `k` (already scaled by `dt`);
/// both sub-counts decay by the same factor `1 - k`.
pub open spec fn outflow_spec(auto: Fixed, manual: Fixed, k: Fixed) -> Outflow {
    Outflow {
        moved: fx_mul(fx_add(auto, manual), k),
        auto: fx_mul(auto, fx_sub(fx_one(), k)),
        manual: fx_mul(manual, fx_sub(fx_one(), k)),
    }
}

pub open spec fn after_production(s: Stocks, p: Params) -> Stocks {
    Stocks { loc: fx_add(s.loc, auto_loc(s, p)), ..s }
}

pub open spec fn after_conversion(s: Stocks, p: Params, created: Fixed) -> Stocks {
    let c = conversion_spec(s.bugs, created, conversion_capacity(s, p));
    Stocks { bugs: c.bugs, features: fx_add(s.features, c.converted), ..s }
}

pub open spec fn after_hiring(s: Stocks, p: Params) -> Stocks {
    Stocks {
        interns: fx_add(s.interns, hired(s, p, p.hrs_interns_dt, p.hrs_interns_quota)),
        junior_devs: fx_add(
            s.junior_devs,
            hired(s, p, p.hrs_junior_devs_dt, p.hrs_junior_devs_quota),
        ),
        senior_devs: fx_add(
            s.senior_devs,
            hired(s, p, p.hrs_senior_devs_dt, p.hrs_senior_devs_quota),
        ),
        ..s
    }
}

pub open spec fn after_management(s: Stocks, p: Params) -> Stocks {
    Stocks {
        pms: fx_add(
            s.pms,
            fx_mul(
                fx_mul(
                    fx_add(s.senior_devs, s.manual_senior_devs),
                    p.senior_devs_management_ratio_dt,
                ),
                p.dt,
            ),
        ),
        ..s
    }
}

pub open spec fn after_retirement(s: Stocks, p: Params) -> Stocks {
    let o = outflow_spec(
        s.senior_devs,
        s.manual_senior_devs,
        fx_mul(p.senior_devs_retirement_ratio_dt, p.dt),
    );
    Stocks {
        retired_devs: fx_add(s.retired_devs, o.moved),
        senior_devs: o.auto,
        manual_senior_devs: o.manual,
        ..s
    }
}

pub open spec fn after_junior_promotion(s: Stocks, p: Params) -> Stocks {
    let o = outflow_spec(
        s.junior_devs,
        s.manual_junior_devs,
        fx_mul(p.junior_devs_promotion_ratio_dt, p.dt),
    );
    Stocks {
        senior_devs: fx_add(s.senior_devs, o.moved),
        junior_devs: o.auto,
        manual_junior_devs: o.manual,
        ..s
    }
}

pub open spec fn after_intern_promotion(s: Stocks, p: Params) -> Stocks {
    let o = outflow_spec(
        s.interns,
        s.manual_interns,
        fx_mul(p.interns_promotion_ratio_dt, p.dt),
    );
    Stocks {
        junior_devs: fx_add(s.junior_devs, o.moved),
        interns: o.auto,
        manual_interns: o.manual,
        ..s
    }
}

/// The quantities after one tick: production, conversion, hiring,
/// management, retirement, then the promotions that are unlocked.
pub open spec fn advance(
    s: Stocks,
    p: Params,
    promote_juniors: bool,
    promote_interns: bool,
) -> Stocks {
    let s1 = after_production(s, p);
    let s2 = after_conversion(s1, p, auto_bugs(s, p));
    let s3 = after_hiring(s2, p);
    let s4 = after_management(s3, p);
    let s5 = after_retirement(s4, p);
    let s6 = if promote_juniors {
        after_junior_promotion(s5, p)
    } else {
        s5
    };
    if promote_interns {
        after_intern_promotion(s6, p)
    } else {
        s6
    }
}

/// An amount per tick expressed per real second, for a tick of `millis`.
pub open spec fn per_second(amount: Fixed, millis: int) -> Fixed {
    fx_div_int(fx_mul(amount, fx(1000 * SCALE)), millis)
}

pub open spec fn rates_spec(s: Stocks, p: Params, millis: int) -> Rates {
    Rates {
        loc_dt: per_second(auto_loc(s, p), millis),
        bugs_created_dt: per_second(auto_bugs(s, p), millis),
        features_dt: per_second(fx_min(s.bugs, conversion_capacity(s, p)), millis),
    }
}

// ---------------------------------------------------------------------------
// Executable steps

impl Stocks {
    pub fn zero() -> (r: Stocks)
        ensures
            r == zero_stocks(),
    {
        Stocks {
            loc: Fixed::zero(),
            bugs: Fixed::zero(),
            features: Fixed::zero(),
            interns: Fixed::zero(),
            manual_interns: Fixed::zero(),
            junior_devs: Fixed::zero(),
            manual_junior_devs: Fixed::zero(),
            senior_devs: Fixed::zero(),
            manual_senior_devs: Fixed::zero(),
            retired_devs: Fixed::zero(),
            hrs: Fixed::zero(),
            manual_hrs: Fixed::zero(),
            pms: Fixed::zero(),
            manual_pms: Fixed::zero(),
        }
    }
}

impl Params {
    pub fn from_constants(c: &GameConstants) -> (r: Params)
        ensures
            r == initial_params(*c),
    {
        Params {
            loc_per_clicks: c.loc_per_clicks,
            debug_per_clicks: c.debug_per_clicks,
            manual_bugs_ratio: c.manual_bugs_ratio,
            interns_loc_dt: c.interns_loc_dt,
            junior_devs_loc_dt: c.junior_devs_loc_dt,
            senior_devs_loc_dt: c.senior_devs_loc_dt,
            interns_bugs_ratio: c.interns_bugs_ratio,
            junior_devs_bugs_ratio: c.junior_devs_bugs_ratio,
            senior_devs_bugs_ratio: c.senior_devs_bugs_ratio,
            hrs_interns_dt: c.hrs_interns_dt,
            hrs_interns_quota: c.hrs_interns_quota,
            hrs_junior_devs_dt: c.hrs_junior_devs_dt,
            hrs_junior_devs_quota: c.hrs_junior_devs_quota,
            hrs_senior_devs_dt: c.hrs_senior_devs_dt,
            hrs_senior_devs_quota: c.hrs_senior_devs_quota,
            pms_bugs_conversion_dt: c.pms_bugs_conversion_dt,
            interns_promotion_ratio_dt: c.interns_promotion_ratio_dt,
            junior_devs_promotion_ratio_dt: c.junior_devs_promotion_ratio_dt,
            senior_devs_retirement_ratio_dt: c.senior_devs_retirement_ratio_dt,
            senior_devs_management_ratio_dt: Fixed::zero(),
            dt: c.dt,
        }
    }

    pub fn apply(self, e: Effect) -> (r: Params)
        ensures
            r == apply_effect(self, e),
    {
        match e {
            Effect::ScaleInternsOutput(m) => Params {
                interns_loc_dt: self.interns_loc_dt.mul(m),
                ..self
            },
            Effect::SplitRetirement(share) => {
                let ratio = self.senior_devs_retirement_ratio_dt;
                Params {
                    senior_devs_retirement_ratio_dt: ratio.mul(Fixed::one().sub(share)),
                    senior_devs_management_ratio_dt: ratio.mul(share),
                    ..self
                }
            },
        }
    }

    /// Applies each queued effect once, in queue order.
    pub fn apply_all(self, effects: &Vec<Effect>) -> (r: Params)
        ensures
            r == apply_effects(self, effects@),
    {
        let mut cur = self;
        let mut i: usize = 0;
        while i < effects.len()
            invariant
                i <= effects@.len(),
                cur == apply_effects(self, effects@.subrange(0, i as int)),
            decreases effects@.len() - i,
        {
            proof {
                let next = effects@.subrange(0, i + 1);
                assert(next.drop_last() =~= effects@.subrange(0, i as int));
                assert(next.last() == effects@[i as int]);
            }
            cur = cur.apply(effects[i]);
            i = i + 1;
        }
        assert(effects@.subrange(0, effects@.len() as int) =~= effects@);
        cur
    }
}

/// Lines of code and bugs that the dev tiers produce during one tick.
pub fn auto_production(s: &Stocks, p: &Params) -> (r: (Fixed, Fixed))
    ensures
        r.0 == auto_loc(*s, *p),
        r.1 == auto_bugs(*s, *p),
{
    let interns = s.interns.add(s.manual_interns).mul(p.interns_loc_dt);
    let juniors = s.junior_devs.add(s.manual_junior_devs).mul(p.junior_devs_loc_dt);
    let seniors = s.senior_devs.add(s.manual_senior_devs).mul(p.senior_devs_loc_dt);
    let loc = interns.add(juniors).add(seniors).mul(p.dt);
    let bugs = interns.mul(p.interns_bugs_ratio).add(juniors.mul(p.junior_devs_bugs_ratio)).add(
        seniors.mul(p.senior_devs_bugs_ratio),
    ).mul(p.dt);
    (loc, bugs)
}

/// Converts up to `capacity` of the existing `bugs` into features, then adds
/// the bugs `created` this tick. Bugs never go below zero, and no more bugs
/// are converted than there were.
pub fn convert_bugs(bugs: Fixed, created: Fixed, capacity: Fixed) -> (r: Conversion)
    ensures
        r == conversion_spec(bugs, created, capacity),
        r.converted.raw <= bugs.raw,
        r.converted.raw <= bugs.raw + created.raw,
        r.converted.raw == if bugs.raw <= capacity.raw {
            bugs.raw
        } else {
            capacity.raw
        },
        bugs.raw + created.raw <= u128::MAX ==> r.bugs.raw == bugs.raw + created.raw
            - r.converted.raw,
{
    let converted = bugs.min(capacity);
    Conversion { bugs: bugs.sub(converted).add(created), converted }
}

/// Moves the share `k` of a population out of its tier.
pub fn outflow(auto: Fixed, manual: Fixed, k: Fixed) -> (r: Outflow)
    ensures
        r == outflow_spec(auto, manual, k),
{
    let keep = Fixed::one().sub(k);
    Outflow { moved: auto.add(manual).mul(k), auto: auto.mul(keep), manual: manual.mul(keep) }
}

/// Runs the sub-steps of one tick on the quantities.
pub fn advance_stocks(s: Stocks, p: &Params, promote_juniors: bool, promote_interns: bool) -> (r:
    Stocks)
    ensures
        r == advance(s, *p, promote_juniors, promote_interns),
{
    let (loc, bugs) = auto_production(&s, p);
    let mut t = s;
    // production
    t.loc = t.loc.add(loc);
    // bugs to features
    let capacity = t.pms.add(t.manual_pms).mul(p.pms_bugs_conversion_dt).mul(p.dt);
    let c = convert_bugs(t.bugs, bugs, capacity);
    t.bugs = c.bugs;
    t.features = t.features.add(c.converted);
    // hiring
    let hrs = t.hrs.add(t.manual_hrs);
    let new_interns = hrs.mul(p.hrs_interns_dt).mul(p.hrs_interns_quota).mul(p.dt);
    let new_juniors = hrs.mul(p.hrs_junior_devs_dt).mul(p.hrs_junior_devs_quota).mul(p.dt);
    let new_seniors = hrs.mul(p.hrs_senior_devs_dt).mul(p.hrs_senior_devs_quota).mul(p.dt);
    t.interns = t.interns.add(new_interns);
    t.junior_devs = t.junior_devs.add(new_juniors);
    t.senior_devs = t.senior_devs.add(new_seniors);
    // management
    let to_pms = t.senior_devs.add(t.manual_senior_devs).mul(p.senior_devs_management_ratio_dt).mul(
        p.dt,
    );
    t.pms = t.pms.add(to_pms);
    // retirement
    let k = p.senior_devs_retirement_ratio_dt.mul(p.dt);
    let o = outflow(t.senior_devs, t.manual_senior_devs, k);
    t.retired_devs = t.retired_devs.add(o.moved);
    t.senior_devs = o.auto;
    t.manual_senior_devs = o.manual;
    // promotions
    if promote_juniors {
        let k = p.junior_devs_promotion_ratio_dt.mul(p.dt);
        let o = outflow(t.junior_devs, t.manual_junior_devs, k);
        t.senior_devs = t.senior_devs.add(o.moved);
        t.junior_devs = o.auto;
        t.manual_junior_devs = o.manual;
    }
    if promote_interns {
        let k = p.interns_promotion_ratio_dt.mul(p.dt);
        let o = outflow(t.interns, t.manual_interns, k);
        t.junior_devs = t.junior_devs.add(o.moved);
        t.interns = o.auto;
        t.manual_interns = o.manual;
    }
    t
}

/// Expresses an amount per tick of `millis` milliseconds per real second.
pub fn per_second_of(amount: Fixed, millis: u64) -> (r: Fixed)
    requires
        millis > 0,
    ensures
        r == per_second(amount, millis as int),
{
    amount.mul(Fixed::from_int(1000)).div_int(millis)
}

/// The display rates of a tick that starts from `s`.
pub fn tick_rates(s: &Stocks, p: &Params, millis: u64) -> (r: Rates)
    requires
        millis > 0,
    ensures
        r == rates_spec(*s, *p, millis as int),
{
    let (loc, bugs) = auto_production(s, p);
    let capacity = s.pms.add(s.manual_pms).mul(p.pms_bugs_conversion_dt).mul(p.dt);
    let c = convert_bugs(s.bugs, bugs, capacity);
    Rates {
        loc_dt: per_second_of(loc, millis),
        bugs_created_dt: per_second_of(bugs, millis),
        features_dt: per_second_of(c.converted, millis),
    }
}

// ---------------------------------------------------------------------------
// Laws of the tick

proof fn lemma_mul_by_zero(a: Fixed, z: Fixed)
    requires
        z.raw == 0,
    ensures
        fx_mul(a, z) == fx_zero(),
{
    assert(a.raw as int * z.raw as int == 0);
}

proof fn lemma_mul_by_one(a: Fixed)
    ensures
        fx_mul(a, fx_one()) == a,
{
    vstd::arithmetic::div_mod::lemma_div_by_multiple(a.raw as int, SCALE as int);
}

/// Queued effects never change the simulated step.
pub proof fn lemma_effects_keep_dt(p: Params, effects: Seq<Effect>)
    ensures
        apply_effects(p, effects).dt == p.dt,
    decreases effects.len(),
{
    if effects.len() > 0 {
        lemma_effects_keep_dt(p, effects.drop_last());
    }
}

proof fn lemma_outflow_at_rest(auto: Fixed, manual: Fixed, k: Fixed)
    requires
        k.raw == 0,
    ensures
        outflow_spec(auto, manual, k) == (Outflow { moved: fx_zero(), auto, manual }),
{
    lemma_mul_by_zero(fx_add(auto, manual), k);
    assert(fx_sub(fx_one(), k) == fx_one());
    lemma_mul_by_one(auto);
    lemma_mul_by_one(manual);
}

/// A tick whose simulated step is zero leaves every resource and
/// population quantity as it was, whatever effects were queued.
pub proof fn lemma_zero_dt_keeps_stocks(
    s: Stocks,
    p: Params,
    effects: Seq<Effect>,
    promote_juniors: bool,
    promote_interns: bool,
)
    requires
        p.dt.raw == 0,
    ensures
        advance(s, apply_effects(p, effects), promote_juniors, promote_interns) == s,
{
    let q = apply_effects(p, effects);
    lemma_effects_keep_dt(p, effects);
    // every product with the step is zero, so nothing flows
    assert forall|a: Fixed| #[trigger] fx_mul(a, q.dt) == fx_zero() by {
        lemma_mul_by_zero(a, q.dt);
    }
    assert forall|auto: Fixed, manual: Fixed, ratio: Fixed|
        #[trigger] outflow_spec(auto, manual, fx_mul(ratio, q.dt)) == (Outflow {
            moved: fx_zero(),
            auto,
            manual,
        }) by {
        lemma_outflow_at_rest(auto, manual, fx_mul(ratio, q.dt));
    }
    let s1 = after_production(s, q);
    assert(s1 == s);
    let s2 = after_conversion(s1, q, auto_bugs(s, q));
    assert(s2 == s);
    let s3 = after_hiring(s2, q);
    assert(s3 == s);
    let s4 = after_management(s3, q);
    assert(s4 == s);
    let s5 = after_retirement(s4, q);
    assert(s5 == s);
    assert(after_junior_promotion(s5, q) == s);
    assert(after_intern_promotion(s, q) == s);
}

/// Moving a share `k <= 1` of a population out of its tier conserves it:
/// what moved plus what remains equals what was there, up to two raw units
/// lost to rounding down.
pub proof fn lemma_outflow_conserves(auto: Fixed, manual: Fixed, k: Fixed)
    requires
        k.raw <= SCALE,
        auto.raw + manual.raw <= u128::MAX,
    ensures
        ({
            let o = outflow_spec(auto, manual, k);
            &&& o.moved.raw + o.auto.raw + o.manual.raw <= auto.raw + manual.raw
            &&& o.moved.raw + o.auto.raw + o.manual.raw + 2 >= auto.raw + manual.raw
        }),
{
    let o = outflow_spec(auto, manual, k);
    let s = SCALE as int;
    let a = auto.raw as int;
    let m = manual.raw as int;
    let n = a + m;
    let kk = k.raw as int;
    let keep = s - kk;
    assert(fx_sub(fx_one(), k).raw == keep);
    assert(n * kk <= n * s) by (nonlinear_arith)
        requires
            kk <= s,
            n >= 0,
    ;
    assert(a * keep <= a * s) by (nonlinear_arith)
        requires
            keep <= s,
            a >= 0,
    ;
    assert(m * keep <= m * s) by (nonlinear_arith)
        requires
            keep <= s,
            m >= 0,
    ;
    vstd::arithmetic::div_mod::lemma_div_is_ordered(n * kk, n * s, s);
    vstd::arithmetic::div_mod::lemma_div_is_ordered(a * keep, a * s, s);
    vstd::arithmetic::div_mod::lemma_div_is_ordered(m * keep, m * s, s);
    vstd::arithmetic::div_mod::lemma_div_by_multiple(n, s);
    vstd::arithmetic::div_mod::lemma_div_by_multiple(a, s);
    vstd::arithmetic::div_mod::lemma_div_by_multiple(m, s);
    assert(n * kk >= 0 && a * keep >= 0 && m * keep >= 0) by (nonlinear_arith)
        requires
            n >= 0,
            a >= 0,
            m >= 0,
            kk >= 0,
            keep >= 0,
    ;
    vstd::arithmetic::div_mod::lemma_div_pos_is_pos(n * kk, s);
    vstd::arithmetic::div_mod::lemma_div_pos_is_pos(a * keep, s);
    vstd::arithmetic::div_mod::lemma_div_pos_is_pos(m * keep, s);
    let x = n * kk / s;
    let y = a * keep / s;
    let z = m * keep / s;
    assert(o.moved.raw == x);
    assert(o.auto.raw == y);
    assert(o.manual.raw == z);
    vstd::arithmetic::div_mod::lemma_fundamental_div_mod(n * kk, s);
    vstd::arithmetic::div_mod::lemma_fundamental_div_mod(a * keep, s);
    vstd::arithmetic::div_mod::lemma_fundamental_div_mod(m * keep, s);
    let r1 = (n * kk) % s;
    let r2 = (a * keep) % s;
    let r3 = (m * keep) % s;
    assert(n * kk + a * keep + m * keep == n * s) by (nonlinear_arith)
        requires
            n == a + m,
            keep == s - kk,
    ;
    let d = n - x - y - z;
    assert(d * s == r1 + r2 + r3) by (nonlinear_arith)
        requires
            n * kk == s * x + r1,
            a * keep == s * y + r2,
            m * keep == s * z + r3,
            n * kk + a * keep + m * keep == n * s,
            d == n - x - y - z,
    ;
    assert(0 <= d < 3) by (nonlinear_arith)
        requires
            d * s == r1 + r2 + r3,
            0 <= r1 < s,
            0 <= r2 < s,
            0 <= r3 < s,
            s > 0,
    ;
}

/// A tick whose simulated step is zero reports zero rates.
pub proof fn lemma_zero_dt_rates(s: Stocks, p: Params, millis: int)
    requires
        p.dt.raw == 0,
        millis > 0,
    ensures
        rates_spec(s, p, millis) == (Rates {
            loc_dt: fx_zero(),
            bugs_created_dt: fx_zero(),
            features_dt: fx_zero(),
        }),
{
    assert forall|a: Fixed| #[trigger] fx_mul(a, p.dt) == fx_zero() by {
        lemma_mul_by_zero(a, p.dt);
    }
    assert forall|b: Fixed| #[trigger] fx_mul(fx_zero(), b) == fx_zero() by {
        assert(0 * b.raw as int == 0);
    }
    assert(fx_min(s.bugs, conversion_capacity(s, p)).raw == 0);
    assert(fx_min(s.bugs, conversion_capacity(s, p)) == fx_zero());
}

/// Retirement conserves the senior population: what retired plus what
/// remains equals what was there, up to two raw units lost to rounding, and
/// both senior sub-counts decay by the same factor.
pub proof fn lemma_retirement_conserves(s: Stocks, p: Params)
    requires
        fx_mul(p.senior_devs_retirement_ratio_dt, p.dt).raw <= SCALE,
        s.senior_devs.raw + s.manual_senior_devs.raw + s.retired_devs.raw <= u128::MAX,
    ensures
        ({
            let t = after_retirement(s, p);
            let k = fx_mul(p.senior_devs_retirement_ratio_dt, p.dt);
            let before = s.senior_devs.raw + s.manual_senior_devs.raw;
            let after = (t.retired_devs.raw - s.retired_devs.raw) + t.senior_devs.raw
                + t.manual_senior_devs.raw;
            &&& after <= before
            &&& after + 2 >= before
            &&& t.senior_devs == fx_mul(s.senior_devs, fx_sub(fx_one(), k))
            &&& t.manual_senior_devs == fx_mul(s.manual_senior_devs, fx_sub(fx_one(), k))
        }),
{
    let k = fx_mul(p.senior_devs_retirement_ratio_dt, p.dt);
    lemma_outflow_conserves(s.senior_devs, s.manual_senior_devs, k);
}

/// Promoting junior devs conserves them: what moved to the senior auto
/// count plus what remains equals what was there, up to two raw units lost
/// to rounding; purchased seniors are untouched.
pub proof fn lemma_junior_promotion_conserves(s: Stocks, p: Params)
    requires
        fx_mul(p.junior_devs_promotion_ratio_dt, p.dt).raw <= SCALE,
        s.junior_devs.raw + s.manual_junior_devs.raw + s.senior_devs.raw <= u128::MAX,
    ensures
        ({
            let t = after_junior_promotion(s, p);
            let before = s.junior_devs.raw + s.manual_junior_devs.raw;
            let after = (t.senior_devs.raw - s.senior_devs.raw) + t.junior_devs.raw
                + t.manual_junior_devs.raw;
            &&& after <= before
            &&& after + 2 >= before
            &&& t.manual_senior_devs == s.manual_senior_devs
        }),
{
    let k = fx_mul(p.junior_devs_promotion_ratio_dt, p.dt);
    lemma_outflow_conserves(s.junior_devs, s.manual_junior_devs, k);
}

/// Promoting interns conserves them: what moved to the junior auto count
/// plus what remains equals what was there, up to two raw units lost to
/// rounding; purchased juniors are untouched.
pub proof fn lemma_intern_promotion_conserves(s: Stocks, p: Params)
    requires
        fx_mul(p.interns_promotion_ratio_dt, p.dt).raw <= SCALE,
        s.interns.raw + s.manual_interns.raw + s.junior_devs.raw <= u128::MAX,
    ensures
        ({
            let t = after_intern_promotion(s, p);
            let before = s.interns.raw + s.manual_interns.raw;
            let after = (t.junior_devs.raw - s.junior_devs.raw) + t.interns.raw
                + t.manual_interns.raw;
            &&& after <= before
            &&& after + 2 >= before
            &&& t.manual_junior_devs == s.manual_junior_devs
        }),
{
    let k = fx_mul(p.interns_promotion_ratio_dt, p.dt);
    lemma_outflow_conserves(s.interns, s.manual_interns, k);
}

} // verus!
