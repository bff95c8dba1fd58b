//! The session ledger: every quantity, parameter, unlock and timer of one
//! game, and the intents (purchases, unlocks, cheats, clicks, ticks) that
//! change it.

use vstd::prelude::*;
use vstd::string::StringExecFns;
use crate::clock::SessionClock;
use crate::constants::{standard_constants, GameConstants};
use crate::cost::{purchase_cost, purchase_cost_spec};
use crate::engine::{
    advance, advance_stocks, apply_effects, lemma_effects_keep_dt, lemma_zero_dt_keeps_stocks,
    initial_params, lemma_zero_dt_rates, rates_spec, tick_rates, zero_stocks, Params, Rates,
    Stocks,
};
use crate::fixed::{fx, fx_add, fx_mul, fx_sub, fx_whole, fx_zero, Fixed, SCALE};
use crate::log::{log_push, EventLog};
use crate::research::{
    prerequisite, research_name, unlock_cost, unlock_effect, Effect, Research, ResearchSet,
};
use crate::speedrun::{clock_string, clock_text, progress, progress_spec};

verus! {

#[derive(Clone, Copy, Debug, PartialEq, Eq, Structural)]
pub enum Theme {
    Light,
    Dark,
}

/// A repeatable purchase.
#[derive(Clone, Copy, Debug, PartialEq, Eq, Structural)]
pub enum Tier {
    Intern,
    JuniorDev,
    SeniorDev,
    Hr,
    Pm,
    /// Wipes all lines of code and bugs, for free.
    Wipe,
}

/// A debugging shortcut, available while the cheating unlock is held.
#[derive(Clone, Copy, Debug, PartialEq, Eq, Structural)]
pub enum Cheat {
    DoubleLoc,
    HalveBugs,
    DoubleInterns,
    DoubleJuniorDevs,
    DoubleSeniorDevs,
    DoubleDt,
    HalveDt,
}

#[derive(Clone, Copy, Debug, PartialEq, Eq, Structural)]
pub enum PurchaseError {
    PrerequisiteNotMet,
    InsufficientResources,
}

#[derive(Clone, Copy, Debug, PartialEq, Eq, Structural)]
pub enum UnlockError {
    AlreadyUnlocked,
    PrerequisiteNotMet,
    InsufficientResources,
}

/// The mathematical content of a ledger.
pub ghost struct LedgerView {
    pub constants: GameConstants,
    pub stocks: Stocks,
    pub params: Params,
    pub rates: Rates,
    pub researched: Set<Research>,
    pub pending: Seq<Effect>,
    pub log: Seq<Seq<char>>,
    pub theme: Theme,
    pub speedrun_start: Option<u64>,
    pub current_time: u64,
}

/// A copy of the ledger's quantities, rates and timers, for rendering.
#[derive(Clone, Copy, Debug, PartialEq, Eq, Structural)]
pub struct Snapshot {
    pub stocks: Stocks,
    pub params: Params,
    pub rates: Rates,
    pub theme: Theme,
    pub speedrun_start: Option<u64>,
    pub current_time: u64,
}

pub struct Ledger {
    constants: GameConstants,
    stocks: Stocks,
    params: Params,
    rates: Rates,
    researched: ResearchSet,
    pending: Vec<Effect>,
    log: EventLog,
    theme: Theme,
    speedrun_start: Option<u64>,
    current_time: u64,
}

impl View for Ledger {
    type V = LedgerView;

    closed spec fn view(&self) -> LedgerView {
        LedgerView {
            constants: self.constants,
            stocks: self.stocks,
            params: self.params,
            rates: self.rates,
            researched: self.researched@,
            pending: self.pending@,
            log: self.log@,
            theme: self.theme,
            speedrun_start: self.speedrun_start,
            current_time: self.current_time,
        }
    }
}

// ---------------------------------------------------------------------------
// What each intent does, stated over the view

pub open spec fn zero_rates() -> Rates {
    Rates { loc_dt: fx_zero(), bugs_created_dt: fx_zero(), features_dt: fx_zero() }
}

pub open spec fn initial_view(c: GameConstants) -> LedgerView {
    LedgerView {
        constants: c,
        stocks: zero_stocks(),
        params: initial_params(c),
        rates: zero_rates(),
        researched: Set::empty().insert(Research::Cheating),
        pending: Seq::empty(),
        log: Seq::empty(),
        theme: Theme::Light,
        speedrun_start: None,
        current_time: 0,
    }
}

/// One tick of `millis` real milliseconds, ending at time `now`: queued
/// effects are applied first, then the quantities advance.
pub open spec fn ticked(v: LedgerView, millis: int, now: u64) -> LedgerView {
    let p = apply_effects(v.params, v.pending);
    LedgerView {
        params: p,
        pending: Seq::empty(),
        stocks: advance(
            v.stocks,
            p,
            v.researched.contains(Research::JuniorDevsPromotion),
            v.researched.contains(Research::InternsPromotion),
        ),
        rates: rates_spec(v.stocks, p, millis),
        current_time: now,
        ..v
    }
}

/// A tick taken while the simulated step is zero changes no resource or
/// population quantity and no unlock, reports zero rates, and moves the
/// clock reading; with no effect queued, no parameter changes either.
pub proof fn lemma_zero_dt_tick(v: LedgerView, millis: int, now: u64)
    requires
        v.params.dt.raw == 0,
        millis > 0,
    ensures
        ticked(v, millis, now).stocks == v.stocks,
        ticked(v, millis, now).rates == zero_rates(),
        ticked(v, millis, now).researched == v.researched,
        ticked(v, millis, now).current_time == now,
        v.pending.len() == 0 ==> ticked(v, millis, now).params == v.params,
{
    lemma_zero_dt_keeps_stocks(
        v.stocks,
        v.params,
        v.pending,
        v.researched.contains(Research::JuniorDevsPromotion),
        v.researched.contains(Research::InternsPromotion),
    );
    lemma_effects_keep_dt(v.params, v.pending);
    lemma_zero_dt_rates(v.stocks, apply_effects(v.params, v.pending), millis);
}

/// The timer starts at the first productive action and is never restarted.
pub open spec fn started(v: LedgerView, now: u64) -> Option<u64> {
    if v.speedrun_start is None {
        Some(now)
    } else {
        v.speedrun_start
    }
}

pub open spec fn coded(v: LedgerView, now: u64) -> LedgerView {
    let p = v.params;
    LedgerView {
        stocks: Stocks {
            loc: fx_add(v.stocks.loc, p.loc_per_clicks),
            bugs: fx_add(v.stocks.bugs, fx_mul(p.loc_per_clicks, p.manual_bugs_ratio)),
            ..v.stocks
        },
        log: log_push(v.log, "clicked on code button"@),
        speedrun_start: started(v, now),
        ..v
    }
}

pub open spec fn debugged(v: LedgerView, now: u64) -> LedgerView {
    LedgerView {
        stocks: Stocks { bugs: fx_sub(v.stocks.bugs, v.params.debug_per_clicks), ..v.stocks },
        log: log_push(v.log, "clicked on debug button"@),
        speedrun_start: started(v, now),
        ..v
    }
}

/// The unlock a tier needs before it can be bought.
pub open spec fn tier_requirement(t: Tier) -> Research {
    match t {
        Tier::Intern => Research::Internship,
        Tier::JuniorDev => Research::JuniorDevsPosition,
        Tier::SeniorDev => Research::SeniorDevsPosition,
        Tier::Hr => Research::HumanResources,
        Tier::Pm => Research::ProjectManagement,
        Tier::Wipe => Research::Rmrf,
    }
}

pub open spec fn tier_base_cost(c: GameConstants, t: Tier) -> Fixed {
    match t {
        Tier::Intern => c.interns_loc_base_cost,
        Tier::JuniorDev => c.junior_devs_loc_base_cost,
        Tier::SeniorDev => c.senior_devs_loc_base_cost,
        Tier::Hr => c.hrs_loc_base_cost,
        Tier::Pm => c.pms_loc_base_cost,
        Tier::Wipe => fx_zero(),
    }
}

pub open spec fn tier_growth_rate(c: GameConstants, t: Tier) -> Fixed {
    match t {
        Tier::Intern => c.interns_loc_growth_rate,
        Tier::JuniorDev => c.junior_devs_loc_growth_rate,
        Tier::SeniorDev => c.senior_devs_loc_growth_rate,
        Tier::Hr => c.hrs_loc_growth_rate,
        Tier::Pm => c.pms_loc_growth_rate,
        Tier::Wipe => Fixed { raw: SCALE },
    }
}

/// The manually purchased sub-count of a tier.
pub open spec fn manual_count(s: Stocks, t: Tier) -> Fixed {
    match t {
        Tier::Intern => s.manual_interns,
        Tier::JuniorDev => s.manual_junior_devs,
        Tier::SeniorDev => s.manual_senior_devs,
        Tier::Hr => s.manual_hrs,
        Tier::Pm => s.manual_pms,
        Tier::Wipe => fx_zero(),
    }
}

/// Whole units held, the count that pricing starts from.
pub open spec fn owned_units(x: Fixed) -> nat {
    if fx_whole(x) > u64::MAX {
        u64::MAX as nat
    } else {
        fx_whole(x) as nat
    }
}

/// The price of `units` more units of a tier, read before buying them.
pub open spec fn tier_cost_spec(v: LedgerView, t: Tier, units: nat) -> Fixed {
    purchase_cost_spec(
        tier_base_cost(v.constants, t),
        tier_growth_rate(v.constants, t),
        owned_units(manual_count(v.stocks, t)),
        units,
    )
}

/// The quantities once `units` units of a tier have been added.
pub open spec fn with_units(s: Stocks, t: Tier, units: nat) -> Stocks {
    let n = fx(units * SCALE);
    match t {
        Tier::Intern => Stocks { manual_interns: fx_add(s.manual_interns, n), ..s },
        Tier::JuniorDev => Stocks { manual_junior_devs: fx_add(s.manual_junior_devs, n), ..s },
        Tier::SeniorDev => Stocks { manual_senior_devs: fx_add(s.manual_senior_devs, n), ..s },
        Tier::Hr => Stocks { manual_hrs: fx_add(s.manual_hrs, n), ..s },
        Tier::Pm => Stocks { manual_pms: fx_add(s.manual_pms, n), ..s },
        Tier::Wipe => Stocks { loc: fx_zero(), bugs: fx_zero(), ..s },
    }
}

pub open spec fn tier_message(t: Tier) -> Seq<char> {
    match t {
        Tier::Intern => "hire intern"@,
        Tier::JuniorDev => "hire junior devs"@,
        Tier::SeniorDev => "hire senior devs"@,
        Tier::Hr => "hire HR"@,
        Tier::Pm => "hire PM"@,
        Tier::Wipe => "rm -rf"@,
    }
}

pub open spec fn purchase_outcome(v: LedgerView, t: Tier, units: nat) -> Result<(), PurchaseError> {
    if !v.researched.contains(tier_requirement(t)) {
        Err(PurchaseError::PrerequisiteNotMet)
    } else if v.stocks.loc.raw < tier_cost_spec(v, t, units).raw {
        Err(PurchaseError::InsufficientResources)
    } else {
        Ok(())
    }
}

pub open spec fn purchased(v: LedgerView, t: Tier, units: nat) -> LedgerView {
    LedgerView {
        stocks: with_units(
            Stocks { loc: fx_sub(v.stocks.loc, tier_cost_spec(v, t, units)), ..v.stocks },
            t,
            units,
        ),
        log: log_push(v.log, tier_message(t)),
        ..v
    }
}

/// Whether an unlock can be offered: not yet held, and its prerequisite is.
pub open spec fn offered(v: LedgerView, id: Research) -> bool {
    &&& !v.researched.contains(id)
    &&& match prerequisite(id) {
        Some(p) => v.researched.contains(p),
        None => true,
    }
}

pub open spec fn unlock_outcome(v: LedgerView, id: Research) -> Result<(), UnlockError> {
    if v.researched.contains(id) {
        Err(UnlockError::AlreadyUnlocked)
    } else if !offered(v, id) {
        Err(UnlockError::PrerequisiteNotMet)
    } else if v.stocks.loc.raw < unlock_cost(v.constants, id).raw {
        Err(UnlockError::InsufficientResources)
    } else {
        Ok(())
    }
}

pub open spec fn unlocked(v: LedgerView, id: Research) -> LedgerView {
    LedgerView {
        stocks: Stocks { loc: fx_sub(v.stocks.loc, unlock_cost(v.constants, id)), ..v.stocks },
        researched: v.researched.insert(id),
        pending: match unlock_effect(v.constants, id) {
            Some(e) => v.pending.push(e),
            None => v.pending,
        },
        log: log_push(v.log, research_name(id) + " researched"@),
        ..v
    }
}

pub open spec fn cheat_factor(k: Cheat) -> Fixed {
    match k {
        Cheat::HalveBugs | Cheat::HalveDt => Fixed { raw: 500_000_000 },
        _ => Fixed { raw: 2_000_000_000 },
    }
}

pub open spec fn cheat_message(k: Cheat) -> Seq<char> {
    match k {
        Cheat::DoubleLoc => "cheating loc..."@,
        Cheat::HalveBugs => "cheating debug..."@,
        Cheat::DoubleInterns => "cheating interns..."@,
        Cheat::DoubleJuniorDevs => "cheating junior devs..."@,
        Cheat::DoubleSeniorDevs => "cheating senior devs..."@,
        Cheat::DoubleDt => "cheating dt faster"@,
        Cheat::HalveDt => "cheating dt slower"@,
    }
}

pub open spec fn cheated(v: LedgerView, k: Cheat) -> LedgerView {
    let f = cheat_factor(k);
    let s = v.stocks;
    let p = v.params;
    LedgerView {
        stocks: match k {
            Cheat::DoubleLoc => Stocks { loc: fx_mul(s.loc, f), ..s },
            Cheat::HalveBugs => Stocks { bugs: fx_mul(s.bugs, f), ..s },
            Cheat::DoubleInterns => Stocks { interns: fx_mul(s.interns, f), ..s },
            Cheat::DoubleJuniorDevs => Stocks { junior_devs: fx_mul(s.junior_devs, f), ..s },
            Cheat::DoubleSeniorDevs => Stocks { senior_devs: fx_mul(s.senior_devs, f), ..s },
            _ => s,
        },
        params: match k {
            Cheat::DoubleDt | Cheat::HalveDt => Params { dt: fx_mul(p.dt, f), ..p },
            _ => p,
        },
        log: log_push(v.log, cheat_message(k)),
        ..v
    }
}

pub open spec fn toggled(v: LedgerView) -> LedgerView {
    match v.theme {
        Theme::Light => LedgerView {
            theme: Theme::Dark,
            log: log_push(v.log, "toggling theme...now dark"@),
            ..v
        },
        Theme::Dark => LedgerView {
            theme: Theme::Light,
            log: log_push(v.log, "toggling theme...now light"@),
            ..v
        },
    }
}

/// The elapsed-time display.
pub open spec fn elapsed_spec(v: LedgerView) -> Seq<char> {
    match v.speedrun_start {
        None => "timer not started"@,
        Some(start) => clock_text(
            if v.current_time >= start {
                (v.current_time - start) as nat
            } else {
                0
            },
        ),
    }
}

impl Tier {
    pub fn requirement(self) -> (r: Research)
        ensures
            r == tier_requirement(self),
    {
        match self {
            Tier::Intern => Research::Internship,
            Tier::JuniorDev => Research::JuniorDevsPosition,
            Tier::SeniorDev => Research::SeniorDevsPosition,
            Tier::Hr => Research::HumanResources,
            Tier::Pm => Research::ProjectManagement,
            Tier::Wipe => Research::Rmrf,
        }
    }

    /// Base cost and growth rate of the tier.
    pub fn pricing(self, c: &GameConstants) -> (r: (Fixed, Fixed))
        ensures
            r.0 == tier_base_cost(*c, self),
            r.1 == tier_growth_rate(*c, self),
    {
        match self {
            Tier::Intern => (c.interns_loc_base_cost, c.interns_loc_growth_rate),
            Tier::JuniorDev => (c.junior_devs_loc_base_cost, c.junior_devs_loc_growth_rate),
            Tier::SeniorDev => (c.senior_devs_loc_base_cost, c.senior_devs_loc_growth_rate),
            Tier::Hr => (c.hrs_loc_base_cost, c.hrs_loc_growth_rate),
            Tier::Pm => (c.pms_loc_base_cost, c.pms_loc_growth_rate),
            Tier::Wipe => (Fixed::zero(), Fixed::one()),
        }
    }

    pub fn message(self) -> (r: String)
        ensures
            r@ == tier_message(self),
    {
        let text = match self {
            Tier::Intern => "hire intern",
            Tier::JuniorDev => "hire junior devs",
            Tier::SeniorDev => "hire senior devs",
            Tier::Hr => "hire HR",
            Tier::Pm => "hire PM",
            Tier::Wipe => "rm -rf",
        };
        String::from_str(text)
    }
}

impl Cheat {
    pub fn factor(self) -> (r: Fixed)
        ensures
            r == cheat_factor(self),
    {
        match self {
            Cheat::HalveBugs | Cheat::HalveDt => Fixed::from_raw(500_000_000),
            _ => Fixed::from_raw(2_000_000_000),
        }
    }

    pub fn message(self) -> (r: String)
        ensures
            r@ == cheat_message(self),
    {
        let text = match self {
            Cheat::DoubleLoc => "cheating loc...",
            Cheat::HalveBugs => "cheating debug...",
            Cheat::DoubleInterns => "cheating interns...",
            Cheat::DoubleJuniorDevs => "cheating junior devs...",
            Cheat::DoubleSeniorDevs => "cheating senior devs...",
            Cheat::DoubleDt => "cheating dt faster",
            Cheat::HalveDt => "cheating dt slower",
        };
        String::from_str(text)
    }
}

fn manual_count_of(s: &Stocks, t: Tier) -> (r: Fixed)
    ensures
        r == manual_count(*s, t),
{
    match t {
        Tier::Intern => s.manual_interns,
        Tier::JuniorDev => s.manual_junior_devs,
        Tier::SeniorDev => s.manual_senior_devs,
        Tier::Hr => s.manual_hrs,
        Tier::Pm => s.manual_pms,
        Tier::Wipe => Fixed::zero(),
    }
}

fn add_units(s: Stocks, t: Tier, units: u64) -> (r: Stocks)
    ensures
        r == with_units(s, t, units as nat),
{
    let n = Fixed::from_int(units);
    let mut r = s;
    match t {
        Tier::Intern => r.manual_interns = r.manual_interns.add(n),
        Tier::JuniorDev => r.manual_junior_devs = r.manual_junior_devs.add(n),
        Tier::SeniorDev => r.manual_senior_devs = r.manual_senior_devs.add(n),
        Tier::Hr => r.manual_hrs = r.manual_hrs.add(n),
        Tier::Pm => r.manual_pms = r.manual_pms.add(n),
        Tier::Wipe => {
            r.loc = Fixed::zero();
            r.bugs = Fixed::zero();
        },
    }
    r
}

impl Ledger {
    pub closed spec fn wf(&self) -> bool {
        self.log.wf()
    }

    /// A fresh session: nothing owned, the cheating unlock held.
    pub fn new(constants: GameConstants) -> (r: Ledger)
        ensures
            r.wf(),
            r@ == initial_view(constants),
    {
        let mut researched = ResearchSet::new();
        researched.insert(Research::Cheating);
        Ledger {
            constants,
            stocks: Stocks::zero(),
            params: Params::from_constants(&constants),
            rates: Rates {
                loc_dt: Fixed::zero(),
                bugs_created_dt: Fixed::zero(),
                features_dt: Fixed::zero(),
            },
            researched,
            pending: Vec::new(),
            log: EventLog::new(),
            theme: Theme::Light,
            speedrun_start: None,
            current_time: 0,
        }
    }

    // -- reading ------------------------------------------------------------

    pub fn snapshot(&self) -> (r: Snapshot)
        ensures
            r.stocks == self@.stocks,
            r.params == self@.params,
            r.rates == self@.rates,
            r.theme == self@.theme,
            r.speedrun_start == self@.speedrun_start,
            r.current_time == self@.current_time,
    {
        Snapshot {
            stocks: self.stocks,
            params: self.params,
            rates: self.rates,
            theme: self.theme,
            speedrun_start: self.speedrun_start,
            current_time: self.current_time,
        }
    }

    pub fn constants(&self) -> (r: GameConstants)
        ensures
            r == self@.constants,
    {
        self.constants
    }

    pub fn stocks(&self) -> (r: Stocks)
        ensures
            r == self@.stocks,
    {
        self.stocks
    }

    pub fn params(&self) -> (r: Params)
        ensures
            r == self@.params,
    {
        self.params
    }

    pub fn rates(&self) -> (r: Rates)
        ensures
            r == self@.rates,
    {
        self.rates
    }

    pub fn theme(&self) -> (r: Theme)
        ensures
            r == self@.theme,
    {
        self.theme
    }

    pub fn speedrun_start(&self) -> (r: Option<u64>)
        ensures
            r == self@.speedrun_start,
    {
        self.speedrun_start
    }

    pub fn current_time(&self) -> (r: u64)
        ensures
            r == self@.current_time,
    {
        self.current_time
    }

    pub fn pending_effects(&self) -> (r: usize)
        ensures
            r == self@.pending.len(),
    {
        self.pending.len()
    }

    pub fn is_researched(&self, id: Research) -> (r: bool)
        ensures
            r == self@.researched.contains(id),
    {
        self.researched.contains(id)
    }

    /// Whether the unlock should be presented: not held yet, and its
    /// prerequisite is.
    pub fn is_offered(&self, id: Research) -> (r: bool)
        ensures
            r == offered(self@, id),
    {
        if self.researched.contains(id) {
            return false;
        }
        match id.prerequisite() {
            Some(p) => self.researched.contains(p),
            None => true,
        }
    }

    /// The log's messages, oldest first, one per line.
    pub fn log_text(&self) -> (r: String)
        ensures
            r@ == crate::log::joined(self@.log),
    {
        self.log.render()
    }

    /// Progress of the lines of code towards `target`, between zero and one.
    pub fn progress(&self, target: Fixed) -> (r: Fixed)
        ensures
            r == progress_spec(self@.stocks.loc, target),
            r.raw <= SCALE,
    {
        progress(self.stocks.loc, target)
    }

    /// Time since the first productive action, as `H:MM:SS.CC`.
    pub fn elapsed_text(&self) -> (r: String)
        ensures
            r@ == elapsed_spec(self@),
    {
        match self.speedrun_start {
            None => String::from_str("timer not started"),
            Some(start) => {
                let ms = if self.current_time >= start {
                    self.current_time - start
                } else {
                    0
                };
                clock_string(ms)
            },
        }
    }

    /// The price of `units` more units of a tier at the current count.
    pub fn tier_cost(&self, tier: Tier, units: u64) -> (r: Fixed)
        ensures
            r == tier_cost_spec(self@, tier, units as nat),
    {
        let (base, rate) = tier.pricing(&self.constants);
        let owned = manual_count_of(&self.stocks, tier).whole();
        purchase_cost(base, rate, owned, units)
    }

    // -- intents ------------------------------------------------------------

    fn start_timer(&mut self, now: u64)
        ensures
            *final(self) == (Ledger { speedrun_start: started(old(self)@, now), ..*old(self) }),
    {
        if self.speedrun_start.is_none() {
            self.speedrun_start = Some(now);
        }
    }

    /// A manual "code" click at time `now`.
    pub fn code(&mut self, now: u64)
        requires
            old(self).wf(),
        ensures
            final(self).wf(),
            final(self)@ == coded(old(self)@, now),
    {
        let added = self.params.loc_per_clicks;
        self.stocks.loc = self.stocks.loc.add(added);
        self.stocks.bugs = self.stocks.bugs.add(added.mul(self.params.manual_bugs_ratio));
        self.log.log(String::from_str("clicked on code button"));
        self.start_timer(now);
    }

    /// A manual "debug" click at time `now`.
    pub fn debug(&mut self, now: u64)
        requires
            old(self).wf(),
        ensures
            final(self).wf(),
            final(self)@ == debugged(old(self)@, now),
    {
        self.stocks.bugs = self.stocks.bugs.sub(self.params.debug_per_clicks);
        self.log.log(String::from_str("clicked on debug button"));
        self.start_timer(now);
    }

    /// Buys `units` units of a tier. The price is read before the count
    /// changes; nothing changes on failure.
    pub fn purchase_tier(&mut self, tier: Tier, units: u64) -> (r: Result<(), PurchaseError>)
        requires
            old(self).wf(),
        ensures
            final(self).wf(),
            r == purchase_outcome(old(self)@, tier, units as nat),
            r is Ok ==> final(self)@ == purchased(old(self)@, tier, units as nat),
            r is Err ==> final(self)@ == old(self)@,
    {
        if !self.researched.contains(tier.requirement()) {
            return Err(PurchaseError::PrerequisiteNotMet);
        }
        let cost = self.tier_cost(tier, units);
        if self.stocks.loc.lt(cost) {
            return Err(PurchaseError::InsufficientResources);
        }
        let mut s = self.stocks;
        s.loc = s.loc.sub(cost);
        self.stocks = add_units(s, tier, units);
        self.log.log(tier.message());
        Ok(())
    }

    /// Buys a one-time unlock and queues its effect for the next tick.
    pub fn unlock(&mut self, id: Research) -> (r: Result<(), UnlockError>)
        requires
            old(self).wf(),
        ensures
            final(self).wf(),
            r == unlock_outcome(old(self)@, id),
            r is Ok ==> final(self)@ == unlocked(old(self)@, id),
            r is Err ==> final(self)@ == old(self)@,
    {
        if self.researched.contains(id) {
            return Err(UnlockError::AlreadyUnlocked);
        }
        if !self.is_offered(id) {
            return Err(UnlockError::PrerequisiteNotMet);
        }
        let cost = id.cost(&self.constants);
        if self.stocks.loc.lt(cost) {
            return Err(UnlockError::InsufficientResources);
        }
        self.stocks.loc = self.stocks.loc.sub(cost);
        self.researched.insert(id);
        match id.effect(&self.constants) {
            Some(e) => self.pending.push(e),
            None => {},
        }
        let message = String::from_str(id.name()).concat(" researched");
        self.log.log(message);
        Ok(())
    }

    /// Applies a cheat; does nothing unless the cheating unlock is held.
    pub fn cheat(&mut self, kind: Cheat)
        requires
            old(self).wf(),
        ensures
            final(self).wf(),
            old(self)@.researched.contains(Research::Cheating) ==> final(self)@ == cheated(
                old(self)@,
                kind,
            ),
            !old(self)@.researched.contains(Research::Cheating) ==> final(self)@ == old(self)@,
    {
        if !self.researched.contains(Research::Cheating) {
            return;
        }
        let f = kind.factor();
        match kind {
            Cheat::DoubleLoc => self.stocks.loc = self.stocks.loc.mul(f),
            Cheat::HalveBugs => self.stocks.bugs = self.stocks.bugs.mul(f),
            Cheat::DoubleInterns => self.stocks.interns = self.stocks.interns.mul(f),
            Cheat::DoubleJuniorDevs => self.stocks.junior_devs = self.stocks.junior_devs.mul(f),
            Cheat::DoubleSeniorDevs => self.stocks.senior_devs = self.stocks.senior_devs.mul(f),
            Cheat::DoubleDt | Cheat::HalveDt => self.params.dt = self.params.dt.mul(f),
        }
        self.log.log(kind.message());
    }

    /// Switches between the light and dark themes; does nothing unless the
    /// theme unlock is held.
    pub fn toggle_theme(&mut self)
        requires
            old(self).wf(),
        ensures
            final(self).wf(),
            old(self)@.researched.contains(Research::ToggleTheme) ==> final(self)@ == toggled(
                old(self)@,
            ),
            !old(self)@.researched.contains(Research::ToggleTheme) ==> final(self)@ == old(
                self,
            )@,
    {
        if !self.researched.contains(Research::ToggleTheme) {
            return;
        }
        match self.theme {
            Theme::Light => {
                self.theme = Theme::Dark;
                self.log.log(String::from_str("toggling theme...now dark"));
            },
            Theme::Dark => {
                self.theme = Theme::Light;
                self.log.log(String::from_str("toggling theme...now light"));
            },
        }
    }

    /// Advances the session by one tick of `millis` real milliseconds that
    /// ends at time `now`.
    pub fn tick_at(&mut self, millis: u64, now: u64)
        requires
            old(self).wf(),
            millis > 0,
        ensures
            final(self).wf(),
            final(self)@ == ticked(old(self)@, millis as int, now),
    {
        let p = self.params.apply_all(&self.pending);
        self.params = p;
        self.pending = Vec::new();
        let promote_juniors = self.researched.contains(Research::JuniorDevsPromotion);
        let promote_interns = self.researched.contains(Research::InternsPromotion);
        self.rates = tick_rates(&self.stocks, &p, millis);
        self.stocks = advance_stocks(self.stocks, &p, promote_juniors, promote_interns);
        self.current_time = now;
        assert(self@.pending =~= Seq::<Effect>::empty());
    }

    /// Advances the session by one tick of `millis` real milliseconds,
    /// reading the time from the session clock.
    pub fn tick(&mut self, clock: &SessionClock, millis: u64)
        requires
            old(self).wf(),
            millis > 0,
        ensures
            final(self).wf(),
            exists|now: u64| final(self)@ == ticked(old(self)@, millis as int, now),
    {
        let now = clock.now_millis();
        self.tick_at(millis, now);
    }
}

impl Default for Ledger {
    /// A fresh session on the standard parameter table.
    fn default() -> (r: Ledger)
        ensures
            r.wf(),
            r@ == initial_view(standard_constants()),
    {
        Ledger::new(GameConstants::default())
    }
}

} // verus!
