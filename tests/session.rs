use idle_loc::clock::SessionClock;
use idle_loc::constants::GameConstants;
use idle_loc::fixed::Fixed;
use idle_loc::ledger::{Cheat, Ledger, PurchaseError, Theme, Tier, UnlockError};
use idle_loc::research::Research;

fn rich_ledger() -> Ledger {
    let mut l = Ledger::default();
    l.code(0);
    for _ in 0..30 {
        l.cheat(Cheat::DoubleLoc);
    }
    l
}

#[test]
fn fresh_ledger() {
    let l = Ledger::new(GameConstants::default());
    assert!(l.is_researched(Research::Cheating));
    assert!(!l.is_researched(Research::Internship));
    assert_eq!(l.stocks().loc, Fixed::zero());
    assert_eq!(l.theme(), Theme::Light);
    assert_eq!(l.speedrun_start(), None);
    assert_eq!(l.log_text(), "");
    assert_eq!(l.elapsed_text(), "timer not started");
}

#[test]
fn code_click_adds_loc_and_bugs_and_starts_timer_once() {
    let mut l = Ledger::default();
    l.code(1500);
    l.code(2500);
    assert_eq!(l.stocks().loc, Fixed::from_int(2));
    assert_eq!(l.stocks().bugs, Fixed::from_int(2));
    assert_eq!(l.speedrun_start(), Some(1500));
}

#[test]
fn debug_click_never_goes_negative() {
    let mut l = Ledger::default();
    l.code(0);
    l.debug(10);
    l.debug(20);
    assert_eq!(l.stocks().bugs, Fixed::zero());
    assert_eq!(l.log_text(), "clicked on code button\nclicked on debug button\nclicked on debug button");
}

#[test]
fn purchase_needs_its_unlock() {
    let mut l = rich_ledger();
    let before = l.stocks();
    assert_eq!(l.purchase_tier(Tier::Intern, 1), Err(PurchaseError::PrerequisiteNotMet));
    assert_eq!(l.stocks(), before);
}

#[test]
fn purchase_needs_enough_loc() {
    let mut l = Ledger::default();
    for _ in 0..5 {
        l.code(0);
    }
    assert_eq!(l.unlock(Research::Internship), Ok(()));
    let before = l.stocks();
    assert_eq!(l.purchase_tier(Tier::Intern, 1), Err(PurchaseError::InsufficientResources));
    assert_eq!(l.stocks(), before);
}

#[test]
fn purchase_debits_price_read_before_buying() {
    let mut l = Ledger::default();
    for _ in 0..41 {
        l.code(0);
    }
    assert_eq!(l.unlock(Research::Internship), Ok(()));
    assert_eq!(l.stocks().loc, Fixed::from_int(40));
    assert_eq!(l.tier_cost(Tier::Intern, 1), Fixed::from_int(20));
    assert_eq!(l.purchase_tier(Tier::Intern, 1), Ok(()));
    assert_eq!(l.stocks().loc, Fixed::from_int(20));
    assert_eq!(l.stocks().manual_interns, Fixed::from_int(1));
    // the second intern costs 20 * 1.015
    assert_eq!(l.tier_cost(Tier::Intern, 1), Fixed::from_milli(20_300));
    assert_eq!(l.purchase_tier(Tier::Intern, 1), Err(PurchaseError::InsufficientResources));
}

#[test]
fn wipe_resets_loc_and_bugs() {
    let mut l = rich_ledger();
    assert_eq!(l.unlock(Research::Rmrf), Ok(()));
    assert_eq!(l.purchase_tier(Tier::Wipe, 1), Ok(()));
    assert_eq!(l.stocks().loc, Fixed::zero());
    assert_eq!(l.stocks().bugs, Fixed::zero());
}

#[test]
fn unlock_errors() {
    let mut l = Ledger::default();
    assert_eq!(l.unlock(Research::Internship), Err(UnlockError::InsufficientResources));
    l.code(0);
    assert_eq!(l.unlock(Research::JuniorDevsPosition), Err(UnlockError::PrerequisiteNotMet));
    assert!(!l.is_offered(Research::JuniorDevsPosition));
    assert_eq!(l.unlock(Research::Internship), Ok(()));
    assert_eq!(l.unlock(Research::Internship), Err(UnlockError::AlreadyUnlocked));
    assert_eq!(l.unlock(Research::Cheating), Err(UnlockError::AlreadyUnlocked));
    assert!(l.is_offered(Research::JuniorDevsPosition));
    assert_eq!(l.log_text(), "clicked on code button\nInternship researched");
}

#[test]
fn quests_form_a_chain() {
    let mut l = rich_ledger();
    assert_eq!(l.unlock(Research::FizzBuzz), Err(UnlockError::PrerequisiteNotMet));
    assert_eq!(l.unlock(Research::HelloWorld), Ok(()));
    assert_eq!(l.unlock(Research::FizzBuzz), Ok(()));
    assert!(l.is_researched(Research::FizzBuzz));
}

#[test]
fn unlock_effect_waits_for_the_next_tick() {
    let mut l = rich_ledger();
    assert_eq!(l.unlock(Research::Internship), Ok(()));
    assert_eq!(l.unlock(Research::SyntaxColoringMultiplier), Ok(()));
    assert_eq!(l.pending_effects(), 1);
    assert_eq!(l.params().interns_loc_dt, Fixed::from_int(1));
    l.tick_at(100, 100);
    assert_eq!(l.pending_effects(), 0);
    assert_eq!(l.params().interns_loc_dt, Fixed::from_int(2));
    l.tick_at(100, 200);
    assert_eq!(l.params().interns_loc_dt, Fixed::from_int(2));
}

#[test]
fn management_career_splits_retirement() {
    let mut l = rich_ledger();
    for id in [
        Research::Internship,
        Research::JuniorDevsPosition,
        Research::SeniorDevsPosition,
        Research::ProjectManagement,
        Research::ManagementCareer,
    ] {
        assert_eq!(l.unlock(id), Ok(()));
    }
    l.tick_at(100, 100);
    assert_eq!(l.params().senior_devs_retirement_ratio_dt, Fixed::from_milli(5));
    assert_eq!(l.params().senior_devs_management_ratio_dt, Fixed::from_milli(5));
}

#[test]
fn cheats_scale_their_field() {
    let mut l = Ledger::default();
    l.code(0);
    l.cheat(Cheat::DoubleLoc);
    assert_eq!(l.stocks().loc, Fixed::from_int(2));
    l.cheat(Cheat::HalveBugs);
    assert_eq!(l.stocks().bugs, Fixed::from_milli(500));
    l.cheat(Cheat::DoubleDt);
    assert_eq!(l.params().dt, Fixed::from_milli(20));
    l.cheat(Cheat::HalveDt);
    l.cheat(Cheat::HalveDt);
    assert_eq!(l.params().dt, Fixed::from_milli(5));
}

#[test]
fn tick_with_zero_dt_keeps_quantities() {
    let mut l = rich_ledger();
    assert_eq!(l.unlock(Research::Internship), Ok(()));
    assert_eq!(l.purchase_tier(Tier::Intern, 3), Ok(()));
    for _ in 0..40 {
        l.cheat(Cheat::HalveDt);
    }
    assert_eq!(l.params().dt, Fixed::zero());
    let before = l.stocks();
    l.tick_at(100, 5000);
    assert_eq!(l.stocks(), before);
    assert_eq!(l.current_time(), 5000);
}

#[test]
fn ticks_produce_from_bought_interns() {
    let mut l = Ledger::default();
    for _ in 0..21 {
        l.code(0);
    }
    assert_eq!(l.unlock(Research::Internship), Ok(()));
    assert_eq!(l.purchase_tier(Tier::Intern, 1), Ok(()));
    assert_eq!(l.stocks().loc, Fixed::zero());
    l.tick_at(100, 100);
    assert_eq!(l.stocks().loc, Fixed::from_milli(10));
    assert_eq!(l.rates().loc_dt, Fixed::from_milli(100));
}

#[test]
fn theme_toggles_once_unlocked() {
    let mut l = Ledger::default();
    l.toggle_theme();
    assert_eq!(l.theme(), Theme::Light);
    l.code(0);
    assert_eq!(l.unlock(Research::ToggleTheme), Ok(()));
    l.toggle_theme();
    assert_eq!(l.theme(), Theme::Dark);
    l.toggle_theme();
    assert_eq!(l.theme(), Theme::Light);
}

#[test]
fn log_keeps_the_last_five_messages() {
    let mut l = Ledger::default();
    l.code(0);
    for _ in 0..5 {
        l.cheat(Cheat::DoubleLoc);
    }
    assert_eq!(
        l.log_text(),
        "cheating loc...\ncheating loc...\ncheating loc...\ncheating loc...\ncheating loc..."
    );
}

#[test]
fn elapsed_time_since_first_click() {
    let mut l = Ledger::default();
    l.code(1_000);
    l.tick_at(100, 3_723_456 + 1_000);
    assert_eq!(l.elapsed_text(), "1:02:03.45");
}

#[test]
fn progress_of_the_ledger() {
    let mut l = Ledger::default();
    l.code(0);
    let target = GameConstants::default().quest_differentiation_loc_cost;
    assert_eq!(l.progress(target), Fixed::zero());
}

#[test]
fn tick_reads_the_session_clock() {
    let clock = SessionClock::start();
    let mut l = Ledger::default();
    l.tick(&clock, 100);
    let first = l.current_time();
    l.tick(&clock, 100);
    assert!(l.current_time() >= first);
}

#[test]
fn snapshot_copies_the_state() {
    let mut l = Ledger::default();
    l.code(42);
    let snap = l.snapshot();
    assert_eq!(snap.stocks, l.stocks());
    assert_eq!(snap.params, l.params());
    assert_eq!(snap.rates, l.rates());
    assert_eq!(snap.theme, Theme::Light);
    assert_eq!(snap.speedrun_start, Some(42));
    assert_eq!(snap.current_time, 0);
}
