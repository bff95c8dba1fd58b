//! The one-time unlocks (researches and quests): their prerequisites, their
//! costs, their deferred effects, and the set of unlocks already obtained.

use vstd::prelude::*;
use crate::constants::GameConstants;
use crate::fixed::Fixed;

verus! {

/// Identifier of a one-time unlock.
#[derive(Clone, Copy, Debug, PartialEq, Eq, Hash, Structural)]
pub enum Research {
    Bacteria,
    Browser,
    Calculator,
    Cheating,
    Climate,
    CodeMetrics,
    Differentiation,
    Earth,
    Economy,
    FizzBuzz,
    GameOfLife,
    HelloWorld,
    HumanBrain,
    HumanResources,
    Internship,
    InternsPromotion,
    JuniorDevsPosition,
    JuniorDevsPromotion,
    Kernel,
    Logs,
    ManagementCareer,
    Mouse,
    PhysicsEngine,
    ProjectManagement,
    RecursiveHR,
    Rmrf,
    SeniorDevsPosition,
    SmartStaffing,
    SolarSystem,
    Speedrun,
    SyntaxColoringMultiplier,
    TextEditor,
    ToggleTheme,
    Universe,
}

/// A parameter change that an unlock schedules for the next tick.
#[derive(Clone, Copy, Debug, PartialEq, Eq, Structural)]
pub enum Effect {
    /// Multiply the interns' production rate by the factor.
    ScaleInternsOutput(Fixed),
    /// Move the given share of the retirement ratio to the management ratio.
    SplitRetirement(Fixed),
}

/// What an unlock needs before it can be bought.
pub open spec fn prerequisite(id: Research) -> Option<Research> {
    match id {
        Research::Bacteria => Some(Research::PhysicsEngine),
        Research::Browser => Some(Research::Bacteria),
        Research::Calculator => Some(Research::FizzBuzz),
        Research::Cheating => None,
        Research::Climate => Some(Research::Economy),
        Research::CodeMetrics => None,
        Research::Differentiation => Some(Research::Universe),
        Research::Earth => Some(Research::Climate),
        Research::Economy => Some(Research::HumanBrain),
        Research::FizzBuzz => Some(Research::HelloWorld),
        Research::GameOfLife => Some(Research::Calculator),
        Research::HelloWorld => None,
        Research::HumanBrain => Some(Research::Mouse),
        Research::HumanResources => Some(Research::SeniorDevsPosition),
        Research::Internship => None,
        Research::InternsPromotion => Some(Research::JuniorDevsPosition),
        Research::JuniorDevsPosition => Some(Research::Internship),
        Research::JuniorDevsPromotion => Some(Research::SeniorDevsPosition),
        Research::Kernel => Some(Research::Browser),
        Research::Logs => None,
        Research::ManagementCareer => Some(Research::ProjectManagement),
        Research::Mouse => Some(Research::Kernel),
        Research::PhysicsEngine => Some(Research::TextEditor),
        Research::ProjectManagement => Some(Research::SeniorDevsPosition),
        Research::RecursiveHR => Some(Research::HumanResources),
        Research::Rmrf => None,
        Research::SeniorDevsPosition => Some(Research::JuniorDevsPosition),
        Research::SmartStaffing => Some(Research::HumanResources),
        Research::SolarSystem => Some(Research::Earth),
        Research::Speedrun => None,
        Research::SyntaxColoringMultiplier => Some(Research::Internship),
        Research::TextEditor => Some(Research::GameOfLife),
        Research::ToggleTheme => None,
        Research::Universe => Some(Research::SolarSystem),
    }
}

/// The price of an unlock, read from the parameter table. The cheating
/// unlock is held from the start and costs nothing.
pub open spec fn unlock_cost(c: GameConstants, id: Research) -> Fixed {
    match id {
        Research::Bacteria => c.quest_bacteria_loc_cost,
        Research::Browser => c.quest_browser_loc_cost,
        Research::Calculator => c.quest_calculator_loc_cost,
        Research::Cheating => Fixed { raw: 0 },
        Research::Climate => c.quest_climate_loc_cost,
        Research::CodeMetrics => c.research_code_metrics_loc_cost,
        Research::Differentiation => c.quest_differentiation_loc_cost,
        Research::Earth => c.quest_earth_loc_cost,
        Research::Economy => c.quest_economy_loc_cost,
        Research::FizzBuzz => c.quest_fizz_buzz_loc_cost,
        Research::GameOfLife => c.quest_game_of_life_loc_cost,
        Research::HelloWorld => c.quest_hello_world_loc_cost,
        Research::HumanBrain => c.quest_human_brain_loc_cost,
        Research::HumanResources => c.research_human_resources_loc_cost,
        Research::Internship => c.research_internship_loc_cost,
        Research::InternsPromotion => c.research_interns_promotion_loc_cost,
        Research::JuniorDevsPosition => c.research_junior_devs_position_loc_cost,
        Research::JuniorDevsPromotion => c.research_junior_devs_promotion_loc_cost,
        Research::Kernel => c.quest_kernel_loc_cost,
        Research::Logs => c.research_logs_loc_cost,
        Research::ManagementCareer => c.research_management_career_loc_cost,
        Research::Mouse => c.quest_mouse_loc_cost,
        Research::PhysicsEngine => c.quest_physics_engine_loc_cost,
        Research::ProjectManagement => c.research_project_management_loc_cost,
        Research::RecursiveHR => c.research_recursive_hr_loc_cost,
        Research::Rmrf => c.research_rmrf_loc_cost,
        Research::SeniorDevsPosition => c.research_senior_devs_position_loc_cost,
        Research::SmartStaffing => c.research_smart_staffing_loc_cost,
        Research::SolarSystem => c.quest_solar_system_loc_cost,
        Research::Speedrun => c.research_speedrun_loc_cost,
        Research::SyntaxColoringMultiplier => c.research_syntax_coloring_multiplier_loc_cost,
        Research::TextEditor => c.quest_text_editor_loc_cost,
        Research::ToggleTheme => c.research_toggle_theme_loc_cost,
        Research::Universe => c.quest_universe_loc_cost,
    }
}

/// The deferred effect that an unlock schedules, if any.
pub open spec fn unlock_effect(c: GameConstants, id: Research) -> Option<Effect> {
    match id {
        Research::SyntaxColoringMultiplier => Some(
            Effect::ScaleInternsOutput(c.research_syntax_coloring_multiplier),
        ),
        Research::ManagementCareer => Some(
            Effect::SplitRetirement(c.senior_devs_management_career_ratio),
        ),
        _ => None,
    }
}

/// The unlock's name, as shown in messages.
pub open spec fn research_name(id: Research) -> Seq<char> {
    match id {
        Research::Bacteria => "Bacteria"@,
        Research::Browser => "Browser"@,
        Research::Calculator => "Calculator"@,
        Research::Cheating => "Cheating"@,
        Research::Climate => "Climate"@,
        Research::CodeMetrics => "CodeMetrics"@,
        Research::Differentiation => "Differentiation"@,
        Research::Earth => "Earth"@,
        Research::Economy => "Economy"@,
        Research::FizzBuzz => "FizzBuzz"@,
        Research::GameOfLife => "GameOfLife"@,
        Research::HelloWorld => "HelloWorld"@,
        Research::HumanBrain => "HumanBrain"@,
        Research::HumanResources => "HumanResources"@,
        Research::Internship => "Internship"@,
        Research::InternsPromotion => "InternsPromotion"@,
        Research::JuniorDevsPosition => "JuniorDevsPosition"@,
        Research::JuniorDevsPromotion => "JuniorDevsPromotion"@,
        Research::Kernel => "Kernel"@,
        Research::Logs => "Logs"@,
        Research::ManagementCareer => "ManagementCareer"@,
        Research::Mouse => "Mouse"@,
        Research::PhysicsEngine => "PhysicsEngine"@,
        Research::ProjectManagement => "ProjectManagement"@,
        Research::RecursiveHR => "RecursiveHR"@,
        Research::Rmrf => "Rmrf"@,
        Research::SeniorDevsPosition => "SeniorDevsPosition"@,
        Research::SmartStaffing => "SmartStaffing"@,
        Research::SolarSystem => "SolarSystem"@,
        Research::Speedrun => "Speedrun"@,
        Research::SyntaxColoringMultiplier => "SyntaxColoringMultiplier"@,
        Research::TextEditor => "TextEditor"@,
        Research::ToggleTheme => "ToggleTheme"@,
        Research::Universe => "Universe"@,
    }
}

impl Research {
    pub fn name(self) -> (r: &'static str)
        ensures
            r@ == research_name(self),
    {
        match self {
            Research::Bacteria => "Bacteria",
            Research::Browser => "Browser",
            Research::Calculator => "Calculator",
            Research::Cheating => "Cheating",
            Research::Climate => "Climate",
            Research::CodeMetrics => "CodeMetrics",
            Research::Differentiation => "Differentiation",
            Research::Earth => "Earth",
            Research::Economy => "Economy",
            Research::FizzBuzz => "FizzBuzz",
            Research::GameOfLife => "GameOfLife",
            Research::HelloWorld => "HelloWorld",
            Research::HumanBrain => "HumanBrain",
            Research::HumanResources => "HumanResources",
            Research::Internship => "Internship",
            Research::InternsPromotion => "InternsPromotion",
            Research::JuniorDevsPosition => "JuniorDevsPosition",
            Research::JuniorDevsPromotion => "JuniorDevsPromotion",
            Research::Kernel => "Kernel",
            Research::Logs => "Logs",
            Research::ManagementCareer => "ManagementCareer",
            Research::Mouse => "Mouse",
            Research::PhysicsEngine => "PhysicsEngine",
            Research::ProjectManagement => "ProjectManagement",
            Research::RecursiveHR => "RecursiveHR",
            Research::Rmrf => "Rmrf",
            Research::SeniorDevsPosition => "SeniorDevsPosition",
            Research::SmartStaffing => "SmartStaffing",
            Research::SolarSystem => "SolarSystem",
            Research::Speedrun => "Speedrun",
            Research::SyntaxColoringMultiplier => "SyntaxColoringMultiplier",
            Research::TextEditor => "TextEditor",
            Research::ToggleTheme => "ToggleTheme",
            Research::Universe => "Universe",
        }
    }

    pub fn prerequisite(self) -> (r: Option<Research>)
        ensures
            r == prerequisite(self),
    {
        match self {
            Research::Bacteria => Some(Research::PhysicsEngine),
            Research::Browser => Some(Research::Bacteria),
            Research::Calculator => Some(Research::FizzBuzz),
            Research::Cheating => None,
            Research::Climate => Some(Research::Economy),
            Research::CodeMetrics => None,
            Research::Differentiation => Some(Research::Universe),
            Research::Earth => Some(Research::Climate),
            Research::Economy => Some(Research::HumanBrain),
            Research::FizzBuzz => Some(Research::HelloWorld),
            Research::GameOfLife => Some(Research::Calculator),
            Research::HelloWorld => None,
            Research::HumanBrain => Some(Research::Mouse),
            Research::HumanResources => Some(Research::SeniorDevsPosition),
            Research::Internship => None,
            Research::InternsPromotion => Some(Research::JuniorDevsPosition),
            Research::JuniorDevsPosition => Some(Research::Internship),
            Research::JuniorDevsPromotion => Some(Research::SeniorDevsPosition),
            Research::Kernel => Some(Research::Browser),
            Research::Logs => None,
            Research::ManagementCareer => Some(Research::ProjectManagement),
            Research::Mouse => Some(Research::Kernel),
            Research::PhysicsEngine => Some(Research::TextEditor),
            Research::ProjectManagement => Some(Research::SeniorDevsPosition),
            Research::RecursiveHR => Some(Research::HumanResources),
            Research::Rmrf => None,
            Research::SeniorDevsPosition => Some(Research::JuniorDevsPosition),
            Research::SmartStaffing => Some(Research::HumanResources),
            Research::SolarSystem => Some(Research::Earth),
            Research::Speedrun => None,
            Research::SyntaxColoringMultiplier => Some(Research::Internship),
            Research::TextEditor => Some(Research::GameOfLife),
            Research::ToggleTheme => None,
            Research::Universe => Some(Research::SolarSystem),
        }
    }

    pub fn cost(self, c: &GameConstants) -> (r: Fixed)
        ensures
            r == unlock_cost(*c, self),
    {
        match self {
            Research::Bacteria => c.quest_bacteria_loc_cost,
            Research::Browser => c.quest_browser_loc_cost,
            Research::Calculator => c.quest_calculator_loc_cost,
            Research::Cheating => Fixed::zero(),
            Research::Climate => c.quest_climate_loc_cost,
            Research::CodeMetrics => c.research_code_metrics_loc_cost,
            Research::Differentiation => c.quest_differentiation_loc_cost,
            Research::Earth => c.quest_earth_loc_cost,
            Research::Economy => c.quest_economy_loc_cost,
            Research::FizzBuzz => c.quest_fizz_buzz_loc_cost,
            Research::GameOfLife => c.quest_game_of_life_loc_cost,
            Research::HelloWorld => c.quest_hello_world_loc_cost,
            Research::HumanBrain => c.quest_human_brain_loc_cost,
            Research::HumanResources => c.research_human_resources_loc_cost,
            Research::Internship => c.research_internship_loc_cost,
            Research::InternsPromotion => c.research_interns_promotion_loc_cost,
            Research::JuniorDevsPosition => c.research_junior_devs_position_loc_cost,
            Research::JuniorDevsPromotion => c.research_junior_devs_promotion_loc_cost,
            Research::Kernel => c.quest_kernel_loc_cost,
            Research::Logs => c.research_logs_loc_cost,
            Research::ManagementCareer => c.research_management_career_loc_cost,
            Research::Mouse => c.quest_mouse_loc_cost,
            Research::PhysicsEngine => c.quest_physics_engine_loc_cost,
            Research::ProjectManagement => c.research_project_management_loc_cost,
            Research::RecursiveHR => c.research_recursive_hr_loc_cost,
            Research::Rmrf => c.research_rmrf_loc_cost,
            Research::SeniorDevsPosition => c.research_senior_devs_position_loc_cost,
            Research::SmartStaffing => c.research_smart_staffing_loc_cost,
            Research::SolarSystem => c.quest_solar_system_loc_cost,
            Research::Speedrun => c.research_speedrun_loc_cost,
            Research::SyntaxColoringMultiplier => c.research_syntax_coloring_multiplier_loc_cost,
            Research::TextEditor => c.quest_text_editor_loc_cost,
            Research::ToggleTheme => c.research_toggle_theme_loc_cost,
            Research::Universe => c.quest_universe_loc_cost,
        }
    }

    pub fn effect(self, c: &GameConstants) -> (r: Option<Effect>)
        ensures
            r == unlock_effect(*c, self),
    {
        match self {
            Research::SyntaxColoringMultiplier => Some(
                Effect::ScaleInternsOutput(c.research_syntax_coloring_multiplier),
            ),
            Research::ManagementCareer => Some(
                Effect::SplitRetirement(c.senior_devs_management_career_ratio),
            ),
            _ => None,
        }
    }
}

/// A set of unlocks, kept in the order they were obtained.
///
/// A `Vec` rather than a `HashSet`: vstd specifies `HashSet` only for keys
/// whose `Hash` and `Eq` are known to obey its key model, which Verus
/// cannot establish for the derived impls of `Research`; the set's
/// behaviour would then rest on an assumption.
#[derive(Debug)]
pub struct ResearchSet {
    items: Vec<Research>,
}

impl View for ResearchSet {
    type V = Set<Research>;

    closed spec fn view(&self) -> Set<Research> {
        Set::new(|r: Research| self.items@.contains(r))
    }
}

impl ResearchSet {
    pub fn new() -> (r: ResearchSet)
        ensures
            r@ == Set::<Research>::empty(),
    {
        let r = ResearchSet { items: Vec::new() };
        assert(r@ =~= Set::<Research>::empty());
        r
    }

    pub fn contains(&self, id: Research) -> (r: bool)
        ensures
            r == self@.contains(id),
    {
        let mut i: usize = 0;
        while i < self.items.len()
            invariant
                i <= self.items@.len(),
                forall|j: int| 0 <= j < i ==> self.items@[j] != id,
            decreases self.items@.len() - i,
        {
            if self.items[i] == id {
                assert(self.items@.contains(id));
                return true;
            }
            i = i + 1;
        }
        assert(!self.items@.contains(id));
        false
    }

    pub fn insert(&mut self, id: Research)
        ensures
            final(self)@ == old(self)@.insert(id),
    {
        if !self.contains(id) {
            self.items.push(id);
            assert forall|x: Research|
                self.items@.contains(x) <==> (old(self).items@.contains(x) || x == id) by {
                if old(self).items@.contains(x) {
                    let j = choose|j: int|
                        0 <= j < old(self).items@.len() && old(self).items@[j] == x;
                    assert(self.items@[j] == x);
                }
                if x == id {
                    assert(self.items@[self.items@.len() - 1] == id);
                }
                if self.items@.contains(x) && x != id {
                    let j = choose|j: int| 0 <= j < self.items@.len() && self.items@[j] == x;
                    assert(old(self).items@[j] == x);
                }
            }
        }
        assert(self@ =~= old(self)@.insert(id));
    }
}

} // verus!
