//! The immutable parameter table a session starts from.

use vstd::prelude::*;
use crate::fixed::Fixed;

verus! {

/// Base costs, growth rates, production rates and ratios of a session.
#[derive(Clone, Copy, Debug, PartialEq, Eq, Structural)]
pub struct GameConstants {
    // recruitment cost of interns
    pub interns_loc_base_cost: Fixed,
    pub interns_loc_growth_rate: Fixed,
    // recruitment cost of junior devs
    pub junior_devs_loc_base_cost: Fixed,
    pub junior_devs_loc_growth_rate: Fixed,
    // recruitment cost of senior devs
    pub senior_devs_loc_base_cost: Fixed,
    pub senior_devs_loc_growth_rate: Fixed,
    // recruitment cost of HRs
    pub hrs_loc_base_cost: Fixed,
    pub hrs_loc_growth_rate: Fixed,
    // recruitment cost of PMs
    pub pms_loc_base_cost: Fixed,
    pub pms_loc_growth_rate: Fixed,
    // one-time research costs
    pub research_internship_loc_cost: Fixed,
    pub research_junior_devs_position_loc_cost: Fixed,
    pub research_senior_devs_position_loc_cost: Fixed,
    pub research_human_resources_loc_cost: Fixed,
    pub research_project_management_loc_cost: Fixed,
    pub research_interns_promotion_loc_cost: Fixed,
    pub research_junior_devs_promotion_loc_cost: Fixed,
    pub research_code_metrics_loc_cost: Fixed,
    pub research_speedrun_loc_cost: Fixed,
    pub research_logs_loc_cost: Fixed,
    pub research_rmrf_loc_cost: Fixed,
    pub research_toggle_theme_loc_cost: Fixed,
    pub research_syntax_coloring_multiplier_loc_cost: Fixed,
    pub research_management_career_loc_cost: Fixed,
    pub research_smart_staffing_loc_cost: Fixed,
    pub research_recursive_hr_loc_cost: Fixed,
    // initial promotion and retirement ratios
    pub interns_promotion_ratio_dt: Fixed,
    pub junior_devs_promotion_ratio_dt: Fixed,
    pub senior_devs_retirement_ratio_dt: Fixed,
    // loc produced per dev and per time unit
    pub interns_loc_dt: Fixed,
    pub junior_devs_loc_dt: Fixed,
    pub senior_devs_loc_dt: Fixed,
    // devs hired per HR and per time unit, with the share of each tier
    pub hrs_interns_dt: Fixed,
    pub hrs_interns_quota: Fixed,
    pub hrs_junior_devs_dt: Fixed,
    pub hrs_junior_devs_quota: Fixed,
    pub hrs_senior_devs_dt: Fixed,
    pub hrs_senior_devs_quota: Fixed,
    pub hrs_hrs_dt: Fixed,
    pub hrs_hrs_quota: Fixed,
    // bugs converted to features per PM and per time unit
    pub pms_bugs_conversion_dt: Fixed,
    // manual production
    pub loc_per_clicks: Fixed,
    pub debug_per_clicks: Fixed,
    // bugs produced per loc
    pub manual_bugs_ratio: Fixed,
    pub interns_bugs_ratio: Fixed,
    pub junior_devs_bugs_ratio: Fixed,
    pub senior_devs_bugs_ratio: Fixed,
    // quest costs
    pub quest_hello_world_loc_cost: Fixed,
    pub quest_fizz_buzz_loc_cost: Fixed,
    pub quest_calculator_loc_cost: Fixed,
    pub quest_game_of_life_loc_cost: Fixed,
    pub quest_text_editor_loc_cost: Fixed,
    pub quest_physics_engine_loc_cost: Fixed,
    pub quest_bacteria_loc_cost: Fixed,
    pub quest_browser_loc_cost: Fixed,
    pub quest_kernel_loc_cost: Fixed,
    pub quest_mouse_loc_cost: Fixed,
    pub quest_human_brain_loc_cost: Fixed,
    pub quest_economy_loc_cost: Fixed,
    pub quest_climate_loc_cost: Fixed,
    pub quest_earth_loc_cost: Fixed,
    pub quest_solar_system_loc_cost: Fixed,
    pub quest_universe_loc_cost: Fixed,
    pub quest_differentiation_loc_cost: Fixed,
    // effects of researches
    pub research_syntax_coloring_multiplier: Fixed,
    pub senior_devs_management_career_ratio: Fixed,
    // simulated time per tick
    pub dt: Fixed,
}

/// The standard parameter table.
pub open spec fn standard_constants() -> GameConstants {
    GameConstants {
        interns_loc_base_cost: Fixed { raw: 20_000_000_000 },
        interns_loc_growth_rate: Fixed { raw: 1_015_000_000 },
        junior_devs_loc_base_cost: Fixed { raw: 1_250_000_000_000 },
        junior_devs_loc_growth_rate: Fixed { raw: 1_020_000_000 },
        senior_devs_loc_base_cost: Fixed { raw: 15_000_000_000_000 },
        senior_devs_loc_growth_rate: Fixed { raw: 1_017_500_000 },
        hrs_loc_base_cost: Fixed { raw: 15_000_000_000_000 },
        hrs_loc_growth_rate: Fixed { raw: 1_017_500_000 },
        pms_loc_base_cost: Fixed { raw: 15_000_000_000_000 },
        pms_loc_growth_rate: Fixed { raw: 1_017_500_000 },
        research_internship_loc_cost: Fixed { raw: 1_000_000_000 },
        research_junior_devs_position_loc_cost: Fixed { raw: 1_000_000_000 },
        research_senior_devs_position_loc_cost: Fixed { raw: 1_000_000_000 },
        research_human_resources_loc_cost: Fixed { raw: 1_000_000_000 },
        research_project_management_loc_cost: Fixed { raw: 1_000_000_000 },
        research_interns_promotion_loc_cost: Fixed { raw: 1_000_000_000 },
        research_junior_devs_promotion_loc_cost: Fixed { raw: 1_000_000_000 },
        research_code_metrics_loc_cost: Fixed { raw: 1_000_000_000 },
        research_speedrun_loc_cost: Fixed { raw: 1_000_000_000 },
        research_logs_loc_cost: Fixed { raw: 1_000_000_000 },
        research_rmrf_loc_cost: Fixed { raw: 1_000_000_000 },
        research_toggle_theme_loc_cost: Fixed { raw: 1_000_000_000 },
        research_syntax_coloring_multiplier_loc_cost: Fixed { raw: 1_000_000_000 },
        research_management_career_loc_cost: Fixed { raw: 1_000_000_000 },
        research_smart_staffing_loc_cost: Fixed { raw: 1_000_000_000 },
        research_recursive_hr_loc_cost: Fixed { raw: 1_000_000_000 },
        interns_promotion_ratio_dt: Fixed { raw: 40_000_000 },
        junior_devs_promotion_ratio_dt: Fixed { raw: 20_000_000 },
        senior_devs_retirement_ratio_dt: Fixed { raw: 10_000_000 },
        interns_loc_dt: Fixed { raw: 1_000_000_000 },
        junior_devs_loc_dt: Fixed { raw: 40_000_000_000 },
        senior_devs_loc_dt: Fixed { raw: 1_000_000_000_000 },
        hrs_interns_dt: Fixed { raw: 10_000_000 },
        hrs_interns_quota: Fixed { raw: 900_000_000 },
        hrs_junior_devs_dt: Fixed { raw: 1_000_000 },
        hrs_junior_devs_quota: Fixed { raw: 90_000_000 },
        hrs_senior_devs_dt: Fixed { raw: 100_000 },
        hrs_senior_devs_quota: Fixed { raw: 10_000_000 },
        hrs_hrs_dt: Fixed { raw: 100_000 },
        hrs_hrs_quota: Fixed { raw: 10_000_000 },
        pms_bugs_conversion_dt: Fixed { raw: 1_000_000_000 },
        loc_per_clicks: Fixed { raw: 1_000_000_000 },
        debug_per_clicks: Fixed { raw: 1_000_000_000 },
        manual_bugs_ratio: Fixed { raw: 1_000_000_000 },
        interns_bugs_ratio: Fixed { raw: 2_000_000_000 },
        junior_devs_bugs_ratio: Fixed { raw: 1_500_000_000 },
        senior_devs_bugs_ratio: Fixed { raw: 1_000_000_000 },
        quest_hello_world_loc_cost: Fixed { raw: 1_000_000_000 },
        quest_fizz_buzz_loc_cost: Fixed { raw: 10_000_000_000 },
        quest_calculator_loc_cost: Fixed { raw: 100_000_000_000 },
        quest_game_of_life_loc_cost: Fixed { raw: 1_000_000_000_000 },
        quest_text_editor_loc_cost: Fixed { raw: 10_000_000_000_000 },
        quest_physics_engine_loc_cost: Fixed { raw: 100_000_000_000_000 },
        quest_bacteria_loc_cost: Fixed { raw: 1_000_000_000_000_000 },
        quest_browser_loc_cost: Fixed { raw: 5_000_000_000_000_000 },
        quest_kernel_loc_cost: Fixed { raw: 30_000_000_000_000_000 },
        quest_mouse_loc_cost: Fixed { raw: 100_000_000_000_000_000 },
        quest_human_brain_loc_cost: Fixed { raw: 1_000_000_000_000_000_000 },
        quest_economy_loc_cost: Fixed { raw: 10_000_000_000_000_000_000 },
        quest_climate_loc_cost: Fixed { raw: 100_000_000_000_000_000_000 },
        quest_earth_loc_cost: Fixed { raw: 1_000_000_000_000_000_000_000 },
        quest_solar_system_loc_cost: Fixed { raw: 1_000_000_000_000_000_000_000_000 },
        quest_universe_loc_cost: Fixed { raw: 1_000_000_000_000_000_000_000_000_000 },
        quest_differentiation_loc_cost: Fixed { raw: 1_000_000_000_000_000_000_000_000_000_000 },
        research_syntax_coloring_multiplier: Fixed { raw: 2_000_000_000 },
        senior_devs_management_career_ratio: Fixed { raw: 500_000_000 },
        dt: Fixed { raw: 10_000_000 },
    }
}

impl Default for GameConstants {
    fn default() -> (r: GameConstants)
        ensures
            r == standard_constants(),
    {
        GameConstants {
            interns_loc_base_cost: Fixed { raw: 20_000_000_000 },
            interns_loc_growth_rate: Fixed { raw: 1_015_000_000 },
            junior_devs_loc_base_cost: Fixed { raw: 1_250_000_000_000 },
            junior_devs_loc_growth_rate: Fixed { raw: 1_020_000_000 },
            senior_devs_loc_base_cost: Fixed { raw: 15_000_000_000_000 },
            senior_devs_loc_growth_rate: Fixed { raw: 1_017_500_000 },
            hrs_loc_base_cost: Fixed { raw: 15_000_000_000_000 },
            hrs_loc_growth_rate: Fixed { raw: 1_017_500_000 },
            pms_loc_base_cost: Fixed { raw: 15_000_000_000_000 },
            pms_loc_growth_rate: Fixed { raw: 1_017_500_000 },
            research_internship_loc_cost: Fixed { raw: 1_000_000_000 },
            research_junior_devs_position_loc_cost: Fixed { raw: 1_000_000_000 },
            research_senior_devs_position_loc_cost: Fixed { raw: 1_000_000_000 },
            research_human_resources_loc_cost: Fixed { raw: 1_000_000_000 },
            research_project_management_loc_cost: Fixed { raw: 1_000_000_000 },
            research_interns_promotion_loc_cost: Fixed { raw: 1_000_000_000 },
            research_junior_devs_promotion_loc_cost: Fixed { raw: 1_000_000_000 },
            research_code_metrics_loc_cost: Fixed { raw: 1_000_000_000 },
            research_speedrun_loc_cost: Fixed { raw: 1_000_000_000 },
            research_logs_loc_cost: Fixed { raw: 1_000_000_000 },
            research_rmrf_loc_cost: Fixed { raw: 1_000_000_000 },
            research_toggle_theme_loc_cost: Fixed { raw: 1_000_000_000 },
            research_syntax_coloring_multiplier_loc_cost: Fixed { raw: 1_000_000_000 },
            research_management_career_loc_cost: Fixed { raw: 1_000_000_000 },
            research_smart_staffing_loc_cost: Fixed { raw: 1_000_000_000 },
            research_recursive_hr_loc_cost: Fixed { raw: 1_000_000_000 },
            interns_promotion_ratio_dt: Fixed { raw: 40_000_000 },
            junior_devs_promotion_ratio_dt: Fixed { raw: 20_000_000 },
            senior_devs_retirement_ratio_dt: Fixed { raw: 10_000_000 },
            interns_loc_dt: Fixed { raw: 1_000_000_000 },
            junior_devs_loc_dt: Fixed { raw: 40_000_000_000 },
            senior_devs_loc_dt: Fixed { raw: 1_000_000_000_000 },
            hrs_interns_dt: Fixed { raw: 10_000_000 },
            hrs_interns_quota: Fixed { raw: 900_000_000 },
            hrs_junior_devs_dt: Fixed { raw: 1_000_000 },
            hrs_junior_devs_quota: Fixed { raw: 90_000_000 },
            hrs_senior_devs_dt: Fixed { raw: 100_000 },
            hrs_senior_devs_quota: Fixed { raw: 10_000_000 },
            hrs_hrs_dt: Fixed { raw: 100_000 },
            hrs_hrs_quota: Fixed { raw: 10_000_000 },
            pms_bugs_conversion_dt: Fixed { raw: 1_000_000_000 },
            loc_per_clicks: Fixed { raw: 1_000_000_000 },
            debug_per_clicks: Fixed { raw: 1_000_000_000 },
            manual_bugs_ratio: Fixed { raw: 1_000_000_000 },
            interns_bugs_ratio: Fixed { raw: 2_000_000_000 },
            junior_devs_bugs_ratio: Fixed { raw: 1_500_000_000 },
            senior_devs_bugs_ratio: Fixed { raw: 1_000_000_000 },
            quest_hello_world_loc_cost: Fixed { raw: 1_000_000_000 },
            quest_fizz_buzz_loc_cost: Fixed { raw: 10_000_000_000 },
            quest_calculator_loc_cost: Fixed { raw: 100_000_000_000 },
            quest_game_of_life_loc_cost: Fixed { raw: 1_000_000_000_000 },
            quest_text_editor_loc_cost: Fixed { raw: 10_000_000_000_000 },
            quest_physics_engine_loc_cost: Fixed { raw: 100_000_000_000_000 },
            quest_bacteria_loc_cost: Fixed { raw: 1_000_000_000_000_000 },
            quest_browser_loc_cost: Fixed { raw: 5_000_000_000_000_000 },
            quest_kernel_loc_cost: Fixed { raw: 30_000_000_000_000_000 },
            quest_mouse_loc_cost: Fixed { raw: 100_000_000_000_000_000 },
            quest_human_brain_loc_cost: Fixed { raw: 1_000_000_000_000_000_000 },
            quest_economy_loc_cost: Fixed { raw: 10_000_000_000_000_000_000 },
            quest_climate_loc_cost: Fixed { raw: 100_000_000_000_000_000_000 },
            quest_earth_loc_cost: Fixed { raw: 1_000_000_000_000_000_000_000 },
            quest_solar_system_loc_cost: Fixed { raw: 1_000_000_000_000_000_000_000_000 },
            quest_universe_loc_cost: Fixed { raw: 1_000_000_000_000_000_000_000_000_000 },
            quest_differentiation_loc_cost: Fixed { raw: 1_000_000_000_000_000_000_000_000_000_000 },
            research_syntax_coloring_multiplier: Fixed { raw: 2_000_000_000 },
            senior_devs_management_career_ratio: Fixed { raw: 500_000_000 },
            dt: Fixed { raw: 10_000_000 },
        }
    }
}

} // verus!
