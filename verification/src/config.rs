use vstd::prelude::*;

verus! {

/// Tunable game parameters that the verified logic reads.
///
/// Weight tuning for shop draws is floating point and lives with the caller.
#[derive(Clone, Copy, Debug)]
pub struct GameConfig {
    pub starting_gold: u32,
    pub mana_cap: u32,
    pub mana_cap_max: u32,
    pub gold_baseline_per_round: u32,
    pub interest_threshold_gold: u32,
    pub interest_max_bonus: u32,
    pub common_pool_copies: u32,
    pub uncommon_pool_copies: u32,
    pub rare_pool_copies: u32,
    pub refresh_base_cost: u32,
    pub refresh_cap: u32,
    pub bid_increments: [u32; 3],
    pub draft_initial_timer_seconds: u32,
    pub draft_shop_timer_seconds: u32,
    pub placement_timer_seconds: u32,
    pub auction_followup_placement_timer_seconds: u32,
    pub resolution_max_duration_seconds: u32,
    pub disconnect_grace_seconds: u32,
}

} // verus!
