use game_core::config::GameConfig;
use game_core::economy::{
    add_reserve, apply_gold_award, apply_spend, can_afford_bid, can_afford_shop, discard_current_mana,
    increment_mana_cap, refund_gold, release_gold_reservation, reserve_gold, spend_gold, total_effective_mana,
    validate_auction_bid, validate_spend, PlayerEconomy, SpendError, apply_mana_ramp,
};

fn economy(gold: u32, current_mana: u32, reserve_mana: u32, mana_cap: u32, reserved_gold: u32) -> PlayerEconomy {
    PlayerEconomy { gold, current_mana, reserve_mana, mana_cap, reserved_gold }
}

fn config_with_mana_cap_max(mana_cap_max: u32) -> GameConfig {
    GameConfig {
        starting_gold: 10,
        mana_cap: 10,
        mana_cap_max,
        gold_baseline_per_round: 5,
        interest_threshold_gold: 10,
        interest_max_bonus: 5,
        common_pool_copies: 6,
        uncommon_pool_copies: 5,
        rare_pool_copies: 4,
        refresh_base_cost: 1,
        refresh_cap: 3,
        bid_increments: [1, 2, 5],
        draft_initial_timer_seconds: 45,
        draft_shop_timer_seconds: 60,
        placement_timer_seconds: 60,
        auction_followup_placement_timer_seconds: 90,
        resolution_max_duration_seconds: 120,
        disconnect_grace_seconds: 30,
    }
}

#[test]
fn test_auto_split_draws_current_first_then_reserve() {
    let mut econ = economy(0, 2, 3, 10, 0);
    assert_eq!(validate_spend(&econ, 4, false), Ok(()));
    apply_spend(&mut econ, 4, false);
    assert_eq!(econ.current_mana, 0);
    assert_eq!(econ.reserve_mana, 1);
}

#[test]
fn test_auto_split_with_no_current_draws_from_reserve() {
    let mut econ = economy(0, 0, 5, 10, 0);
    assert_eq!(validate_spend(&econ, 3, false), Ok(()));
    apply_spend(&mut econ, 3, false);
    assert_eq!(econ.current_mana, 0);
    assert_eq!(econ.reserve_mana, 2);
}

#[test]
fn test_auto_split_exact_current_cost_leaves_reserve_untouched() {
    let mut econ = economy(0, 4, 2, 10, 0);
    assert_eq!(validate_spend(&econ, 4, false), Ok(()));
    apply_spend(&mut econ, 4, false);
    assert_eq!(econ.current_mana, 0);
    assert_eq!(econ.reserve_mana, 2);
}

#[test]
fn test_validate_spend_rejects_insufficient_total_without_mutation() {
    let econ = economy(0, 1, 1, 10, 0);
    assert_eq!(validate_spend(&econ, 3, false), Err(SpendError::InsufficientFunds));
    assert_eq!(econ.current_mana, 1);
    assert_eq!(econ.reserve_mana, 1);
}

#[test]
fn test_reserve_only_rejects_when_reserve_insufficient() {
    let econ = economy(0, 10, 3, 10, 0);
    assert_eq!(validate_spend(&econ, 4, true), Err(SpendError::InsufficientFunds));
    assert_eq!(econ.current_mana, 10);
    assert_eq!(econ.reserve_mana, 3);
}

#[test]
fn test_reserve_only_spend_deducts_reserve_and_leaves_current() {
    let mut econ = economy(0, 10, 5, 10, 0);
    assert_eq!(validate_spend(&econ, 4, true), Ok(()));
    apply_spend(&mut econ, 4, true);
    assert_eq!(econ.current_mana, 10);
    assert_eq!(econ.reserve_mana, 1);
}

#[test]
fn test_add_reserve_then_discard_current_transfers_gelure_contract() {
    let mut econ = economy(0, 5, 2, 10, 0);
    let current = econ.current_mana;
    add_reserve(&mut econ, current);
    discard_current_mana(&mut econ);
    assert_eq!(econ.current_mana, 0);
    assert_eq!(econ.reserve_mana, 7);
}

#[test]
fn test_zero_add_reserve_then_discard_current_is_legal_noop() {
    let mut econ = economy(0, 0, 2, 10, 0);
    add_reserve(&mut econ, 0);
    discard_current_mana(&mut econ);
    assert_eq!(econ.current_mana, 0);
    assert_eq!(econ.reserve_mana, 2);
}

#[test]
fn test_increment_mana_cap_increases_by_one_below_ceiling() {
    let mut econ = economy(0, 0, 0, 10, 0);
    let config = config_with_mana_cap_max(12);
    increment_mana_cap(&mut econ, &config);
    assert_eq!(econ.mana_cap, 11);
}

#[test]
fn test_increment_mana_cap_clamps_at_config_ceiling() {
    let mut econ = economy(0, 0, 0, 12, 0);
    let config = config_with_mana_cap_max(12);
    increment_mana_cap(&mut econ, &config);
    assert_eq!(econ.mana_cap, 12);
}

#[test]
fn test_apply_gold_award_zero_is_noop() {
    let mut econ = economy(7, 0, 0, 10, 0);
    apply_gold_award(&mut econ, 0);
    assert_eq!(econ.gold, 7);
}

#[test]
fn test_zero_cost_spend_is_noop() {
    let mut econ = economy(0, 3, 2, 10, 0);
    assert_eq!(validate_spend(&econ, 0, false), Ok(()));
    apply_spend(&mut econ, 0, false);
    assert_eq!(econ.current_mana, 3);
    assert_eq!(econ.reserve_mana, 2);
}

#[test]
fn test_reserve_gold_rejects_when_unreserved_gold_insufficient() {
    let mut econ = economy(3, 0, 0, 10, 0);
    assert_eq!(reserve_gold(&mut econ, 5), Err(SpendError::InsufficientFunds));
    assert_eq!(econ.gold, 3);
    assert_eq!(econ.reserved_gold, 0);
}

#[test]
fn test_reserve_gold_respects_existing_reservation() {
    let mut econ = economy(8, 0, 0, 10, 5);
    assert!(!can_afford_bid(&econ, 4));
    assert!(!can_afford_shop(&econ, 4));
    assert_eq!(reserve_gold(&mut econ, 4), Err(SpendError::InsufficientFunds));
    assert_eq!(econ.reserved_gold, 5);
}

#[test]
fn test_reserve_gold_adds_to_reserved_amount_when_affordable() {
    let mut econ = economy(8, 0, 0, 10, 2);
    assert_eq!(reserve_gold(&mut econ, 4), Ok(()));
    assert_eq!(econ.reserved_gold, 6);
    assert_eq!(econ.gold, 8);
}

#[test]
fn test_release_gold_reservation_clamps_to_zero() {
    let mut econ = economy(8, 0, 0, 10, 3);
    release_gold_reservation(&mut econ, 5);
    assert_eq!(econ.reserved_gold, 0);
}

#[test]
fn test_spend_gold_deducts_unreserved_gold() {
    let mut econ = economy(8, 0, 0, 10, 2);
    assert_eq!(spend_gold(&mut econ, 4), Ok(()));
    assert_eq!(econ.gold, 4);
    assert_eq!(econ.reserved_gold, 2);
}

#[test]
fn test_spend_gold_respects_reserved_gold() {
    let mut econ = economy(8, 0, 0, 10, 6);
    assert_eq!(spend_gold(&mut econ, 3), Err(SpendError::InsufficientFunds));
    assert_eq!(econ.gold, 8);
    assert_eq!(econ.reserved_gold, 6);
}

#[test]
fn test_refund_gold_adds_back_to_persistent_gold() {
    let mut econ = economy(4, 0, 0, 10, 2);
    refund_gold(&mut econ, 3);
    assert_eq!(econ.gold, 7);
    assert_eq!(econ.reserved_gold, 2);
}

#[test]
fn test_total_effective_mana_sums_current_and_reserve() {
    let econ = economy(0, 4, 9, 10, 0);
    assert_eq!(total_effective_mana(&econ), 13);
}

// Further cases.

#[test]
fn validate_auction_bid_rejects_full_hand_before_gold() {
    let econ = economy(0, 0, 0, 10, 0);
    assert_eq!(validate_auction_bid(&econ, 5, 10), Err(SpendError::HandFull));
    assert_eq!(validate_auction_bid(&econ, 5, 9), Err(SpendError::InsufficientFunds));
    let rich = economy(9, 0, 0, 10, 3);
    assert_eq!(validate_auction_bid(&rich, 6, 9), Ok(()));
    assert_eq!(validate_auction_bid(&rich, 7, 9), Err(SpendError::InsufficientFunds));
}

#[test]
fn mana_ramp_is_capped_by_mana_cap() {
    let mut econ = economy(0, 0, 4, 3, 0);
    apply_mana_ramp(&mut econ, 5);
    assert_eq!(econ.current_mana, 3);
    apply_mana_ramp(&mut econ, 2);
    assert_eq!(econ.current_mana, 2);
    assert_eq!(econ.reserve_mana, 4);
}

#[test]
fn gold_award_saturates() {
    let mut econ = economy(u32::MAX - 1, 0, 0, 10, 0);
    apply_gold_award(&mut econ, 5);
    assert_eq!(econ.gold, u32::MAX);
}

#[test]
fn reserve_then_release_round_trip() {
    let mut econ = economy(10, 0, 0, 10, 3);
    assert_eq!(reserve_gold(&mut econ, 7), Ok(()));
    assert_eq!(econ.reserved_gold, 10);
    release_gold_reservation(&mut econ, 7);
    assert_eq!(econ.reserved_gold, 3);
}

#[test]
fn spend_then_refund_round_trip() {
    let mut econ = economy(10, 0, 0, 10, 3);
    assert_eq!(spend_gold(&mut econ, 7), Ok(()));
    assert_eq!(econ.gold, 3);
    refund_gold(&mut econ, 7);
    assert_eq!(econ.gold, 10);
}

#[test]
fn total_effective_mana_saturates() {
    let econ = economy(0, u32::MAX, 3, 10, 0);
    assert_eq!(total_effective_mana(&econ), u32::MAX);
    assert_eq!(validate_spend(&econ, u32::MAX, false), Ok(()));
}
