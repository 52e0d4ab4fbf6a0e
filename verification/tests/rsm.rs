use game_core::config::GameConfig;
use game_core::rsm::{
    placement_timer_ms, rsm_context, GameOverReason, GameOverRequest, PendingPhaseAdvance, PhaseAdvanceRequest,
    RoundPhase, RoundState, RsmContext, RsmTimings,
};
use game_core::settings::PlacementTimerMultiplier;
use game_core::timer::PhaseTimer;

const MS: u64 = 1_000_000;

#[test]
fn phase_timer_finishes_once_when_its_duration_has_run() {
    let mut timer = PhaseTimer::once_millis(100);
    assert_eq!(timer.duration_ms(), 100);
    assert!(!timer.tick(50 * MS));
    assert!(!timer.tick(49 * MS));
    assert!(timer.tick(2 * MS));
    assert!(!timer.tick(500 * MS));
    assert_eq!(timer.duration_ms(), 100);
}

#[test]
fn zero_length_timer_finishes_on_its_first_tick() {
    let mut timer = PhaseTimer::once_seconds(0);
    assert!(timer.tick(0));
    assert!(!timer.tick(0));
}

#[test]
fn placement_timeout_requests_leaving_the_phase() {
    let mut round = RoundState::new();
    round.phase = RoundPhase::Placement;
    round.placement_timer = Some(PhaseTimer::once_millis(1_000));
    let mut pending = PendingPhaseAdvance::new();
    round.tick_rsm_timers(&mut pending, 600 * MS);
    assert_eq!(pending.request, None);
    round.tick_rsm_timers(&mut pending, 600 * MS);
    assert_eq!(pending.request, Some(PhaseAdvanceRequest { expected_source: RoundPhase::Placement, game_over: None }));
}

#[test]
fn resolution_timeout_ends_the_session() {
    let mut round = RoundState::new();
    round.phase = RoundPhase::Resolution;
    round.resolution_safety_timer = Some(PhaseTimer::once_seconds(1));
    let mut pending = PendingPhaseAdvance::new();
    round.tick_rsm_timers(&mut pending, 1_000 * MS);
    assert_eq!(
        pending.request,
        Some(PhaseAdvanceRequest {
            expected_source: RoundPhase::Resolution,
            game_over: Some(GameOverRequest { reason: GameOverReason::ResolutionTimeout, loser: None }),
        })
    );
}

#[test]
fn timers_wait_while_a_request_is_pending() {
    let mut round = RoundState::new();
    round.phase = RoundPhase::DraftShop;
    round.draft_shop_timer = Some(PhaseTimer::once_millis(10));
    let mut pending = PendingPhaseAdvance::new();
    pending.request = Some(PhaseAdvanceRequest { expected_source: RoundPhase::Lobby, game_over: None });
    round.tick_rsm_timers(&mut pending, 50 * MS);
    assert_eq!(pending.request, Some(PhaseAdvanceRequest { expected_source: RoundPhase::Lobby, game_over: None }));
    pending.request = None;
    round.tick_rsm_timers(&mut pending, 5 * MS);
    assert_eq!(pending.request, None);
    round.tick_rsm_timers(&mut pending, 5 * MS);
    assert_eq!(pending.request, Some(PhaseAdvanceRequest { expected_source: RoundPhase::DraftShop, game_over: None }));
}

fn context(draft_shop_seconds: u32) -> RsmContext {
    RsmContext {
        session: None,
        timings: Some(RsmTimings {
            draft_initial_timer_seconds: 45,
            draft_shop_timer_seconds: draft_shop_seconds,
            resolution_max_duration_seconds: 120,
        }),
        placement_timer_ms: 60_000,
        auction_followup_placement_timer_ms: 90_000,
        disconnect_grace_seconds: 30,
        all_classes_chosen: None,
    }
}

#[test]
fn a_rearmed_timer_starts_fresh() {
    let mut round = RoundState::new();
    round.phase = RoundPhase::DraftAuction;
    round.round_number = 3;
    let mut spent = PhaseTimer::once_seconds(1);
    assert!(spent.tick(u64::MAX));
    round.draft_shop_timer = Some(spent);
    let mut pending = PendingPhaseAdvance::new();
    pending.request = Some(PhaseAdvanceRequest { expected_source: RoundPhase::DraftAuction, game_over: None });
    round.advance_phase(&mut pending, None, &context(1));
    assert_eq!(round.phase, RoundPhase::DraftShop);
    round.tick_rsm_timers(&mut pending, 999 * MS);
    assert_eq!(pending.request, None);
    round.tick_rsm_timers(&mut pending, MS);
    assert_eq!(pending.request, Some(PhaseAdvanceRequest { expected_source: RoundPhase::DraftShop, game_over: None }));
}

#[test]
fn game_over_request_ends_a_shop_phase_at_round_zero() {
    let mut round = RoundState::new();
    round.phase = RoundPhase::DraftShop;
    round.round_number = 0;
    let mut pending = PendingPhaseAdvance::new();
    let request = PhaseAdvanceRequest {
        expected_source: RoundPhase::DraftShop,
        game_over: Some(GameOverRequest { reason: GameOverReason::Disconnect, loser: None }),
    };
    let events = round.advance_phase(&mut pending, Some(request), &context(60));
    assert_eq!(round.phase, RoundPhase::GameOver);
    assert_eq!(round.round_number, 0);
    assert_eq!(events.len(), 2);
    assert!(round.draft_shop_timer.is_none() && round.placement_timer.is_none());
}

fn game_config() -> GameConfig {
    GameConfig {
        starting_gold: 10,
        mana_cap: 10,
        mana_cap_max: 10,
        gold_baseline_per_round: 5,
        interest_threshold_gold: 10,
        interest_max_bonus: 5,
        common_pool_copies: 6,
        uncommon_pool_copies: 5,
        rare_pool_copies: 4,
        refresh_base_cost: 1,
        refresh_cap: 5,
        bid_increments: [1, 2, 5],
        draft_initial_timer_seconds: 45,
        draft_shop_timer_seconds: 60,
        placement_timer_seconds: 75,
        auction_followup_placement_timer_seconds: 45,
        resolution_max_duration_seconds: 120,
        disconnect_grace_seconds: 20,
    }
}

#[test]
fn placement_timer_uses_the_round_kind_and_the_multiplier() {
    let config = Some(game_config());
    assert_eq!(placement_timer_ms(None, &config, false), 75_000);
    assert_eq!(placement_timer_ms(None, &config, true), 45_000);
    assert_eq!(placement_timer_ms(Some(PlacementTimerMultiplier::X1_5), &config, true), 67_500);
    assert_eq!(placement_timer_ms(Some(PlacementTimerMultiplier::X3), &config, false), 225_000);
    assert_eq!(placement_timer_ms(Some(PlacementTimerMultiplier::X2), &None, false), 0);
    assert_eq!(PlacementTimerMultiplier::X1_5.apply_to_ms(3), 4);
    assert_eq!(PlacementTimerMultiplier::X3.apply_to_ms(u32::MAX), u32::MAX);
}

#[test]
fn context_takes_timers_and_grace_from_the_configuration() {
    let ctx = rsm_context(None, &Some(game_config()), Some(PlacementTimerMultiplier::X2), 30, Some(true));
    assert_eq!(ctx.placement_timer_ms, 150_000);
    assert_eq!(ctx.auction_followup_placement_timer_ms, 90_000);
    assert_eq!(ctx.disconnect_grace_seconds, 20);
    assert_eq!(ctx.all_classes_chosen, Some(true));
    assert_eq!(ctx.timings.map(|t| t.draft_shop_timer_seconds), Some(60));
    let bare = rsm_context(None, &None, None, 30, None);
    assert_eq!(bare.placement_timer_ms, 0);
    assert_eq!(bare.disconnect_grace_seconds, 30);
    assert!(bare.timings.is_none());
}

#[test]
fn placement_is_armed_with_the_configured_timer() {
    let mut round = RoundState::new();
    round.phase = RoundPhase::DraftShop;
    round.round_number = 3;
    let ctx = rsm_context(None, &Some(game_config()), None, 30, None);
    let mut pending = PendingPhaseAdvance::new();
    pending.request = Some(PhaseAdvanceRequest { expected_source: RoundPhase::DraftShop, game_over: None });
    round.advance_phase(&mut pending, None, &ctx);
    assert_eq!(round.phase, RoundPhase::Placement);
    let mut timer = round.placement_timer.expect("the placement timer is armed");
    assert!(!timer.tick(44_999 * MS));
    assert!(timer.tick(MS));
}

#[test]
fn advance_without_a_fitting_request_changes_nothing() {
    let mut round = RoundState::new();
    round.phase = RoundPhase::Placement;
    round.round_number = 4;
    let mut pending = PendingPhaseAdvance::new();
    let events = round.advance_phase(&mut pending, None, &context(60));
    assert!(events.is_empty());
    assert_eq!((round.phase, round.round_number), (RoundPhase::Placement, 4));
    let stale = PhaseAdvanceRequest { expected_source: RoundPhase::DraftShop, game_over: None };
    let events = round.advance_phase(&mut pending, Some(stale), &context(60));
    assert!(events.is_empty());
    assert_eq!((round.phase, round.round_number), (RoundPhase::Placement, 4));
    round.phase = RoundPhase::Resolution;
    let next = PhaseAdvanceRequest { expected_source: RoundPhase::Resolution, game_over: None };
    round.advance_phase(&mut pending, Some(next), &context(60));
    assert_eq!((round.phase, round.round_number), (RoundPhase::DraftShop, 5));
}
