//! Per-player currency state and the only functions that write it.

use vstd::prelude::*;
use crate::config::GameConfig;

verus! {

/// Per-player authoritative economy state for one game session.
#[derive(Clone, Copy, Debug)]
pub struct PlayerEconomy {
    /// Persistent gold available across rounds.
    pub gold: u32,
    /// Mana available in the current round only.
    pub current_mana: u32,
    /// Persistent reserve mana with no cap.
    pub reserve_mana: u32,
    /// Current per-player mana ceiling.
    pub mana_cap: u32,
    /// Gold reserved by an active auction bid.
    pub reserved_gold: u32,
}

/// Errors returned by economy validation APIs.
#[derive(Clone, Copy, Debug, PartialEq, Eq, Structural)]
pub enum SpendError {
    /// Player does not have enough available currency.
    InsufficientFunds,
    /// A reserve-only payment was attempted with current mana allocation.
    ReserveOnlyButCurrentProvided,
    /// Hand-size validation failed in a caller-owned system.
    HandFull,
    /// Phase validation failed in a caller-owned system.
    WrongPhase,
    /// The requested player does not exist.
    PlayerNotFound,
}

/// Hand size at which no further card can be acquired.
pub const HAND_LIMIT: u32 = 10;

/// `a - b`, floored at zero.
pub open spec fn sat_sub(a: int, b: int) -> int {
    if a >= b { a - b } else { 0 }
}

/// `a + b`, capped at `u32::MAX`.
pub open spec fn sat_add_u32(a: int, b: int) -> int {
    if a + b > u32::MAX { u32::MAX as int } else { a + b }
}

/// Mana payable for a normal cost: current plus reserve, capped at `u32::MAX`.
pub open spec fn spec_total_effective_mana(e: PlayerEconomy) -> int {
    sat_add_u32(e.current_mana as int, e.reserve_mana as int)
}

/// Gold not tied up in an auction reservation.
pub open spec fn spec_unreserved_gold(e: PlayerEconomy) -> int {
    sat_sub(e.gold as int, e.reserved_gold as int)
}

/// Whether `e` can pay `cost` (from reserve alone, or from current then reserve).
pub open spec fn spec_can_pay(e: PlayerEconomy, cost: u32, from_reserve_only: bool) -> bool {
    if from_reserve_only {
        e.reserve_mana >= cost
    } else {
        spec_total_effective_mana(e) >= cost
    }
}

/// The economy after a mana spend of `cost`.
pub open spec fn spec_after_spend(e: PlayerEconomy, cost: u32, from_reserve_only: bool) -> PlayerEconomy {
    if from_reserve_only {
        PlayerEconomy { reserve_mana: sat_sub(e.reserve_mana as int, cost as int) as u32, ..e }
    } else {
        let from_current = if cost <= e.current_mana { cost as int } else { e.current_mana as int };
        let from_reserve = cost - from_current;
        PlayerEconomy {
            current_mana: (e.current_mana - from_current) as u32,
            reserve_mana: sat_sub(e.reserve_mana as int, from_reserve) as u32,
            ..e
        }
    }
}

/// Gold award and refund: persistent gold grows by `amount`, capped at `u32::MAX`.
pub open spec fn spec_after_gold_award(e: PlayerEconomy, amount: u32) -> PlayerEconomy {
    PlayerEconomy { gold: sat_add_u32(e.gold as int, amount as int) as u32, ..e }
}

/// Mana ramp: current mana becomes `min(round, mana_cap)`.
pub open spec fn spec_after_mana_ramp(e: PlayerEconomy, round: u32) -> PlayerEconomy {
    PlayerEconomy { current_mana: if round <= e.mana_cap { round } else { e.mana_cap }, ..e }
}

/// Reserve mana grows by `amount`, capped at `u32::MAX`.
pub open spec fn spec_after_add_reserve(e: PlayerEconomy, amount: u32) -> PlayerEconomy {
    PlayerEconomy { reserve_mana: sat_add_u32(e.reserve_mana as int, amount as int) as u32, ..e }
}

/// A successful auction reservation of `amount`.
pub open spec fn spec_after_reserve_gold(e: PlayerEconomy, amount: u32) -> PlayerEconomy {
    PlayerEconomy { reserved_gold: sat_add_u32(e.reserved_gold as int, amount as int) as u32, ..e }
}

/// Releasing `amount` of reservation, floored at zero.
pub open spec fn spec_after_release_gold(e: PlayerEconomy, amount: u32) -> PlayerEconomy {
    PlayerEconomy { reserved_gold: sat_sub(e.reserved_gold as int, amount as int) as u32, ..e }
}

/// Current-round mana discarded.
pub open spec fn spec_after_discard_current(e: PlayerEconomy) -> PlayerEconomy {
    PlayerEconomy { current_mana: 0, ..e }
}

/// Mana cap raised by one while below `max`.
pub open spec fn spec_after_increment_mana_cap(e: PlayerEconomy, max: u32) -> PlayerEconomy {
    PlayerEconomy {
        mana_cap: if e.mana_cap < max { (e.mana_cap + 1) as u32 } else { e.mana_cap },
        ..e
    }
}

/// A successful shop spend of `cost` gold.
pub open spec fn spec_after_spend_gold(e: PlayerEconomy, cost: u32) -> PlayerEconomy {
    PlayerEconomy { gold: sat_sub(e.gold as int, cost as int) as u32, ..e }
}

/// The bookkeeping rule that an auction reservation never exceeds held gold.
pub open spec fn reservation_within_gold(e: PlayerEconomy) -> bool {
    e.reserved_gold <= e.gold
}

/// Validate that `economy` can pay `cost`.
///
/// Reserve-only costs ignore `current_mana`; normal costs auto-split current
/// first, then reserve.
pub fn validate_spend(economy: &PlayerEconomy, cost: u32, from_reserve_only: bool) -> (r: Result<(), SpendError>)
    ensures
        r is Ok <==> spec_can_pay(*economy, cost, from_reserve_only),
        r is Err ==> r == Err::<(), SpendError>(SpendError::InsufficientFunds),
{
    if from_reserve_only {
        if economy.reserve_mana >= cost {
            Ok(())
        } else {
            Err(SpendError::InsufficientFunds)
        }
    } else if total_effective_mana(economy) >= cost {
        Ok(())
    } else {
        Err(SpendError::InsufficientFunds)
    }
}

/// Apply a previously validated mana spend.
///
/// Normal spends draw from `current_mana` first and overflow into reserve.
/// Reserve-only spends deduct from reserve and leave current mana untouched.
pub fn apply_spend(economy: &mut PlayerEconomy, cost: u32, from_reserve_only: bool)
    ensures
        *final(economy) == spec_after_spend(*old(economy), cost, from_reserve_only),
{
    if from_reserve_only {
        economy.reserve_mana = economy.reserve_mana.saturating_sub(cost);
        return;
    }
    let from_current = if cost < economy.current_mana { cost } else { economy.current_mana };
    let from_reserve = cost.saturating_sub(from_current);
    economy.current_mana = economy.current_mana.saturating_sub(from_current);
    economy.reserve_mana = economy.reserve_mana.saturating_sub(from_reserve);
}

/// Add persistent gold to the economy.
pub fn apply_gold_award(economy: &mut PlayerEconomy, amount: u32)
    ensures
        *final(economy) == spec_after_gold_award(*old(economy), amount),
{
    economy.gold = economy.gold.saturating_add(amount);
}

/// Apply the per-DRAFT mana ramp: current mana becomes the round number,
/// capped by the player's mana ceiling.
pub fn apply_mana_ramp(economy: &mut PlayerEconomy, round: u32)
    ensures
        *final(economy) == spec_after_mana_ramp(*old(economy), round),
{
    economy.current_mana = if round < economy.mana_cap { round } else { economy.mana_cap };
}

/// Add persistent reserve mana. Reserve has no cap.
pub fn add_reserve(economy: &mut PlayerEconomy, amount: u32)
    ensures
        *final(economy) == spec_after_add_reserve(*old(economy), amount),
{
    economy.reserve_mana = economy.reserve_mana.saturating_add(amount);
}

/// Reserve gold for an auction bid.
///
/// The reservation succeeds only when unreserved gold can cover `amount`.
pub fn reserve_gold(economy: &mut PlayerEconomy, amount: u32) -> (r: Result<(), SpendError>)
    ensures
        r is Ok <==> spec_unreserved_gold(*old(economy)) >= amount,
        r is Ok ==> *final(economy) == spec_after_reserve_gold(*old(economy), amount),
        r is Err ==> r == Err::<(), SpendError>(SpendError::InsufficientFunds) && *final(economy) == *old(economy),
        reservation_within_gold(*old(economy)) ==> reservation_within_gold(*final(economy)),
{
    if !can_afford_bid(economy, amount) {
        return Err(SpendError::InsufficientFunds);
    }
    economy.reserved_gold = economy.reserved_gold.saturating_add(amount);
    Ok(())
}

/// Release an auction gold reservation, clamping at zero.
pub fn release_gold_reservation(economy: &mut PlayerEconomy, amount: u32)
    ensures
        *final(economy) == spec_after_release_gold(*old(economy), amount),
        reservation_within_gold(*old(economy)) ==> reservation_within_gold(*final(economy)),
{
    economy.reserved_gold = economy.reserved_gold.saturating_sub(amount);
}

/// Validate an auction bid against hand capacity and unreserved gold.
pub fn validate_auction_bid(economy: &PlayerEconomy, bid_amount: u32, hand_size: u32) -> (r: Result<(), SpendError>)
    ensures
        hand_size >= HAND_LIMIT ==> r == Err::<(), SpendError>(SpendError::HandFull),
        hand_size < HAND_LIMIT && spec_unreserved_gold(*economy) < bid_amount
            ==> r == Err::<(), SpendError>(SpendError::InsufficientFunds),
        r is Ok <==> hand_size < HAND_LIMIT && spec_unreserved_gold(*economy) >= bid_amount,
{
    if hand_size >= HAND_LIMIT {
        return Err(SpendError::HandFull);
    }
    if !can_afford_bid(economy, bid_amount) {
        return Err(SpendError::InsufficientFunds);
    }
    Ok(())
}

/// Discard all current-round mana.
pub fn discard_current_mana(economy: &mut PlayerEconomy)
    ensures
        *final(economy) == spec_after_discard_current(*old(economy)),
{
    economy.current_mana = 0;
}

/// Increase `mana_cap` by one, capped by `config.mana_cap_max`; a cap already
/// at or above the ceiling is left as it is.
pub fn increment_mana_cap(economy: &mut PlayerEconomy, config: &GameConfig)
    ensures
        *final(economy) == spec_after_increment_mana_cap(*old(economy), config.mana_cap_max),
{
    if economy.mana_cap < config.mana_cap_max {
        economy.mana_cap = economy.mana_cap + 1;
    }
}

/// Return whether unreserved gold can cover an auction bid.
pub fn can_afford_bid(economy: &PlayerEconomy, amount: u32) -> (r: bool)
    ensures
        r == (spec_unreserved_gold(*economy) >= amount),
{
    economy.gold.saturating_sub(economy.reserved_gold) >= amount
}

/// Return whether unreserved gold can cover a shop purchase.
pub fn can_afford_shop(economy: &PlayerEconomy, cost: u32) -> (r: bool)
    ensures
        r == (spec_unreserved_gold(*economy) >= cost),
{
    economy.gold.saturating_sub(economy.reserved_gold) >= cost
}

/// Spend unreserved persistent gold for a shop purchase or manual refresh.
pub fn spend_gold(economy: &mut PlayerEconomy, cost: u32) -> (r: Result<(), SpendError>)
    ensures
        r is Ok <==> spec_unreserved_gold(*old(economy)) >= cost,
        r is Ok ==> *final(economy) == spec_after_spend_gold(*old(economy), cost),
        r is Err ==> r == Err::<(), SpendError>(SpendError::InsufficientFunds) && *final(economy) == *old(economy),
        reservation_within_gold(*old(economy)) ==> reservation_within_gold(*final(economy)),
{
    if !can_afford_shop(economy, cost) {
        return Err(SpendError::InsufficientFunds);
    }
    economy.gold = economy.gold.saturating_sub(cost);
    Ok(())
}

/// Refund persistent gold after an atomic purchase rollback.
pub fn refund_gold(economy: &mut PlayerEconomy, amount: u32)
    ensures
        *final(economy) == spec_after_gold_award(*old(economy), amount),
        reservation_within_gold(*old(economy)) ==> reservation_within_gold(*final(economy)),
{
    economy.gold = economy.gold.saturating_add(amount);
}

/// Total mana available for normal card costs.
pub fn total_effective_mana(economy: &PlayerEconomy) -> (r: u32)
    ensures
        r == spec_total_effective_mana(*economy),
{
    economy.current_mana.saturating_add(economy.reserve_mana)
}

/// A normal spend that validation accepted takes exactly `cost` out of
/// current plus reserve mana, drawing current mana first: reserve is touched
/// only for the part of the cost that current mana cannot cover.
pub proof fn law_validated_spend_draws_current_first(e: PlayerEconomy, cost: u32)
    requires
        spec_can_pay(e, cost, false),
    ensures
        spec_after_spend(e, cost, false).current_mana + spec_after_spend(e, cost, false).reserve_mana
            == e.current_mana + e.reserve_mana - cost,
        cost <= e.current_mana ==> spec_after_spend(e, cost, false).reserve_mana == e.reserve_mana,
        cost >= e.current_mana ==> spec_after_spend(e, cost, false).current_mana == 0,
        spec_after_spend(e, cost, false).gold == e.gold,
        spec_after_spend(e, cost, false).reserved_gold == e.reserved_gold,
        spec_after_spend(e, cost, false).mana_cap == e.mana_cap,
{
}

/// A reserve-only spend that validation accepted takes exactly `cost` out of
/// reserve mana and never touches current mana.
pub proof fn law_reserve_only_spend_keeps_current(e: PlayerEconomy, cost: u32)
    requires
        spec_can_pay(e, cost, true),
    ensures
        spec_after_spend(e, cost, true).reserve_mana == e.reserve_mana - cost,
        spec_after_spend(e, cost, true).current_mana == e.current_mana,
{
}

/// Releasing exactly what a successful reservation reserved restores the
/// reservation, as long as reservations never exceeded held gold.
pub proof fn law_reserve_then_release_restores(e: PlayerEconomy, amount: u32)
    requires
        reservation_within_gold(e),
        spec_unreserved_gold(e) >= amount,
    ensures
        spec_after_release_gold(spec_after_reserve_gold(e, amount), amount) == e,
        reservation_within_gold(spec_after_reserve_gold(e, amount)),
{
}

/// Refunding what a successful shop spend took restores the player's gold
/// (the atomic-purchase rollback).
pub proof fn law_spend_then_refund_restores(e: PlayerEconomy, cost: u32)
    requires
        spec_unreserved_gold(e) >= cost,
    ensures
        spec_after_gold_award(spec_after_spend_gold(e, cost), cost) == e,
{
}

/// Moving current mana into reserve and then discarding current mana keeps the
/// total payable mana, unless the reserve would exceed `u32::MAX`.
pub proof fn law_reserve_transfer_keeps_total(e: PlayerEconomy)
    requires
        e.current_mana + e.reserve_mana <= u32::MAX,
    ensures
        spec_after_discard_current(spec_after_add_reserve(e, e.current_mana)).current_mana == 0,
        spec_total_effective_mana(spec_after_discard_current(spec_after_add_reserve(e, e.current_mana)))
            == spec_total_effective_mana(e),
{
}

/// Raising the mana cap never takes it past the configured ceiling, and never
/// lowers it.
pub proof fn law_mana_cap_stays_within_ceiling(e: PlayerEconomy, max: u32)
    requires
        e.mana_cap <= max,
    ensures
        spec_after_increment_mana_cap(e, max).mana_cap <= max,
        spec_after_increment_mana_cap(e, max).mana_cap >= e.mana_cap,
{
}

/// The mana ramp never grants more current mana than the cap.
pub proof fn law_mana_ramp_within_cap(e: PlayerEconomy, round: u32)
    ensures
        spec_after_mana_ramp(e, round).current_mana <= e.mana_cap,
        spec_after_mana_ramp(e, round).current_mana <= round,
{
}

} // verus!
