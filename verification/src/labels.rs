//! The copy and states that the shop/auction panels show: bid buttons,
//! timer and status labels, shop slot affordances and card tiles.

use vstd::prelude::*;
use vstd::string::*;

use crate::auction::{sat_add, saturating_add, ShopAuctionAuctionPanelState, ShopAuctionAuctionState, AUCTION_AWAITING_SERVER_DELAY_MS};
use crate::card::{CardData, CardId, CardType, PlayerId, Rarity};
use crate::panels::{PlayerEconomyView, ShopAuctionLocalGoldView, ShopAuctionSettlementOutcome, ShopAuctionSettlementState, HAND_FULL_SIZE};
use crate::protocol::{BidRejectedReason, RoundPhase};
use crate::text::{decimal, push_decimal};

verus! {

/// The label on one bid button: what the bid commits in total, and the step.
#[derive(Clone, Copy, Debug, PartialEq, Eq, Structural)]
pub struct BidButtonLabel {
    pub total_commitment: u32,
    pub increment: u32,
}

impl BidButtonLabel {
    /// `"{total}g\n(+{increment})"`.
    pub fn text(self) -> (s: String)
        ensures
            s@ == decimal(self.total_commitment as nat) + "g\n(+"@ + decimal(self.increment as nat) + ")"@,
    {
        let mut s = String::new();
        push_decimal(&mut s, self.total_commitment);
        s.append("g\n(+");
        push_decimal(&mut s, self.increment);
        s.append(")");
        proof {
            assert(s@ =~= decimal(self.total_commitment as nat) + "g\n(+"@ + decimal(self.increment as nat) + ")"@);
        }
        s
    }
}

/// The three bid buttons for the current price and the configured steps.
pub fn bid_button_labels(current_price: u32, bid_increments: [u32; 3]) -> (r: [BidButtonLabel; 3])
    ensures
        forall|i: int| 0 <= i < 3 ==> r@[i] == (BidButtonLabel {
            total_commitment: sat_add(current_price, bid_increments@[i]),
            increment: bid_increments@[i],
        }),
{
    let a = BidButtonLabel {
        total_commitment: saturating_add(current_price, bid_increments[0]),
        increment: bid_increments[0],
    };
    let b = BidButtonLabel {
        total_commitment: saturating_add(current_price, bid_increments[1]),
        increment: bid_increments[1],
    };
    let c = BidButtonLabel {
        total_commitment: saturating_add(current_price, bid_increments[2]),
        increment: bid_increments[2],
    };
    [a, b, c]
}

/// The texts of the three bid buttons.
pub fn bid_button_label_texts(current_price: u32, bid_increments: [u32; 3]) -> (r: [String; 3])
    ensures
        forall|i: int| 0 <= i < 3 ==> r@[i]@ == decimal(sat_add(current_price, bid_increments@[i]) as nat)
            + "g\n(+"@ + decimal(bid_increments@[i] as nat) + ")"@,
{
    let labels = bid_button_labels(current_price, bid_increments);
    let a = labels[0].text();
    let b = labels[1].text();
    let c = labels[2].text();
    [a, b, c]
}

/// The price a bid button offers: the current price plus its step.
pub fn auction_bid_amount(current_price: u32, increment: u32) -> (r: u32)
    ensures
        r == sat_add(current_price, increment),
{
    saturating_add(current_price, increment)
}

/// The refresh price shown: the base cost plus one per refresh already made
/// this draft, up to the cap.
pub open spec fn spec_displayed_refresh_cost(base: u32, cap: u32, count: u32) -> u32 {
    sat_add(base, if count <= cap { count } else { cap })
}

pub fn displayed_refresh_cost(refresh_base_cost: u32, refresh_cap: u32, refresh_count_this_draft: u32) -> (r: u32)
    ensures
        r == spec_displayed_refresh_cost(refresh_base_cost, refresh_cap, refresh_count_this_draft),
{
    let counted = if refresh_count_this_draft <= refresh_cap {
        refresh_count_this_draft
    } else {
        refresh_cap
    };
    saturating_add(refresh_base_cost, counted)
}

/// Border colour band of the auction panel, by price.
#[derive(Clone, Copy, Debug, PartialEq, Eq, Structural)]
pub enum AuctionBorderColorTier {
    PaleInkBlue,
    AuctionAmber,
    DeepAmber,
    CrimsonAmber,
}

pub fn auction_border_color_tier(current_price: u32) -> (r: AuctionBorderColorTier)
    ensures
        current_price <= 3 ==> r == AuctionBorderColorTier::PaleInkBlue,
        4 <= current_price <= 6 ==> r == AuctionBorderColorTier::AuctionAmber,
        7 <= current_price <= 9 ==> r == AuctionBorderColorTier::DeepAmber,
        current_price >= 10 ==> r == AuctionBorderColorTier::CrimsonAmber,
{
    if current_price <= 3 {
        AuctionBorderColorTier::PaleInkBlue
    } else if current_price <= 6 {
        AuctionBorderColorTier::AuctionAmber
    } else if current_price <= 9 {
        AuctionBorderColorTier::DeepAmber
    } else {
        AuctionBorderColorTier::CrimsonAmber
    }
}

/// Whether the featured card's frame shows the local player leading, an
/// opponent leading, or no bid yet.
#[derive(Clone, Copy, Debug, PartialEq, Eq, Structural)]
pub enum AuctionFeaturedCardLeadLossState {
    Neutral,
    Leading,
    Losing,
}

pub open spec fn spec_lead_loss_state(state: ShopAuctionAuctionState, local_gold: ShopAuctionLocalGoldView) -> AuctionFeaturedCardLeadLossState {
    match state.current_leader {
        Some(leader) => if Some(leader) == local_gold.player_id {
            AuctionFeaturedCardLeadLossState::Leading
        } else {
            AuctionFeaturedCardLeadLossState::Losing
        },
        None => AuctionFeaturedCardLeadLossState::Neutral,
    }
}

pub fn auction_featured_card_lead_loss_state(state: &ShopAuctionAuctionState, local_gold: &ShopAuctionLocalGoldView) -> (r: AuctionFeaturedCardLeadLossState)
    ensures
        r == spec_lead_loss_state(*state, *local_gold),
{
    match state.current_leader {
        Some(leader) => match local_gold.player_id {
            Some(p) => if p.0 == leader.0 {
                AuctionFeaturedCardLeadLossState::Leading
            } else {
                AuctionFeaturedCardLeadLossState::Losing
            },
            None => AuctionFeaturedCardLeadLossState::Losing,
        },
        None => AuctionFeaturedCardLeadLossState::Neutral,
    }
}

/// What a bid button allows.
#[derive(Clone, Copy, Debug, PartialEq, Eq, Structural)]
pub enum AuctionBidButtonState {
    GenericDisabled,
    Enabled,
    Unaffordable,
    HandFullLocked,
    InFlight,
    LocallyExpired,
    HiddenLeading,
}

/// The state of the bid button offering `amount`, by priority: no live
/// panel; the local player leading; a bid in flight (this one or another);
/// the hold after an opponent's bid; the countdown over; a full hand; not
/// enough free gold; else enabled.
pub open spec fn spec_bid_button_state(
    amount: u32,
    local_free_gold: u32,
    has_gold_source: bool,
    hand_full: bool,
    local_leading: bool,
    waiting: bool,
    s: ShopAuctionAuctionState,
) -> AuctionBidButtonState {
    if s.panel_state != ShopAuctionAuctionPanelState::Active {
        AuctionBidButtonState::GenericDisabled
    } else if local_leading {
        AuctionBidButtonState::HiddenLeading
    } else if s.in_flight_bid_amount is Some {
        if s.in_flight_bid_amount == Some(amount) {
            AuctionBidButtonState::InFlight
        } else {
            AuctionBidButtonState::GenericDisabled
        }
    } else if waiting {
        AuctionBidButtonState::GenericDisabled
    } else if s.spec_locally_expired() {
        AuctionBidButtonState::LocallyExpired
    } else if hand_full {
        AuctionBidButtonState::HandFullLocked
    } else if !has_gold_source || local_free_gold < amount {
        AuctionBidButtonState::Unaffordable
    } else {
        AuctionBidButtonState::Enabled
    }
}

pub fn auction_bid_button_state(
    amount: u32,
    local_free_gold: u32,
    has_gold_source: bool,
    hand_full: bool,
    local_leading: bool,
    waiting_for_local_gold_after_opponent_bid: bool,
    auction_state: &ShopAuctionAuctionState,
) -> (r: AuctionBidButtonState)
    ensures
        r == spec_bid_button_state(
            amount,
            local_free_gold,
            has_gold_source,
            hand_full,
            local_leading,
            waiting_for_local_gold_after_opponent_bid,
            *auction_state,
        ),
{
    if auction_state.panel_state != ShopAuctionAuctionPanelState::Active {
        return AuctionBidButtonState::GenericDisabled;
    }
    if local_leading {
        return AuctionBidButtonState::HiddenLeading;
    }
    if let Some(in_flight_amount) = auction_state.in_flight_bid_amount {
        return if in_flight_amount == amount {
            AuctionBidButtonState::InFlight
        } else {
            AuctionBidButtonState::GenericDisabled
        };
    }
    if waiting_for_local_gold_after_opponent_bid {
        return AuctionBidButtonState::GenericDisabled;
    }
    if auction_state.locally_expired() {
        return AuctionBidButtonState::LocallyExpired;
    }
    if hand_full {
        return AuctionBidButtonState::HandFullLocked;
    }
    if !has_gold_source || local_free_gold < amount {
        return AuctionBidButtonState::Unaffordable;
    }
    AuctionBidButtonState::Enabled
}

/// The toast for a refused bid.
pub open spec fn spec_rejection_toast(reason: BidRejectedReason, current_price: u32) -> Seq<char> {
    match reason {
        BidRejectedReason::InsufficientGold => "Not enough gold"@,
        BidRejectedReason::AmountTooLow => "Bid must be at least "@ + decimal(sat_add(current_price, 1) as nat) + "g"@,
        BidRejectedReason::AlreadyLeader => "You are already leading"@,
        BidRejectedReason::HandFull => "Hand full — no bids possible this auction"@,
        BidRejectedReason::AuctionExpired => "Auction has ended"@,
    }
}

pub fn rejection_toast_text(reason: BidRejectedReason, current_price: u32) -> (s: String)
    ensures
        s@ == spec_rejection_toast(reason, current_price),
{
    match reason {
        BidRejectedReason::InsufficientGold => String::from_str("Not enough gold"),
        BidRejectedReason::AmountTooLow => {
            let mut s = String::from_str("Bid must be at least ");
            push_decimal(&mut s, saturating_add(current_price, 1));
            s.append("g");
            proof {
                assert(s@ =~= "Bid must be at least "@ + decimal(sat_add(current_price, 1) as nat) + "g"@);
            }
            s
        },
        BidRejectedReason::AlreadyLeader => String::from_str("You are already leading"),
        BidRejectedReason::HandFull => String::from_str("Hand full — no bids possible this auction"),
        BidRejectedReason::AuctionExpired => String::from_str("Auction has ended"),
    }
}

/// Whole seconds left, rounded up.
pub open spec fn seconds_left(ms: u32) -> nat {
    ((ms as nat + 999) / 1000) as nat
}

/// Countdowns round the time left up to whole seconds: a label never shows
/// zero while time remains, and never shows a second more than is left.
pub proof fn law_countdown_rounds_up(ms: u32)
    requires
        ms > 0,
    ensures
        seconds_left(ms) >= 1,
        (seconds_left(ms) - 1) * 1000 < ms <= seconds_left(ms) * 1000,
{
}

fn ceil_seconds(ms: u32) -> (r: u32)
    ensures
        r == seconds_left(ms),
{
    let q = ms / 1000;
    if ms % 1000 == 0 {
        q
    } else {
        q + 1
    }
}

/// The time label on the featured card.
pub open spec fn spec_featured_timer_label(state: ShopAuctionAuctionState) -> Seq<char> {
    match state.panel_state {
        ShopAuctionAuctionPanelState::Hidden => Seq::empty(),
        ShopAuctionAuctionPanelState::Preparing => "Auction starting..."@,
        ShopAuctionAuctionPanelState::Settling => "Auction ending"@,
        ShopAuctionAuctionPanelState::ConnectionError => "Awaiting server..."@,
        ShopAuctionAuctionPanelState::Active => if state.timer_remaining_ms == 0 {
            "Auction ending"@
        } else {
            decimal(seconds_left(state.timer_remaining_ms)) + "s left"@
        },
    }
}

pub fn auction_featured_timer_label(state: &ShopAuctionAuctionState) -> (s: String)
    ensures
        s@ == spec_featured_timer_label(*state),
{
    match state.panel_state {
        ShopAuctionAuctionPanelState::Hidden => String::new(),
        ShopAuctionAuctionPanelState::Preparing => String::from_str("Auction starting..."),
        ShopAuctionAuctionPanelState::Settling => String::from_str("Auction ending"),
        ShopAuctionAuctionPanelState::ConnectionError => String::from_str("Awaiting server..."),
        ShopAuctionAuctionPanelState::Active => {
            if state.timer_remaining_ms == 0 {
                return String::from_str("Auction ending");
            }
            let mut s = String::new();
            push_decimal(&mut s, ceil_seconds(state.timer_remaining_ms));
            s.append("s left");
            proof {
                assert(s@ =~= decimal(seconds_left(state.timer_remaining_ms)) + "s left"@);
            }
            s
        },
    }
}

/// Status while the countdown sits at zero: the server is announced as
/// awaited after a short delay.
pub fn auction_expired_status_text(locally_expired_elapsed_ms: u32) -> (r: &'static str)
    ensures
        r@ == (if locally_expired_elapsed_ms >= AUCTION_AWAITING_SERVER_DELAY_MS {
            "Awaiting server..."@
        } else {
            "Auction ending..."@
        }),
{
    if locally_expired_elapsed_ms >= AUCTION_AWAITING_SERVER_DELAY_MS {
        "Awaiting server..."
    } else {
        "Auction ending..."
    }
}

/// What a shop slot shows.
#[derive(Clone, Copy, Debug, PartialEq, Eq, Structural)]
pub enum ShopSlotState {
    Empty,
    Available,
    PendingPurchase,
    HandFullLocked,
    Refreshing,
}

/// The affordance line under a shop slot.
pub open spec fn spec_shop_slot_affordance(
    state: ShopSlotState,
    card_id: Option<CardId>,
    cost: Option<u32>,
    hand_size: usize,
    economy: PlayerEconomyView,
) -> Seq<char> {
    match state {
        ShopSlotState::Empty => Seq::empty(),
        ShopSlotState::PendingPurchase => "PENDING..."@,
        ShopSlotState::Refreshing => "REFRESHING..."@,
        ShopSlotState::HandFullLocked => "LOCKED · Hand full"@,
        ShopSlotState::Available => {
            let c: u32 = match cost {
                Some(c) => c,
                None => 0,
            };
            if card_id is None {
                Seq::empty()
            } else if hand_size >= HAND_FULL_SIZE {
                "LOCKED · Hand full"@
            } else if !economy.initialized || economy.gold < c {
                "LOCKED · Need "@ + decimal(c as nat) + "g"@
            } else {
                "BUY · "@ + decimal(c as nat) + "g"@
            }
        },
    }
}

pub fn shop_slot_affordance_copy(
    state: ShopSlotState,
    card_id: Option<CardId>,
    cost: Option<u32>,
    hand_size: usize,
    economy: &PlayerEconomyView,
) -> (s: String)
    ensures
        s@ == spec_shop_slot_affordance(state, card_id, cost, hand_size, *economy),
{
    match state {
        ShopSlotState::Empty => String::new(),
        ShopSlotState::PendingPurchase => String::from_str("PENDING..."),
        ShopSlotState::Refreshing => String::from_str("REFRESHING..."),
        ShopSlotState::HandFullLocked => String::from_str("LOCKED · Hand full"),
        ShopSlotState::Available => {
            if card_id.is_none() {
                return String::new();
            }
            if hand_size >= HAND_FULL_SIZE {
                return String::from_str("LOCKED · Hand full");
            }
            let c = match cost {
                Some(c) => c,
                None => 0,
            };
            if !economy.initialized || economy.gold < c {
                let mut s = String::from_str("LOCKED · Need ");
                push_decimal(&mut s, c);
                s.append("g");
                proof {
                    assert(s@ =~= "LOCKED · Need "@ + decimal(c as nat) + "g"@);
                }
                return s;
            }
            let mut s = String::from_str("BUY · ");
            push_decimal(&mut s, c);
            s.append("g");
            proof {
                assert(s@ =~= "BUY · "@ + decimal(c as nat) + "g"@);
            }
            s
        },
    }
}

/// `"ATK/HP"` for cards that fight on the board, empty for the others.
pub open spec fn spec_combat_stats(card: CardData) -> Seq<char> {
    if card.card_type == CardType::Minion || card.card_type == CardType::Structure {
        decimal(card.atk as nat) + "/"@ + decimal(card.hp as nat)
    } else {
        Seq::empty()
    }
}

pub fn format_card_combat_stats(card: &CardData) -> (s: String)
    ensures
        s@ == spec_combat_stats(*card),
{
    match card.card_type {
        CardType::Minion | CardType::Structure => {
            let mut s = String::new();
            push_decimal(&mut s, card.atk);
            s.append("/");
            push_decimal(&mut s, card.hp);
            proof {
                assert(s@ =~= decimal(card.atk as nat) + "/"@ + decimal(card.hp as nat));
            }
            s
        },
        _ => String::new(),
    }
}

/// Settlement copy that names the price paid by an opponent.
pub open spec fn spec_dynamic_overlay_text(s: ShopAuctionSettlementState) -> Seq<char> {
    match s.outcome {
        Some(ShopAuctionSettlementOutcome::LocalWinner) => "Auction won - card moving to hand"@,
        Some(ShopAuctionSettlementOutcome::OpponentWinner) => "Opponent won for "@ + decimal(s.amount as nat) + "g"@,
        Some(ShopAuctionSettlementOutcome::NoBid) => "No bids - card returned"@,
        None => Seq::empty(),
    }
}

pub fn dynamic_overlay_text(settlement: &ShopAuctionSettlementState) -> (r: String)
    ensures
        r@ == spec_dynamic_overlay_text(*settlement),
{
    match settlement.outcome {
        Some(ShopAuctionSettlementOutcome::LocalWinner) => String::from_str("Auction won - card moving to hand"),
        Some(ShopAuctionSettlementOutcome::OpponentWinner) => {
            let mut s = String::from_str("Opponent won for ");
            push_decimal(&mut s, settlement.amount);
            s.append("g");
            proof {
                assert(s@ =~= "Opponent won for "@ + decimal(settlement.amount as nat) + "g"@);
            }
            s
        },
        Some(ShopAuctionSettlementOutcome::NoBid) => String::from_str("No bids - card returned"),
        None => String::new(),
    }
}

/// Sort rank of a rarity, rarest highest.
pub open spec fn spec_rarity_rank(rarity: Rarity) -> u8 {
    match rarity {
        Rarity::Common => 0,
        Rarity::Uncommon => 1,
        Rarity::Rare => 2,
        Rarity::Epic => 3,
        Rarity::Legendary => 4,
    }
}

pub fn rarity_sort_rank(rarity: Rarity) -> (r: u8)
    ensures
        r == spec_rarity_rank(rarity),
{
    match rarity {
        Rarity::Common => 0,
        Rarity::Uncommon => 1,
        Rarity::Rare => 2,
        Rarity::Epic => 3,
        Rarity::Legendary => 4,
    }
}

/// Shop offers that arrive in these phases wait until the shop opens.
pub fn should_buffer_shop_slots(phase: RoundPhase) -> (r: bool)
    ensures
        r == (phase == RoundPhase::DraftInitial || phase == RoundPhase::DraftAuction || phase
            == RoundPhase::Placement || phase == RoundPhase::Resolution),
{
    match phase {
        RoundPhase::DraftInitial | RoundPhase::DraftAuction | RoundPhase::Placement | RoundPhase::Resolution => true,
        _ => false,
    }
}

} // verus!
