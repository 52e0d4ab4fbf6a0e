//! Player input on the shop/auction panels: what a click or key does to
//! the UI state, and which request, if any, goes to the server.

use vstd::prelude::*;

use crate::auction::{sat_add, ShopAuctionAuctionPanelState, ShopAuctionAuctionState};
use crate::card::CardId;
use crate::labels::{auction_bid_amount, displayed_refresh_cost, spec_displayed_refresh_cost};
use crate::panels::{
    DraftInitialObjectiveFocusTarget, PlayerEconomyView, ShopAuctionLocalGoldView, ShopAuctionUiMode,
    HAND_FULL_SIZE,
};
use crate::labels::ShopSlotState;
use crate::protocol::RoundPhase;
use crate::shop_auction::ShopAuctionUi;
use crate::panel_views::{spec_button_state, spec_refresh_enabled};
use crate::labels::AuctionBidButtonState;

verus! {

/// What an initial draft slot shows.
#[derive(Clone, Copy, Debug, PartialEq, Eq, Structural)]
pub enum DraftInitialSlotState {
    Available,
    Pending,
    HandFullLocked,
    Purchased,
}

/// What a click on a card slot leads to.
#[derive(Clone, Copy, Debug, PartialEq, Eq, Structural)]
pub enum SlotClickOutcome {
    /// Nothing happens.
    Ignored,
    /// The hand is full: the slot locks.
    LockHandFull,
    /// Not enough gold: the gold counter flashes.
    FlashGold,
    /// A purchase request for the card goes out and the slot waits.
    Purchase(CardId),
}

/// The initial draft panel takes input.
pub open spec fn draft_initial_active(ui: ShopAuctionUi) -> bool {
    ui.mode == ShopAuctionUiMode::DraftOffering && ui.draft.offering_loaded
}

/// The local player holds the highest bid.
pub open spec fn local_leading(a: ShopAuctionAuctionState, g: ShopAuctionLocalGoldView) -> bool {
    a.current_leader is Some && a.current_leader == g.player_id
}

/// The auction panel takes bids.
pub open spec fn auction_active(ui: ShopAuctionUi) -> bool {
    ui.mode == ShopAuctionUiMode::Auction && ui.auction.panel_state == ShopAuctionAuctionPanelState::Active
        && ui.auction.card_id is Some
}

fn is_local_leading(a: &ShopAuctionAuctionState, g: &ShopAuctionLocalGoldView) -> (r: bool)
    ensures
        r == local_leading(*a, *g),
{
    match (a.current_leader, g.player_id) {
        (Some(l), Some(p)) => l.0 == p.0,
        _ => false,
    }
}

/// A bid with step `increment` goes out: the auction takes bids, no bid is
/// in flight, the countdown runs, the hand has room, the local player is
/// not leading and free gold covers the price.
pub open spec fn bid_click_sends(ui: ShopAuctionUi, phase: RoundPhase, economy: PlayerEconomyView, increment: u32) -> bool {
    let a = sat_add(ui.auction.current_price, increment);
    &&& phase == RoundPhase::DraftAuction
    &&& auction_active(ui)
    &&& ui.auction.in_flight_bid_amount is None
    &&& !ui.auction.spec_locally_expired()
    &&& ui.hand_size < HAND_FULL_SIZE
    &&& !local_leading(ui.auction, ui.local_gold)
    &&& (economy.initialized || ui.local_gold.initialized)
    &&& ui.local_gold.spec_free_gold(economy) >= a
}

/// A click on the refresh button sends a refresh: the shop shows, no
/// refresh is in flight and the gold covers the displayed price.
pub open spec fn refresh_click_sends(ui: ShopAuctionUi, phase: RoundPhase, economy: PlayerEconomyView, base: u32, cap: u32) -> bool {
    &&& phase == RoundPhase::DraftShop
    &&& ui.mode == ShopAuctionUiMode::Shop
    &&& !ui.shop.refresh_in_flight
    &&& economy.initialized
    &&& economy.gold >= spec_displayed_refresh_cost(base, cap, ui.shop.refresh_count_this_draft)
}

/// A click on an initial draft slot holding `card` at `cost`.
pub open spec fn spec_draft_slot_click(active: bool, hand_size: usize, economy: PlayerEconomyView, slot: DraftInitialSlotState, card: CardId, cost: u32) -> SlotClickOutcome {
    if !active || slot != DraftInitialSlotState::Available {
        SlotClickOutcome::Ignored
    } else if hand_size >= HAND_FULL_SIZE {
        SlotClickOutcome::LockHandFull
    } else if cost > economy.gold {
        SlotClickOutcome::FlashGold
    } else {
        SlotClickOutcome::Purchase(card)
    }
}

/// A click on a shop slot holding `card` at `cost`.
pub open spec fn spec_shop_slot_click(active: bool, hand_size: usize, economy: PlayerEconomyView, slot: ShopSlotState, card: CardId, cost: u32) -> SlotClickOutcome {
    if !active || slot != ShopSlotState::Available {
        SlotClickOutcome::Ignored
    } else if hand_size >= HAND_FULL_SIZE {
        SlotClickOutcome::LockHandFull
    } else if !economy.initialized || cost > economy.gold {
        SlotClickOutcome::FlashGold
    } else {
        SlotClickOutcome::Purchase(card)
    }
}

/// The first focusable bid button at or after `start`, wrapping around.
pub open spec fn spec_next_focusable(focusable: Seq<bool>, start: int) -> Option<usize> {
    if focusable[start % 3] {
        Some((start % 3) as usize)
    } else if focusable[(start + 1) % 3] {
        Some(((start + 1) % 3) as usize)
    } else if focusable[(start + 2) % 3] {
        Some(((start + 2) % 3) as usize)
    } else {
        None
    }
}

/// The first focusable bid button at or after `start_index`, wrapping
/// around.
pub fn next_focusable_bid_button(focusable: [bool; 3], start_index: usize) -> (r: Option<usize>)
    requires
        start_index <= usize::MAX - 2,
    ensures
        r == spec_next_focusable(focusable@, start_index as int),
        r matches Some(i) ==> i < 3 && focusable@[i as int],
{
    let first = start_index % 3;
    if focusable[first] {
        return Some(first);
    }
    let second = (start_index + 1) % 3;
    if focusable[second] {
        return Some(second);
    }
    let third = (start_index + 2) % 3;
    if focusable[third] {
        return Some(third);
    }
    None
}

impl ShopAuctionUi {
    /// A click on an initial draft slot. Only the outcome is returned: the
    /// slot's state lives with the slot.
    pub fn draft_slot_click(&self, economy: &PlayerEconomyView, slot: DraftInitialSlotState, card: CardId, cost: u32) -> (r: SlotClickOutcome)
        ensures
            r == spec_draft_slot_click(draft_initial_active(*self), self.hand_size, *economy, slot, card, cost),
    {
        let active = self.mode == ShopAuctionUiMode::DraftOffering && self.draft.offering_loaded;
        if !active || slot != DraftInitialSlotState::Available {
            return SlotClickOutcome::Ignored;
        }
        if self.hand_size >= HAND_FULL_SIZE {
            return SlotClickOutcome::LockHandFull;
        }
        if cost > economy.gold {
            return SlotClickOutcome::FlashGold;
        }
        SlotClickOutcome::Purchase(card)
    }

    /// A click on a shop slot during the shop phase.
    pub fn shop_slot_click(&self, phase: RoundPhase, economy: &PlayerEconomyView, slot: ShopSlotState, card: CardId, cost: u32) -> (r: SlotClickOutcome)
        ensures
            r == spec_shop_slot_click(
                phase == RoundPhase::DraftShop && self.mode == ShopAuctionUiMode::Shop,
                self.hand_size,
                *economy,
                slot,
                card,
                cost,
            ),
    {
        let active = phase == RoundPhase::DraftShop && self.mode == ShopAuctionUiMode::Shop;
        if !active || slot != ShopSlotState::Available {
            return SlotClickOutcome::Ignored;
        }
        if self.hand_size >= HAND_FULL_SIZE {
            return SlotClickOutcome::LockHandFull;
        }
        if !economy.initialized || cost > economy.gold {
            return SlotClickOutcome::FlashGold;
        }
        SlotClickOutcome::Purchase(card)
    }

    /// The draft's ready button: toggles the ready signal and returns the
    /// request to send (`true` retracts an earlier signal).
    pub fn draft_ready_click(&mut self) -> (retract: Option<bool>)
        ensures
            *final(self) == (ShopAuctionUi {
                draft: final(self).draft,
                ..*old(self)
            }),
            draft_initial_active(*old(self)) ==> retract == Some(old(self).draft.ready_signalled)
                && final(self).draft.ready_signalled == !old(self).draft.ready_signalled,
            !draft_initial_active(*old(self)) ==> retract is None && final(self).draft.ready_signalled
                == old(self).draft.ready_signalled,
            final(self).mode == old(self).mode,
            final(self).draft.offering_loaded == old(self).draft.offering_loaded,
            final(self).draft.objective_overlay_visible == old(self).draft.objective_overlay_visible,
    {
        if !(self.mode == ShopAuctionUiMode::DraftOffering && self.draft.offering_loaded) {
            return None;
        }
        let retract = self.draft.ready_signalled;
        self.draft.ready_signalled = !retract;
        Some(retract)
    }

    /// The shop's ready button during the shop phase.
    pub fn shop_ready_click(&mut self, phase: RoundPhase) -> (retract: Option<bool>)
        ensures
            *final(self) == (ShopAuctionUi {
                shop: final(self).shop,
                ..*old(self)
            }),
            (phase == RoundPhase::DraftShop && old(self).mode == ShopAuctionUiMode::Shop) ==> retract == Some(
                old(self).shop.ready_signalled,
            ) && final(self).shop.ready_signalled == !old(self).shop.ready_signalled,
            !(phase == RoundPhase::DraftShop && old(self).mode == ShopAuctionUiMode::Shop) ==> retract is None
                && final(self).shop.ready_signalled == old(self).shop.ready_signalled,
            final(self).mode == old(self).mode,
            final(self).shop.refresh_in_flight == old(self).shop.refresh_in_flight,
            final(self).shop.slots_loaded == old(self).shop.slots_loaded,
    {
        if !(phase == RoundPhase::DraftShop && self.mode == ShopAuctionUiMode::Shop) {
            return None;
        }
        let retract = self.shop.ready_signalled;
        self.shop.ready_signalled = !retract;
        Some(retract)
    }

    /// The shop's refresh button: with no refresh in flight and enough gold
    /// for the displayed price, a refresh request goes out (`true`) and the
    /// shop waits for it.
    pub fn shop_refresh_click(&mut self, phase: RoundPhase, economy: &PlayerEconomyView, refresh_base_cost: u32, refresh_cap: u32) -> (send: bool)
        ensures
            *final(self) == (ShopAuctionUi {
                mode: final(self).mode,
                shop: final(self).shop,
                ..*old(self)
            }),
            send == refresh_click_sends(*old(self), phase, *economy, refresh_base_cost, refresh_cap),
            final(self).shop.refresh_in_flight == (old(self).shop.refresh_in_flight || send),
            final(self).shop.refresh_count_this_draft == old(self).shop.refresh_count_this_draft,
            final(self).shop.ready_signalled == old(self).shop.ready_signalled,
            final(self).mode == old(self).mode,
    {
        if !(phase == RoundPhase::DraftShop && self.mode == ShopAuctionUiMode::Shop) {
            return false;
        }
        if self.shop.refresh_in_flight {
            return false;
        }
        let cost = displayed_refresh_cost(refresh_base_cost, refresh_cap, self.shop.refresh_count_this_draft);
        if !economy.initialized || economy.gold < cost {
            return false;
        }
        self.shop.refresh_in_flight = true;
        true
    }

    /// A bid button with step `increment`: when the auction takes bids, no
    /// bid is in flight, the countdown runs, the hand has room, the local
    /// player is not leading and free gold covers the price, the bid goes out
    /// and waits in flight. Returns the amount bid.
    pub fn bid_click(&mut self, phase: RoundPhase, economy: &PlayerEconomyView, increment: u32) -> (amount: Option<u32>)
        ensures
            *final(self) == (ShopAuctionUi {
                auction: final(self).auction,
                locally_passed: final(self).locally_passed,
                local_gold: final(self).local_gold,
                ..*old(self)
            }),
            ({
                let o = old(self);
                let a = sat_add(o.auction.current_price, increment);
                if bid_click_sends(*o, phase, *economy, increment) {
                    amount == Some(a) && final(self).auction == (ShopAuctionAuctionState {
                        in_flight_bid_amount: Some(a),
                        ..o.auction
                    })
                } else {
                    amount is None && final(self).auction == o.auction
                }
            }),
            final(self).mode == old(self).mode,
            final(self).local_gold == old(self).local_gold,
            final(self).hand_size == old(self).hand_size,
            final(self).locally_passed == old(self).locally_passed,
    {
        let active = self.mode == ShopAuctionUiMode::Auction && self.auction.panel_state
            == ShopAuctionAuctionPanelState::Active && self.auction.card_id.is_some();
        if phase != RoundPhase::DraftAuction || !active {
            return None;
        }
        if self.auction.in_flight_bid_amount.is_some() || self.auction.locally_expired() || self.hand_size
            >= HAND_FULL_SIZE || is_local_leading(&self.auction, &self.local_gold) {
            return None;
        }
        let amount = auction_bid_amount(self.auction.current_price, increment);
        if (!economy.initialized && !self.local_gold.initialized) || self.local_gold.free_gold(economy) < amount {
            return None;
        }
        self.auction.in_flight_bid_amount = Some(amount);
        Some(amount)
    }

    /// The pass button: toggles a local pass while the auction takes bids
    /// and the local player could still bid.
    pub fn pass_click(&mut self, phase: RoundPhase)
        ensures
            *final(self) == (ShopAuctionUi {
                auction: final(self).auction,
                locally_passed: final(self).locally_passed,
                ..*old(self)
            }),
            ({
                let o = old(self);
                let ok = phase == RoundPhase::DraftAuction && auction_active(*o) && !local_leading(
                    o.auction,
                    o.local_gold,
                ) && o.hand_size < HAND_FULL_SIZE && o.auction.in_flight_bid_amount is None;
                final(self).locally_passed == (if ok {
                    !o.locally_passed
                } else {
                    o.locally_passed
                })
            }),
            final(self).mode == old(self).mode,
            final(self).auction == old(self).auction,
    {
        let active = self.mode == ShopAuctionUiMode::Auction && self.auction.panel_state
            == ShopAuctionAuctionPanelState::Active && self.auction.card_id.is_some();
        if phase != RoundPhase::DraftAuction || !active {
            return;
        }
        if is_local_leading(&self.auction, &self.local_gold) || self.hand_size >= HAND_FULL_SIZE
            || self.auction.in_flight_bid_amount.is_some() {
            return;
        }
        self.locally_passed = !self.locally_passed;
    }

    /// Keyboard on the bid buttons: focus is dropped from a button that is
    /// no longer focusable, Tab moves it to the next focusable button, and
    /// Enter or Space on a focusable button presses it (returned).
    pub fn bid_keyboard(&mut self, focusable: [bool; 3], tab: bool, activate: bool) -> (pressed: Option<usize>)
        ensures
            *final(self) == (ShopAuctionUi {
                auction: final(self).auction,
                focused_bid_button: final(self).focused_bid_button,
                ..*old(self)
            }),
            ({
                let kept = match old(self).focused_bid_button {
                    Some(i) => if i < 3 && focusable@[i as int] {
                        Some(i)
                    } else {
                        None
                    },
                    None => None,
                };
                let moved = if tab {
                    spec_next_focusable(
                        focusable@,
                        match kept {
                            Some(i) => ((i + 1) % 3) as int,
                            None => 0,
                        },
                    )
                } else {
                    kept
                };
                &&& final(self).focused_bid_button == moved
                &&& pressed == (if activate && moved is Some {
                    moved
                } else {
                    None
                })
            }),
            final(self).mode == old(self).mode,
            final(self).auction == old(self).auction,
    {
        let kept = match self.focused_bid_button {
            Some(i) => if i < 3 && focusable[i] {
                Some(i)
            } else {
                None
            },
            None => None,
        };
        self.focused_bid_button = kept;
        if tab {
            let start = match kept {
                Some(i) => (i + 1) % 3,
                None => 0,
            };
            self.focused_bid_button = next_focusable_bid_button(focusable, start);
        }
        if activate {
            match self.focused_bid_button {
                Some(i) => {
                    return Some(i);
                },
                None => {},
            }
        }
        None
    }

    /// The overlay's dismiss button, or a click on its non-actionable panel.
    pub fn objective_dismiss_click(&mut self)
        ensures
            *final(self) == (ShopAuctionUi {
                draft: final(self).draft,
                ..*old(self)
            }),
            ({
                let o = old(self);
                if draft_initial_active(*o) && o.draft.objective_overlay_visible {
                    &&& !final(self).draft.objective_overlay_visible
                    &&& final(self).draft.objective_overlay_dismissed
                    &&& final(self).draft.objective_focus_target == DraftInitialObjectiveFocusTarget::RetrievalAffordance
                } else {
                    &&& final(self).draft.objective_overlay_visible == o.draft.objective_overlay_visible
                    &&& final(self).draft.objective_overlay_dismissed == o.draft.objective_overlay_dismissed
                    &&& final(self).draft.objective_focus_target == o.draft.objective_focus_target
                }
            }),
            final(self).mode == old(self).mode,
            final(self).draft.offering_loaded == old(self).draft.offering_loaded,
            final(self).draft.ready_signalled == old(self).draft.ready_signalled,
    {
        if self.mode == ShopAuctionUiMode::DraftOffering && self.draft.offering_loaded
            && self.draft.objective_overlay_visible {
            self.draft.dismiss_objective_overlay();
        }
    }

    /// The button that reopens the objective overlay.
    pub fn objective_retrieval_click(&mut self)
        ensures
            *final(self) == (ShopAuctionUi {
                draft: final(self).draft,
                ..*old(self)
            }),
            ({
                let o = old(self);
                if draft_initial_active(*o) && o.draft.objective_overlay_dismissed {
                    &&& final(self).draft.objective_overlay_visible
                    &&& !final(self).draft.objective_overlay_dismissed
                    &&& final(self).draft.objective_focus_target == DraftInitialObjectiveFocusTarget::DismissButton
                } else {
                    &&& final(self).draft.objective_overlay_visible == o.draft.objective_overlay_visible
                    &&& final(self).draft.objective_overlay_dismissed == o.draft.objective_overlay_dismissed
                    &&& final(self).draft.objective_focus_target == o.draft.objective_focus_target
                }
            }),
            final(self).mode == old(self).mode,
            final(self).draft.offering_loaded == old(self).draft.offering_loaded,
            final(self).draft.ready_signalled == old(self).draft.ready_signalled,
    {
        if self.mode == ShopAuctionUiMode::DraftOffering && self.draft.offering_loaded
            && self.draft.objective_overlay_dismissed {
            self.draft.show_objective_overlay();
        }
    }

    /// Escape and Enter on the objective overlay: Escape closes it while its
    /// dismiss button has focus; otherwise Enter acts on the focused control.
    pub fn objective_keys(&mut self, escape: bool, enter: bool)
        ensures
            *final(self) == (ShopAuctionUi {
                draft: final(self).draft,
                ..*old(self)
            }),
            ({
                let o = old(self);
                let d = o.draft;
                let closes = draft_initial_active(*o) && ((escape && d.objective_overlay_visible
                    && d.objective_focus_target == DraftInitialObjectiveFocusTarget::DismissButton) || (enter
                    && d.objective_focus_target == DraftInitialObjectiveFocusTarget::DismissButton
                    && d.objective_overlay_visible));
                let opens = draft_initial_active(*o) && !closes && enter && d.objective_focus_target
                    == DraftInitialObjectiveFocusTarget::RetrievalAffordance && d.objective_overlay_dismissed;
                if closes {
                    &&& !final(self).draft.objective_overlay_visible
                    &&& final(self).draft.objective_overlay_dismissed
                    &&& final(self).draft.objective_focus_target == DraftInitialObjectiveFocusTarget::RetrievalAffordance
                } else if opens {
                    &&& final(self).draft.objective_overlay_visible
                    &&& !final(self).draft.objective_overlay_dismissed
                    &&& final(self).draft.objective_focus_target == DraftInitialObjectiveFocusTarget::DismissButton
                } else {
                    &&& final(self).draft.objective_overlay_visible == d.objective_overlay_visible
                    &&& final(self).draft.objective_overlay_dismissed == d.objective_overlay_dismissed
                    &&& final(self).draft.objective_focus_target == d.objective_focus_target
                }
            }),
            final(self).mode == old(self).mode,
            final(self).draft.offering_loaded == old(self).draft.offering_loaded,
            final(self).draft.ready_signalled == old(self).draft.ready_signalled,
    {
        if !(self.mode == ShopAuctionUiMode::DraftOffering && self.draft.offering_loaded) {
            return;
        }
        if escape && self.draft.objective_overlay_visible && self.draft.objective_focus_target
            == DraftInitialObjectiveFocusTarget::DismissButton {
            self.draft.dismiss_objective_overlay();
            return;
        }
        if !enter {
            return;
        }
        match self.draft.objective_focus_target {
            DraftInitialObjectiveFocusTarget::DismissButton => {
                if self.draft.objective_overlay_visible {
                    self.draft.dismiss_objective_overlay();
                }
            },
            DraftInitialObjectiveFocusTarget::RetrievalAffordance => {
                if self.draft.objective_overlay_dismissed {
                    self.draft.show_objective_overlay();
                }
            },
            DraftInitialObjectiveFocusTarget::NoTarget => {},
        }
    }
}


/// A bid button shown as enabled sends its bid when pressed during the
/// auction phase: the panel never offers a bid that the click would refuse.
pub proof fn law_enabled_bid_button_sends(ui: ShopAuctionUi, economy: PlayerEconomyView, increment: u32)
    requires
        ui.mode == ShopAuctionUiMode::Auction,
        ui.auction.card_id is Some,
        spec_button_state(ui, economy, increment) == AuctionBidButtonState::Enabled,
    ensures
        bid_click_sends(ui, RoundPhase::DraftAuction, economy, increment),
{
}

/// The refresh button is shown enabled only when a click on it sends a
/// refresh during the shop phase; once offers are shown the converse holds
/// too.
pub proof fn law_refresh_button_matches_click(ui: ShopAuctionUi, economy: PlayerEconomyView, base: u32, cap: u32)
    ensures
        spec_refresh_enabled(ui, economy, base, cap) ==> refresh_click_sends(ui, RoundPhase::DraftShop, economy, base, cap),
        ui.shop.slots_loaded && refresh_click_sends(ui, RoundPhase::DraftShop, economy, base, cap)
            ==> spec_refresh_enabled(ui, economy, base, cap),
{
}

} // verus!
