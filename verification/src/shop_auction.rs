//! The client's shop/auction UI as one state machine: each server message,
//! phase change and frame tick is a verified step on `ShopAuctionUi`, and
//! the panels' visibility is a function of the resulting state.

use vstd::prelude::*;

use crate::auction::{
    max_u32, min_u32, sat_add, sat_inc, saturating_add, ShopAuctionAuctionPanelState, ShopAuctionAuctionState,
};
use crate::card::{CardCatalog, CardId, PlayerId};
use crate::offering::{is_offering_order, shown_count, sort_draft_offering_card_ids};
use crate::panels::{
    AuctionWonPending, AuctionWonPendingState, ShopAuctionSettlementOutcome, HAND_FULL_SIZE, ShopAuctionDraftInitialState, ShopAuctionLocalGoldView,
    ShopAuctionSettlementState, ShopAuctionShopState, ShopAuctionShopTimerState,
    ShopAuctionToastState, ShopAuctionUiMode, mode_for_phase, normalized_slot, AUCTION_SETTLEMENT_TRANSITION_MS,
    DraftInitialObjectiveFocusTarget,
};
use crate::protocol::{AuctionSnapshot, BidRejectedReason, RoundPhase, S2CAuctionBidAccepted, S2CAuctionCard, S2CAuctionSettled};
use crate::labels::{rejection_toast_text, should_buffer_shop_slots, spec_rejection_toast};

verus! {

/// Where the auction timer bar is heading after an accepted bid; the bar's
/// fill is `new_timer_ms` over `duration_ms`.
#[derive(Clone, Copy, Debug, PartialEq, Eq, Structural)]
pub struct AuctionTimerTarget {
    pub new_timer_ms: u32,
    pub duration_ms: u32,
    pub updated: bool,
}

impl AuctionTimerTarget {
    pub open spec fn none() -> Self {
        AuctionTimerTarget { new_timer_ms: 0, duration_ms: 0, updated: false }
    }

    pub fn new() -> (t: Self)
        ensures
            t == Self::none(),
    {
        AuctionTimerTarget { new_timer_ms: 0, duration_ms: 0, updated: false }
    }
}

/// The whole client-side shop/auction UI state.
pub struct ShopAuctionUi {
    pub mode: ShopAuctionUiMode,
    pub draft: ShopAuctionDraftInitialState,
    pub shop: ShopAuctionShopState,
    pub auction: ShopAuctionAuctionState,
    pub settlement: ShopAuctionSettlementState,
    pub shop_timer: ShopAuctionShopTimerState,
    pub toast: ShopAuctionToastState,
    pub timer_target: AuctionTimerTarget,
    /// Index of the bid button holding keyboard focus.
    pub focused_bid_button: Option<usize>,
    /// The local player chose to pass on the current auction.
    pub locally_passed: bool,
    pub local_gold: ShopAuctionLocalGoldView,
    /// Cards in the local hand, as far as the panels know.
    pub hand_size: usize,
    pub won_pending: AuctionWonPending,
}

/// Which shop/auction panels are shown after a phase change. The toast and
/// the settlement overlay are always hidden by a phase change.
#[derive(Clone, Copy, Debug, PartialEq, Eq, Structural)]
pub struct ShopAuctionPanelVisibility {
    pub root: bool,
    pub draft_offering_panel: bool,
    pub shop_panel: bool,
    pub auction_panel: bool,
    pub shop_footer: bool,
}

/// An auction panel still shows a live or pending auction.
pub open spec fn auction_in_play(panel: ShopAuctionAuctionPanelState) -> bool {
    panel == ShopAuctionAuctionPanelState::Preparing || panel == ShopAuctionAuctionPanelState::Active
        || panel == ShopAuctionAuctionPanelState::ConnectionError
}

pub open spec fn is_auction_mode(mode: ShopAuctionUiMode) -> bool {
    mode == ShopAuctionUiMode::AuctionPreparing || mode == ShopAuctionUiMode::Auction || mode
        == ShopAuctionUiMode::AuctionSettling
}

/// Feedback that any phase change drops: toast, timer target, bid focus and
/// a local pass.
pub open spec fn feedback_cleared(ui: ShopAuctionUi) -> bool {
    &&& ui.toast.is_cleared()
    &&& ui.timer_target == AuctionTimerTarget::none()
    &&& ui.focused_bid_button is None
    &&& !ui.locally_passed
}

impl ShopAuctionUi {
    /// The mode after a change to `phase`.
    pub open spec fn phase_mode(self, phase: RoundPhase) -> ShopAuctionUiMode {
        if self.settlement.transition_active {
            if phase == RoundPhase::DraftShop || phase == RoundPhase::DraftAuction {
                ShopAuctionUiMode::AuctionSettling
            } else {
                mode_for_phase(phase)
            }
        } else if phase == RoundPhase::DraftAuction {
            if self.auction.card_id is Some {
                ShopAuctionUiMode::Auction
            } else {
                ShopAuctionUiMode::Inactive
            }
        } else if phase == RoundPhase::DraftShop && self.auction.card_id is Some && auction_in_play(
            self.auction.panel_state,
        ) {
            ShopAuctionUiMode::AuctionSettling
        } else {
            mode_for_phase(phase)
        }
    }

    /// The auction state after a change to `phase`: a buffered card opens
    /// when the auction phase starts, an auction cut short by the shop phase
    /// keeps its card for the settlement, and any other leftover auction is
    /// dropped.
    pub open spec fn phase_auction(self, phase: RoundPhase) -> ShopAuctionAuctionState {
        let a = self.auction;
        if self.settlement.transition_active {
            if phase == RoundPhase::DraftShop || phase == RoundPhase::DraftAuction {
                a
            } else {
                ShopAuctionAuctionState::initial()
            }
        } else if phase == RoundPhase::DraftAuction {
            if a.card_id is Some {
                a.activated(a.timer_duration_ms)
            } else {
                ShopAuctionAuctionState { panel_state: ShopAuctionAuctionPanelState::Hidden, ..a }
            }
        } else if phase == RoundPhase::DraftShop && a.card_id is Some && auction_in_play(
            a.panel_state,
        ) {
            a.bid_resolution_cleared()
        } else if a.panel_state != ShopAuctionAuctionPanelState::Hidden {
            ShopAuctionAuctionState::initial()
        } else {
            a
        }
    }

    /// The shop countdown after a change to `phase`.
    pub open spec fn phase_shop_timer(self, phase: RoundPhase, duration: u32) -> ShopAuctionShopTimerState {
        let m = self.phase_mode(phase);
        if m == ShopAuctionUiMode::Shop {
            ShopAuctionShopTimerState { duration_ms: duration, remaining_ms: duration, started: true, deferred: false }
        } else if m == ShopAuctionUiMode::AuctionSettling {
            if phase == RoundPhase::DraftShop {
                ShopAuctionShopTimerState { duration_ms: duration, remaining_ms: duration, started: false, deferred: true }
            } else {
                self.shop_timer
            }
        } else {
            ShopAuctionShopTimerState::stopped()
        }
    }

    /// Panel visibility for a state.
    pub open spec fn spec_visibility(self) -> ShopAuctionPanelVisibility {
        let m = self.mode;
        let auction_visible = self.auction.spec_panel_visible();
        ShopAuctionPanelVisibility {
            root: match m {
                ShopAuctionUiMode::Inactive => false,
                ShopAuctionUiMode::DraftOffering => self.draft.offering_loaded,
                ShopAuctionUiMode::Shop => true,
                _ => auction_visible,
            },
            draft_offering_panel: m == ShopAuctionUiMode::DraftOffering && self.draft.offering_loaded,
            shop_panel: m == ShopAuctionUiMode::Shop,
            auction_panel: is_auction_mode(m) && auction_visible,
            shop_footer: m == ShopAuctionUiMode::Auction,
        }
    }

    /// A UI with no phase: everything hidden and reset.
    pub fn new() -> (ui: Self)
        ensures
            ui.mode == ShopAuctionUiMode::Inactive,
            ui.draft.is_reset(),
            ui.shop.all_cleared(),
            ui.auction == ShopAuctionAuctionState::initial(),
            ui.settlement == ShopAuctionSettlementState::initial(),
            ui.shop_timer == ShopAuctionShopTimerState::stopped(),
            feedback_cleared(ui),
            ui.local_gold == (ShopAuctionLocalGoldView {
                player_id: None,
                gold: 0,
                reserved_gold: 0,
                initialized: false,
            }),
            ui.hand_size == 0,
            ui.won_pending.state is None,
    {
        ShopAuctionUi {
            mode: ShopAuctionUiMode::Inactive,
            draft: ShopAuctionDraftInitialState::new(),
            shop: ShopAuctionShopState::new(),
            auction: ShopAuctionAuctionState::new(),
            settlement: ShopAuctionSettlementState::new(),
            shop_timer: ShopAuctionShopTimerState::new(),
            toast: ShopAuctionToastState::new(),
            timer_target: AuctionTimerTarget::new(),
            focused_bid_button: None,
            locally_passed: false,
            local_gold: ShopAuctionLocalGoldView::new(),
            hand_size: 0,
            won_pending: AuctionWonPending::new(),
        }
    }

    /// Panel visibility for the current state.
    pub fn visibility(&self) -> (v: ShopAuctionPanelVisibility)
        ensures
            v == self.spec_visibility(),
    {
        let auction_visible = self.auction.panel_visible();
        let root = match self.mode {
            ShopAuctionUiMode::Inactive => false,
            ShopAuctionUiMode::DraftOffering => self.draft.offering_loaded,
            ShopAuctionUiMode::Shop => true,
            _ => auction_visible,
        };
        let auction_mode = match self.mode {
            ShopAuctionUiMode::AuctionPreparing
            | ShopAuctionUiMode::Auction
            | ShopAuctionUiMode::AuctionSettling => true,
            _ => false,
        };
        ShopAuctionPanelVisibility {
            root,
            draft_offering_panel: self.mode == ShopAuctionUiMode::DraftOffering
                && self.draft.offering_loaded,
            shop_panel: self.mode == ShopAuctionUiMode::Shop,
            auction_panel: auction_mode && auction_visible,
            shop_footer: self.mode == ShopAuctionUiMode::Auction,
        }
    }

    fn clear_auction_feedback_state(&mut self)
        ensures
            feedback_cleared(*final(self)),
            final(self).mode == old(self).mode,
            final(self).draft == old(self).draft,
            final(self).shop == old(self).shop,
            final(self).auction == old(self).auction,
            final(self).settlement == old(self).settlement,
            final(self).shop_timer == old(self).shop_timer,
            final(self).local_gold == old(self).local_gold,
            final(self).hand_size == old(self).hand_size,
            final(self).won_pending == old(self).won_pending,
    {
        self.toast.clear();
        self.timer_target = AuctionTimerTarget::new();
        self.focused_bid_button = None;
        self.locally_passed = false;
    }

    /// Apply a change of the client's phase to `phase`, whose timer lasts
    /// `timer_duration_ms`; returns the panels to show.
    pub fn on_phase_changed(&mut self, phase: RoundPhase, timer_duration_ms: u32) -> (v: ShopAuctionPanelVisibility)
        ensures
            *final(self) == (ShopAuctionUi {
                mode: final(self).mode,
                draft: final(self).draft,
                shop: final(self).shop,
                auction: final(self).auction,
                settlement: final(self).settlement,
                shop_timer: final(self).shop_timer,
                toast: final(self).toast,
                timer_target: final(self).timer_target,
                focused_bid_button: final(self).focused_bid_button,
                locally_passed: final(self).locally_passed,
                ..*old(self)
            }),
            final(self).mode == old(self).phase_mode(phase),
            final(self).auction == old(self).phase_auction(phase),
            final(self).settlement == (if old(self).settlement.transition_active && phase
                != RoundPhase::DraftShop && phase != RoundPhase::DraftAuction {
                ShopAuctionSettlementState::initial()
            } else {
                old(self).settlement
            }),
            final(self).shop_timer == old(self).phase_shop_timer(phase, timer_duration_ms),
            ({
                let m = old(self).phase_mode(phase);
                if m == ShopAuctionUiMode::AuctionSettling && phase == RoundPhase::DraftAuction {
                    final(self).shop == old(self).shop
                } else if m == ShopAuctionUiMode::DraftOffering || (m == ShopAuctionUiMode::Inactive
                    && phase != RoundPhase::DraftAuction) {
                    final(self).shop.all_cleared()
                } else {
                    final(self).shop.phase_cleared() && final(self).shop.keeps_footer_of(old(self).shop)
                }
            }),
            old(self).phase_mode(phase) != ShopAuctionUiMode::DraftOffering ==> final(self).draft.is_reset(),
            old(self).phase_mode(phase) == ShopAuctionUiMode::DraftOffering ==> {
                &&& final(self).draft.offering_loaded == old(self).draft.offering_loaded
                &&& final(self).draft.ready_signalled == old(self).draft.ready_signalled
                &&& final(self).draft.pending_confirmed_purchases@ == old(self).draft.pending_confirmed_purchases@
                &&& if old(self).mode != ShopAuctionUiMode::DraftOffering && old(self).draft.offering_loaded {
                    &&& final(self).draft.objective_overlay_visible
                    &&& !final(self).draft.objective_overlay_dismissed
                    &&& final(self).draft.objective_focus_target == DraftInitialObjectiveFocusTarget::DismissButton
                } else {
                    &&& final(self).draft.objective_overlay_visible == old(self).draft.objective_overlay_visible
                    &&& final(self).draft.objective_overlay_dismissed == old(self).draft.objective_overlay_dismissed
                    &&& final(self).draft.objective_focus_target == old(self).draft.objective_focus_target
                }
            },
            feedback_cleared(*final(self)),
            final(self).local_gold == old(self).local_gold,
            final(self).hand_size == old(self).hand_size,
            final(self).won_pending == old(self).won_pending,
            v == final(self).spec_visibility(),
    {
        let previous_mode = self.mode;
        let mut next_mode = ShopAuctionUiMode::from_phase(phase);
        let settlement_active = self.settlement.transition_active;

        self.clear_auction_feedback_state();

        if settlement_active {
            match phase {
                RoundPhase::DraftShop => {
                    self.shop.enter_shop_phase();
                    self.shop_timer.defer(timer_duration_ms);
                    next_mode = ShopAuctionUiMode::AuctionSettling;
                },
                RoundPhase::DraftAuction => {
                    next_mode = ShopAuctionUiMode::AuctionSettling;
                },
                _ => {
                    self.settlement.clear();
                    self.auction.clear();
                    self.shop_timer.stop();
                },
            }
        } else if phase == RoundPhase::DraftAuction {
            self.shop.enter_auction_phase();
            self.shop_timer.stop();
            if self.auction.card_id.is_some() {
                let timer_duration = self.auction.timer_duration_ms;
                self.auction.enter_active(timer_duration);
                next_mode = ShopAuctionUiMode::Auction;
            } else {
                self.auction.panel_state = ShopAuctionAuctionPanelState::Hidden;
            }
        } else if phase == RoundPhase::DraftShop && self.auction.card_id.is_some() && match self.auction.panel_state {
            ShopAuctionAuctionPanelState::Preparing
            | ShopAuctionAuctionPanelState::Active
            | ShopAuctionAuctionPanelState::ConnectionError => true,
            _ => false,
        } {
            self.auction.clear_bid_resolution_state();
            self.shop.enter_shop_phase();
            self.shop_timer.defer(timer_duration_ms);
            next_mode = ShopAuctionUiMode::AuctionSettling;
        } else if self.auction.panel_visible() {
            self.auction.clear();
        }

        self.mode = next_mode;

        if next_mode != ShopAuctionUiMode::DraftOffering {
            self.draft.reset_phase_state();
        } else if previous_mode != ShopAuctionUiMode::DraftOffering && self.draft.offering_loaded {
            self.draft.show_objective_overlay();
        }

        match next_mode {
            ShopAuctionUiMode::Shop => {
                self.shop.enter_shop_phase();
                self.shop_timer.start(timer_duration_ms);
            },
            ShopAuctionUiMode::DraftOffering => {
                self.shop.clear_all();
                self.shop_timer.stop();
            },
            ShopAuctionUiMode::Inactive => {
                if phase != RoundPhase::DraftAuction {
                    self.shop.clear_all();
                    self.shop_timer.stop();
                }
            },
            _ => {},
        }

        self.visibility()
    }
}


/// The local player's id: the one learned from gold updates, else `hint`.
pub open spec fn local_player_id(local_gold: ShopAuctionLocalGoldView, hint: Option<PlayerId>) -> Option<PlayerId> {
    match local_gold.player_id {
        Some(p) => Some(p),
        None => hint,
    }
}

/// A settlement can start only for an auction still in play during the
/// auction or shop phase.
pub open spec fn spec_settlement_can_start(phase: RoundPhase, auction: ShopAuctionAuctionState) -> bool {
    (phase == RoundPhase::DraftAuction || phase == RoundPhase::DraftShop) && auction.card_id is Some
        && auction_in_play(auction.panel_state)
}

/// Outcome of a settlement from the local player's side.
pub open spec fn spec_settlement_outcome(winner: Option<PlayerId>, local: Option<PlayerId>) -> ShopAuctionSettlementOutcome {
    match winner {
        Some(w) => if Some(w) == local {
            ShopAuctionSettlementOutcome::LocalWinner
        } else {
            ShopAuctionSettlementOutcome::OpponentWinner
        },
        None => ShopAuctionSettlementOutcome::NoBid,
    }
}

/// Hand size after one more card, capped at a full hand.
pub open spec fn hand_after_gain(hand_size: usize) -> usize {
    if hand_size + 1 <= HAND_FULL_SIZE {
        (hand_size + 1) as usize
    } else {
        HAND_FULL_SIZE
    }
}

/// A settlement can start only for an auction still in play during the
/// auction or shop phase.
pub fn auction_settlement_can_start(current_phase: RoundPhase, auction_state: &ShopAuctionAuctionState) -> (r: bool)
    ensures
        r == spec_settlement_can_start(current_phase, *auction_state),
{
    let phase_ok = match current_phase {
        RoundPhase::DraftAuction | RoundPhase::DraftShop => true,
        _ => false,
    };
    let in_play = match auction_state.panel_state {
        ShopAuctionAuctionPanelState::Preparing
        | ShopAuctionAuctionPanelState::Active
        | ShopAuctionAuctionPanelState::ConnectionError => true,
        _ => false,
    };
    phase_ok && auction_state.card_id.is_some() && in_play
}

fn local_player(local_gold: &ShopAuctionLocalGoldView, hint: Option<PlayerId>) -> (r: Option<PlayerId>)
    ensures
        r == local_player_id(*local_gold, hint),
{
    match local_gold.player_id {
        Some(p) => Some(p),
        None => hint,
    }
}

fn same_player(a: Option<PlayerId>, b: Option<PlayerId>) -> (r: bool)
    ensures
        r == (a == b),
{
    match (a, b) {
        (Some(x), Some(y)) => x.0 == y.0,
        (None, None) => true,
        _ => false,
    }
}

impl ShopAuctionUi {
    /// Take an auction card from the server. Cards arriving during placement
    /// or while a settlement shows are dropped; during the shop, resolution
    /// or game-over phase a first card waits in the preparing panel for the
    /// auction phase; otherwise the card opens at once in the auction phase
    /// and waits in the preparing panel before it. Any new card cancels a
    /// local pass.
    pub fn on_auction_card(&mut self, phase: RoundPhase, message: &S2CAuctionCard)
        ensures
            *final(self) == (ShopAuctionUi {
                mode: final(self).mode,
                auction: final(self).auction,
                locally_passed: final(self).locally_passed,
                won_pending: final(self).won_pending,
                ..*old(self)
            }),
            !final(self).locally_passed,
            ({
                let a = old(self).auction;
                if phase == RoundPhase::Placement || a.panel_state == ShopAuctionAuctionPanelState::Settling
                    || ((phase == RoundPhase::DraftShop || phase == RoundPhase::Resolution || phase
                    == RoundPhase::GameOver) && a.card_id is Some) {
                    final(self).auction == a && final(self).mode == old(self).mode
                } else if phase == RoundPhase::DraftAuction {
                    &&& final(self).auction == a.card_buffered(*message).activated(message.timer_duration_ms)
                    &&& final(self).mode == ShopAuctionUiMode::Auction
                } else {
                    &&& final(self).auction == a.card_buffered(*message).preparing()
                    &&& final(self).mode == ShopAuctionUiMode::AuctionPreparing
                }
            }),
            final(self).draft == old(self).draft,
            final(self).shop == old(self).shop,
            final(self).settlement == old(self).settlement,
            final(self).shop_timer == old(self).shop_timer,
            final(self).toast == old(self).toast,
            final(self).timer_target == old(self).timer_target,
            final(self).local_gold == old(self).local_gold,
            final(self).hand_size == old(self).hand_size,
            final(self).won_pending == old(self).won_pending,
    {
        self.locally_passed = false;
        if phase == RoundPhase::Placement {
            return;
        }
        if self.auction.panel_state == ShopAuctionAuctionPanelState::Settling {
            return;
        }
        let transitional = match phase {
            RoundPhase::DraftShop | RoundPhase::Resolution | RoundPhase::GameOver => true,
            _ => false,
        };
        if transitional {
            if self.auction.card_id.is_some() {
                return;
            }
            self.auction.buffer_card(message);
            self.auction.enter_preparing();
            self.mode = ShopAuctionUiMode::AuctionPreparing;
            return;
        }
        self.auction.buffer_card(message);
        if phase == RoundPhase::DraftAuction {
            let timer_duration = self.auction.timer_duration_ms;
            self.auction.enter_active(timer_duration);
            self.mode = ShopAuctionUiMode::Auction;
        } else {
            self.auction.enter_preparing();
            self.mode = ShopAuctionUiMode::AuctionPreparing;
        }
    }

    /// Take a gold update for `player_id`; only the local player's updates
    /// count. The local id is learned from `hint` when not yet known.
    pub fn on_gold_broadcast(&mut self, hint: Option<PlayerId>, player_id: PlayerId, gold: u32, reserved_gold: u32)
        ensures
            *final(self) == (ShopAuctionUi {
                auction: final(self).auction,
                local_gold: final(self).local_gold,
                won_pending: final(self).won_pending,
                ..*old(self)
            }),
            ({
                let local = local_player_id(old(self).local_gold, hint);
                &&& final(self).local_gold.player_id == local
                &&& if Some(player_id) == local {
                    &&& final(self).local_gold.gold == gold
                    &&& final(self).local_gold.reserved_gold == reserved_gold
                    &&& final(self).local_gold.initialized
                    &&& final(self).auction == old(self).auction.gold_broadcast_recorded()
                } else {
                    &&& final(self).local_gold.gold == old(self).local_gold.gold
                    &&& final(self).local_gold.reserved_gold == old(self).local_gold.reserved_gold
                    &&& final(self).local_gold.initialized == old(self).local_gold.initialized
                    &&& final(self).auction == old(self).auction
                }
            }),
            final(self).mode == old(self).mode,
            final(self).draft == old(self).draft,
            final(self).shop == old(self).shop,
            final(self).settlement == old(self).settlement,
            final(self).shop_timer == old(self).shop_timer,
            final(self).toast == old(self).toast,
            final(self).timer_target == old(self).timer_target,
            final(self).locally_passed == old(self).locally_passed,
            final(self).hand_size == old(self).hand_size,
            final(self).won_pending == old(self).won_pending,
    {
        let local = local_player(&self.local_gold, hint);
        if local.is_some() {
            self.local_gold.player_id = local;
        }
        if !same_player(Some(player_id), local) {
            return;
        }
        self.local_gold.gold = gold;
        self.local_gold.reserved_gold = reserved_gold;
        self.local_gold.initialized = true;
        self.auction.record_local_gold_broadcast();
    }

    /// Whether accepted and refused bids are applied: only to a live auction
    /// panel during the auction phase.
    pub open spec fn bids_apply(self, phase: RoundPhase) -> bool {
        phase == RoundPhase::DraftAuction && self.mode == ShopAuctionUiMode::Auction
            && self.auction.panel_state == ShopAuctionAuctionPanelState::Active
    }

    fn bids_apply_now(&self, phase: RoundPhase) -> (r: bool)
        ensures
            r == self.bids_apply(phase),
    {
        phase == RoundPhase::DraftAuction && self.mode == ShopAuctionUiMode::Auction
            && self.auction.panel_state == ShopAuctionAuctionPanelState::Active
    }

    /// Apply a bid the server accepted; the timer bar heads for the new
    /// remaining time.
    pub fn on_bid_accepted(&mut self, phase: RoundPhase, hint: Option<PlayerId>, message: &S2CAuctionBidAccepted)
        ensures
            *final(self) == (ShopAuctionUi {
                auction: final(self).auction,
                timer_target: final(self).timer_target,
                won_pending: final(self).won_pending,
                ..*old(self)
            }),
            old(self).bids_apply(phase) ==> {
                let a = old(self).auction.bid_accepted(*message, local_player_id(old(self).local_gold, hint));
                &&& final(self).auction == a
                &&& final(self).timer_target == (AuctionTimerTarget {
                    new_timer_ms: message.new_timer_ms,
                    duration_ms: a.timer_duration_ms,
                    updated: true,
                })
            },
            !old(self).bids_apply(phase) ==> final(self).auction == old(self).auction
                && final(self).timer_target == old(self).timer_target,
            final(self).mode == old(self).mode,
            final(self).draft == old(self).draft,
            final(self).shop == old(self).shop,
            final(self).settlement == old(self).settlement,
            final(self).shop_timer == old(self).shop_timer,
            final(self).toast == old(self).toast,
            final(self).locally_passed == old(self).locally_passed,
            final(self).local_gold == old(self).local_gold,
            final(self).hand_size == old(self).hand_size,
            final(self).won_pending == old(self).won_pending,
    {
        if !self.bids_apply_now(phase) {
            return;
        }
        let local = local_player(&self.local_gold, hint);
        self.auction.apply_bid_accepted(message, local);
        self.timer_target = AuctionTimerTarget {
            new_timer_ms: message.new_timer_ms,
            duration_ms: self.auction.timer_duration_ms,
            updated: true,
        };
    }

    /// Apply a settled auction: the panel shows the result, a local win adds
    /// the card to the hand and arms the reminder to place it, and in the
    /// shop phase the shop waits behind the settlement. Returns whether the
    /// local player won the card.
    pub fn on_auction_settled(
        &mut self,
        phase: RoundPhase,
        hint: Option<PlayerId>,
        round_number: u32,
        timer_duration_ms: u32,
        message: &S2CAuctionSettled,
    ) -> (local_win: bool)
        ensures
            !spec_settlement_can_start(phase, old(self).auction) ==> {
                &&& !local_win
                &&& final(self).mode == old(self).mode
                &&& final(self).auction == old(self).auction
                &&& final(self).settlement == old(self).settlement
                &&& final(self).shop_timer == old(self).shop_timer
                &&& final(self).shop == old(self).shop
                &&& final(self).toast == old(self).toast
                &&& final(self).timer_target == old(self).timer_target
                &&& final(self).hand_size == old(self).hand_size
                &&& final(self).won_pending == old(self).won_pending
            },
            spec_settlement_can_start(phase, old(self).auction) ==> {
                let outcome = spec_settlement_outcome(message.winner, local_player_id(old(self).local_gold, hint));
                let a = old(self).auction.settling(message.amount);
                &&& local_win == (outcome == ShopAuctionSettlementOutcome::LocalWinner)
                &&& final(self).auction == a
                &&& final(self).settlement == old(self).settlement.begun(
                    outcome,
                    message.winner,
                    message.amount,
                    a.card_id,
                    local_win,
                )
                &&& final(self).toast.is_cleared()
                &&& final(self).timer_target == AuctionTimerTarget::none()
                &&& final(self).mode == ShopAuctionUiMode::AuctionSettling
                &&& final(self).hand_size == (if local_win {
                    hand_after_gain(old(self).hand_size)
                } else {
                    old(self).hand_size
                })
                &&& final(self).won_pending == (if local_win {
                    AuctionWonPending {
                        state: Some(
                            AuctionWonPendingState {
                                card_id: a.card_id->0,
                                settle_round: round_number,
                                staged_yet: false,
                                submitted_yet: false,
                            },
                        ),
                    }
                } else {
                    old(self).won_pending
                })
                &&& if phase == RoundPhase::DraftShop {
                    &&& final(self).shop.phase_cleared()
                    &&& final(self).shop.keeps_footer_of(old(self).shop)
                    &&& final(self).shop_timer == (ShopAuctionShopTimerState {
                        duration_ms: timer_duration_ms,
                        remaining_ms: timer_duration_ms,
                        started: false,
                        deferred: true,
                    })
                } else {
                    &&& final(self).shop == old(self).shop
                    &&& final(self).shop_timer == old(self).shop_timer
                }
            },
            final(self).draft == old(self).draft,
            final(self).locally_passed == old(self).locally_passed,
            final(self).local_gold == old(self).local_gold,
    {
        if !auction_settlement_can_start(phase, &self.auction) {
            return false;
        }
        let local = local_player(&self.local_gold, hint);
        let outcome = match message.winner {
            Some(w) => if same_player(Some(w), local) {
                ShopAuctionSettlementOutcome::LocalWinner
            } else {
                ShopAuctionSettlementOutcome::OpponentWinner
            },
            None => ShopAuctionSettlementOutcome::NoBid,
        };
        let local_card_feedback = outcome == ShopAuctionSettlementOutcome::LocalWinner;

        self.auction.enter_settling(message.amount);
        self.settlement.begin(outcome, message.winner, message.amount, self.auction.card_id, local_card_feedback);
        self.toast.clear();
        self.timer_target = AuctionTimerTarget::new();

        if local_card_feedback {
            self.hand_size = if self.hand_size < HAND_FULL_SIZE {
                self.hand_size + 1
            } else {
                HAND_FULL_SIZE
            };
            if let Some(card_id) = self.auction.card_id {
                self.won_pending.arm(card_id, round_number);
            }
        }
        if phase == RoundPhase::DraftShop {
            self.shop.enter_shop_phase();
            self.shop_timer.defer(timer_duration_ms);
        }
        self.mode = ShopAuctionUiMode::AuctionSettling;
        local_card_feedback
    }

    /// Advance the wait for the auction to open; at the timeout the panel
    /// reports a connection problem.
    pub fn tick_auction_preparing(&mut self, elapsed_ms: u32)
        ensures
            *final(self) == (ShopAuctionUi {
                mode: final(self).mode,
                auction: final(self).auction,
                shop_timer: final(self).shop_timer,
                ..*old(self)
            }),
            final(self).auction == old(self).auction.preparing_ticked(elapsed_ms),
            final(self).mode == (if old(self).auction.panel_state == ShopAuctionAuctionPanelState::Preparing
                && final(self).auction.panel_state == ShopAuctionAuctionPanelState::ConnectionError {
                ShopAuctionUiMode::AuctionPreparing
            } else {
                old(self).mode
            }),
            final(self).settlement == old(self).settlement,
            final(self).shop == old(self).shop,
            final(self).shop_timer == old(self).shop_timer,
    {
        if self.auction.panel_state != ShopAuctionAuctionPanelState::Preparing {
            return;
        }
        self.auction.tick_preparing(elapsed_ms);
        if self.auction.panel_state == ShopAuctionAuctionPanelState::ConnectionError {
            self.mode = ShopAuctionUiMode::AuctionPreparing;
        }
    }

    /// Advance the live auction countdown.
    pub fn tick_auction_countdown(&mut self, elapsed_ms: u32)
        ensures
            *final(self) == (ShopAuctionUi {
                auction: final(self).auction,
                settlement: final(self).settlement,
                ..*old(self)
            }),
            final(self).auction == old(self).auction.countdown_ticked(elapsed_ms),
            final(self).mode == old(self).mode,
            final(self).settlement == old(self).settlement,
    {
        self.auction.tick_countdown(elapsed_ms);
    }

    /// Advance the settlement animation. A phase past the draft ends it at
    /// once; in the shop phase the shop opens when the animation is over.
    /// With reduced motion the animation lasts no time.
    pub fn tick_settlement(&mut self, phase: RoundPhase, timer_duration_ms: u32, reduced_motion: bool, elapsed_ms: u32)
        ensures
            *final(self) == (ShopAuctionUi {
                mode: final(self).mode,
                draft: final(self).draft,
                auction: final(self).auction,
                settlement: final(self).settlement,
                shop_timer: final(self).shop_timer,
                ..*old(self)
            }),
            ({
                let o = old(self);
                if o.auction.panel_state != ShopAuctionAuctionPanelState::Settling || !o.settlement.transition_active {
                    &&& final(self).mode == o.mode
                    &&& final(self).auction == o.auction
                    &&& final(self).settlement == o.settlement
                    &&& final(self).shop_timer == o.shop_timer
                } else if phase == RoundPhase::Placement || phase == RoundPhase::Resolution || phase
                    == RoundPhase::GameOver {
                    &&& final(self).mode == ShopAuctionUiMode::Inactive
                    &&& final(self).auction == ShopAuctionAuctionState::initial()
                    &&& final(self).settlement == ShopAuctionSettlementState::initial()
                    &&& final(self).shop_timer == ShopAuctionShopTimerState::stopped()
                } else {
                    let d: u32 = if reduced_motion { 0 } else { AUCTION_SETTLEMENT_TRANSITION_MS };
                    let e = sat_add(o.settlement.elapsed_ms, elapsed_ms);
                    let ticked = ShopAuctionSettlementState { transition_duration_ms: d, elapsed_ms: e, ..o.settlement };
                    if phase == RoundPhase::DraftShop && e >= d {
                        &&& final(self).settlement == (ShopAuctionSettlementState {
                            transition_active: false,
                            elapsed_ms: d,
                            ..ticked
                        })
                        &&& final(self).auction == ShopAuctionAuctionState::initial()
                        &&& final(self).shop_timer == (ShopAuctionShopTimerState {
                            duration_ms: timer_duration_ms,
                            remaining_ms: timer_duration_ms,
                            started: true,
                            deferred: false,
                        })
                        &&& final(self).mode == ShopAuctionUiMode::Shop
                    } else {
                        &&& final(self).settlement == ticked
                        &&& final(self).auction == o.auction
                        &&& final(self).shop_timer == o.shop_timer
                        &&& final(self).mode == o.mode
                    }
                }
            }),
            final(self).shop == old(self).shop,
            final(self).draft == old(self).draft,
    {
        if self.auction.panel_state != ShopAuctionAuctionPanelState::Settling || !self.settlement.transition_active {
            return;
        }
        match phase {
            RoundPhase::Placement | RoundPhase::Resolution | RoundPhase::GameOver => {
                self.auction.clear();
                self.settlement.clear();
                self.shop_timer.stop();
                self.mode = ShopAuctionUiMode::Inactive;
                return;
            },
            _ => {},
        }
        self.settlement.transition_duration_ms = if reduced_motion {
            0
        } else {
            AUCTION_SETTLEMENT_TRANSITION_MS
        };
        self.settlement.elapsed_ms = saturating_add(self.settlement.elapsed_ms, elapsed_ms);
        if phase != RoundPhase::DraftShop {
            return;
        }
        if self.settlement.elapsed_ms >= self.settlement.transition_duration_ms {
            self.settlement.finish_transition();
            self.auction.clear();
            self.shop_timer.start(timer_duration_ms);
            self.mode = ShopAuctionUiMode::Shop;
        }
    }

    /// Track the won card through placement: staging it hides the reminder,
    /// submitting a staged card ends it, and leaving for resolution, game
    /// over or the lobby drops it.
    pub fn update_auction_won_pending(&mut self, phase: RoundPhase, won_card_staged: bool, placement_submitted: bool)
        ensures
            *final(self) == (ShopAuctionUi {
                auction: final(self).auction,
                won_pending: final(self).won_pending,
                ..*old(self)
            }),
            ({
                match old(self).won_pending.state {
                    None => final(self).won_pending.state is None,
                    Some(s) => if phase == RoundPhase::Resolution || phase == RoundPhase::GameOver || phase
                        == RoundPhase::Lobby || phase == RoundPhase::Handshaking {
                        final(self).won_pending.state is None
                    } else if s.submitted_yet || (s.staged_yet && placement_submitted) {
                        final(self).won_pending.state is None
                    } else {
                        final(self).won_pending.state == Some(
                            AuctionWonPendingState { staged_yet: s.staged_yet || won_card_staged, ..s },
                        )
                    },
                }
            }),
            final(self).mode == old(self).mode,
            final(self).auction == old(self).auction,
    {
        let state = match self.won_pending.state {
            Some(s) => s,
            None => {
                return;
            },
        };
        match phase {
            RoundPhase::Resolution | RoundPhase::GameOver | RoundPhase::Lobby | RoundPhase::Handshaking => {
                self.won_pending.clear();
                return;
            },
            _ => {},
        }
        let submitted_yet = state.submitted_yet || (state.staged_yet && placement_submitted);
        if submitted_yet {
            self.won_pending.clear();
            return;
        }
        self.won_pending.state = Some(
            AuctionWonPendingState {
                card_id: state.card_id,
                settle_round: state.settle_round,
                staged_yet: state.staged_yet || won_card_staged,
                submitted_yet,
            },
        );
    }
}


/// One player as carried by a reconnection snapshot.
pub struct PlayerSnapshotView {
    pub player_id: PlayerId,
    pub gold: u32,
    pub reserved_gold: u32,
    pub hand_size: usize,
    pub shop_slots: Vec<Option<CardId>>,
}

/// The parts of a reconnection snapshot that the shop/auction UI reads.
pub struct GameSnapshotView {
    pub recipient_player_id: PlayerId,
    pub phase: RoundPhase,
    pub players: Vec<PlayerSnapshotView>,
    pub auction_state: Option<AuctionSnapshot>,
    pub timer_remaining_ms: Option<u32>,
}

/// Position of the first player with id `id`, if any.
pub open spec fn first_player_index(players: Seq<PlayerSnapshotView>, id: PlayerId) -> Option<int> {
    if exists|i: int| 0 <= i < players.len() && players[i].player_id == id {
        let i = choose|i: int|
            0 <= i < players.len() && players[i].player_id == id && forall|j: int|
                0 <= j < i ==> players[j].player_id != id;
        Some(i)
    } else {
        None
    }
}

fn copy_slots(slots: &Vec<Option<CardId>>) -> (r: Vec<Option<CardId>>)
    ensures
        r@ == slots@,
{
    let mut r: Vec<Option<CardId>> = Vec::new();
    let n = slots.len();
    let mut i: usize = 0;
    while i < n
        invariant
            n == slots@.len(),
            0 <= i <= n,
            r@ == slots@.subrange(0, i as int),
        decreases n - i,
    {
        r.push(slots[i]);
        i = i + 1;
        assert(r@ =~= slots@.subrange(0, i as int));
    }
    assert(r@ =~= slots@);
    r
}

fn find_player(players: &Vec<PlayerSnapshotView>, id: PlayerId) -> (r: Option<usize>)
    ensures
        r matches Some(i) ==> i < players@.len() && first_player_index(players@, id) == Some(i as int),
        r is None ==> first_player_index(players@, id) is None,
{
    let n = players.len();
    let mut i: usize = 0;
    while i < n
        invariant
            n == players@.len(),
            0 <= i <= n,
            forall|j: int| 0 <= j < i ==> players@[j].player_id != id,
        decreases n - i,
    {
        if players[i].player_id.0 == id.0 {
            proof {
                assert(players@[i as int].player_id == id);
                let k = choose|k: int|
                    0 <= k < players@.len() && players@[k].player_id == id && forall|j: int|
                        0 <= j < k ==> players@[j].player_id != id;
                if k < i {
                } else if k > i {
                    assert(players@[i as int].player_id != id);
                }
            }
            return Some(i);
        }
        i = i + 1;
    }
    None
}

impl ShopAuctionUi {
    /// Apply a bid the server refused: the bid in flight is dropped and the
    /// reason is toasted.
    pub fn on_bid_rejected(&mut self, phase: RoundPhase, reason: BidRejectedReason)
        ensures
            *final(self) == (ShopAuctionUi {
                auction: final(self).auction,
                toast: final(self).toast,
                hand_size: final(self).hand_size,
                ..*old(self)
            }),
            old(self).bids_apply(phase) ==> {
                &&& final(self).toast.text@ == spec_rejection_toast(reason, old(self).auction.current_price)
                &&& final(self).toast.active
                &&& final(self).toast.elapsed_ms == 0
                &&& final(self).auction == old(self).auction.bid_resolution_cleared()
            },
            !old(self).bids_apply(phase) ==> final(self).toast == old(self).toast && final(self).auction
                == old(self).auction,
            final(self).mode == old(self).mode,
            final(self).shop == old(self).shop,
            final(self).settlement == old(self).settlement,
            final(self).shop_timer == old(self).shop_timer,
            final(self).timer_target == old(self).timer_target,
            final(self).local_gold == old(self).local_gold,
            final(self).hand_size == old(self).hand_size,
    {
        if !self.bids_apply_now(phase) {
            return;
        }
        let toast = rejection_toast_text(reason, self.auction.current_price);
        self.auction.clear_bid_resolution_state();
        self.toast.show(toast);
    }

    /// Rebuild the UI from a reconnection snapshot. Returns the local
    /// player's shop offers when the snapshot is taken in the shop phase.
    pub fn on_snapshot(&mut self, snapshot: &GameSnapshotView, phase_timer_duration_ms: u32) -> (slots: Option<Vec<Option<CardId>>>)
        ensures
            *final(self) == (ShopAuctionUi {
                mode: final(self).mode,
                draft: final(self).draft,
                shop: final(self).shop,
                auction: final(self).auction,
                settlement: final(self).settlement,
                shop_timer: final(self).shop_timer,
                toast: final(self).toast,
                timer_target: final(self).timer_target,
                focused_bid_button: final(self).focused_bid_button,
                locally_passed: final(self).locally_passed,
                local_gold: final(self).local_gold,
                hand_size: final(self).hand_size,
                won_pending: final(self).won_pending,
                ..*old(self)
            }),
            final(self).draft.is_reset(),
            feedback_cleared(*final(self)),
            final(self).settlement == ShopAuctionSettlementState::initial(),
            final(self).local_gold.player_id == Some(snapshot.recipient_player_id),
            ({
                match first_player_index(snapshot.players@, snapshot.recipient_player_id) {
                    Some(i) => {
                        let p = snapshot.players@[i];
                        &&& final(self).local_gold.gold == p.gold
                        &&& final(self).local_gold.reserved_gold == p.reserved_gold
                        &&& final(self).local_gold.initialized
                        &&& final(self).hand_size == p.hand_size
                        &&& if snapshot.phase == RoundPhase::DraftShop {
                            slots matches Some(v) && v@ == p.shop_slots@
                        } else {
                            slots is None
                        }
                    },
                    None => {
                        &&& final(self).local_gold.gold == 0
                        &&& final(self).local_gold.reserved_gold == 0
                        &&& !final(self).local_gold.initialized
                        &&& final(self).hand_size == 0
                        &&& slots is None
                    },
                }
            }),
            ({
                match snapshot.phase {
                    RoundPhase::DraftAuction => match snapshot.auction_state {
                        Some(a) => final(self).auction == ShopAuctionAuctionState::restored(a, phase_timer_duration_ms)
                            && final(self).mode == ShopAuctionUiMode::Auction,
                        None => final(self).auction == ShopAuctionAuctionState::initial() && final(self).mode
                            == ShopAuctionUiMode::Inactive,
                    },
                    _ => final(self).auction == ShopAuctionAuctionState::initial(),
                }
            }),
            snapshot.phase == RoundPhase::DraftShop ==> {
                let rem = match snapshot.timer_remaining_ms {
                    Some(r) => r,
                    None => phase_timer_duration_ms,
                };
                let dur = max_u32(phase_timer_duration_ms, rem);
                &&& final(self).mode == ShopAuctionUiMode::Shop
                &&& final(self).shop.phase_cleared()
                &&& final(self).shop.buffered_slots is None
                &&& !final(self).shop.footer_slots_loaded
                &&& final(self).shop_timer == (ShopAuctionShopTimerState {
                    duration_ms: dur,
                    remaining_ms: min_u32(rem, dur),
                    started: true,
                    deferred: false,
                })
            },
            snapshot.phase != RoundPhase::DraftShop ==> final(self).shop.all_cleared() && final(self).shop_timer
                == ShopAuctionShopTimerState::stopped(),
            snapshot.phase == RoundPhase::DraftInitial ==> final(self).mode == ShopAuctionUiMode::DraftOffering,
            snapshot.phase != RoundPhase::DraftInitial && snapshot.phase != RoundPhase::DraftShop && snapshot.phase
                != RoundPhase::DraftAuction ==> final(self).mode == ShopAuctionUiMode::Inactive,
            final(self).won_pending == old(self).won_pending,
    {
        self.draft.reset_phase_state();
        self.shop.clear_all();
        self.auction.clear();
        self.settlement.clear();
        self.shop_timer.stop();
        self.clear_auction_feedback_state();

        self.local_gold.player_id = Some(snapshot.recipient_player_id);
        let mut local_shop_slots: Option<Vec<Option<CardId>>> = None;
        match find_player(&snapshot.players, snapshot.recipient_player_id) {
            Some(i) => {
                let p = &snapshot.players[i];
                self.local_gold.gold = p.gold;
                self.local_gold.reserved_gold = p.reserved_gold;
                self.local_gold.initialized = true;
                self.hand_size = p.hand_size;
                if snapshot.phase == RoundPhase::DraftShop {
                    local_shop_slots = Some(copy_slots(&p.shop_slots));
                }
            },
            None => {
                self.local_gold.gold = 0;
                self.local_gold.reserved_gold = 0;
                self.local_gold.initialized = false;
                self.hand_size = 0;
            },
        }

        match snapshot.phase {
            RoundPhase::DraftAuction => {
                match snapshot.auction_state {
                    Some(a) => {
                        self.auction.restore_from_snapshot(&a, phase_timer_duration_ms);
                        self.mode = ShopAuctionUiMode::Auction;
                    },
                    None => {
                        self.mode = ShopAuctionUiMode::Inactive;
                    },
                }
                None
            },
            RoundPhase::DraftShop => {
                self.shop.enter_shop_phase();
                self.shop_timer.restore_from_snapshot(phase_timer_duration_ms, snapshot.timer_remaining_ms);
                self.mode = ShopAuctionUiMode::Shop;
                local_shop_slots
            },
            RoundPhase::DraftInitial => {
                self.mode = ShopAuctionUiMode::DraftOffering;
                None
            },
            _ => {
                self.mode = ShopAuctionUiMode::Inactive;
                None
            },
        }
    }

    /// Take the shop offers that arrived this frame (latest last). In the
    /// shop phase, once the shop or its settlement shows, the latest offers
    /// (or, with none, those kept earlier) are returned to be shown; a
    /// refresh in flight then counts as made. In a phase that keeps offers
    /// for later, the latest offers are kept; otherwise a refresh in flight
    /// is given up.
    pub fn on_shop_slots(&mut self, phase: RoundPhase, messages: Vec<Vec<Option<CardId>>>) -> (r: Option<Vec<Option<CardId>>>)
        ensures
            *final(self) == (ShopAuctionUi {
                shop: final(self).shop,
                shop_timer: final(self).shop_timer,
                ..*old(self)
            }),
            ({
                let o = old(self);
                let can_apply = phase == RoundPhase::DraftShop && (o.mode == ShopAuctionUiMode::Shop || o.mode
                    == ShopAuctionUiMode::AuctionSettling);
                let n = messages@.len();
                if can_apply {
                    let shown = if n > 0 {
                        Some(messages@[n - 1])
                    } else {
                        o.shop.buffered_slots
                    };
                    match shown {
                        Some(v) => {
                            &&& r matches Some(rv) && rv@ == v@
                            &&& final(self).shop.slots_loaded
                            &&& !final(self).shop.refresh_in_flight
                            &&& final(self).shop.refresh_count_this_draft == (if o.shop.refresh_in_flight {
                                sat_inc(o.shop.refresh_count_this_draft)
                            } else {
                                o.shop.refresh_count_this_draft
                            })
                            &&& final(self).shop.pending_confirmed_purchases@.len() == 0
                            &&& final(self).shop.ready_signalled == o.shop.ready_signalled
                            &&& final(self).shop.footer_slots_loaded == o.shop.footer_slots_loaded
                            &&& final(self).shop.footer_slots@ == o.shop.footer_slots@
                            &&& final(self).shop.buffered_slots == (if n > 0 {
                                o.shop.buffered_slots
                            } else {
                                None
                            })
                        },
                        None => {
                            &&& r is None
                            &&& final(self).shop.slots_loaded == o.shop.slots_loaded
                            &&& final(self).shop.refresh_in_flight == o.shop.refresh_in_flight
                            &&& final(self).shop.refresh_count_this_draft == o.shop.refresh_count_this_draft
                            &&& final(self).shop.buffered_slots is None
                        },
                    }
                } else {
                    &&& r is None
                    &&& final(self).shop.slots_loaded == o.shop.slots_loaded
                    &&& final(self).shop.refresh_count_this_draft == o.shop.refresh_count_this_draft
                    &&& if n > 0 && (phase == RoundPhase::DraftInitial || phase == RoundPhase::DraftAuction
                        || phase == RoundPhase::Placement || phase == RoundPhase::Resolution) {
                        &&& final(self).shop.buffered_slots == Some(messages@[n - 1])
                        &&& final(self).shop.footer_slots_loaded
                        &&& forall|i: int| 0 <= i < 3 ==> final(self).shop.footer_slots@[i] == normalized_slot(messages@[n - 1]@, i)
                        &&& final(self).shop.refresh_in_flight == o.shop.refresh_in_flight
                    } else if n > 0 {
                        &&& final(self).shop.buffered_slots == o.shop.buffered_slots
                        &&& !final(self).shop.refresh_in_flight
                    } else {
                        &&& final(self).shop.buffered_slots == o.shop.buffered_slots
                        &&& final(self).shop.refresh_in_flight == o.shop.refresh_in_flight
                    }
                }
            }),
            final(self).mode == old(self).mode,
            final(self).auction == old(self).auction,
            final(self).settlement == old(self).settlement,
            final(self).shop_timer == old(self).shop_timer,
    {
        let mut messages = messages;
        let can_apply = phase == RoundPhase::DraftShop && match self.mode {
            ShopAuctionUiMode::Shop | ShopAuctionUiMode::AuctionSettling => true,
            _ => false,
        };
        let latest = messages.pop();
        let shown = if can_apply {
            match latest {
                Some(v) => Some(v),
                None => self.shop.take_buffered_slots(),
            }
        } else {
            match latest {
                Some(v) => {
                    if should_buffer_shop_slots(phase) {
                        self.shop.queue_slots(v);
                    } else {
                        self.shop.refresh_in_flight = false;
                    }
                },
                None => {},
            }
            None
        };
        match shown {
            Some(v) => {
                if self.shop.refresh_in_flight {
                    self.shop.refresh_count_this_draft = if self.shop.refresh_count_this_draft < u32::MAX {
                        self.shop.refresh_count_this_draft + 1
                    } else {
                        self.shop.refresh_count_this_draft
                    };
                }
                self.shop.refresh_in_flight = false;
                self.shop.slots_loaded = true;
                self.shop.pending_confirmed_purchases.clear();
                Some(v)
            },
            None => None,
        }
    }

    /// The server confirmed a purchase from the initial draft.
    pub fn on_card_acquired(&mut self, card_id: CardId)
        ensures
            *final(self) == (ShopAuctionUi {
                mode: final(self).mode,
                draft: final(self).draft,
                ..*old(self)
            }),
            final(self).draft.pending_confirmed_purchases@ == old(self).draft.pending_confirmed_purchases@.push(card_id),
            final(self).draft.offering_loaded == old(self).draft.offering_loaded,
            final(self).draft.ready_signalled == old(self).draft.ready_signalled,
            final(self).mode == old(self).mode,
    {
        self.draft.queue_purchase_confirmation(card_id);
    }

    /// The server confirmed shop purchases; outside the shop phase they are
    /// dropped with any still waiting.
    pub fn on_shop_cards_acquired(&mut self, phase: RoundPhase, card_ids: &Vec<CardId>)
        ensures
            *final(self) == (ShopAuctionUi {
                mode: final(self).mode,
                shop: final(self).shop,
                ..*old(self)
            }),
            phase == RoundPhase::DraftShop ==> final(self).shop.pending_confirmed_purchases@
                == old(self).shop.pending_confirmed_purchases@ + card_ids@,
            phase != RoundPhase::DraftShop ==> final(self).shop.pending_confirmed_purchases@.len() == 0,
            final(self).shop.slots_loaded == old(self).shop.slots_loaded,
            final(self).shop.ready_signalled == old(self).shop.ready_signalled,
            final(self).shop.refresh_in_flight == old(self).shop.refresh_in_flight,
            final(self).shop.refresh_count_this_draft == old(self).shop.refresh_count_this_draft,
            final(self).shop.keeps_footer_of(old(self).shop),
            final(self).mode == old(self).mode,
    {
        if phase != RoundPhase::DraftShop {
            self.shop.pending_confirmed_purchases.clear();
            return;
        }
        let n = card_ids.len();
        let mut i: usize = 0;
        while i < n
            invariant
                n == card_ids@.len(),
                0 <= i <= n,
                self.shop.pending_confirmed_purchases@ == old(self).shop.pending_confirmed_purchases@
                    + card_ids@.subrange(0, i as int),
                self.shop.slots_loaded == old(self).shop.slots_loaded,
                self.shop.ready_signalled == old(self).shop.ready_signalled,
                self.shop.refresh_in_flight == old(self).shop.refresh_in_flight,
                self.shop.refresh_count_this_draft == old(self).shop.refresh_count_this_draft,
                self.shop.keeps_footer_of(old(self).shop),
                self.mode == old(self).mode,
                *self == (ShopAuctionUi { shop: self.shop, ..*old(self) }),
            decreases n - i,
        {
            self.shop.queue_purchase_confirmation(card_ids[i]);
            i = i + 1;
            assert(self.shop.pending_confirmed_purchases@ =~= old(self).shop.pending_confirmed_purchases@
                + card_ids@.subrange(0, i as int));
        }
        assert(card_ids@.subrange(0, n as int) =~= card_ids@);
    }
}


impl ShopAuctionUi {
    /// Take the initial draft offering: it is loaded, any ready signal and
    /// waiting confirmation is dropped, the objective overlay opens while
    /// the draft shows, and the cards come back in display order.
    pub fn on_draft_offering(&mut self, card_ids: &Vec<CardId>, catalog: &CardCatalog) -> (sorted: Vec<CardId>)
        ensures
            *final(self) == (ShopAuctionUi {
                draft: final(self).draft,
                shop: final(self).shop,
                ..*old(self)
            }),
            exists|pos: Seq<int>| is_offering_order(*catalog, card_ids@, shown_count(card_ids@.len()), pos, sorted@),
            final(self).draft.offering_loaded,
            !final(self).draft.ready_signalled,
            final(self).draft.pending_confirmed_purchases@.len() == 0,
            old(self).mode == ShopAuctionUiMode::DraftOffering ==> {
                &&& final(self).draft.objective_overlay_visible
                &&& !final(self).draft.objective_overlay_dismissed
                &&& final(self).draft.objective_focus_target == DraftInitialObjectiveFocusTarget::DismissButton
            },
            old(self).mode != ShopAuctionUiMode::DraftOffering ==> {
                &&& final(self).draft.objective_overlay_visible == old(self).draft.objective_overlay_visible
                &&& final(self).draft.objective_overlay_dismissed == old(self).draft.objective_overlay_dismissed
                &&& final(self).draft.objective_focus_target == old(self).draft.objective_focus_target
            },
            final(self).mode == old(self).mode,
            final(self).auction == old(self).auction,
            final(self).shop == old(self).shop,
    {
        self.draft.offering_loaded = true;
        self.draft.ready_signalled = false;
        if self.mode == ShopAuctionUiMode::DraftOffering {
            self.draft.show_objective_overlay();
        }
        self.draft.pending_confirmed_purchases.clear();
        sort_draft_offering_card_ids(card_ids, catalog)
    }
}

} // verus!
