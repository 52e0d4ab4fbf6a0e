//! Client-side state of the draft, shop and settlement panels, of the
//! toast, the shop timer and the local gold view.

use vstd::prelude::*;

use crate::auction::{max_u32, min_u32, sat_add, sat_inc, sat_sub, saturating_add, saturating_sub};
use crate::card::{CardId, PlayerId};
use crate::protocol::RoundPhase;

verus! {

/// Number of offers in a shop.
pub const SHOP_AUCTION_UI_SHOP_SLOT_COUNT: usize = 3;
/// Number of cards in the initial draft offering.
pub const SHOP_AUCTION_UI_DRAFT_INITIAL_SLOT_COUNT: usize = 9;
/// Length of the settlement animation.
pub const AUCTION_SETTLEMENT_TRANSITION_MS: u32 = 350;
pub const AUCTION_TOAST_FADE_IN_MS: u32 = 120;
pub const AUCTION_TOAST_HOLD_MS: u32 = 2_000;
pub const AUCTION_TOAST_FADE_OUT_MS: u32 = 120;
/// A hand at this size takes no more cards.
pub const HAND_FULL_SIZE: usize = 10;

/// Which panel the shop/auction UI shows.
#[derive(Clone, Copy, Debug, PartialEq, Eq, Structural)]
pub enum ShopAuctionUiMode {
    Inactive,
    DraftOffering,
    AuctionPreparing,
    Auction,
    AuctionSettling,
    Shop,
}

/// The mode a phase change leads to, before auction and settlement
/// adjustments.
pub open spec fn mode_for_phase(phase: RoundPhase) -> ShopAuctionUiMode {
    match phase {
        RoundPhase::DraftInitial => ShopAuctionUiMode::DraftOffering,
        RoundPhase::DraftShop => ShopAuctionUiMode::Shop,
        _ => ShopAuctionUiMode::Inactive,
    }
}

impl ShopAuctionUiMode {
    pub fn from_phase(phase: RoundPhase) -> (m: Self)
        ensures
            m == mode_for_phase(phase),
    {
        match phase {
            RoundPhase::DraftInitial => ShopAuctionUiMode::DraftOffering,
            RoundPhase::DraftAuction => ShopAuctionUiMode::Inactive,
            RoundPhase::DraftShop => ShopAuctionUiMode::Shop,
            RoundPhase::Lobby
            | RoundPhase::Placement
            | RoundPhase::Resolution
            | RoundPhase::GameOver
            | RoundPhase::Handshaking => ShopAuctionUiMode::Inactive,
        }
    }
}

impl Default for ShopAuctionUiMode {
    fn default() -> (m: Self)
        ensures
            m == ShopAuctionUiMode::Inactive,
    {
        ShopAuctionUiMode::Inactive
    }
}

/// Where keyboard focus sits in the draft objective overlay.
#[derive(Clone, Copy, Debug, PartialEq, Eq, Structural)]
pub enum DraftInitialObjectiveFocusTarget {
    NoTarget,
    DismissButton,
    RetrievalAffordance,
}

/// The initial draft panel.
#[derive(Clone, Debug)]
pub struct ShopAuctionDraftInitialState {
    pub offering_loaded: bool,
    pub ready_signalled: bool,
    pub objective_overlay_visible: bool,
    pub objective_overlay_dismissed: bool,
    pub objective_focus_target: DraftInitialObjectiveFocusTarget,
    /// Purchases confirmed by the server, not yet shown on a slot.
    pub pending_confirmed_purchases: Vec<CardId>,
}

impl ShopAuctionDraftInitialState {
    /// Nothing loaded, nothing signalled, overlay closed.
    pub open spec fn is_reset(self) -> bool {
        &&& !self.offering_loaded
        &&& !self.ready_signalled
        &&& !self.objective_overlay_visible
        &&& !self.objective_overlay_dismissed
        &&& self.objective_focus_target == DraftInitialObjectiveFocusTarget::NoTarget
        &&& self.pending_confirmed_purchases@.len() == 0
    }

    pub fn new() -> (s: Self)
        ensures
            s.is_reset(),
    {
        ShopAuctionDraftInitialState {
            offering_loaded: false,
            ready_signalled: false,
            objective_overlay_visible: false,
            objective_overlay_dismissed: false,
            objective_focus_target: DraftInitialObjectiveFocusTarget::NoTarget,
            pending_confirmed_purchases: Vec::new(),
        }
    }

    /// Forget the phase's offering, ready signal and overlay.
    pub fn reset_phase_state(&mut self)
        ensures
            final(self).is_reset(),
    {
        self.offering_loaded = false;
        self.ready_signalled = false;
        self.objective_overlay_visible = false;
        self.objective_overlay_dismissed = false;
        self.objective_focus_target = DraftInitialObjectiveFocusTarget::NoTarget;
        self.pending_confirmed_purchases.clear();
    }

    /// Open the objective overlay, once an offering is loaded.
    pub fn show_objective_overlay(&mut self)
        ensures
            final(self).offering_loaded == old(self).offering_loaded,
            final(self).ready_signalled == old(self).ready_signalled,
            final(self).pending_confirmed_purchases@ == old(self).pending_confirmed_purchases@,
            old(self).offering_loaded ==> {
                &&& final(self).objective_overlay_visible
                &&& !final(self).objective_overlay_dismissed
                &&& final(self).objective_focus_target == DraftInitialObjectiveFocusTarget::DismissButton
            },
            !old(self).offering_loaded ==> {
                &&& final(self).objective_overlay_visible == old(self).objective_overlay_visible
                &&& final(self).objective_overlay_dismissed == old(self).objective_overlay_dismissed
                &&& final(self).objective_focus_target == old(self).objective_focus_target
            },
    {
        if !self.offering_loaded {
            return;
        }
        self.objective_overlay_visible = true;
        self.objective_overlay_dismissed = false;
        self.objective_focus_target = DraftInitialObjectiveFocusTarget::DismissButton;
    }

    /// Close the objective overlay, leaving the way to reopen it focused.
    pub fn dismiss_objective_overlay(&mut self)
        ensures
            final(self).offering_loaded == old(self).offering_loaded,
            final(self).ready_signalled == old(self).ready_signalled,
            final(self).pending_confirmed_purchases@ == old(self).pending_confirmed_purchases@,
            old(self).objective_overlay_visible ==> {
                &&& !final(self).objective_overlay_visible
                &&& final(self).objective_overlay_dismissed
                &&& final(self).objective_focus_target == DraftInitialObjectiveFocusTarget::RetrievalAffordance
            },
            !old(self).objective_overlay_visible ==> {
                &&& !final(self).objective_overlay_visible
                &&& final(self).objective_overlay_dismissed == old(self).objective_overlay_dismissed
                &&& final(self).objective_focus_target == old(self).objective_focus_target
            },
    {
        if !self.objective_overlay_visible {
            return;
        }
        self.objective_overlay_visible = false;
        self.objective_overlay_dismissed = true;
        self.objective_focus_target = DraftInitialObjectiveFocusTarget::RetrievalAffordance;
    }

    /// Remember a purchase that the server confirmed.
    pub fn queue_purchase_confirmation(&mut self, card_id: CardId)
        ensures
            final(self).pending_confirmed_purchases@ == old(self).pending_confirmed_purchases@.push(card_id),
            final(self).offering_loaded == old(self).offering_loaded,
            final(self).ready_signalled == old(self).ready_signalled,
            final(self).objective_overlay_visible == old(self).objective_overlay_visible,
            final(self).objective_overlay_dismissed == old(self).objective_overlay_dismissed,
            final(self).objective_focus_target == old(self).objective_focus_target,
    {
        self.pending_confirmed_purchases.push(card_id);
    }
}

/// The first `SHOP_AUCTION_UI_SHOP_SLOT_COUNT` slots, missing ones empty.
pub open spec fn normalized_slot(slots: Seq<Option<CardId>>, i: int) -> Option<CardId> {
    if 0 <= i < slots.len() {
        slots[i]
    } else {
        None
    }
}

/// The shop panel.
#[derive(Clone, Debug)]
pub struct ShopAuctionShopState {
    pub slots_loaded: bool,
    pub ready_signalled: bool,
    pub refresh_count_this_draft: u32,
    pub refresh_in_flight: bool,
    pub footer_slots_loaded: bool,
    /// The shop shown locked under the auction panel.
    pub footer_slots: [Option<CardId>; 3],
    /// Offers received while they could not be shown yet.
    pub buffered_slots: Option<Vec<Option<CardId>>>,
    /// Purchases confirmed by the server, not yet shown on a slot.
    pub pending_confirmed_purchases: Vec<CardId>,
}

impl ShopAuctionShopState {
    /// The per-phase fields are reset.
    pub open spec fn phase_cleared(self) -> bool {
        &&& !self.slots_loaded
        &&& !self.ready_signalled
        &&& self.refresh_count_this_draft == 0
        &&& !self.refresh_in_flight
        &&& self.pending_confirmed_purchases@.len() == 0
    }

    /// Everything is reset, the locked footer shop included.
    pub open spec fn all_cleared(self) -> bool {
        &&& self.phase_cleared()
        &&& self.buffered_slots is None
        &&& !self.footer_slots_loaded
        &&& forall|i: int| 0 <= i < 3 ==> self.footer_slots@[i] is None
    }

    /// The fields kept by a per-phase reset are unchanged.
    pub open spec fn keeps_footer_of(self, other: Self) -> bool {
        &&& self.footer_slots_loaded == other.footer_slots_loaded
        &&& self.footer_slots@ == other.footer_slots@
        &&& self.buffered_slots == other.buffered_slots
    }

    pub fn new() -> (s: Self)
        ensures
            s.all_cleared(),
    {
        ShopAuctionShopState {
            slots_loaded: false,
            ready_signalled: false,
            refresh_count_this_draft: 0,
            refresh_in_flight: false,
            footer_slots_loaded: false,
            footer_slots: [None, None, None],
            buffered_slots: None,
            pending_confirmed_purchases: Vec::new(),
        }
    }

    /// Start a shop phase.
    pub fn enter_shop_phase(&mut self)
        ensures
            final(self).phase_cleared(),
            final(self).keeps_footer_of(*old(self)),
    {
        self.clear_phase_state();
    }

    /// Start an auction phase.
    pub fn enter_auction_phase(&mut self)
        ensures
            final(self).phase_cleared(),
            final(self).keeps_footer_of(*old(self)),
    {
        self.clear_phase_state();
    }

    /// Reset the per-phase fields.
    pub fn clear_phase_state(&mut self)
        ensures
            final(self).phase_cleared(),
            final(self).keeps_footer_of(*old(self)),
    {
        self.slots_loaded = false;
        self.ready_signalled = false;
        self.refresh_count_this_draft = 0;
        self.refresh_in_flight = false;
        self.pending_confirmed_purchases.clear();
    }

    /// Reset everything.
    pub fn clear_all(&mut self)
        ensures
            final(self).all_cleared(),
    {
        self.clear_phase_state();
        self.buffered_slots = None;
        self.footer_slots_loaded = false;
        self.footer_slots = [None, None, None];
    }

    /// Keep offers to show later; they are shown at once in the locked
    /// footer.
    pub fn queue_slots(&mut self, slots: Vec<Option<CardId>>)
        ensures
            final(self).footer_slots_loaded,
            forall|i: int| 0 <= i < 3 ==> final(self).footer_slots@[i] == normalized_slot(slots@, i),
            final(self).buffered_slots == Some(slots),
            final(self).slots_loaded == old(self).slots_loaded,
            final(self).ready_signalled == old(self).ready_signalled,
            final(self).refresh_count_this_draft == old(self).refresh_count_this_draft,
            final(self).refresh_in_flight == old(self).refresh_in_flight,
            final(self).pending_confirmed_purchases@ == old(self).pending_confirmed_purchases@,
    {
        self.footer_slots = normalized_shop_slots(&slots);
        self.footer_slots_loaded = true;
        self.buffered_slots = Some(slots);
    }

    /// Hand out the offers kept for later, if any.
    pub fn take_buffered_slots(&mut self) -> (r: Option<Vec<Option<CardId>>>)
        ensures
            r == old(self).buffered_slots,
            final(self).buffered_slots is None,
            final(self).slots_loaded == old(self).slots_loaded,
            final(self).ready_signalled == old(self).ready_signalled,
            final(self).refresh_count_this_draft == old(self).refresh_count_this_draft,
            final(self).refresh_in_flight == old(self).refresh_in_flight,
            final(self).footer_slots_loaded == old(self).footer_slots_loaded,
            final(self).footer_slots@ == old(self).footer_slots@,
            final(self).pending_confirmed_purchases@ == old(self).pending_confirmed_purchases@,
    {
        self.buffered_slots.take()
    }

    /// Remember a purchase that the server confirmed.
    pub fn queue_purchase_confirmation(&mut self, card_id: CardId)
        ensures
            final(self).pending_confirmed_purchases@ == old(self).pending_confirmed_purchases@.push(card_id),
            final(self).slots_loaded == old(self).slots_loaded,
            final(self).ready_signalled == old(self).ready_signalled,
            final(self).refresh_count_this_draft == old(self).refresh_count_this_draft,
            final(self).refresh_in_flight == old(self).refresh_in_flight,
            final(self).keeps_footer_of(*old(self)),
    {
        self.pending_confirmed_purchases.push(card_id);
    }

    /// The locked footer shop.
    pub fn footer_slots(&self) -> (r: [Option<CardId>; 3])
        ensures
            r@ == self.footer_slots@,
    {
        self.footer_slots
    }
}

/// The first three slots of `slots`, missing ones empty.
pub fn normalized_shop_slots(slots: &Vec<Option<CardId>>) -> (r: [Option<CardId>; 3])
    ensures
        forall|i: int| 0 <= i < 3 ==> r@[i] == normalized_slot(slots@, i),
{
    let a = if slots.len() > 0 { slots[0] } else { None };
    let b = if slots.len() > 1 { slots[1] } else { None };
    let c = if slots.len() > 2 { slots[2] } else { None };
    [a, b, c]
}

/// Outcome of a settled auction, from the local player's side.
#[derive(Clone, Copy, Debug, PartialEq, Eq, Structural)]
pub enum ShopAuctionSettlementOutcome {
    LocalWinner,
    OpponentWinner,
    NoBid,
}

/// The settlement overlay and its animation.
#[derive(Clone, Copy, Debug, PartialEq, Eq, Structural)]
pub struct ShopAuctionSettlementState {
    pub outcome: Option<ShopAuctionSettlementOutcome>,
    pub winner: Option<PlayerId>,
    pub amount: u32,
    pub card_id: Option<CardId>,
    pub elapsed_ms: u32,
    pub transition_duration_ms: u32,
    pub transition_active: bool,
    pub local_card_feedback_requests: u32,
    pub overlay_requests: u32,
    pub panel_transition_requests: u32,
}

impl ShopAuctionSettlementState {
    pub open spec fn initial() -> Self {
        ShopAuctionSettlementState {
            outcome: None,
            winner: None,
            amount: 0,
            card_id: None,
            elapsed_ms: 0,
            transition_duration_ms: AUCTION_SETTLEMENT_TRANSITION_MS,
            transition_active: false,
            local_card_feedback_requests: 0,
            overlay_requests: 0,
            panel_transition_requests: 0,
        }
    }

    /// The overlay started for a settled auction; every start is counted as
    /// an overlay and panel request, a local win also as card feedback.
    pub open spec fn begun(
        self,
        outcome: ShopAuctionSettlementOutcome,
        winner: Option<PlayerId>,
        amount: u32,
        card_id: Option<CardId>,
        local_card_feedback: bool,
    ) -> Self {
        ShopAuctionSettlementState {
            outcome: Some(outcome),
            winner,
            amount,
            card_id,
            elapsed_ms: 0,
            transition_duration_ms: AUCTION_SETTLEMENT_TRANSITION_MS,
            transition_active: true,
            overlay_requests: sat_inc(self.overlay_requests),
            panel_transition_requests: sat_inc(self.panel_transition_requests),
            local_card_feedback_requests: if local_card_feedback {
                sat_inc(self.local_card_feedback_requests)
            } else {
                self.local_card_feedback_requests
            },
        }
    }

    pub fn new() -> (s: Self)
        ensures
            s == Self::initial(),
    {
        ShopAuctionSettlementState {
            outcome: None,
            winner: None,
            amount: 0,
            card_id: None,
            elapsed_ms: 0,
            transition_duration_ms: AUCTION_SETTLEMENT_TRANSITION_MS,
            transition_active: false,
            local_card_feedback_requests: 0,
            overlay_requests: 0,
            panel_transition_requests: 0,
        }
    }

    /// Start the overlay for a settled auction.
    pub fn begin(
        &mut self,
        outcome: ShopAuctionSettlementOutcome,
        winner: Option<PlayerId>,
        amount: u32,
        card_id: Option<CardId>,
        local_card_feedback: bool,
    )
        ensures
            *final(self) == old(self).begun(outcome, winner, amount, card_id, local_card_feedback),
    {
        self.outcome = Some(outcome);
        self.winner = winner;
        self.amount = amount;
        self.card_id = card_id;
        self.elapsed_ms = 0;
        self.transition_duration_ms = AUCTION_SETTLEMENT_TRANSITION_MS;
        self.transition_active = true;
        self.overlay_requests = saturating_add(self.overlay_requests, 1);
        self.panel_transition_requests = saturating_add(self.panel_transition_requests, 1);
        if local_card_feedback {
            self.local_card_feedback_requests = saturating_add(self.local_card_feedback_requests, 1);
        }
    }

    pub fn clear(&mut self)
        ensures
            *final(self) == Self::initial(),
    {
        *self = Self::new();
    }

    /// End the animation at its full length.
    pub fn finish_transition(&mut self)
        ensures
            *final(self) == (ShopAuctionSettlementState {
                transition_active: false,
                elapsed_ms: old(self).transition_duration_ms,
                ..*old(self)
            }),
    {
        self.transition_active = false;
        self.elapsed_ms = self.transition_duration_ms;
    }

    /// The overlay's fixed copy for the outcome.
    pub fn overlay_text(&self) -> (r: &'static str)
        ensures
            r@ == (match self.outcome {
                Some(ShopAuctionSettlementOutcome::LocalWinner) => "Auction won - card moving to hand"@,
                Some(ShopAuctionSettlementOutcome::OpponentWinner) => "Opponent won the auction"@,
                Some(ShopAuctionSettlementOutcome::NoBid) => "No bids - card returned"@,
                None => ""@,
            }),
    {
        match self.outcome {
            Some(ShopAuctionSettlementOutcome::LocalWinner) => "Auction won - card moving to hand",
            Some(ShopAuctionSettlementOutcome::OpponentWinner) => "Opponent won the auction",
            Some(ShopAuctionSettlementOutcome::NoBid) => "No bids - card returned",
            None => "",
        }
    }
}

/// Gold shown to the local player, from its own gold updates.
#[derive(Clone, Copy, Debug, PartialEq, Eq, Structural)]
pub struct ShopAuctionLocalGoldView {
    pub player_id: Option<PlayerId>,
    pub gold: u32,
    pub reserved_gold: u32,
    pub initialized: bool,
}

/// The economy view shared by the client panels.
#[derive(Clone, Copy, Debug, PartialEq, Eq, Structural)]
pub struct PlayerEconomyView {
    pub gold: u32,
    pub initialized: bool,
}

/// Gold not held back by reservations.
pub open spec fn spec_local_free_gold(gold: u32, reserved_gold: u32) -> u32 {
    sat_sub(gold, reserved_gold)
}

/// Gold not held back by reservations.
pub fn local_free_gold(gold: u32, reserved_gold: u32) -> (r: u32)
    ensures
        r == spec_local_free_gold(gold, reserved_gold),
{
    saturating_sub(gold, reserved_gold)
}

impl ShopAuctionLocalGoldView {
    /// Free gold: the local updates once any arrived, else the shared
    /// economy view with nothing reserved.
    pub open spec fn spec_free_gold(self, economy: PlayerEconomyView) -> u32 {
        if self.initialized {
            spec_local_free_gold(self.gold, self.reserved_gold)
        } else {
            economy.gold
        }
    }

    pub fn new() -> (s: Self)
        ensures
            s.player_id is None,
            s.gold == 0,
            s.reserved_gold == 0,
            !s.initialized,
    {
        ShopAuctionLocalGoldView { player_id: None, gold: 0, reserved_gold: 0, initialized: false }
    }

    pub fn free_gold(self, economy: &PlayerEconomyView) -> (r: u32)
        ensures
            r == self.spec_free_gold(*economy),
    {
        let gold = if self.initialized {
            self.gold
        } else {
            economy.gold
        };
        let reserved_gold = if self.initialized {
            self.reserved_gold
        } else {
            0
        };
        local_free_gold(gold, reserved_gold)
    }
}

/// The shop countdown shown on the client.
#[derive(Clone, Copy, Debug, PartialEq, Eq, Structural)]
pub struct ShopAuctionShopTimerState {
    pub duration_ms: u32,
    pub remaining_ms: u32,
    pub started: bool,
    pub deferred: bool,
}

impl ShopAuctionShopTimerState {
    pub open spec fn stopped() -> Self {
        ShopAuctionShopTimerState { duration_ms: 0, remaining_ms: 0, started: false, deferred: false }
    }

    pub fn new() -> (s: Self)
        ensures
            s == Self::stopped(),
    {
        ShopAuctionShopTimerState { duration_ms: 0, remaining_ms: 0, started: false, deferred: false }
    }

    /// Arm a full countdown that starts later.
    pub fn defer(&mut self, duration_ms: u32)
        ensures
            *final(self) == (ShopAuctionShopTimerState {
                duration_ms,
                remaining_ms: duration_ms,
                started: false,
                deferred: true,
            }),
    {
        self.duration_ms = duration_ms;
        self.remaining_ms = duration_ms;
        self.started = false;
        self.deferred = true;
    }

    /// Start a full countdown now.
    pub fn start(&mut self, duration_ms: u32)
        ensures
            *final(self) == (ShopAuctionShopTimerState {
                duration_ms,
                remaining_ms: duration_ms,
                started: true,
                deferred: false,
            }),
    {
        self.duration_ms = duration_ms;
        self.remaining_ms = duration_ms;
        self.started = true;
        self.deferred = false;
    }

    /// Resume a countdown from a reconnection snapshot; with no remaining
    /// time given the full phase duration remains.
    pub fn restore_from_snapshot(&mut self, phase_duration_ms: u32, remaining_ms: Option<u32>)
        ensures
            ({
                let rem = match remaining_ms {
                    Some(r) => r,
                    None => phase_duration_ms,
                };
                let dur = max_u32(phase_duration_ms, rem);
                *final(self) == (ShopAuctionShopTimerState {
                    duration_ms: dur,
                    remaining_ms: min_u32(rem, dur),
                    started: true,
                    deferred: false,
                })
            }),
    {
        let remaining = match remaining_ms {
            Some(r) => r,
            None => phase_duration_ms,
        };
        self.duration_ms = if phase_duration_ms >= remaining {
            phase_duration_ms
        } else {
            remaining
        };
        self.remaining_ms = if remaining <= self.duration_ms {
            remaining
        } else {
            self.duration_ms
        };
        self.started = true;
        self.deferred = false;
    }

    pub fn stop(&mut self)
        ensures
            *final(self) == Self::stopped(),
    {
        *self = Self::new();
    }
}

/// A transient message over the auction panel.
#[derive(Clone, Debug)]
pub struct ShopAuctionToastState {
    pub text: String,
    pub elapsed_ms: u32,
    pub active: bool,
}

/// Total time a toast stays up.
pub open spec fn toast_total_ms() -> u32 {
    (AUCTION_TOAST_FADE_IN_MS + AUCTION_TOAST_HOLD_MS + AUCTION_TOAST_FADE_OUT_MS) as u32
}

impl ShopAuctionToastState {
    pub open spec fn is_cleared(self) -> bool {
        self.text@.len() == 0 && self.elapsed_ms == 0 && !self.active
    }

    pub fn new() -> (s: Self)
        ensures
            s.is_cleared(),
    {
        ShopAuctionToastState { text: String::new(), elapsed_ms: 0, active: false }
    }

    /// Show `text` from the start of its fade-in.
    pub fn show(&mut self, text: String)
        ensures
            final(self).text@ == text@,
            final(self).elapsed_ms == 0,
            final(self).active,
    {
        self.text = text;
        self.elapsed_ms = 0;
        self.active = true;
    }

    pub fn clear(&mut self)
        ensures
            final(self).is_cleared(),
    {
        self.text = String::new();
        self.elapsed_ms = 0;
        self.active = false;
    }

    /// Advance the toast; it clears itself once its total time is over.
    pub fn tick(&mut self, elapsed_ms: u32)
        ensures
            !old(self).active ==> final(self).text@ == old(self).text@ && final(self).elapsed_ms
                == old(self).elapsed_ms && !final(self).active,
            old(self).active && sat_add(old(self).elapsed_ms, elapsed_ms) >= toast_total_ms()
                ==> final(self).is_cleared(),
            old(self).active && sat_add(old(self).elapsed_ms, elapsed_ms) < toast_total_ms() ==> {
                &&& final(self).active
                &&& final(self).elapsed_ms == old(self).elapsed_ms + elapsed_ms
                &&& final(self).text@ == old(self).text@
            },
    {
        if !self.active {
            return;
        }
        self.elapsed_ms = saturating_add(self.elapsed_ms, elapsed_ms);
        if self.elapsed_ms >= AUCTION_TOAST_FADE_IN_MS + AUCTION_TOAST_HOLD_MS + AUCTION_TOAST_FADE_OUT_MS {
            self.active = false;
            self.text = String::new();
            self.elapsed_ms = 0;
        }
    }
}

/// The card that the local player won at auction, until it is placed.
#[derive(Clone, Copy, Debug, PartialEq, Eq, Structural)]
pub struct AuctionWonPendingState {
    pub card_id: CardId,
    pub settle_round: u32,
    pub staged_yet: bool,
    pub submitted_yet: bool,
}

/// The auction-won reminder; `None` once the card is placed or the phase
/// moved on.
#[derive(Clone, Copy, Debug, PartialEq, Eq, Structural)]
pub struct AuctionWonPending {
    pub state: Option<AuctionWonPendingState>,
}

impl AuctionWonPending {
    pub fn new() -> (s: Self)
        ensures
            s.state is None,
    {
        AuctionWonPending { state: None }
    }

    /// The reminder shows during placement while the won card is not staged.
    pub fn affordance_visible(self, current_phase: RoundPhase) -> (r: bool)
        ensures
            r == (current_phase == RoundPhase::Placement && (self.state matches Some(s)
                && !s.staged_yet)),
    {
        match current_phase {
            RoundPhase::Placement => match self.state {
                Some(s) => !s.staged_yet,
                None => false,
            },
            _ => false,
        }
    }

    /// The diagnostic block is present during placement while armed.
    pub fn snapshot_block_active(self, current_phase: RoundPhase) -> (r: bool)
        ensures
            r == (current_phase == RoundPhase::Placement && self.state is Some),
    {
        match current_phase {
            RoundPhase::Placement => self.state.is_some(),
            _ => false,
        }
    }

    pub fn card_id(self) -> (r: Option<CardId>)
        ensures
            r == (match self.state {
                Some(s) => Some(s.card_id),
                None => None,
            }),
    {
        match self.state {
            Some(s) => Some(s.card_id),
            None => None,
        }
    }

    /// Arm a fresh reminder, replacing any earlier one.
    pub fn arm(&mut self, card_id: CardId, settle_round: u32)
        ensures
            final(self).state == Some(
                AuctionWonPendingState { card_id, settle_round, staged_yet: false, submitted_yet: false },
            ),
    {
        self.state = Some(
            AuctionWonPendingState { card_id, settle_round, staged_yet: false, submitted_yet: false },
        );
    }

    pub fn clear(&mut self)
        ensures
            final(self).state is None,
    {
        self.state = None;
    }
}

} // verus!
