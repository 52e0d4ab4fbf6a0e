//! Client-side state of the live auction panel: the card on offer, its
//! price and leader, the local countdown, and the hold on bidding that
//! follows an opponent's bid until the local gold update arrives.

use vstd::prelude::*;

use crate::card::{CardId, PlayerId};
use crate::protocol::{AuctionSnapshot, S2CAuctionBidAccepted, S2CAuctionCard};

verus! {

/// How long the panel may wait for the auction to open before it reports a
/// connection problem.
pub const AUCTION_PREPARING_TIMEOUT_MS: u32 = 10_000;

/// How long a locally expired auction waits before its status says that the
/// server is awaited.
pub const AUCTION_AWAITING_SERVER_DELAY_MS: u32 = 1_500;

/// What the auction panel currently shows.
#[derive(Clone, Copy, Debug, PartialEq, Eq, Structural)]
pub enum ShopAuctionAuctionPanelState {
    Hidden,
    Preparing,
    Active,
    Settling,
    ConnectionError,
}

/// `x + 1`, saturating at `u32::MAX`.
pub open spec fn sat_inc(x: u32) -> u32 {
    if x < u32::MAX {
        (x + 1) as u32
    } else {
        x
    }
}

/// `x + y`, saturating at `u32::MAX`.
pub open spec fn sat_add(x: u32, y: u32) -> u32 {
    if x + y <= u32::MAX {
        (x + y) as u32
    } else {
        u32::MAX
    }
}

/// `x - y`, saturating at zero.
pub open spec fn sat_sub(x: u32, y: u32) -> u32 {
    if x >= y {
        (x - y) as u32
    } else {
        0
    }
}

pub open spec fn min_u32(x: u32, y: u32) -> u32 {
    if x <= y {
        x
    } else {
        y
    }
}

pub open spec fn max_u32(x: u32, y: u32) -> u32 {
    if x >= y {
        x
    } else {
        y
    }
}

fn saturating_inc(x: u32) -> (r: u32)
    ensures
        r == sat_inc(x),
{
    if x < u32::MAX {
        x + 1
    } else {
        x
    }
}

/// `x + y`, saturating at `u32::MAX`.
pub fn saturating_add(x: u32, y: u32) -> (r: u32)
    ensures
        r == sat_add(x, y),
{
    if x <= u32::MAX - y {
        x + y
    } else {
        u32::MAX
    }
}

/// `x - y`, saturating at zero.
pub fn saturating_sub(x: u32, y: u32) -> (r: u32)
    ensures
        r == sat_sub(x, y),
{
    if x >= y {
        x - y
    } else {
        0
    }
}

/// Client view of the auction in progress.
///
/// The two counters order local gold updates against accepted bids: the
/// hold that an opponent's bid starts ends at the first local gold update
/// not yet used to end an earlier hold.
#[derive(Clone, Copy, Debug, PartialEq, Eq, Structural)]
pub struct ShopAuctionAuctionState {
    pub panel_state: ShopAuctionAuctionPanelState,
    pub card_id: Option<CardId>,
    pub starting_price: u32,
    pub current_price: u32,
    pub current_leader: Option<PlayerId>,
    pub timer_duration_ms: u32,
    pub timer_remaining_ms: u32,
    pub preparing_elapsed_ms: u32,
    pub locally_expired_elapsed_ms: u32,
    pub in_flight_bid_amount: Option<u32>,
    pub pending_bid_accepted: bool,
    pub pending_gold_broadcast_seen: bool,
    pub opponent_bid_gate_satisfied: bool,
    pub local_gold_broadcast_generation: u32,
    pub last_completed_gate_generation: u32,
}

impl ShopAuctionAuctionState {
    /// The state with no auction: hidden panel, every field zero or empty.
    pub open spec fn initial() -> Self {
        ShopAuctionAuctionState {
            panel_state: ShopAuctionAuctionPanelState::Hidden,
            card_id: None,
            starting_price: 0,
            current_price: 0,
            current_leader: None,
            timer_duration_ms: 0,
            timer_remaining_ms: 0,
            preparing_elapsed_ms: 0,
            locally_expired_elapsed_ms: 0,
            in_flight_bid_amount: None,
            pending_bid_accepted: false,
            pending_gold_broadcast_seen: false,
            opponent_bid_gate_satisfied: false,
            local_gold_broadcast_generation: 0,
            last_completed_gate_generation: 0,
        }
    }

    /// No bid in flight and no hold pending; every gold update seen so far
    /// counts as already used.
    pub open spec fn bid_resolution_cleared(self) -> Self {
        ShopAuctionAuctionState {
            in_flight_bid_amount: None,
            pending_bid_accepted: false,
            pending_gold_broadcast_seen: false,
            opponent_bid_gate_satisfied: false,
            last_completed_gate_generation: self.local_gold_broadcast_generation,
            ..self
        }
    }

    /// Bound to a newly offered card, with no leader and a stopped countdown.
    pub open spec fn card_buffered(self, m: S2CAuctionCard) -> Self {
        ShopAuctionAuctionState {
            card_id: Some(m.card_id),
            starting_price: m.starting_price,
            current_price: m.starting_price,
            current_leader: None,
            timer_duration_ms: m.timer_duration_ms,
            timer_remaining_ms: 0,
            locally_expired_elapsed_ms: 0,
            ..self
        }.bid_resolution_cleared()
    }

    /// Waiting for the auction phase to open; the countdown duration is kept.
    pub open spec fn preparing(self) -> Self {
        ShopAuctionAuctionState {
            panel_state: ShopAuctionAuctionPanelState::Preparing,
            preparing_elapsed_ms: 0,
            timer_remaining_ms: 0,
            locally_expired_elapsed_ms: 0,
            ..self
        }.bid_resolution_cleared()
    }

    /// Live bidding with a full countdown of `duration` milliseconds.
    pub open spec fn activated(self, duration: u32) -> Self {
        ShopAuctionAuctionState {
            panel_state: ShopAuctionAuctionPanelState::Active,
            preparing_elapsed_ms: 0,
            timer_duration_ms: duration,
            timer_remaining_ms: duration,
            locally_expired_elapsed_ms: 0,
            ..self
        }
    }

    /// Live bidding rebuilt from a reconnection snapshot.
    pub open spec fn restored(snapshot: AuctionSnapshot, phase_timer_duration_ms: u32) -> Self {
        let duration = max_u32(phase_timer_duration_ms, snapshot.timer_remaining_ms);
        ShopAuctionAuctionState {
            panel_state: ShopAuctionAuctionPanelState::Active,
            card_id: Some(snapshot.card_id),
            starting_price: snapshot.starting_price,
            current_price: if snapshot.last_accepted_bid == 0 {
                snapshot.starting_price
            } else {
                snapshot.last_accepted_bid
            },
            current_leader: snapshot.current_leader,
            timer_duration_ms: duration,
            timer_remaining_ms: min_u32(snapshot.timer_remaining_ms, duration),
            ..Self::initial()
        }
    }

    /// Showing the result: countdown stopped, the final price kept when it is
    /// positive.
    pub open spec fn settling(self, amount: u32) -> Self {
        ShopAuctionAuctionState {
            panel_state: ShopAuctionAuctionPanelState::Settling,
            preparing_elapsed_ms: 0,
            timer_duration_ms: 0,
            timer_remaining_ms: 0,
            locally_expired_elapsed_ms: 0,
            current_price: if amount > 0 {
                amount
            } else {
                self.current_price
            },
            ..self
        }.bid_resolution_cleared()
    }

    /// After a local gold update: counted, and, on a live panel, closing the
    /// hold that an opponent's bid started.
    pub open spec fn gold_broadcast_recorded(self) -> Self {
        let g = sat_inc(self.local_gold_broadcast_generation);
        let counted = ShopAuctionAuctionState { local_gold_broadcast_generation: g, ..self };
        if self.panel_state != ShopAuctionAuctionPanelState::Active {
            counted
        } else if self.pending_bid_accepted && !self.opponent_bid_gate_satisfied {
            ShopAuctionAuctionState {
                pending_gold_broadcast_seen: true,
                opponent_bid_gate_satisfied: true,
                last_completed_gate_generation: g,
                ..counted
            }
        } else {
            ShopAuctionAuctionState { pending_gold_broadcast_seen: true, ..counted }
        }
    }

    /// After an accepted bid: new price and leader, the server's timer (the
    /// duration grows to fit it), and a hold on bidding when the bidder is
    /// not the local player. A gold update received since the last hold
    /// ended ends the new one at once.
    pub open spec fn bid_accepted(self, m: S2CAuctionBidAccepted, local_player: Option<PlayerId>) -> Self {
        let base = ShopAuctionAuctionState {
            current_price: m.amount,
            current_leader: Some(m.bidder),
            timer_duration_ms: max_u32(self.timer_duration_ms, m.new_timer_ms),
            timer_remaining_ms: m.new_timer_ms,
            locally_expired_elapsed_ms: 0,
            in_flight_bid_amount: None,
            opponent_bid_gate_satisfied: false,
            ..self
        };
        let seen = self.local_gold_broadcast_generation > self.last_completed_gate_generation;
        if Some(m.bidder) == local_player {
            ShopAuctionAuctionState {
                pending_bid_accepted: false,
                pending_gold_broadcast_seen: false,
                last_completed_gate_generation: self.local_gold_broadcast_generation,
                ..base
            }
        } else if seen {
            ShopAuctionAuctionState {
                pending_bid_accepted: true,
                pending_gold_broadcast_seen: true,
                opponent_bid_gate_satisfied: true,
                last_completed_gate_generation: self.local_gold_broadcast_generation,
                ..base
            }
        } else {
            ShopAuctionAuctionState {
                pending_bid_accepted: true,
                pending_gold_broadcast_seen: false,
                ..base
            }
        }
    }

    /// Bids stay held after an opponent's bid until a local gold update.
    pub open spec fn spec_waiting_for_local_gold(self) -> bool {
        self.pending_bid_accepted && !self.opponent_bid_gate_satisfied
    }

    pub open spec fn spec_panel_visible(self) -> bool {
        self.panel_state != ShopAuctionAuctionPanelState::Hidden
    }

    pub open spec fn spec_countdown_active(self) -> bool {
        self.panel_state == ShopAuctionAuctionPanelState::Active && self.timer_duration_ms > 0
            && self.timer_remaining_ms > 0
    }

    pub open spec fn spec_locally_expired(self) -> bool {
        self.panel_state == ShopAuctionAuctionPanelState::Active && self.timer_duration_ms > 0
            && self.timer_remaining_ms == 0
    }

    /// After `elapsed` milliseconds of waiting for the auction to open.
    pub open spec fn preparing_ticked(self, elapsed: u32) -> Self {
        if self.panel_state != ShopAuctionAuctionPanelState::Preparing {
            self
        } else {
            let e = sat_add(self.preparing_elapsed_ms, elapsed);
            ShopAuctionAuctionState {
                preparing_elapsed_ms: e,
                panel_state: if e >= AUCTION_PREPARING_TIMEOUT_MS {
                    ShopAuctionAuctionPanelState::ConnectionError
                } else {
                    ShopAuctionAuctionPanelState::Preparing
                },
                ..self
            }
        }
    }

    /// After `elapsed` milliseconds of live countdown. Time spent at zero is
    /// counted from the first tick that finds the countdown already at zero.
    pub open spec fn countdown_ticked(self, elapsed: u32) -> Self {
        if self.panel_state != ShopAuctionAuctionPanelState::Active {
            self
        } else {
            let remaining = sat_sub(self.timer_remaining_ms, elapsed);
            ShopAuctionAuctionState {
                timer_remaining_ms: remaining,
                locally_expired_elapsed_ms: if remaining == 0 && self.timer_remaining_ms == 0 {
                    sat_add(self.locally_expired_elapsed_ms, elapsed)
                } else {
                    0
                },
                ..self
            }
        }
    }

    /// The state with no auction.
    pub fn new() -> (s: Self)
        ensures
            s == Self::initial(),
    {
        ShopAuctionAuctionState {
            panel_state: ShopAuctionAuctionPanelState::Hidden,
            card_id: None,
            starting_price: 0,
            current_price: 0,
            current_leader: None,
            timer_duration_ms: 0,
            timer_remaining_ms: 0,
            preparing_elapsed_ms: 0,
            locally_expired_elapsed_ms: 0,
            in_flight_bid_amount: None,
            pending_bid_accepted: false,
            pending_gold_broadcast_seen: false,
            opponent_bid_gate_satisfied: false,
            local_gold_broadcast_generation: 0,
            last_completed_gate_generation: 0,
        }
    }

    /// Take a newly offered card: every per-auction field of the previous
    /// auction is reset, the leader included.
    pub fn buffer_card(&mut self, message: &S2CAuctionCard)
        ensures
            *final(self) == old(self).card_buffered(*message),
    {
        self.card_id = Some(message.card_id);
        self.starting_price = message.starting_price;
        self.current_price = message.starting_price;
        self.current_leader = None;
        self.timer_duration_ms = message.timer_duration_ms;
        self.timer_remaining_ms = 0;
        self.locally_expired_elapsed_ms = 0;
        self.clear_bid_resolution_state();
    }

    /// Show the panel as waiting for the auction to open.
    pub fn enter_preparing(&mut self)
        ensures
            *final(self) == old(self).preparing(),
    {
        self.panel_state = ShopAuctionAuctionPanelState::Preparing;
        self.preparing_elapsed_ms = 0;
        self.timer_remaining_ms = 0;
        self.locally_expired_elapsed_ms = 0;
        self.clear_bid_resolution_state();
    }

    /// Open live bidding with a countdown of `timer_duration_ms`.
    pub fn enter_active(&mut self, timer_duration_ms: u32)
        ensures
            *final(self) == old(self).activated(timer_duration_ms),
    {
        self.panel_state = ShopAuctionAuctionPanelState::Active;
        self.preparing_elapsed_ms = 0;
        self.timer_duration_ms = timer_duration_ms;
        self.timer_remaining_ms = timer_duration_ms;
        self.locally_expired_elapsed_ms = 0;
    }

    /// Rebuild live bidding from a reconnection snapshot.
    pub fn restore_from_snapshot(&mut self, snapshot: &AuctionSnapshot, phase_timer_duration_ms: u32)
        ensures
            *final(self) == Self::restored(*snapshot, phase_timer_duration_ms),
    {
        self.clear();
        self.panel_state = ShopAuctionAuctionPanelState::Active;
        self.card_id = Some(snapshot.card_id);
        self.starting_price = snapshot.starting_price;
        self.current_price = if snapshot.last_accepted_bid == 0 {
            snapshot.starting_price
        } else {
            snapshot.last_accepted_bid
        };
        self.current_leader = snapshot.current_leader;
        self.timer_duration_ms = if phase_timer_duration_ms >= snapshot.timer_remaining_ms {
            phase_timer_duration_ms
        } else {
            snapshot.timer_remaining_ms
        };
        self.timer_remaining_ms = if snapshot.timer_remaining_ms <= self.timer_duration_ms {
            snapshot.timer_remaining_ms
        } else {
            self.timer_duration_ms
        };
        self.preparing_elapsed_ms = 0;
        self.locally_expired_elapsed_ms = 0;
        self.clear_bid_resolution_state();
    }

    /// Show the auction's result; a positive `amount` becomes the shown price.
    pub fn enter_settling(&mut self, amount: u32)
        ensures
            *final(self) == old(self).settling(amount),
    {
        self.panel_state = ShopAuctionAuctionPanelState::Settling;
        self.preparing_elapsed_ms = 0;
        self.timer_duration_ms = 0;
        self.timer_remaining_ms = 0;
        self.locally_expired_elapsed_ms = 0;
        if amount > 0 {
            self.current_price = amount;
        }
        self.clear_bid_resolution_state();
    }

    /// Forget the auction entirely.
    pub fn clear(&mut self)
        ensures
            *final(self) == Self::initial(),
    {
        *self = Self::new();
    }

    /// Count a gold update of the local player.
    pub fn record_local_gold_broadcast(&mut self)
        ensures
            *final(self) == old(self).gold_broadcast_recorded(),
    {
        self.local_gold_broadcast_generation = saturating_inc(self.local_gold_broadcast_generation);
        if self.panel_state != ShopAuctionAuctionPanelState::Active {
            return;
        }
        self.pending_gold_broadcast_seen = true;
        if self.pending_bid_accepted && !self.opponent_bid_gate_satisfied {
            self.opponent_bid_gate_satisfied = true;
            self.last_completed_gate_generation = self.local_gold_broadcast_generation;
        }
    }

    /// Drop any bid in flight and any pending hold.
    pub fn clear_bid_resolution_state(&mut self)
        ensures
            *final(self) == old(self).bid_resolution_cleared(),
    {
        self.in_flight_bid_amount = None;
        self.pending_bid_accepted = false;
        self.pending_gold_broadcast_seen = false;
        self.opponent_bid_gate_satisfied = false;
        self.last_completed_gate_generation = self.local_gold_broadcast_generation;
    }

    /// Apply a bid that the server accepted.
    pub fn apply_bid_accepted(&mut self, message: &S2CAuctionBidAccepted, local_player: Option<PlayerId>)
        ensures
            *final(self) == old(self).bid_accepted(*message, local_player),
    {
        self.current_price = message.amount;
        self.current_leader = Some(message.bidder);
        if message.new_timer_ms > self.timer_duration_ms {
            self.timer_duration_ms = message.new_timer_ms;
        }
        self.timer_remaining_ms = message.new_timer_ms;
        self.locally_expired_elapsed_ms = 0;
        self.in_flight_bid_amount = None;
        self.pending_bid_accepted = false;
        self.pending_gold_broadcast_seen =
            self.local_gold_broadcast_generation > self.last_completed_gate_generation;
        self.opponent_bid_gate_satisfied = false;

        let local = match local_player {
            Some(p) => p.0 == message.bidder.0,
            None => false,
        };
        if local {
            self.pending_gold_broadcast_seen = false;
            self.last_completed_gate_generation = self.local_gold_broadcast_generation;
            return;
        }

        self.pending_bid_accepted = true;
        if self.pending_gold_broadcast_seen {
            self.opponent_bid_gate_satisfied = true;
            self.last_completed_gate_generation = self.local_gold_broadcast_generation;
        }
    }

    /// Whether bids are held until the local gold update after an
    /// opponent's bid.
    pub fn waiting_for_local_gold_after_opponent_bid(&self) -> (r: bool)
        ensures
            r == self.spec_waiting_for_local_gold(),
    {
        self.pending_bid_accepted && !self.opponent_bid_gate_satisfied
    }

    /// Whether the panel is shown at all.
    pub fn panel_visible(&self) -> (r: bool)
        ensures
            r == self.spec_panel_visible(),
    {
        match self.panel_state {
            ShopAuctionAuctionPanelState::Hidden => false,
            _ => true,
        }
    }

    /// Whether the live countdown is running.
    pub fn countdown_active(&self) -> (r: bool)
        ensures
            r == self.spec_countdown_active(),
    {
        self.panel_state == ShopAuctionAuctionPanelState::Active && self.timer_duration_ms > 0
            && self.timer_remaining_ms > 0
    }

    /// Whether the live countdown has reached zero without a settlement yet.
    pub fn locally_expired(&self) -> (r: bool)
        ensures
            r == self.spec_locally_expired(),
    {
        self.panel_state == ShopAuctionAuctionPanelState::Active && self.timer_duration_ms > 0
            && self.timer_remaining_ms == 0
    }

    /// Advance the wait for the auction to open; past the timeout the panel
    /// reports a connection problem.
    pub fn tick_preparing(&mut self, elapsed_ms: u32)
        ensures
            *final(self) == old(self).preparing_ticked(elapsed_ms),
    {
        if self.panel_state != ShopAuctionAuctionPanelState::Preparing {
            return;
        }
        self.preparing_elapsed_ms = saturating_add(self.preparing_elapsed_ms, elapsed_ms);
        if self.preparing_elapsed_ms >= AUCTION_PREPARING_TIMEOUT_MS {
            self.panel_state = ShopAuctionAuctionPanelState::ConnectionError;
        }
    }

    /// Advance the live countdown.
    pub fn tick_countdown(&mut self, elapsed_ms: u32)
        ensures
            *final(self) == old(self).countdown_ticked(elapsed_ms),
    {
        if self.panel_state != ShopAuctionAuctionPanelState::Active {
            return;
        }
        let was_expired = self.timer_remaining_ms == 0;
        self.timer_remaining_ms = saturating_sub(self.timer_remaining_ms, elapsed_ms);
        if self.timer_remaining_ms == 0 {
            if was_expired {
                self.locally_expired_elapsed_ms =
                    saturating_add(self.locally_expired_elapsed_ms, elapsed_ms);
            } else {
                self.locally_expired_elapsed_ms = 0;
            }
        } else {
            self.locally_expired_elapsed_ms = 0;
        }
    }
}


/// The countdown never shows more time left than its duration.
pub open spec fn timer_consistent(s: ShopAuctionAuctionState) -> bool {
    s.timer_remaining_ms <= s.timer_duration_ms
}

/// Every step of the auction panel keeps the countdown within its duration;
/// a fresh state, a buffered card, a snapshot and a settlement start within
/// it whatever came before.
pub proof fn law_countdown_within_duration(
    s: ShopAuctionAuctionState,
    card: S2CAuctionCard,
    snapshot: AuctionSnapshot,
    phase_duration: u32,
    duration: u32,
    accepted: S2CAuctionBidAccepted,
    local_player: Option<PlayerId>,
    amount: u32,
    elapsed: u32,
)
    requires
        timer_consistent(s),
    ensures
        timer_consistent(ShopAuctionAuctionState::initial()),
        timer_consistent(s.card_buffered(card)),
        timer_consistent(s.preparing()),
        timer_consistent(s.activated(duration)),
        timer_consistent(ShopAuctionAuctionState::restored(snapshot, phase_duration)),
        timer_consistent(s.settling(amount)),
        timer_consistent(s.gold_broadcast_recorded()),
        timer_consistent(s.bid_accepted(accepted, local_player)),
        timer_consistent(s.bid_resolution_cleared()),
        timer_consistent(s.preparing_ticked(elapsed)),
        timer_consistent(s.countdown_ticked(elapsed)),
{
}

/// A new auction card starts with no leader, no bid in flight and no bid
/// held back, whatever the previous auction left.
pub proof fn law_new_card_starts_clean(s: ShopAuctionAuctionState, card: S2CAuctionCard)
    ensures
        s.card_buffered(card).current_leader is None,
        s.card_buffered(card).in_flight_bid_amount is None,
        !s.card_buffered(card).spec_waiting_for_local_gold(),
        s.card_buffered(card).current_price == card.starting_price,
        s.card_buffered(card).card_id == Some(card.card_id),
{
}

/// After an opponent's bid the bid buttons are held until the local gold
/// update arrives, and that update releases them; a gold update already
/// received since the last hold releases them at once.
pub proof fn law_opponent_bid_holds_until_gold_update(
    s: ShopAuctionAuctionState,
    accepted: S2CAuctionBidAccepted,
    local_player: Option<PlayerId>,
)
    requires
        s.panel_state == ShopAuctionAuctionPanelState::Active,
        Some(accepted.bidder) != local_player,
    ensures
        s.local_gold_broadcast_generation <= s.last_completed_gate_generation ==> s.bid_accepted(
            accepted,
            local_player,
        ).spec_waiting_for_local_gold(),
        !s.bid_accepted(accepted, local_player).gold_broadcast_recorded().spec_waiting_for_local_gold(),
        s.local_gold_broadcast_generation > s.last_completed_gate_generation ==> !s.bid_accepted(
            accepted,
            local_player,
        ).spec_waiting_for_local_gold(),
{
}

/// The local player's own accepted bid never holds the bid buttons, and
/// the bid it answers is no longer in flight.
pub proof fn law_own_bid_never_holds(s: ShopAuctionAuctionState, accepted: S2CAuctionBidAccepted)
    ensures
        !s.bid_accepted(accepted, Some(accepted.bidder)).spec_waiting_for_local_gold(),
        s.bid_accepted(accepted, Some(accepted.bidder)).in_flight_bid_amount is None,
        s.bid_accepted(accepted, Some(accepted.bidder)).current_leader == Some(accepted.bidder),
{
}

/// A running countdown and a locally expired one exclude each other, and
/// an active panel with a duration is always in one of the two.
pub proof fn law_countdown_running_or_expired(s: ShopAuctionAuctionState)
    ensures
        !(s.spec_countdown_active() && s.spec_locally_expired()),
        (s.panel_state == ShopAuctionAuctionPanelState::Active && s.timer_duration_ms > 0) ==> (
        s.spec_countdown_active() || s.spec_locally_expired()),
{
}

} // verus!
