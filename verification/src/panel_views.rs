//! What each shop/auction panel shows for a given UI state: visibility,
//! copy and button states, computed once per frame and painted by the UI.

use vstd::prelude::*;
use vstd::string::*;

use crate::auction::{sat_add, sat_sub, ShopAuctionAuctionPanelState, ShopAuctionAuctionState};
use crate::card::{CardCatalog, CardData, CardId, Rarity};
use crate::labels::{
    auction_bid_amount, auction_bid_button_state, auction_expired_status_text,
    auction_featured_card_lead_loss_state, auction_featured_timer_label, displayed_refresh_cost,
    format_card_combat_stats, shop_slot_affordance_copy, spec_bid_button_state, spec_combat_stats,
    spec_displayed_refresh_cost, spec_featured_timer_label, spec_lead_loss_state,
    spec_shop_slot_affordance, AuctionBidButtonState, AuctionFeaturedCardLeadLossState, BidButtonLabel,
    ShopSlotState,
};
use crate::panels::{
    PlayerEconomyView, ShopAuctionSettlementOutcome, ShopAuctionUiMode, HAND_FULL_SIZE,
};
use crate::shop_auction::{is_auction_mode, ShopAuctionUi};
use crate::shop_auction_input::DraftInitialSlotState;
use crate::text::{decimal, push_decimal};

verus! {

/// Copy shown on a bid button before the auction card arrives.
pub const AUCTION_BID_BUTTON_LOADING_LABEL: &'static str = "Loading…";

/// A card's English name, or `"Card {id}"` for a card the catalog lacks.
pub open spec fn spec_card_name(catalog: CardCatalog, id: CardId) -> Seq<char> {
    if catalog.has(id.0) {
        catalog.card(id.0).name_en@
    } else {
        "Card "@ + decimal(id.0 as nat)
    }
}

/// A card's English name, or `"Card {id}"` for a card the catalog lacks.
pub fn card_name(catalog: &CardCatalog, id: CardId) -> (s: String)
    ensures
        s@ == spec_card_name(*catalog, id),
{
    match catalog.get(id) {
        Some(card) => card.name_en.clone(),
        None => {
            let mut s = String::from_str("Card ");
            push_decimal(&mut s, id.0);
            s
        },
    }
}

/// One bid button as painted.
pub struct BidButtonView {
    pub state: AuctionBidButtonState,
    pub visible: bool,
    pub focusable: bool,
    pub focused: bool,
    pub text: String,
}

/// The auction panel as painted.
pub struct AuctionPanelView {
    pub auction_visible: bool,
    pub footer_visible: bool,
    pub bid_status_visible: bool,
    pub lead_loss: AuctionFeaturedCardLeadLossState,
    pub featured_card_text: String,
    pub price_label: String,
    pub timer_label: String,
    pub stats_label: String,
    pub status_text: String,
    pub bid_status_text: String,
    pub free_gold: u32,
    pub free_gold_text: String,
    pub timer_bar_counting: bool,
    pub connection_error: bool,
    pub bid_buttons: Vec<BidButtonView>,
    pub pass_text: String,
}

/// The auction panel is shown.
pub open spec fn spec_auction_visible(ui: ShopAuctionUi) -> bool {
    is_auction_mode(ui.mode) && ui.auction.spec_panel_visible()
}

/// The featured card's caption: its name, `"Unknown card"` when the
/// catalog lacks it, empty with no card.
pub open spec fn spec_featured_card_text(catalog: CardCatalog, a: ShopAuctionAuctionState) -> Seq<char> {
    match a.card_id {
        Some(id) => if catalog.has(id.0) {
            catalog.card(id.0).name_en@
        } else {
            "Unknown card"@
        },
        None => Seq::empty(),
    }
}

/// The featured card's stats line.
pub open spec fn spec_stats_label(catalog: CardCatalog, a: ShopAuctionAuctionState) -> Seq<char> {
    match a.card_id {
        Some(id) => if catalog.has(id.0) {
            let c = catalog.card(id.0);
            if spec_combat_stats(c).len() == 0 {
                "Cost "@ + decimal(c.cost as nat) + "g"@
            } else {
                "ATK/HP "@ + spec_combat_stats(c) + " · Cost "@ + decimal(c.cost as nat) + "g"@
            }
        } else {
            Seq::empty()
        },
        None => Seq::empty(),
    }
}

/// The auction status line.
pub open spec fn spec_status_text(ui: ShopAuctionUi) -> Seq<char> {
    let a = ui.auction;
    match a.panel_state {
        ShopAuctionAuctionPanelState::Preparing => "Auction starting..."@,
        ShopAuctionAuctionPanelState::ConnectionError => "Connection error - awaiting server..."@,
        ShopAuctionAuctionPanelState::Active => if a.spec_locally_expired() {
            if a.locally_expired_elapsed_ms >= 1500 {
                "Awaiting server..."@
            } else {
                "Auction ending..."@
            }
        } else {
            "Auction live"@
        },
        ShopAuctionAuctionPanelState::Settling => match ui.settlement.outcome {
            Some(ShopAuctionSettlementOutcome::LocalWinner) => "Auction won - card moving to hand"@,
            Some(ShopAuctionSettlementOutcome::OpponentWinner) => "Opponent won the auction"@,
            Some(ShopAuctionSettlementOutcome::NoBid) => "No bids - card returned"@,
            None => ""@,
        },
        ShopAuctionAuctionPanelState::Hidden => Seq::empty(),
    }
}

/// The state of bid button `i` after a local pass: a pass disables every
/// button but the one whose bid is in flight.
pub open spec fn spec_button_state(ui: ShopAuctionUi, economy: PlayerEconomyView, increment: u32) -> AuctionBidButtonState {
    let lead = spec_lead_loss_state(ui.auction, ui.local_gold);
    let base = spec_bid_button_state(
        sat_add(ui.auction.current_price, increment),
        ui.local_gold.spec_free_gold(economy),
        economy.initialized || ui.local_gold.initialized,
        ui.hand_size >= HAND_FULL_SIZE,
        lead == AuctionFeaturedCardLeadLossState::Leading,
        ui.auction.spec_waiting_for_local_gold(),
        ui.auction,
    );
    if ui.locally_passed && base != AuctionBidButtonState::InFlight {
        AuctionBidButtonState::GenericDisabled
    } else {
        base
    }
}

/// The text of a bid button in state `st`.
pub open spec fn spec_button_text(ui: ShopAuctionUi, st: AuctionBidButtonState, increment: u32) -> Seq<char> {
    if st == AuctionBidButtonState::InFlight {
        "BIDDING..."@
    } else if ui.auction.card_id is None {
        AUCTION_BID_BUTTON_LOADING_LABEL@
    } else {
        decimal(sat_add(ui.auction.current_price, increment) as nat) + "g\n(+"@ + decimal(increment as nat) + ")"@
    }
}

fn settlement_status(ui: &ShopAuctionUi) -> (s: String)
    requires
        ui.auction.panel_state == ShopAuctionAuctionPanelState::Settling,
    ensures
        s@ == spec_status_text(*ui),
{
    String::from_str(ui.settlement.overlay_text())
}

impl ShopAuctionUi {
    /// The auction panel for this frame. Keyboard focus is dropped from a bid
    /// button that cannot hold it.
    pub fn auction_panel_view(&mut self, economy: &PlayerEconomyView, catalog: &CardCatalog, bid_increments: [u32; 3]) -> (v: AuctionPanelView)
        ensures
            *final(self) == (ShopAuctionUi {
                auction: final(self).auction,
                focused_bid_button: final(self).focused_bid_button,
                locally_passed: final(self).locally_passed,
                local_gold: final(self).local_gold,
                ..*old(self)
            }),
            ({
                let ui = *old(self);
                let visible = spec_auction_visible(ui);
                let footer = ui.mode == ShopAuctionUiMode::Auction && visible;
                let lead = spec_lead_loss_state(ui.auction, ui.local_gold);
                let leading = lead == AuctionFeaturedCardLeadLossState::Leading;
                let hand_full = ui.hand_size >= HAND_FULL_SIZE;
                let losing = lead == AuctionFeaturedCardLeadLossState::Losing;
                let free = ui.local_gold.spec_free_gold(*economy);
                &&& v.auction_visible == visible
                &&& v.footer_visible == footer
                &&& v.lead_loss == lead
                &&& v.bid_status_visible == (footer && (leading || hand_full || losing))
                &&& v.featured_card_text@ == spec_featured_card_text(*catalog, ui.auction)
                &&& v.price_label@ == (if visible && ui.auction.card_id is Some {
                    "Bid: "@ + decimal(ui.auction.current_price as nat) + "g"@
                } else {
                    Seq::empty()
                })
                &&& v.timer_label@ == (if visible && ui.auction.card_id is Some {
                    spec_featured_timer_label(ui.auction)
                } else {
                    Seq::empty()
                })
                &&& v.stats_label@ == spec_stats_label(*catalog, ui.auction)
                &&& v.status_text@ == spec_status_text(ui)
                &&& v.bid_status_text@ == (if leading {
                    "YOU ARE LEADING"@
                } else if hand_full {
                    "Hand full - no bids possible this auction"@
                } else if losing {
                    "OPPONENT LEADING"@
                } else {
                    Seq::empty()
                })
                &&& v.free_gold == free
                &&& v.free_gold_text@ == decimal(free as nat) + "g"@
                &&& v.timer_bar_counting == (ui.auction.panel_state == ShopAuctionAuctionPanelState::Active
                    && ui.auction.timer_duration_ms > 0)
                &&& v.connection_error == (ui.auction.panel_state == ShopAuctionAuctionPanelState::ConnectionError)
                &&& v.pass_text@ == (if ui.locally_passed {
                    "PASSED"@
                } else {
                    "PASS"@
                })
                &&& v.bid_buttons@.len() == 3
                &&& forall|i: int| #![trigger v.bid_buttons@[i]] 0 <= i < 3 ==> {
                    let st = spec_button_state(ui, *economy, bid_increments@[i]);
                    let b = v.bid_buttons@[i];
                    &&& b.state == st
                    &&& b.visible == (footer && st != AuctionBidButtonState::HiddenLeading)
                    &&& b.focusable == (st == AuctionBidButtonState::Enabled && b.visible)
                    &&& b.focused == (ui.focused_bid_button == Some(i as usize) && b.focusable)
                    &&& b.text@ == spec_button_text(ui, st, bid_increments@[i])
                }
                &&& final(self).focused_bid_button == (match ui.focused_bid_button {
                    Some(f) => if f < 3 && v.bid_buttons@[f as int].focusable {
                        Some(f)
                    } else {
                        None
                    },
                    None => None,
                })
            }),
            final(self).mode == old(self).mode,
            final(self).auction == old(self).auction,
            final(self).locally_passed == old(self).locally_passed,
    {
        let auction_visible = match self.mode {
            ShopAuctionUiMode::AuctionPreparing | ShopAuctionUiMode::Auction | ShopAuctionUiMode::AuctionSettling => true,
            _ => false,
        } && self.auction.panel_visible();
        let footer_visible = self.mode == ShopAuctionUiMode::Auction && auction_visible;
        let lead = auction_featured_card_lead_loss_state(&self.auction, &self.local_gold);
        let leading = lead == AuctionFeaturedCardLeadLossState::Leading;
        let hand_full = self.hand_size >= HAND_FULL_SIZE;
        let losing = lead == AuctionFeaturedCardLeadLossState::Losing;
        let free = self.local_gold.free_gold(economy);
        let has_gold_source = economy.initialized || self.local_gold.initialized;

        let featured_card_text = match self.auction.card_id {
            Some(id) => match catalog.get(id) {
                Some(card) => card.name_en.clone(),
                None => String::from_str("Unknown card"),
            },
            None => String::new(),
        };
        let price_label = if auction_visible && self.auction.card_id.is_some() {
            let mut s = String::from_str("Bid: ");
            push_decimal(&mut s, self.auction.current_price);
            s.append("g");
            proof {
                assert(s@ =~= "Bid: "@ + decimal(self.auction.current_price as nat) + "g"@);
            }
            s
        } else {
            String::new()
        };
        let timer_label = if auction_visible && self.auction.card_id.is_some() {
            auction_featured_timer_label(&self.auction)
        } else {
            String::new()
        };
        let stats_label = match self.auction.card_id {
            Some(id) => match catalog.get(id) {
                Some(card) => {
                    let stats = format_card_combat_stats(card);
                    if stats.as_str().unicode_len() == 0 {
                        let mut s = String::from_str("Cost ");
                        push_decimal(&mut s, card.cost);
                        s.append("g");
                        proof {
                            assert(s@ =~= "Cost "@ + decimal(card.cost as nat) + "g"@);
                        }
                        s
                    } else {
                        let mut s = String::from_str("ATK/HP ");
                        s.append(stats.as_str());
                        s.append(" · Cost ");
                        push_decimal(&mut s, card.cost);
                        s.append("g");
                        proof {
                            assert(s@ =~= "ATK/HP "@ + spec_combat_stats(*card) + " · Cost "@ + decimal(card.cost as nat) + "g"@);
                        }
                        s
                    }
                },
                None => String::new(),
            },
            None => String::new(),
        };
        let status_text = match self.auction.panel_state {
            ShopAuctionAuctionPanelState::Preparing => String::from_str("Auction starting..."),
            ShopAuctionAuctionPanelState::ConnectionError => String::from_str("Connection error - awaiting server..."),
            ShopAuctionAuctionPanelState::Active => {
                if self.auction.locally_expired() {
                    String::from_str(auction_expired_status_text(self.auction.locally_expired_elapsed_ms))
                } else {
                    String::from_str("Auction live")
                }
            },
            ShopAuctionAuctionPanelState::Settling => settlement_status(self),
            ShopAuctionAuctionPanelState::Hidden => String::new(),
        };
        let bid_status_text = if leading {
            String::from_str("YOU ARE LEADING")
        } else if hand_full {
            String::from_str("Hand full - no bids possible this auction")
        } else if losing {
            String::from_str("OPPONENT LEADING")
        } else {
            String::new()
        };
        let mut free_gold_text = String::new();
        push_decimal(&mut free_gold_text, free);
        free_gold_text.append("g");
        proof {
            assert(free_gold_text@ =~= decimal(free as nat) + "g"@);
        }

        let waiting = self.auction.waiting_for_local_gold_after_opponent_bid();
        let mut bid_buttons: Vec<BidButtonView> = Vec::new();
        let mut focus_kept = false;
        let mut index: usize = 0;
        while index < 3
            invariant
                0 <= index <= 3,
                bid_buttons@.len() == index,
                *self == *old(self),
                footer_visible == (old(self).mode == ShopAuctionUiMode::Auction && spec_auction_visible(*old(self))),
                free == old(self).local_gold.spec_free_gold(*economy),
                has_gold_source == (economy.initialized || old(self).local_gold.initialized),
                hand_full == (old(self).hand_size >= HAND_FULL_SIZE),
                leading == (spec_lead_loss_state(old(self).auction, old(self).local_gold)
                    == AuctionFeaturedCardLeadLossState::Leading),
                waiting == old(self).auction.spec_waiting_for_local_gold(),
                forall|i: int| #![trigger bid_buttons@[i]] 0 <= i < index ==> {
                    let st = spec_button_state(*old(self), *economy, bid_increments@[i]);
                    let b = bid_buttons@[i];
                    &&& b.state == st
                    &&& b.visible == (footer_visible && st != AuctionBidButtonState::HiddenLeading)
                    &&& b.focusable == (st == AuctionBidButtonState::Enabled && b.visible)
                    &&& b.focused == (old(self).focused_bid_button == Some(i as usize) && b.focusable)
                    &&& b.text@ == spec_button_text(*old(self), st, bid_increments@[i])
                },
                focus_kept == (match old(self).focused_bid_button {
                    Some(f) => f < index && bid_buttons@[f as int].focusable,
                    None => false,
                }),
            decreases 3 - index,
        {
            let increment = bid_increments[index];
            let amount = auction_bid_amount(self.auction.current_price, increment);
            let base = auction_bid_button_state(amount, free, has_gold_source, hand_full, leading, waiting, &self.auction);
            let state = if self.locally_passed && base != AuctionBidButtonState::InFlight {
                AuctionBidButtonState::GenericDisabled
            } else {
                base
            };
            let visible = footer_visible && state != AuctionBidButtonState::HiddenLeading;
            let focusable = state == AuctionBidButtonState::Enabled && visible;
            let focused = match self.focused_bid_button {
                Some(f) => f == index,
                None => false,
            } && focusable;
            if focused {
                focus_kept = true;
            }
            let text = if state == AuctionBidButtonState::InFlight {
                String::from_str("BIDDING...")
            } else if self.auction.card_id.is_none() {
                String::from_str(AUCTION_BID_BUTTON_LOADING_LABEL)
            } else {
                BidButtonLabel { total_commitment: amount, increment }.text()
            };
            bid_buttons.push(BidButtonView { state, visible, focusable, focused, text });
            index = index + 1;
        }

        let pass_text = if self.locally_passed {
            String::from_str("PASSED")
        } else {
            String::from_str("PASS")
        };

        if self.focused_bid_button.is_some() && !focus_kept {
            self.focused_bid_button = None;
        }

        AuctionPanelView {
            auction_visible,
            footer_visible,
            bid_status_visible: footer_visible && (leading || hand_full || losing),
            lead_loss: lead,
            featured_card_text,
            price_label,
            timer_label,
            stats_label,
            status_text,
            bid_status_text,
            free_gold: free,
            free_gold_text,
            timer_bar_counting: self.auction.panel_state == ShopAuctionAuctionPanelState::Active
                && self.auction.timer_duration_ms > 0,
            connection_error: self.auction.panel_state == ShopAuctionAuctionPanelState::ConnectionError,
            bid_buttons,
            pass_text,
        }
    }
}


/// The refresh button is enabled: the shop shows its offers, no refresh is
/// in flight and the gold covers the displayed price.
pub open spec fn spec_refresh_enabled(ui: ShopAuctionUi, economy: PlayerEconomyView, base: u32, cap: u32) -> bool {
    &&& ui.mode == ShopAuctionUiMode::Shop
    &&& ui.shop.slots_loaded
    &&& !ui.shop.refresh_in_flight
    &&& economy.initialized
    &&& economy.gold >= spec_displayed_refresh_cost(base, cap, ui.shop.refresh_count_this_draft)
}

/// One shop slot as the UI holds it.
#[derive(Clone, Copy, Debug, PartialEq, Eq, Structural)]
pub struct ShopSlotModel {
    pub card: Option<CardId>,
    pub cost: Option<u32>,
    pub state: ShopSlotState,
}

/// One shop slot after this frame's update.
pub struct ShopSlotView {
    pub visible: bool,
    pub state: ShopSlotState,
    /// The slot's caption is replaced by `"Refreshing..."`.
    pub show_refreshing: bool,
    pub affordance: String,
}

/// The shop panel as painted.
pub struct ShopPanelView {
    pub active: bool,
    pub interactive: bool,
    pub empty_state_visible: bool,
    pub ready_status_visible: bool,
    pub hand_full_banner_visible: bool,
    pub refresh_cost: u32,
    pub refresh_enabled: bool,
    pub refresh_text: String,
    pub ready_text: String,
    pub ready_status_text: String,
    pub slots: Vec<ShopSlotView>,
}

/// A shop slot's state after this frame: a pending purchase is given up
/// while the shop takes no input; a full hand locks every slot with a card.
pub open spec fn spec_shop_slot_state(interactive: bool, hand_size: usize, slot: ShopSlotModel) -> ShopSlotState {
    if !interactive {
        if slot.state == ShopSlotState::PendingPurchase {
            ShopSlotState::Available
        } else {
            slot.state
        }
    } else if hand_size >= HAND_FULL_SIZE && slot.card is Some && slot.state != ShopSlotState::Empty {
        ShopSlotState::HandFullLocked
    } else {
        slot.state
    }
}

/// The draft slot's state after this frame: a full hand locks every slot
/// not yet bought.
pub open spec fn spec_draft_slot_state(active: bool, hand_size: usize, has_card: bool, state: DraftInitialSlotState) -> DraftInitialSlotState {
    if active && has_card && hand_size >= HAND_FULL_SIZE && state != DraftInitialSlotState::Purchased {
        DraftInitialSlotState::HandFullLocked
    } else {
        state
    }
}

/// One draft slot after this frame's update: shown while the draft takes
/// input and the slot holds a card; highlighted while its purchase waits.
pub fn draft_slot_view(active: bool, hand_size: usize, has_card: bool, state: DraftInitialSlotState) -> (r: (bool, DraftInitialSlotState, bool))
    ensures
        r.0 == (active && has_card),
        r.1 == spec_draft_slot_state(active, hand_size, has_card, state),
        r.2 == (active && has_card && r.1 == DraftInitialSlotState::Pending),
{
    if !active || !has_card {
        return (false, state, false);
    }
    let next = if hand_size >= HAND_FULL_SIZE && state != DraftInitialSlotState::Purchased {
        DraftInitialSlotState::HandFullLocked
    } else {
        state
    };
    (true, next, next == DraftInitialSlotState::Pending)
}

/// The draft panel as painted.
pub struct DraftPanelView {
    pub active: bool,
    pub ready_status_visible: bool,
    pub hand_full_banner_visible: bool,
    pub objective_overlay_visible: bool,
    pub retrieval_visible: bool,
    pub ready_text: String,
    pub ready_status_text: String,
}

/// The draft's countdown label: whole seconds left, rounded up, while the
/// draft takes input and its timer runs; `None` hides the label.
pub fn draft_countdown_label(active: bool, timer_active: bool, duration_ms: u32, elapsed_ms: u32) -> (r: Option<String>)
    ensures
        (active && timer_active && duration_ms > 0) ==> (r matches Some(s) && s@ == decimal(
            ((sat_sub(duration_ms, elapsed_ms) as nat + 999) / 1000) as nat,
        ) + "s"@),
        !(active && timer_active && duration_ms > 0) ==> r is None,
{
    if !(active && timer_active && duration_ms > 0) {
        return None;
    }
    let remaining = if duration_ms >= elapsed_ms {
        duration_ms - elapsed_ms
    } else {
        0
    };
    let secs = if remaining % 1000 == 0 {
        remaining / 1000
    } else {
        remaining / 1000 + 1
    };
    let mut s = String::new();
    push_decimal(&mut s, secs);
    s.append("s");
    proof {
        assert(s@ =~= decimal(((sat_sub(duration_ms, elapsed_ms) as nat + 999) / 1000) as nat) + "s"@);
    }
    Some(s)
}

fn ready_texts(ready_signalled: bool) -> (r: (String, String))
    ensures
        r.0@ == (if ready_signalled {
            "Retract Ready"@
        } else {
            "Ready"@
        }),
        r.1@ == (if ready_signalled {
            "Waiting for opponent..."@
        } else {
            Seq::empty()
        }),
{
    if ready_signalled {
        (String::from_str("Retract Ready"), String::from_str("Waiting for opponent..."))
    } else {
        (String::from_str("Ready"), String::new())
    }
}

impl ShopAuctionUi {
    /// The draft panel for this frame.
    pub fn draft_panel_view(&self) -> (v: DraftPanelView)
        ensures
            ({
                let active = self.mode == ShopAuctionUiMode::DraftOffering && self.draft.offering_loaded;
                &&& v.active == active
                &&& v.ready_status_visible == (active && self.draft.ready_signalled)
                &&& v.hand_full_banner_visible == (active && self.hand_size >= HAND_FULL_SIZE)
                &&& v.objective_overlay_visible == (active && self.draft.objective_overlay_visible)
                &&& v.retrieval_visible == (active && self.draft.objective_overlay_dismissed)
                &&& v.ready_text@ == (if self.draft.ready_signalled {
                    "Retract Ready"@
                } else {
                    "Ready"@
                })
                &&& v.ready_status_text@ == (if self.draft.ready_signalled {
                    "Waiting for opponent..."@
                } else {
                    Seq::empty()
                })
            }),
    {
        let active = self.mode == ShopAuctionUiMode::DraftOffering && self.draft.offering_loaded;
        let (ready_text, ready_status_text) = ready_texts(self.draft.ready_signalled);
        DraftPanelView {
            active,
            ready_status_visible: active && self.draft.ready_signalled,
            hand_full_banner_visible: active && self.hand_size >= HAND_FULL_SIZE,
            objective_overlay_visible: active && self.draft.objective_overlay_visible,
            retrieval_visible: active && self.draft.objective_overlay_dismissed,
            ready_text,
            ready_status_text,
        }
    }

    /// The shop panel for this frame, with the shop's slots as held by the
    /// UI (their index is their position).
    pub fn shop_panel_view(&self, economy: &PlayerEconomyView, refresh_base_cost: u32, refresh_cap: u32, slots: &Vec<ShopSlotModel>) -> (v: ShopPanelView)
        ensures
            ({
                let active = self.mode == ShopAuctionUiMode::Shop;
                let interactive = active && self.shop.slots_loaded;
                let cost = spec_displayed_refresh_cost(refresh_base_cost, refresh_cap, self.shop.refresh_count_this_draft);
                &&& v.active == active
                &&& v.interactive == interactive
                &&& v.empty_state_visible == (active && !self.shop.slots_loaded)
                &&& v.ready_status_visible == (interactive && self.shop.ready_signalled)
                &&& v.hand_full_banner_visible == (interactive && self.hand_size >= HAND_FULL_SIZE)
                &&& v.refresh_cost == cost
                &&& v.refresh_enabled == spec_refresh_enabled(*self, *economy, refresh_base_cost, refresh_cap)
                &&& v.refresh_text@ == (if self.shop.refresh_in_flight {
                    "Refreshing..."@
                } else {
                    "Refresh ("@ + decimal(cost as nat) + "g)"@
                })
                &&& v.ready_text@ == (if self.shop.ready_signalled {
                    "Retract Ready"@
                } else {
                    "Ready"@
                })
                &&& v.ready_status_text@ == (if self.shop.ready_signalled {
                    "Waiting for opponent..."@
                } else {
                    Seq::empty()
                })
                &&& v.slots@.len() == slots@.len()
                &&& forall|i: int| #![trigger v.slots@[i]] 0 <= i < slots@.len() ==> {
                    let st = spec_shop_slot_state(interactive, self.hand_size, slots@[i]);
                    &&& v.slots@[i].visible == interactive
                    &&& v.slots@[i].state == st
                    &&& v.slots@[i].show_refreshing == (interactive && st == ShopSlotState::Refreshing)
                    &&& v.slots@[i].affordance@ == (if interactive && i < 3 {
                        spec_shop_slot_affordance(st, slots@[i].card, slots@[i].cost, self.hand_size, *economy)
                    } else {
                        Seq::empty()
                    })
                }
            }),
    {
        let active = self.mode == ShopAuctionUiMode::Shop;
        let interactive = active && self.shop.slots_loaded;
        let cost = displayed_refresh_cost(refresh_base_cost, refresh_cap, self.shop.refresh_count_this_draft);
        let refresh_text = if self.shop.refresh_in_flight {
            String::from_str("Refreshing...")
        } else {
            let mut s = String::from_str("Refresh (");
            push_decimal(&mut s, cost);
            s.append("g)");
            proof {
                assert(s@ =~= "Refresh ("@ + decimal(cost as nat) + "g)"@);
            }
            s
        };
        let (ready_text, ready_status_text) = ready_texts(self.shop.ready_signalled);

        let mut views: Vec<ShopSlotView> = Vec::new();
        let n = slots.len();
        let mut i: usize = 0;
        while i < n
            invariant
                n == slots@.len(),
                0 <= i <= n,
                views@.len() == i,
                interactive == (self.mode == ShopAuctionUiMode::Shop && self.shop.slots_loaded),
                forall|k: int| #![trigger views@[k]] 0 <= k < i ==> {
                    let st = spec_shop_slot_state(interactive, self.hand_size, slots@[k]);
                    &&& views@[k].visible == interactive
                    &&& views@[k].state == st
                    &&& views@[k].show_refreshing == (interactive && st == ShopSlotState::Refreshing)
                    &&& views@[k].affordance@ == (if interactive && k < 3 {
                        spec_shop_slot_affordance(st, slots@[k].card, slots@[k].cost, self.hand_size, *economy)
                    } else {
                        Seq::empty()
                    })
                },
            decreases n - i,
        {
            let slot = slots[i];
            let state = if !interactive {
                if slot.state == ShopSlotState::PendingPurchase {
                    ShopSlotState::Available
                } else {
                    slot.state
                }
            } else if self.hand_size >= HAND_FULL_SIZE && slot.card.is_some() && slot.state != ShopSlotState::Empty {
                ShopSlotState::HandFullLocked
            } else {
                slot.state
            };
            let affordance = if interactive && i < 3 {
                shop_slot_affordance_copy(state, slot.card, slot.cost, self.hand_size, economy)
            } else {
                String::new()
            };
            views.push(ShopSlotView {
                visible: interactive,
                state,
                show_refreshing: interactive && state == ShopSlotState::Refreshing,
                affordance,
            });
            i = i + 1;
        }

        ShopPanelView {
            active,
            interactive,
            empty_state_visible: active && !self.shop.slots_loaded,
            ready_status_visible: interactive && self.shop.ready_signalled,
            hand_full_banner_visible: interactive && self.hand_size >= HAND_FULL_SIZE,
            refresh_cost: cost,
            refresh_enabled: interactive && !self.shop.refresh_in_flight && economy.initialized && economy.gold >= cost,
            refresh_text,
            ready_text,
            ready_status_text,
            slots: views,
        }
    }
}


/// A rarity's name.
pub open spec fn spec_rarity_name(r: Rarity) -> Seq<char> {
    match r {
        Rarity::Common => "Common"@,
        Rarity::Uncommon => "Uncommon"@,
        Rarity::Rare => "Rare"@,
        Rarity::Epic => "Epic"@,
        Rarity::Legendary => "Legendary"@,
    }
}

pub fn rarity_name(r: Rarity) -> (s: &'static str)
    ensures
        s@ == spec_rarity_name(r),
{
    match r {
        Rarity::Common => "Common",
        Rarity::Uncommon => "Uncommon",
        Rarity::Rare => "Rare",
        Rarity::Epic => "Epic",
        Rarity::Legendary => "Legendary",
    }
}

/// A card's cost, zero for a card the catalog lacks.
pub open spec fn spec_card_cost(catalog: CardCatalog, id: CardId) -> u32 {
    if catalog.has(id.0) {
        catalog.card(id.0).cost
    } else {
        0
    }
}

/// A card's combat stats, empty for a card the catalog lacks.
pub open spec fn spec_card_stats(catalog: CardCatalog, id: CardId) -> Seq<char> {
    if catalog.has(id.0) {
        spec_combat_stats(catalog.card(id.0))
    } else {
        Seq::empty()
    }
}

/// The caption of an initial draft slot.
pub open spec fn spec_draft_slot_text(catalog: CardCatalog, id: CardId) -> Seq<char> {
    let head = spec_card_name(catalog, id) + "\n"@ + decimal(spec_card_cost(catalog, id) as nat) + "g"@;
    if spec_card_stats(catalog, id).len() == 0 {
        head
    } else {
        head + " · "@ + spec_card_stats(catalog, id)
    }
}

/// The caption of a shop slot.
pub open spec fn spec_shop_slot_text(catalog: CardCatalog, id: CardId) -> Seq<char> {
    let rarity = if catalog.has(id.0) {
        catalog.card(id.0).rarity
    } else {
        Rarity::Common
    };
    let head = spec_card_name(catalog, id) + "\n"@ + spec_rarity_name(rarity) + " · "@ + decimal(
        spec_card_cost(catalog, id) as nat,
    ) + "g"@;
    if spec_card_stats(catalog, id).len() == 0 {
        head
    } else {
        head + " · "@ + spec_card_stats(catalog, id)
    }
}

/// The caption of a locked footer slot.
pub open spec fn spec_footer_slot_text(catalog: CardCatalog, card: Option<CardId>) -> Seq<char> {
    match card {
        Some(id) => spec_card_name(catalog, id) + "\n"@ + decimal(spec_card_cost(catalog, id) as nat) + "g - locked"@,
        None => "Locked empty"@,
    }
}

fn card_cost_and_stats(catalog: &CardCatalog, id: CardId) -> (r: (u32, String))
    ensures
        r.0 == spec_card_cost(*catalog, id),
        r.1@ == spec_card_stats(*catalog, id),
{
    match catalog.get(id) {
        Some(card) => (card.cost, format_card_combat_stats(card)),
        None => (0, String::new()),
    }
}

pub fn draft_slot_text(catalog: &CardCatalog, id: CardId) -> (s: String)
    ensures
        s@ == spec_draft_slot_text(*catalog, id),
{
    let mut s = card_name(catalog, id);
    let (cost, stats) = card_cost_and_stats(catalog, id);
    s.append("\n");
    push_decimal(&mut s, cost);
    s.append("g");
    let ghost head = s@;
    if stats.as_str().unicode_len() > 0 {
        s.append(" · ");
        s.append(stats.as_str());
    }
    proof {
        assert(head =~= spec_card_name(*catalog, id) + "\n"@ + decimal(spec_card_cost(*catalog, id) as nat) + "g"@);
    }
    s
}

pub fn shop_slot_text(catalog: &CardCatalog, id: CardId) -> (s: String)
    ensures
        s@ == spec_shop_slot_text(*catalog, id),
{
    let mut s = card_name(catalog, id);
    let rarity = match catalog.get(id) {
        Some(card) => card.rarity,
        None => Rarity::Common,
    };
    let (cost, stats) = card_cost_and_stats(catalog, id);
    s.append("\n");
    s.append(rarity_name(rarity));
    s.append(" · ");
    push_decimal(&mut s, cost);
    s.append("g");
    let ghost head = s@;
    if stats.as_str().unicode_len() > 0 {
        s.append(" · ");
        s.append(stats.as_str());
    }
    proof {
        assert(head =~= spec_card_name(*catalog, id) + "\n"@ + spec_rarity_name(rarity) + " · "@ + decimal(
            spec_card_cost(*catalog, id) as nat,
        ) + "g"@);
    }
    s
}

pub fn footer_slot_text(catalog: &CardCatalog, card: Option<CardId>) -> (s: String)
    ensures
        s@ == spec_footer_slot_text(*catalog, card),
{
    match card {
        Some(id) => {
            let mut s = card_name(catalog, id);
            let (cost, _stats) = card_cost_and_stats(catalog, id);
            s.append("\n");
            push_decimal(&mut s, cost);
            s.append("g - locked");
            proof {
                assert(s@ =~= spec_card_name(*catalog, id) + "\n"@ + decimal(spec_card_cost(*catalog, id) as nat)
                    + "g - locked"@);
            }
            s
        },
        None => String::from_str("Locked empty"),
    }
}

/// The locked footer shop under the auction panel: hidden unless the
/// footer shows; the shop's cards once loaded, else empty slots.
pub fn footer_slot_view(ui: &ShopAuctionUi, catalog: &CardCatalog, footer_visible: bool, index: usize) -> (r: Option<String>)
    requires
        index < 3,
    ensures
        !footer_visible ==> r is None,
        footer_visible ==> (r matches Some(s) && s@ == spec_footer_slot_text(
            *catalog,
            if ui.shop.footer_slots_loaded {
                ui.shop.footer_slots@[index as int]
            } else {
                None
            },
        )),
{
    if !footer_visible {
        return None;
    }
    let card = if ui.shop.footer_slots_loaded {
        ui.shop.footer_slots[index]
    } else {
        None
    };
    Some(footer_slot_text(catalog, card))
}

} // verus!
