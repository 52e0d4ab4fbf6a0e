use game_core::auction::{ShopAuctionAuctionPanelState, ShopAuctionAuctionState};
use game_core::card::{CardCatalog, CardData, CardId, CardType, ClassId, PlayerId, Rarity};
use game_core::inspect::ShopAuctionCardInspectTarget;
use game_core::labels::{
    auction_bid_button_state, auction_border_color_tier, auction_featured_timer_label,
    bid_button_label_texts, bid_button_labels, displayed_refresh_cost, dynamic_overlay_text,
    format_card_combat_stats, rejection_toast_text, shop_slot_affordance_copy,
    AuctionBidButtonState, AuctionBorderColorTier, BidButtonLabel, ShopSlotState,
};
use game_core::offering::sort_draft_offering_card_ids;
use game_core::panel_views::{draft_countdown_label, draft_slot_text, footer_slot_text, shop_slot_text, ShopSlotModel};
use game_core::panels::{
    local_free_gold, DraftInitialObjectiveFocusTarget, PlayerEconomyView, ShopAuctionSettlementOutcome,
    ShopAuctionUiMode,
};
use game_core::protocol::{
    AuctionSnapshot, BidRejectedReason, RoundPhase, S2CAuctionBidAccepted, S2CAuctionCard, S2CAuctionSettled,
};
use game_core::purchases::DraftSlotModel;
use game_core::shop_auction::{GameSnapshotView, PlayerSnapshotView, ShopAuctionUi};
use game_core::shop_auction_input::{next_focusable_bid_button, DraftInitialSlotState, SlotClickOutcome};
use game_core::text::decimal_string;

const LOCAL: PlayerId = PlayerId(7);
const OPPONENT: PlayerId = PlayerId(9);

fn card(id: u32, rarity: Rarity, card_type: CardType, cost: u32, atk: u32, hp: u32) -> CardData {
    CardData {
        id: CardId(id),
        name_fr: format!("Carte {id}"),
        name_en: format!("Card name {id}"),
        class: ClassId::Neutral,
        family: None,
        rarity,
        card_type,
        cost,
        atk,
        hp,
        mp: 0,
        ar: 0,
        pool_copies_override: None,
    }
}

fn catalog(cards: Vec<CardData>) -> CardCatalog {
    let mut c = CardCatalog::new();
    for card in cards {
        c.insert(card);
    }
    c
}

fn economy(gold: u32) -> PlayerEconomyView {
    PlayerEconomyView { gold, initialized: true }
}

fn auction_card(id: u32, price: u32, timer: u32) -> S2CAuctionCard {
    S2CAuctionCard { card_id: CardId(id), starting_price: price, timer_duration_ms: timer }
}

/// A UI in the auction phase with a live auction and known local gold.
fn live_auction_ui(gold: u32) -> ShopAuctionUi {
    let mut ui = ShopAuctionUi::new();
    ui.on_gold_broadcast(Some(LOCAL), LOCAL, gold, 0);
    ui.on_phase_changed(RoundPhase::DraftAuction, 20_000);
    ui.on_auction_card(RoundPhase::DraftAuction, &auction_card(301, 2, 8_000));
    ui
}

#[test]
fn request_opens_then_repeat_request_closes() {
    let mut target = ShopAuctionCardInspectTarget(None);
    target.apply(&vec![CardId(401)], false);
    assert_eq!(target.0, Some(CardId(401)));
    target.apply(&vec![CardId(401)], false);
    assert_eq!(target.0, None);
}

#[test]
fn dismiss_message_closes_overlay() {
    let mut target = ShopAuctionCardInspectTarget(Some(CardId(402)));
    target.apply(&vec![], true);
    assert_eq!(target.0, None);
}

#[test]
fn request_switches_to_different_card_without_dismiss() {
    let mut target = ShopAuctionCardInspectTarget(Some(CardId(401)));
    target.apply(&vec![CardId(402)], false);
    assert_eq!(target.0, Some(CardId(402)));
}

#[test]
fn inspect_latest_request_wins_over_dismiss() {
    let mut target = ShopAuctionCardInspectTarget(None);
    target.apply(&vec![CardId(1), CardId(2)], true);
    assert_eq!(target.0, Some(CardId(2)));
}

#[test]
fn decimal_rendering_of_integers() {
    assert_eq!(decimal_string(0), "0");
    assert_eq!(decimal_string(7), "7");
    assert_eq!(decimal_string(10), "10");
    assert_eq!(decimal_string(4_294_967_295), "4294967295");
}

#[test]
fn bid_labels_follow_price_and_steps() {
    let labels = bid_button_labels(5, [1, 2, 5]);
    assert_eq!(labels[0], BidButtonLabel { total_commitment: 6, increment: 1 });
    assert_eq!(labels[2], BidButtonLabel { total_commitment: 10, increment: 5 });
    assert_eq!(labels[1].text(), "7g\n(+2)");
    let texts = bid_button_label_texts(u32::MAX, [1, 2, 5]);
    assert_eq!(texts[0], "4294967295g\n(+1)");
}

#[test]
fn refresh_cost_grows_until_cap() {
    assert_eq!(displayed_refresh_cost(1, 3, 0), 1);
    assert_eq!(displayed_refresh_cost(1, 3, 2), 3);
    assert_eq!(displayed_refresh_cost(1, 3, 9), 4);
    assert_eq!(displayed_refresh_cost(u32::MAX, 3, 2), u32::MAX);
}

#[test]
fn border_tier_bands() {
    assert_eq!(auction_border_color_tier(0), AuctionBorderColorTier::PaleInkBlue);
    assert_eq!(auction_border_color_tier(3), AuctionBorderColorTier::PaleInkBlue);
    assert_eq!(auction_border_color_tier(4), AuctionBorderColorTier::AuctionAmber);
    assert_eq!(auction_border_color_tier(9), AuctionBorderColorTier::DeepAmber);
    assert_eq!(auction_border_color_tier(10), AuctionBorderColorTier::CrimsonAmber);
}

#[test]
fn rejection_toasts() {
    assert_eq!(rejection_toast_text(BidRejectedReason::InsufficientGold, 4), "Not enough gold");
    assert_eq!(rejection_toast_text(BidRejectedReason::AmountTooLow, 4), "Bid must be at least 5g");
    assert_eq!(rejection_toast_text(BidRejectedReason::AlreadyLeader, 4), "You are already leading");
    assert_eq!(
        rejection_toast_text(BidRejectedReason::HandFull, 4),
        "Hand full — no bids possible this auction"
    );
    assert_eq!(rejection_toast_text(BidRejectedReason::AuctionExpired, 4), "Auction has ended");
}

#[test]
fn featured_timer_label_rounds_seconds_up() {
    let mut state = ShopAuctionAuctionState::new();
    assert_eq!(auction_featured_timer_label(&state), "");
    state.buffer_card(&auction_card(1, 1, 5_000));
    state.enter_preparing();
    assert_eq!(auction_featured_timer_label(&state), "Auction starting...");
    state.enter_active(5_000);
    assert_eq!(auction_featured_timer_label(&state), "5s left");
    state.tick_countdown(1);
    assert_eq!(auction_featured_timer_label(&state), "5s left");
    state.tick_countdown(999);
    assert_eq!(auction_featured_timer_label(&state), "4s left");
    state.tick_countdown(10_000);
    assert_eq!(auction_featured_timer_label(&state), "Auction ending");
}

#[test]
fn shop_slot_affordance_copy_cases() {
    let rich = economy(10);
    assert_eq!(shop_slot_affordance_copy(ShopSlotState::Empty, None, None, 0, &rich), "");
    assert_eq!(shop_slot_affordance_copy(ShopSlotState::PendingPurchase, Some(CardId(1)), Some(3), 0, &rich), "PENDING...");
    assert_eq!(shop_slot_affordance_copy(ShopSlotState::Refreshing, Some(CardId(1)), Some(3), 0, &rich), "REFRESHING...");
    assert_eq!(shop_slot_affordance_copy(ShopSlotState::Available, Some(CardId(1)), Some(3), 10, &rich), "LOCKED · Hand full");
    assert_eq!(shop_slot_affordance_copy(ShopSlotState::Available, Some(CardId(1)), Some(12), 0, &rich), "LOCKED · Need 12g");
    assert_eq!(shop_slot_affordance_copy(ShopSlotState::Available, Some(CardId(1)), Some(3), 0, &rich), "BUY · 3g");
    let unknown = PlayerEconomyView { gold: 99, initialized: false };
    assert_eq!(shop_slot_affordance_copy(ShopSlotState::Available, Some(CardId(1)), Some(3), 0, &unknown), "LOCKED · Need 3g");
}

#[test]
fn combat_stats_only_for_board_cards() {
    assert_eq!(format_card_combat_stats(&card(1, Rarity::Common, CardType::Minion, 2, 3, 4)), "3/4");
    assert_eq!(format_card_combat_stats(&card(1, Rarity::Common, CardType::Structure, 2, 0, 9)), "0/9");
    assert_eq!(format_card_combat_stats(&card(1, Rarity::Common, CardType::Spell, 2, 3, 4)), "");
}

#[test]
fn slot_captions() {
    let cat = catalog(vec![card(5, Rarity::Rare, CardType::Minion, 3, 2, 1), card(6, Rarity::Epic, CardType::Spell, 4, 0, 0)]);
    assert_eq!(draft_slot_text(&cat, CardId(5)), "Card name 5\n3g · 2/1");
    assert_eq!(draft_slot_text(&cat, CardId(6)), "Card name 6\n4g");
    assert_eq!(draft_slot_text(&cat, CardId(77)), "Card 77\n0g");
    assert_eq!(shop_slot_text(&cat, CardId(5)), "Card name 5\nRare · 3g · 2/1");
    assert_eq!(shop_slot_text(&cat, CardId(77)), "Card 77\nCommon · 0g");
    assert_eq!(footer_slot_text(&cat, None), "Locked empty");
    assert_eq!(footer_slot_text(&cat, Some(CardId(6))), "Card name 6\n4g - locked");
}

#[test]
fn draft_offering_sorted_by_rarity_then_cost_then_arrival() {
    let cat = catalog(vec![
        card(1, Rarity::Common, CardType::Minion, 1, 1, 1),
        card(2, Rarity::Rare, CardType::Minion, 2, 1, 1),
        card(3, Rarity::Rare, CardType::Minion, 5, 1, 1),
        card(4, Rarity::Legendary, CardType::Minion, 1, 1, 1),
        card(5, Rarity::Common, CardType::Minion, 1, 1, 1),
    ]);
    let ids = vec![CardId(1), CardId(2), CardId(3), CardId(4), CardId(5), CardId(99)];
    let sorted = sort_draft_offering_card_ids(&ids, &cat);
    assert_eq!(sorted, vec![CardId(4), CardId(3), CardId(2), CardId(1), CardId(5), CardId(99)]);
}

#[test]
fn draft_offering_keeps_at_most_nine() {
    let cat = catalog(vec![]);
    let ids: Vec<CardId> = (1..=12).map(CardId).collect();
    let sorted = sort_draft_offering_card_ids(&ids, &cat);
    assert_eq!(sorted, (1..=9).map(CardId).collect::<Vec<_>>());
}

#[test]
fn card_before_auction_phase_activates_countdown() {
    let mut ui = ShopAuctionUi::new();
    ui.on_auction_card(RoundPhase::DraftShop, &auction_card(11, 3, 6_000));
    assert_eq!(ui.mode, ShopAuctionUiMode::AuctionPreparing);
    assert_eq!(ui.auction.panel_state, ShopAuctionAuctionPanelState::Preparing);
    let visibility = ui.on_phase_changed(RoundPhase::DraftAuction, 30_000);
    assert_eq!(ui.mode, ShopAuctionUiMode::Auction);
    assert_eq!(ui.auction.panel_state, ShopAuctionAuctionPanelState::Active);
    assert_eq!(ui.auction.timer_remaining_ms, 6_000);
    assert!(visibility.auction_panel);
    assert!(visibility.shop_footer);
}

#[test]
fn auction_phase_without_card_stays_hidden() {
    let mut ui = ShopAuctionUi::new();
    let visibility = ui.on_phase_changed(RoundPhase::DraftAuction, 30_000);
    assert_eq!(ui.mode, ShopAuctionUiMode::Inactive);
    assert!(!visibility.root);
    assert!(!visibility.auction_panel);
}

#[test]
fn new_card_resets_previous_leader() {
    let mut ui = live_auction_ui(20);
    ui.on_bid_accepted(RoundPhase::DraftAuction, None, &S2CAuctionBidAccepted { bidder: OPPONENT, amount: 4, new_timer_ms: 5_000 });
    assert_eq!(ui.auction.current_leader, Some(OPPONENT));
    ui.on_auction_card(RoundPhase::DraftAuction, &auction_card(302, 1, 8_000));
    assert_eq!(ui.auction.current_leader, None);
    assert_eq!(ui.auction.current_price, 1);
    assert!(!ui.auction.waiting_for_local_gold_after_opponent_bid());
}

#[test]
fn opponent_bid_holds_bids_until_gold_update() {
    let mut ui = live_auction_ui(20);
    ui.on_bid_accepted(RoundPhase::DraftAuction, None, &S2CAuctionBidAccepted { bidder: OPPONENT, amount: 4, new_timer_ms: 9_000 });
    assert!(ui.auction.waiting_for_local_gold_after_opponent_bid());
    assert_eq!(ui.auction.timer_duration_ms, 9_000);
    assert_eq!(ui.timer_target.new_timer_ms, 9_000);
    let eco = economy(20);
    let view = ui.auction_panel_view(&eco, &CardCatalog::new(), [1, 2, 5]);
    assert_eq!(view.bid_buttons[0].state, AuctionBidButtonState::GenericDisabled);
    assert_eq!(view.bid_status_text, "OPPONENT LEADING");
    ui.on_gold_broadcast(None, LOCAL, 20, 0);
    assert!(!ui.auction.waiting_for_local_gold_after_opponent_bid());
    let view = ui.auction_panel_view(&eco, &CardCatalog::new(), [1, 2, 5]);
    assert_eq!(view.bid_buttons[0].state, AuctionBidButtonState::Enabled);
    assert_eq!(view.bid_buttons[0].text, "5g\n(+1)");
}

#[test]
fn earlier_gold_update_releases_opponent_bid_at_once() {
    let mut ui = live_auction_ui(20);
    ui.on_gold_broadcast(None, LOCAL, 18, 0);
    ui.on_bid_accepted(RoundPhase::DraftAuction, None, &S2CAuctionBidAccepted { bidder: OPPONENT, amount: 4, new_timer_ms: 5_000 });
    assert!(!ui.auction.waiting_for_local_gold_after_opponent_bid());
}

#[test]
fn own_bid_flow_and_leading_hides_buttons() {
    let mut ui = live_auction_ui(20);
    let eco = economy(20);
    let amount = ui.bid_click(RoundPhase::DraftAuction, &eco, 2);
    assert_eq!(amount, Some(4));
    assert_eq!(ui.auction.in_flight_bid_amount, Some(4));
    assert_eq!(ui.bid_click(RoundPhase::DraftAuction, &eco, 1), None);
    let view = ui.auction_panel_view(&eco, &CardCatalog::new(), [1, 2, 5]);
    assert_eq!(view.bid_buttons[1].state, AuctionBidButtonState::InFlight);
    assert_eq!(view.bid_buttons[1].text, "BIDDING...");
    assert_eq!(view.bid_buttons[0].state, AuctionBidButtonState::GenericDisabled);
    ui.on_bid_accepted(RoundPhase::DraftAuction, None, &S2CAuctionBidAccepted { bidder: LOCAL, amount: 4, new_timer_ms: 5_000 });
    assert_eq!(ui.auction.in_flight_bid_amount, None);
    assert!(!ui.auction.waiting_for_local_gold_after_opponent_bid());
    let view = ui.auction_panel_view(&eco, &CardCatalog::new(), [1, 2, 5]);
    assert_eq!(view.bid_buttons[0].state, AuctionBidButtonState::HiddenLeading);
    assert!(!view.bid_buttons[0].visible);
    assert_eq!(view.bid_status_text, "YOU ARE LEADING");
    assert_eq!(view.price_label, "Bid: 4g");
}

#[test]
fn unaffordable_bid_is_refused() {
    let mut ui = live_auction_ui(3);
    let eco = economy(3);
    assert_eq!(ui.bid_click(RoundPhase::DraftAuction, &eco, 5), None);
    let view = ui.auction_panel_view(&eco, &CardCatalog::new(), [1, 2, 5]);
    assert_eq!(view.bid_buttons[2].state, AuctionBidButtonState::Unaffordable);
    assert_eq!(view.bid_buttons[0].state, AuctionBidButtonState::Enabled);
    assert_eq!(view.free_gold_text, "3g");
}

#[test]
fn bid_rejection_shows_toast_and_clears_flight() {
    let mut ui = live_auction_ui(20);
    let eco = economy(20);
    ui.bid_click(RoundPhase::DraftAuction, &eco, 1);
    ui.on_bid_rejected(RoundPhase::DraftAuction, BidRejectedReason::AmountTooLow);
    assert!(ui.toast.active);
    assert_eq!(ui.toast.text, "Bid must be at least 3g");
    assert_eq!(ui.auction.in_flight_bid_amount, None);
    ui.toast.tick(1_000);
    assert!(ui.toast.active);
    ui.toast.tick(2_000);
    assert!(!ui.toast.active);
    assert_eq!(ui.toast.text, "");
}

#[test]
fn pass_toggles_and_phase_change_clears_it() {
    let mut ui = live_auction_ui(20);
    ui.pass_click(RoundPhase::DraftAuction);
    assert!(ui.locally_passed);
    let eco = economy(20);
    let view = ui.auction_panel_view(&eco, &CardCatalog::new(), [1, 2, 5]);
    assert_eq!(view.pass_text, "PASSED");
    assert_eq!(view.bid_buttons[0].state, AuctionBidButtonState::GenericDisabled);
    ui.pass_click(RoundPhase::DraftAuction);
    assert!(!ui.locally_passed);
    ui.pass_click(RoundPhase::DraftAuction);
    ui.on_phase_changed(RoundPhase::DraftShop, 30_000);
    assert!(!ui.locally_passed);
}

#[test]
fn local_win_settles_into_shop() {
    let mut ui = live_auction_ui(20);
    ui.hand_size = 3;
    let won = ui.on_auction_settled(RoundPhase::DraftAuction, None, 4, 30_000, &S2CAuctionSettled { winner: Some(LOCAL), amount: 6 });
    assert!(won);
    assert_eq!(ui.mode, ShopAuctionUiMode::AuctionSettling);
    assert_eq!(ui.hand_size, 4);
    assert_eq!(ui.settlement.outcome, Some(ShopAuctionSettlementOutcome::LocalWinner));
    assert_eq!(ui.won_pending.card_id(), Some(CardId(301)));
    assert_eq!(ui.auction.current_price, 6);
    let eco = economy(20);
    let view = ui.auction_panel_view(&eco, &CardCatalog::new(), [1, 2, 5]);
    assert_eq!(view.status_text, "Auction won - card moving to hand");
    let visibility = ui.on_phase_changed(RoundPhase::DraftShop, 30_000);
    assert_eq!(ui.mode, ShopAuctionUiMode::AuctionSettling);
    assert!(ui.shop_timer.deferred);
    assert!(visibility.auction_panel);
    ui.tick_settlement(RoundPhase::DraftShop, 30_000, false, 200);
    assert_eq!(ui.mode, ShopAuctionUiMode::AuctionSettling);
    ui.tick_settlement(RoundPhase::DraftShop, 30_000, false, 200);
    assert_eq!(ui.mode, ShopAuctionUiMode::Shop);
    assert!(ui.shop_timer.started);
    assert_eq!(ui.auction, ShopAuctionAuctionState::new());
}

#[test]
fn opponent_win_overlay_names_price() {
    let mut ui = live_auction_ui(20);
    let won = ui.on_auction_settled(RoundPhase::DraftAuction, None, 4, 30_000, &S2CAuctionSettled { winner: Some(OPPONENT), amount: 8 });
    assert!(!won);
    assert_eq!(dynamic_overlay_text(&ui.settlement), "Opponent won for 8g");
    assert_eq!(ui.settlement.overlay_text(), "Opponent won the auction");
    assert!(ui.won_pending.state.is_none());
}

#[test]
fn settlement_without_auction_is_ignored() {
    let mut ui = ShopAuctionUi::new();
    let won = ui.on_auction_settled(RoundPhase::DraftAuction, Some(LOCAL), 1, 0, &S2CAuctionSettled { winner: Some(LOCAL), amount: 3 });
    assert!(!won);
    assert_eq!(ui.mode, ShopAuctionUiMode::Inactive);
}

#[test]
fn reduced_motion_settles_immediately() {
    let mut ui = live_auction_ui(20);
    ui.on_auction_settled(RoundPhase::DraftShop, None, 4, 30_000, &S2CAuctionSettled { winner: None, amount: 0 });
    ui.tick_settlement(RoundPhase::DraftShop, 30_000, true, 0);
    assert_eq!(ui.mode, ShopAuctionUiMode::Shop);
}

#[test]
fn preparing_times_out_into_connection_error() {
    let mut ui = ShopAuctionUi::new();
    ui.on_auction_card(RoundPhase::Resolution, &auction_card(5, 1, 1_000));
    ui.tick_auction_preparing(9_999);
    assert_eq!(ui.auction.panel_state, ShopAuctionAuctionPanelState::Preparing);
    ui.tick_auction_preparing(1);
    assert_eq!(ui.auction.panel_state, ShopAuctionAuctionPanelState::ConnectionError);
    assert_eq!(ui.mode, ShopAuctionUiMode::AuctionPreparing);
}

#[test]
fn card_during_placement_is_dropped() {
    let mut ui = ShopAuctionUi::new();
    ui.on_auction_card(RoundPhase::Placement, &auction_card(5, 1, 1_000));
    assert_eq!(ui.auction.card_id, None);
    assert_eq!(ui.mode, ShopAuctionUiMode::Inactive);
}

#[test]
fn expired_countdown_then_awaiting_server() {
    let mut ui = live_auction_ui(20);
    ui.tick_auction_countdown(8_000);
    assert!(ui.auction.locally_expired());
    let eco = economy(20);
    let view = ui.auction_panel_view(&eco, &CardCatalog::new(), [1, 2, 5]);
    assert_eq!(view.status_text, "Auction ending...");
    assert_eq!(view.bid_buttons[0].state, AuctionBidButtonState::LocallyExpired);
    ui.tick_auction_countdown(1_500);
    let view = ui.auction_panel_view(&eco, &CardCatalog::new(), [1, 2, 5]);
    assert_eq!(view.status_text, "Awaiting server...");
}

#[test]
fn snapshot_restores_auction() {
    let mut ui = ShopAuctionUi::new();
    let snapshot = GameSnapshotView {
        recipient_player_id: LOCAL,
        phase: RoundPhase::DraftAuction,
        players: vec![PlayerSnapshotView { player_id: LOCAL, gold: 12, reserved_gold: 2, hand_size: 4, shop_slots: vec![] }],
        auction_state: Some(AuctionSnapshot {
            card_id: CardId(44),
            starting_price: 2,
            last_accepted_bid: 5,
            current_leader: Some(OPPONENT),
            timer_remaining_ms: 40_000,
        }),
        timer_remaining_ms: None,
    };
    let slots = ui.on_snapshot(&snapshot, 30_000);
    assert!(slots.is_none());
    assert_eq!(ui.mode, ShopAuctionUiMode::Auction);
    assert_eq!(ui.auction.current_price, 5);
    assert_eq!(ui.auction.timer_duration_ms, 40_000);
    assert_eq!(ui.auction.timer_remaining_ms, 40_000);
    assert_eq!(ui.hand_size, 4);
    assert_eq!(ui.local_gold.free_gold(&economy(0)), 10);
}

#[test]
fn snapshot_in_shop_returns_local_offers() {
    let mut ui = ShopAuctionUi::new();
    let snapshot = GameSnapshotView {
        recipient_player_id: LOCAL,
        phase: RoundPhase::DraftShop,
        players: vec![
            PlayerSnapshotView { player_id: OPPONENT, gold: 1, reserved_gold: 0, hand_size: 1, shop_slots: vec![Some(CardId(1))] },
            PlayerSnapshotView { player_id: LOCAL, gold: 5, reserved_gold: 0, hand_size: 2, shop_slots: vec![Some(CardId(2)), None] },
        ],
        auction_state: None,
        timer_remaining_ms: Some(12_000),
    };
    let slots = ui.on_snapshot(&snapshot, 30_000);
    assert_eq!(slots, Some(vec![Some(CardId(2)), None]));
    assert_eq!(ui.mode, ShopAuctionUiMode::Shop);
    assert_eq!(ui.shop_timer.remaining_ms, 12_000);
    assert_eq!(ui.shop_timer.duration_ms, 30_000);
}

#[test]
fn shop_offers_wait_until_the_shop_opens() {
    let mut ui = ShopAuctionUi::new();
    let offers = vec![Some(CardId(3)), Some(CardId(4)), None];
    let shown = ui.on_shop_slots(RoundPhase::Placement, vec![offers.clone()]);
    assert!(shown.is_none());
    assert_eq!(ui.shop.footer_slots(), [Some(CardId(3)), Some(CardId(4)), None]);
    ui.on_phase_changed(RoundPhase::DraftShop, 30_000);
    let shown = ui.on_shop_slots(RoundPhase::DraftShop, vec![]);
    assert_eq!(shown, Some(offers));
    assert!(ui.shop.slots_loaded);
}

#[test]
fn refresh_counts_when_new_offers_arrive() {
    let mut ui = ShopAuctionUi::new();
    ui.on_phase_changed(RoundPhase::DraftShop, 30_000);
    ui.on_shop_slots(RoundPhase::DraftShop, vec![vec![Some(CardId(1))]]);
    assert!(ui.shop.slots_loaded);
    let eco = economy(5);
    assert!(ui.shop_refresh_click(RoundPhase::DraftShop, &eco, 1, 3));
    assert!(!ui.shop_refresh_click(RoundPhase::DraftShop, &eco, 1, 3));
    let view = ui.shop_panel_view(&eco, 1, 3, &vec![]);
    assert_eq!(view.refresh_text, "Refreshing...");
    let shown = ui.on_shop_slots(RoundPhase::DraftShop, vec![vec![Some(CardId(2))]]);
    assert_eq!(shown, Some(vec![Some(CardId(2))]));
    assert_eq!(ui.shop.refresh_count_this_draft, 1);
    let view = ui.shop_panel_view(&eco, 1, 3, &vec![]);
    assert_eq!(view.refresh_cost, 2);
    assert_eq!(view.refresh_text, "Refresh (2g)");
    assert!(view.refresh_enabled);
}

#[test]
fn shop_panel_locks_slots_when_hand_full() {
    let mut ui = ShopAuctionUi::new();
    ui.on_phase_changed(RoundPhase::DraftShop, 30_000);
    ui.on_shop_slots(RoundPhase::DraftShop, vec![vec![Some(CardId(1))]]);
    ui.hand_size = 10;
    let slots = vec![
        ShopSlotModel { card: Some(CardId(1)), cost: Some(2), state: ShopSlotState::Available },
        ShopSlotModel { card: None, cost: None, state: ShopSlotState::Empty },
    ];
    let view = ui.shop_panel_view(&economy(9), 1, 3, &slots);
    assert_eq!(view.slots[0].state, ShopSlotState::HandFullLocked);
    assert_eq!(view.slots[0].affordance, "LOCKED · Hand full");
    assert_eq!(view.slots[1].state, ShopSlotState::Empty);
    assert!(view.hand_full_banner_visible);
}

#[test]
fn shop_slot_click_outcomes() {
    let mut ui = ShopAuctionUi::new();
    ui.on_phase_changed(RoundPhase::DraftShop, 30_000);
    let eco = economy(4);
    assert_eq!(ui.shop_slot_click(RoundPhase::DraftShop, &eco, ShopSlotState::Available, CardId(1), 3), SlotClickOutcome::Purchase(CardId(1)));
    assert_eq!(ui.shop_slot_click(RoundPhase::DraftShop, &eco, ShopSlotState::Available, CardId(1), 5), SlotClickOutcome::FlashGold);
    assert_eq!(ui.shop_slot_click(RoundPhase::DraftShop, &eco, ShopSlotState::PendingPurchase, CardId(1), 1), SlotClickOutcome::Ignored);
    ui.hand_size = 10;
    assert_eq!(ui.shop_slot_click(RoundPhase::DraftShop, &eco, ShopSlotState::Available, CardId(1), 1), SlotClickOutcome::LockHandFull);
}

#[test]
fn draft_offering_opens_objective_overlay() {
    let mut ui = ShopAuctionUi::new();
    ui.on_phase_changed(RoundPhase::DraftInitial, 45_000);
    let sorted = ui.on_draft_offering(&vec![CardId(1), CardId(2)], &CardCatalog::new());
    assert_eq!(sorted, vec![CardId(1), CardId(2)]);
    assert!(ui.draft.objective_overlay_visible);
    assert_eq!(ui.draft.objective_focus_target, DraftInitialObjectiveFocusTarget::DismissButton);
    ui.objective_keys(true, false);
    assert!(!ui.draft.objective_overlay_visible);
    assert!(ui.draft.objective_overlay_dismissed);
    ui.objective_keys(false, true);
    assert!(ui.draft.objective_overlay_visible);
    let view = ui.draft_panel_view();
    assert!(view.active);
    assert!(view.objective_overlay_visible);
    assert_eq!(view.ready_text, "Ready");
    assert_eq!(ui.draft_ready_click(), Some(false));
    assert_eq!(ui.draft_panel_view().ready_status_text, "Waiting for opponent...");
    assert_eq!(ui.draft_ready_click(), Some(true));
}

#[test]
fn leaving_draft_resets_it() {
    let mut ui = ShopAuctionUi::new();
    ui.on_phase_changed(RoundPhase::DraftInitial, 45_000);
    ui.on_draft_offering(&vec![CardId(1)], &CardCatalog::new());
    ui.on_phase_changed(RoundPhase::Placement, 30_000);
    assert!(!ui.draft.offering_loaded);
    assert!(!ui.draft.objective_overlay_visible);
}

#[test]
fn draft_purchase_confirmation_marks_first_matching_slot() {
    let mut ui = ShopAuctionUi::new();
    ui.on_phase_changed(RoundPhase::DraftInitial, 45_000);
    ui.on_draft_offering(&vec![CardId(1), CardId(1)], &CardCatalog::new());
    ui.on_card_acquired(CardId(1));
    ui.on_card_acquired(CardId(8));
    let mut slots = vec![
        DraftSlotModel { card: Some(CardId(1)), state: DraftInitialSlotState::Pending },
        DraftSlotModel { card: Some(CardId(1)), state: DraftInitialSlotState::Available },
    ];
    let marked = ui.apply_draft_purchase_confirmations(&economy(9), &mut slots);
    assert_eq!(marked, vec![0]);
    assert_eq!(slots[0].state, DraftInitialSlotState::Purchased);
    assert_eq!(slots[1].state, DraftInitialSlotState::Available);
    assert_eq!(ui.draft.pending_confirmed_purchases, vec![CardId(8)]);
    assert_eq!(ui.hand_size, 1);
}

#[test]
fn draft_slot_click_outcomes() {
    let mut ui = ShopAuctionUi::new();
    ui.on_phase_changed(RoundPhase::DraftInitial, 45_000);
    let eco = economy(2);
    assert_eq!(ui.draft_slot_click(&eco, DraftInitialSlotState::Available, CardId(3), 1), SlotClickOutcome::Ignored);
    ui.on_draft_offering(&vec![CardId(3)], &CardCatalog::new());
    assert_eq!(ui.draft_slot_click(&eco, DraftInitialSlotState::Available, CardId(3), 1), SlotClickOutcome::Purchase(CardId(3)));
    assert_eq!(ui.draft_slot_click(&eco, DraftInitialSlotState::Available, CardId(3), 3), SlotClickOutcome::FlashGold);
}

#[test]
fn bid_keyboard_focus_walks_focusable_buttons() {
    assert_eq!(next_focusable_bid_button([false, true, true], 0), Some(1));
    assert_eq!(next_focusable_bid_button([true, false, false], 1), Some(0));
    assert_eq!(next_focusable_bid_button([false, false, false], 2), None);
    let mut ui = ShopAuctionUi::new();
    assert_eq!(ui.bid_keyboard([true, true, false], true, false), None);
    assert_eq!(ui.focused_bid_button, Some(0));
    assert_eq!(ui.bid_keyboard([true, true, false], true, true), Some(1));
    assert_eq!(ui.bid_keyboard([true, false, false], false, true), None);
    assert_eq!(ui.focused_bid_button, None);
}

#[test]
fn countdown_label_rounds_up() {
    assert_eq!(draft_countdown_label(true, true, 45_000, 1), Some("45s".to_string()));
    assert_eq!(draft_countdown_label(true, true, 45_000, 45_000), Some("0s".to_string()));
    assert_eq!(draft_countdown_label(true, true, 45_000, 44_999), Some("1s".to_string()));
    assert_eq!(draft_countdown_label(true, true, 45_000, 44_000), Some("1s".to_string()));
    assert_eq!(draft_countdown_label(false, true, 45_000, 0), None);
}

#[test]
fn bid_button_state_priorities() {
    let mut state = ShopAuctionAuctionState::new();
    assert_eq!(auction_bid_button_state(3, 10, true, false, false, false, &state), AuctionBidButtonState::GenericDisabled);
    state.buffer_card(&auction_card(1, 1, 5_000));
    state.enter_active(5_000);
    assert_eq!(auction_bid_button_state(3, 10, true, false, true, false, &state), AuctionBidButtonState::HiddenLeading);
    assert_eq!(auction_bid_button_state(3, 10, true, true, false, false, &state), AuctionBidButtonState::HandFullLocked);
    assert_eq!(auction_bid_button_state(3, 2, true, false, false, false, &state), AuctionBidButtonState::Unaffordable);
    assert_eq!(auction_bid_button_state(3, 10, false, false, false, false, &state), AuctionBidButtonState::Unaffordable);
    assert_eq!(auction_bid_button_state(3, 10, true, false, false, true, &state), AuctionBidButtonState::GenericDisabled);
    assert_eq!(auction_bid_button_state(3, 10, true, false, false, false, &state), AuctionBidButtonState::Enabled);
    assert_eq!(local_free_gold(3, 5), 0);
}
