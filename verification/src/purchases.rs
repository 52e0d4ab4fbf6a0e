//! Purchases the server confirmed, shown on the draft and shop slots: each
//! confirmation marks the first slot still showing that card, and the
//! confirmations that match no slot wait for a later frame.

use vstd::prelude::*;

use crate::card::CardId;
use crate::labels::ShopSlotState;
use crate::panel_views::ShopSlotModel;
use crate::panels::{PlayerEconomyView, ShopAuctionUiMode, HAND_FULL_SIZE};
use crate::shop_auction::{hand_after_gain, ShopAuctionUi};
use crate::shop_auction_input::DraftInitialSlotState;

verus! {

/// One initial draft slot as the UI holds it.
#[derive(Clone, Copy, Debug, PartialEq, Eq, Structural)]
pub struct DraftSlotModel {
    pub card: Option<CardId>,
    pub state: DraftInitialSlotState,
}

/// The first draft slot showing `id` and not yet bought.
pub open spec fn first_unbought_draft_slot(slots: Seq<DraftSlotModel>, id: CardId) -> Option<int> {
    if exists|k: int| 0 <= k < slots.len() && slots[k].card == Some(id) && slots[k].state != DraftInitialSlotState::Purchased {
        Some(
            choose|k: int|
                0 <= k < slots.len() && slots[k].card == Some(id) && slots[k].state != DraftInitialSlotState::Purchased
                    && forall|j: int|
                    0 <= j < k ==> !(slots[j].card == Some(id) && slots[j].state != DraftInitialSlotState::Purchased),
        )
    } else {
        None
    }
}

/// The first shop slot showing `id` and not empty.
pub open spec fn first_filled_shop_slot(slots: Seq<ShopSlotModel>, id: CardId) -> Option<int> {
    if exists|k: int| 0 <= k < slots.len() && slots[k].card == Some(id) && slots[k].state != ShopSlotState::Empty {
        Some(
            choose|k: int|
                0 <= k < slots.len() && slots[k].card == Some(id) && slots[k].state != ShopSlotState::Empty
                    && forall|j: int| 0 <= j < k ==> !(slots[j].card == Some(id) && slots[j].state != ShopSlotState::Empty),
        )
    } else {
        None
    }
}

/// Draft slots, waiting confirmations, hand size and marked slot positions
/// after applying `pending` in order.
pub open spec fn draft_confirmations(
    slots: Seq<DraftSlotModel>,
    hand: usize,
    pending: Seq<CardId>,
) -> (Seq<DraftSlotModel>, Seq<CardId>, usize, Seq<usize>)
    decreases pending.len(),
{
    if pending.len() == 0 {
        (slots, Seq::empty(), hand, Seq::empty())
    } else {
        let prev = draft_confirmations(slots, hand, pending.drop_last());
        let id = pending.last();
        match first_unbought_draft_slot(prev.0, id) {
            Some(k) => (
                prev.0.update(k, DraftSlotModel { state: DraftInitialSlotState::Purchased, ..prev.0[k] }),
                prev.1,
                hand_after_gain(prev.2),
                prev.3.push(k as usize),
            ),
            None => (prev.0, prev.1.push(id), prev.2, prev.3),
        }
    }
}

/// Shop slots, waiting confirmations and hand size after applying `pending`
/// in order: a matched slot empties.
pub open spec fn shop_confirmations(
    slots: Seq<ShopSlotModel>,
    hand: usize,
    pending: Seq<CardId>,
) -> (Seq<ShopSlotModel>, Seq<CardId>, usize)
    decreases pending.len(),
{
    if pending.len() == 0 {
        (slots, Seq::empty(), hand)
    } else {
        let prev = shop_confirmations(slots, hand, pending.drop_last());
        let id = pending.last();
        match first_filled_shop_slot(prev.0, id) {
            Some(k) => (
                prev.0.update(k, ShopSlotModel { state: ShopSlotState::Empty, ..prev.0[k] }),
                prev.1,
                hand_after_gain(prev.2),
            ),
            None => (prev.0, prev.1.push(id), prev.2),
        }
    }
}

fn find_unbought_draft_slot(slots: &Vec<DraftSlotModel>, id: CardId) -> (r: Option<usize>)
    ensures
        r matches Some(k) ==> k < slots@.len() && first_unbought_draft_slot(slots@, id) == Some(k as int),
        r is None ==> first_unbought_draft_slot(slots@, id) is None,
{
    let n = slots.len();
    let mut i: usize = 0;
    while i < n
        invariant
            n == slots@.len(),
            0 <= i <= n,
            forall|j: int|
                0 <= j < i ==> !(slots@[j].card == Some(id) && slots@[j].state != DraftInitialSlotState::Purchased),
        decreases n - i,
    {
        let matches_card = match slots[i].card {
            Some(c) => c.0 == id.0,
            None => false,
        };
        if matches_card && slots[i].state != DraftInitialSlotState::Purchased {
            proof {
                let k = choose|k: int|
                    0 <= k < slots@.len() && slots@[k].card == Some(id) && slots@[k].state
                        != DraftInitialSlotState::Purchased && forall|j: int|
                        0 <= j < k ==> !(slots@[j].card == Some(id) && slots@[j].state
                            != DraftInitialSlotState::Purchased);
                assert(slots@[i as int].card == Some(id));
                if k < i {
                } else if k > i {
                    assert(!(slots@[i as int].card == Some(id) && slots@[i as int].state
                        != DraftInitialSlotState::Purchased));
                }
            }
            return Some(i);
        }
        i = i + 1;
    }
    None
}

fn find_filled_shop_slot(slots: &Vec<ShopSlotModel>, id: CardId) -> (r: Option<usize>)
    ensures
        r matches Some(k) ==> k < slots@.len() && first_filled_shop_slot(slots@, id) == Some(k as int),
        r is None ==> first_filled_shop_slot(slots@, id) is None,
{
    let n = slots.len();
    let mut i: usize = 0;
    while i < n
        invariant
            n == slots@.len(),
            0 <= i <= n,
            forall|j: int| 0 <= j < i ==> !(slots@[j].card == Some(id) && slots@[j].state != ShopSlotState::Empty),
        decreases n - i,
    {
        let matches_card = match slots[i].card {
            Some(c) => c.0 == id.0,
            None => false,
        };
        if matches_card && slots[i].state != ShopSlotState::Empty {
            proof {
                let k = choose|k: int|
                    0 <= k < slots@.len() && slots@[k].card == Some(id) && slots@[k].state != ShopSlotState::Empty
                        && forall|j: int| 0 <= j < k ==> !(slots@[j].card == Some(id) && slots@[j].state != ShopSlotState::Empty);
                assert(slots@[i as int].card == Some(id));
                if k < i {
                } else if k > i {
                    assert(!(slots@[i as int].card == Some(id) && slots@[i as int].state != ShopSlotState::Empty));
                }
            }
            return Some(i);
        }
        i = i + 1;
    }
    None
}

fn gain_card(hand: usize) -> (r: usize)
    ensures
        r == hand_after_gain(hand),
{
    if hand < HAND_FULL_SIZE {
        hand + 1
    } else {
        HAND_FULL_SIZE
    }
}

impl ShopAuctionUi {
    /// Show the draft purchases that the server confirmed, while the draft
    /// takes input and the economy is known. Returns the positions of the
    /// slots now bought, in order.
    pub fn apply_draft_purchase_confirmations(&mut self, economy: &PlayerEconomyView, slots: &mut Vec<DraftSlotModel>) -> (marked: Vec<usize>)
        ensures
            ({
                let active = old(self).mode == ShopAuctionUiMode::DraftOffering && old(self).draft.offering_loaded;
                if active && economy.initialized {
                    let r = draft_confirmations(old(slots)@, old(self).hand_size, old(self).draft.pending_confirmed_purchases@);
                    &&& final(slots)@ == r.0
                    &&& final(self).draft.pending_confirmed_purchases@ == r.1
                    &&& final(self).hand_size == r.2
                    &&& marked@ == r.3
                } else {
                    &&& final(slots)@ == old(slots)@
                    &&& final(self).draft.pending_confirmed_purchases@ == old(self).draft.pending_confirmed_purchases@
                    &&& final(self).hand_size == old(self).hand_size
                    &&& marked@.len() == 0
                }
            }),
            final(self).mode == old(self).mode,
            final(self).draft.offering_loaded == old(self).draft.offering_loaded,
            final(self).draft.ready_signalled == old(self).draft.ready_signalled,
            final(self).auction == old(self).auction,
    {
        let mut marked: Vec<usize> = Vec::new();
        if !(self.mode == ShopAuctionUiMode::DraftOffering && self.draft.offering_loaded) || !economy.initialized {
            return marked;
        }
        let mut pending: Vec<CardId> = Vec::new();
        std::mem::swap(&mut pending, &mut self.draft.pending_confirmed_purchases);
        let ghost slots0 = slots@;
        let ghost hand0 = self.hand_size;
        let mut unapplied: Vec<CardId> = Vec::new();
        let n = pending.len();
        let mut i: usize = 0;
        while i < n
            invariant
                n == pending@.len(),
                0 <= i <= n,
                pending@ == old(self).draft.pending_confirmed_purchases@,
                hand0 == old(self).hand_size,
                slots0 == old(slots)@,
                (slots@, unapplied@, self.hand_size, marked@) == draft_confirmations(slots0, hand0, pending@.take(i as int)),
                self.mode == old(self).mode,
                self.draft.offering_loaded == old(self).draft.offering_loaded,
                self.draft.ready_signalled == old(self).draft.ready_signalled,
                self.auction == old(self).auction,
            decreases n - i,
        {
            let id = pending[i];
            proof {
                assert(pending@.take(i + 1).drop_last() =~= pending@.take(i as int));
                assert(pending@.take(i + 1).last() == id);
            }
            match find_unbought_draft_slot(slots, id) {
                Some(k) => {
                    let slot = slots[k];
                    slots.set(k, DraftSlotModel { state: DraftInitialSlotState::Purchased, ..slot });
                    self.hand_size = gain_card(self.hand_size);
                    marked.push(k);
                },
                None => {
                    unapplied.push(id);
                },
            }
            i = i + 1;
        }
        proof {
            assert(pending@.take(n as int) =~= pending@);
        }
        self.draft.pending_confirmed_purchases = unapplied;
        marked
    }

    /// Show the shop purchases that the server confirmed: outside the shop
    /// they are dropped; in the shop, once the economy is known, each empties
    /// the first slot still showing its card.
    pub fn apply_shop_purchase_confirmations(&mut self, economy: &PlayerEconomyView, slots: &mut Vec<ShopSlotModel>)
        ensures
            ({
                if old(self).mode != ShopAuctionUiMode::Shop {
                    &&& final(slots)@ == old(slots)@
                    &&& final(self).shop.pending_confirmed_purchases@.len() == 0
                    &&& final(self).hand_size == old(self).hand_size
                } else if !economy.initialized {
                    &&& final(slots)@ == old(slots)@
                    &&& final(self).shop.pending_confirmed_purchases@ == old(self).shop.pending_confirmed_purchases@
                    &&& final(self).hand_size == old(self).hand_size
                } else {
                    let r = shop_confirmations(old(slots)@, old(self).hand_size, old(self).shop.pending_confirmed_purchases@);
                    &&& final(slots)@ == r.0
                    &&& final(self).shop.pending_confirmed_purchases@ == r.1
                    &&& final(self).hand_size == r.2
                }
            }),
            final(self).mode == old(self).mode,
            final(self).shop.slots_loaded == old(self).shop.slots_loaded,
            final(self).shop.ready_signalled == old(self).shop.ready_signalled,
            final(self).shop.refresh_in_flight == old(self).shop.refresh_in_flight,
            final(self).auction == old(self).auction,
    {
        if self.mode != ShopAuctionUiMode::Shop {
            self.shop.pending_confirmed_purchases.clear();
            return;
        }
        if !economy.initialized {
            return;
        }
        let mut pending: Vec<CardId> = Vec::new();
        std::mem::swap(&mut pending, &mut self.shop.pending_confirmed_purchases);
        let ghost slots0 = slots@;
        let ghost hand0 = self.hand_size;
        let mut unapplied: Vec<CardId> = Vec::new();
        let n = pending.len();
        let mut i: usize = 0;
        while i < n
            invariant
                n == pending@.len(),
                0 <= i <= n,
                pending@ == old(self).shop.pending_confirmed_purchases@,
                hand0 == old(self).hand_size,
                slots0 == old(slots)@,
                (slots@, unapplied@, self.hand_size) == shop_confirmations(slots0, hand0, pending@.take(i as int)),
                self.mode == old(self).mode,
                self.shop.slots_loaded == old(self).shop.slots_loaded,
                self.shop.ready_signalled == old(self).shop.ready_signalled,
                self.shop.refresh_in_flight == old(self).shop.refresh_in_flight,
                self.auction == old(self).auction,
            decreases n - i,
        {
            let id = pending[i];
            proof {
                assert(pending@.take(i + 1).drop_last() =~= pending@.take(i as int));
                assert(pending@.take(i + 1).last() == id);
            }
            match find_filled_shop_slot(slots, id) {
                Some(k) => {
                    let slot = slots[k];
                    slots.set(k, ShopSlotModel { state: ShopSlotState::Empty, ..slot });
                    self.hand_size = gain_card(self.hand_size);
                },
                None => {
                    unapplied.push(id);
                },
            }
            i = i + 1;
        }
        proof {
            assert(pending@.take(n as int) =~= pending@);
        }
        self.shop.pending_confirmed_purchases = unapplied;
    }
}

} // verus!
