//! Order of the initial draft offering on screen: rarest first, then most
//! expensive, then as the server sent them.

use vstd::prelude::*;

use crate::card::{CardCatalog, CardId};
use crate::labels::{rarity_sort_rank, spec_rarity_rank};
use crate::panels::SHOP_AUCTION_UI_DRAFT_INITIAL_SLOT_COUNT;

verus! {

/// An offered card with its sort keys and its position in the offering.
#[derive(Clone, Copy, Debug, PartialEq, Eq, Structural)]
pub struct OfferEntry {
    pub rank: u8,
    pub cost: u32,
    pub index: usize,
    pub id: CardId,
}

/// Rarity rank of an offered card; zero when the catalog lacks it.
pub open spec fn offer_rank(catalog: CardCatalog, id: CardId) -> u8 {
    if catalog.has(id.0) {
        spec_rarity_rank(catalog.card(id.0).rarity)
    } else {
        0
    }
}

/// Cost of an offered card; zero when the catalog lacks it.
pub open spec fn offer_cost(catalog: CardCatalog, id: CardId) -> u32 {
    if catalog.has(id.0) {
        catalog.card(id.0).cost
    } else {
        0
    }
}

/// The entry for position `i` of the offering.
pub open spec fn offer_entry(catalog: CardCatalog, ids: Seq<CardId>, i: int) -> OfferEntry {
    OfferEntry {
        rank: offer_rank(catalog, ids[i]),
        cost: offer_cost(catalog, ids[i]),
        index: i as usize,
        id: ids[i],
    }
}

/// `a` is shown before `b`: higher rank, then higher cost, then earlier.
pub open spec fn offer_before(a: OfferEntry, b: OfferEntry) -> bool {
    a.rank > b.rank || (a.rank == b.rank && (a.cost > b.cost || (a.cost == b.cost && a.index < b.index)))
}

/// Number of cards shown: the offering, up to the grid's size.
pub open spec fn shown_count(n: nat) -> nat {
    if n <= SHOP_AUCTION_UI_DRAFT_INITIAL_SLOT_COUNT {
        n
    } else {
        SHOP_AUCTION_UI_DRAFT_INITIAL_SLOT_COUNT as nat
    }
}

/// `r` lists the first `m` offered cards, each once, in `offer_before`
/// order; `pos` gives each one's position in the offering.
pub open spec fn is_offering_order(catalog: CardCatalog, ids: Seq<CardId>, m: nat, pos: Seq<int>, r: Seq<CardId>) -> bool {
    &&& pos.len() == m
    &&& r.len() == m
    &&& forall|k: int| 0 <= k < m ==> 0 <= #[trigger] pos[k] < m
    &&& forall|k: int, l: int| 0 <= k < l < m ==> pos[k] != pos[l]
    &&& forall|k: int| 0 <= k < m ==> #[trigger] r[k] == ids[pos[k]]
    &&& forall|k: int, l: int|
        0 <= k < l < m ==> offer_before(
            #[trigger] offer_entry(catalog, ids, pos[k]),
            #[trigger] offer_entry(catalog, ids, pos[l]),
        )
}

proof fn lemma_before_total(a: OfferEntry, b: OfferEntry)
    requires
        a.index != b.index,
    ensures
        offer_before(a, b) || offer_before(b, a),
        !(offer_before(a, b) && offer_before(b, a)),
{
}

proof fn lemma_before_transitive(a: OfferEntry, b: OfferEntry, c: OfferEntry)
    requires
        offer_before(a, b),
        offer_before(b, c),
    ensures
        offer_before(a, c),
{
}

fn entry_for(catalog: &CardCatalog, ids: &Vec<CardId>, i: usize) -> (e: OfferEntry)
    requires
        i < ids@.len(),
    ensures
        e == offer_entry(*catalog, ids@, i as int),
{
    let id = ids[i];
    match catalog.get(id) {
        Some(card) => OfferEntry { rank: rarity_sort_rank(card.rarity), cost: card.cost, index: i, id },
        None => OfferEntry { rank: 0, cost: 0, index: i, id },
    }
}

/// The initial draft offering in display order: at most nine cards, rarest
/// first, then most expensive, ties kept in the order received.
pub fn sort_draft_offering_card_ids(card_ids: &Vec<CardId>, catalog: &CardCatalog) -> (r: Vec<CardId>)
    ensures
        exists|pos: Seq<int>| is_offering_order(*catalog, card_ids@, shown_count(card_ids@.len()), pos, r@),
{
    let n = card_ids.len();
    let m: usize = if n <= SHOP_AUCTION_UI_DRAFT_INITIAL_SLOT_COUNT {
        n
    } else {
        SHOP_AUCTION_UI_DRAFT_INITIAL_SLOT_COUNT
    };
    let ghost ids = card_ids@;
    let mut sorted: Vec<OfferEntry> = Vec::new();
    let mut i: usize = 0;
    while i < m
        invariant
            m <= n == ids.len(),
            ids == card_ids@,
            0 <= i <= m,
            sorted@.len() == i,
            forall|k: int| 0 <= k < i ==> 0 <= (#[trigger] sorted@[k]).index < i,
            forall|k: int| 0 <= k < i ==> #[trigger] sorted@[k] == offer_entry(*catalog, ids, sorted@[k].index as int),
            forall|k: int, l: int| 0 <= k < l < i ==> sorted@[k].index != sorted@[l].index,
            forall|k: int, l: int| 0 <= k < l < i ==> offer_before(#[trigger] sorted@[k], #[trigger] sorted@[l]),
        decreases m - i,
    {
        let e = entry_for(catalog, card_ids, i);
        let mut j: usize = 0;
        while j < i && !(e.rank > sorted[j].rank || (e.rank == sorted[j].rank && (e.cost > sorted[j].cost || (e.cost
            == sorted[j].cost && e.index < sorted[j].index))))
            invariant
                0 <= j <= i,
                sorted@.len() == i,
                e.index == i,
                forall|k: int| 0 <= k < j ==> !offer_before(e, #[trigger] sorted@[k]),
            decreases i - j,
        {
            j = j + 1;
        }
        proof {
            assert forall|k: int| 0 <= k < j implies offer_before(#[trigger] sorted@[k], e) by {
                lemma_before_total(sorted@[k], e);
            }
            if j < i {
                assert(offer_before(e, sorted@[j as int]));
                assert forall|k: int| j <= k < i implies offer_before(e, #[trigger] sorted@[k]) by {
                    if k > j {
                        lemma_before_transitive(e, sorted@[j as int], sorted@[k]);
                    }
                }
            }
        }
        let ghost before = sorted@;
        sorted.insert(j, e);
        proof {
            assert(sorted@ == before.insert(j as int, e));
            assert forall|k: int, l: int| 0 <= k < l < i + 1 implies offer_before(#[trigger] sorted@[k], #[trigger] sorted@[l]) by {
                if k < j && l < j {
                } else if k < j && l == j {
                } else if k < j && l > j {
                    assert(sorted@[l] == before[l - 1]);
                    assert(sorted@[k] == before[k]);
                } else if k == j {
                    assert(sorted@[l] == before[l - 1]);
                } else {
                    assert(sorted@[l] == before[l - 1]);
                    assert(sorted@[k] == before[k - 1]);
                }
            }
            assert forall|k: int, l: int| 0 <= k < l < i + 1 implies sorted@[k].index != sorted@[l].index by {
                if k < j && l < j {
                } else if k < j && l == j {
                } else if k < j && l > j {
                    assert(sorted@[l] == before[l - 1]);
                } else if k == j {
                    assert(sorted@[l] == before[l - 1]);
                } else {
                    assert(sorted@[l] == before[l - 1]);
                    assert(sorted@[k] == before[k - 1]);
                }
            }
            assert forall|k: int| 0 <= k < i + 1 implies 0 <= (#[trigger] sorted@[k]).index < i + 1 by {
                if k < j {
                } else if k > j {
                    assert(sorted@[k] == before[k - 1]);
                }
            }
            assert forall|k: int| 0 <= k < i + 1 implies #[trigger] sorted@[k] == offer_entry(*catalog, ids, sorted@[k].index as int) by {
                if k < j {
                } else if k > j {
                    assert(sorted@[k] == before[k - 1]);
                }
            }
        }
        i = i + 1;
    }

    let mut r: Vec<CardId> = Vec::new();
    let mut k: usize = 0;
    while k < m
        invariant
            0 <= k <= m,
            sorted@.len() == m,
            r@.len() == k,
            forall|q: int| 0 <= q < k ==> #[trigger] r@[q] == sorted@[q].id,
        decreases m - k,
    {
        r.push(sorted[k].id);
        k = k + 1;
    }
    proof {
        let pos = Seq::new(m as nat, |q: int| sorted@[q].index as int);
        assert forall|q: int| 0 <= q < m implies #[trigger] r@[q] == ids[pos[q]] by {
            assert(sorted@[q] == offer_entry(*catalog, ids, sorted@[q].index as int));
        }
        assert forall|q: int, l: int| 0 <= q < l < m implies offer_before(
            #[trigger] offer_entry(*catalog, ids, pos[q]),
            #[trigger] offer_entry(*catalog, ids, pos[l]),
        ) by {
            assert(sorted@[q] == offer_entry(*catalog, ids, sorted@[q].index as int));
            assert(sorted@[l] == offer_entry(*catalog, ids, sorted@[l].index as int));
            assert(offer_before(sorted@[q], sorted@[l]));
        }
        assert forall|q: int| 0 <= q < m implies 0 <= #[trigger] pos[q] < m by {
            assert(0 <= sorted@[q].index < m);
        }
        assert forall|q: int, l: int| 0 <= q < l < m implies pos[q] != pos[l] by {
            assert(sorted@[q].index != sorted@[l].index);
        }
        assert(m == shown_count(ids.len()));
        assert(is_offering_order(*catalog, ids, m as nat, pos, r@));
    }
    r
}

} // verus!
