//! Card identities, card data and the card catalog.

use vstd::prelude::*;

verus! {

/// Identifier of a card definition.
#[derive(Clone, Copy, Debug, PartialEq, Eq, Hash, Structural)]
pub struct CardId(pub u32);

/// Identifier of a session player.
#[derive(Clone, Copy, Debug, PartialEq, Eq, Hash, Structural)]
pub struct PlayerId(pub u64);

/// Card class; `Neutral` cards are shared by every class.
#[derive(Clone, Copy, Debug, PartialEq, Eq, Hash, Structural)]
pub enum ClassId {
    Iop,
    Cra,
    Ecaflip,
    Sacrier,
    Sadida,
    Xelor,
    Neutral,
}

/// Card rarity tier.
#[derive(Clone, Copy, Debug, PartialEq, Eq, Hash, Structural)]
pub enum Rarity {
    Common,
    Uncommon,
    Rare,
    Epic,
    Legendary,
}

/// Card kind.
#[derive(Clone, Copy, Debug, PartialEq, Eq, Hash, Structural)]
pub enum CardType {
    Minion,
    Spell,
    Trap,
    Field,
    Structure,
    Order,
    DoubleFace,
}

/// Pool copies of every Epic card: scarcity is fixed, not configurable.
pub const EPIC_POOL_COPIES: u32 = 1;
/// Pool copies of every Legendary card: scarcity is fixed, not configurable.
pub const LEGENDARY_POOL_COPIES: u32 = 1;

/// Static definition of one card.
#[derive(Clone, Debug)]
pub struct CardData {
    pub id: CardId,
    pub name_fr: String,
    pub name_en: String,
    pub class: ClassId,
    pub family: Option<String>,
    pub rarity: Rarity,
    pub card_type: CardType,
    pub cost: u32,
    pub atk: u32,
    pub hp: u32,
    pub mp: u32,
    pub ar: u32,
    /// Per-card pool size; values below one are ignored.
    pub pool_copies_override: Option<i32>,
}

/// All card definitions of a session, keyed by card id.
///
/// Cards are kept in ascending id order, one card per id.
pub struct CardCatalog {
    cards: Vec<CardData>,
}

/// Ids of a sequence of cards, in order.
pub open spec fn card_ids(s: Seq<CardData>) -> Seq<u32> {
    s.map_values(|c: CardData| c.id.0)
}

/// Card ids strictly ascending along the sequence.
pub open spec fn strictly_ascending(s: Seq<CardData>) -> bool {
    forall|i: int, j: int| 0 <= i < j < s.len() ==> s[i].id.0 < s[j].id.0
}

impl CardCatalog {
    #[verifier::type_invariant]
    spec fn sorted(self) -> bool {
        strictly_ascending(self.cards@)
    }

    /// The catalog's cards in ascending id order.
    pub closed spec fn entries(self) -> Seq<CardData> {
        self.cards@
    }

    /// Whether some catalog card has id `id`.
    pub open spec fn has(self, id: u32) -> bool {
        exists|i: int| 0 <= i < self.entries().len() && self.entries()[i].id.0 == id
    }

    /// The catalog card with id `id` (meaningful when `has(id)`).
    pub open spec fn card(self, id: u32) -> CardData {
        self.entries()[choose|i: int| 0 <= i < self.entries().len() && self.entries()[i].id.0 == id]
    }

    /// Catalog entries are strictly ascending by id.
    pub fn lemma_ascending(&self)
        ensures
            strictly_ascending(self.entries()),
    {
        proof {
            use_type_invariant(self);
        }
    }

    /// An empty catalog.
    pub fn new() -> (c: Self)
        ensures
            c.entries() == Seq::<CardData>::empty(),
    {
        CardCatalog { cards: Vec::new() }
    }

    /// Number of cards.
    pub fn len(&self) -> (n: usize)
        ensures
            n == self.entries().len(),
    {
        self.cards.len()
    }

    /// The card at position `index` of the ascending order.
    pub fn entry(&self, index: usize) -> (c: &CardData)
        requires
            index < self.entries().len(),
        ensures
            *c == self.entries()[index as int],
    {
        &self.cards[index]
    }

    /// Insert `card`, replacing any card with the same id.
    pub fn insert(&mut self, card: CardData)
        ensures
            final(self).has(card.id.0),
            final(self).card(card.id.0) == card,
            forall|id: u32| id != card.id.0 ==> (final(self).has(id) <==> old(self).has(id)),
            forall|id: u32| id != card.id.0 && old(self).has(id) ==> final(self).card(id) == old(self).card(id),
    {
        proof {
            use_type_invariant(&*self);
        }
        let id = card.id.0;
        let n = self.cards.len();
        let mut i: usize = 0;
        while i < n && self.cards[i].id.0 < id
            invariant
                n == self.cards@.len(),
                0 <= i <= n,
                forall|j: int| 0 <= j < i ==> self.cards@[j].id.0 < id,
            decreases n - i,
        {
            i = i + 1;
        }
        let ghost old_cards = self.cards@;
        if i < n && self.cards[i].id.0 == id {
            let mut cards: Vec<CardData> = Vec::new();
            std::mem::swap(&mut cards, &mut self.cards);
            cards.set(i, card);
            assert(cards@ == old_cards.update(i as int, card));
            assert(strictly_ascending(cards@));
            self.cards = cards;
            proof {
                assert(self.cards@[i as int].id.0 == id);
                assert forall|id2: u32| id2 != id implies (self.has(id2) <==> old(self).has(id2)) by {
                    if self.has(id2) {
                        let k = choose|k: int| 0 <= k < self.cards@.len() && self.cards@[k].id.0 == id2;
                        assert(old_cards[k].id.0 == id2);
                    }
                    if old(self).has(id2) {
                        let k = choose|k: int| 0 <= k < old_cards.len() && old_cards[k].id.0 == id2;
                        assert(self.cards@[k].id.0 == id2);
                    }
                }
                assert forall|id2: u32| id2 != id && old(self).has(id2) implies self.card(id2) == old(self).card(id2) by {
                    let k = choose|k: int| 0 <= k < self.cards@.len() && self.cards@[k].id.0 == id2;
                    let k2 = choose|k: int| 0 <= k < old_cards.len() && old_cards[k].id.0 == id2;
                    assert(old_cards[k].id.0 == id2);
                    assert(k == k2);
                }
                let k = choose|k: int| 0 <= k < self.cards@.len() && self.cards@[k].id.0 == id;
                assert(k == i);
            }
        } else {
            let mut cards: Vec<CardData> = Vec::new();
            std::mem::swap(&mut cards, &mut self.cards);
            cards.insert(i, card);
            assert(cards@ == old_cards.insert(i as int, card));
            assert(strictly_ascending(cards@));
            self.cards = cards;
            proof {
                assert(self.cards@[i as int].id.0 == id);
                assert forall|id2: u32| id2 != id implies (self.has(id2) <==> old(self).has(id2)) by {
                    if self.has(id2) {
                        let k = choose|k: int| 0 <= k < self.cards@.len() && self.cards@[k].id.0 == id2;
                        if k < i {
                            assert(old_cards[k].id.0 == id2);
                        } else {
                            assert(old_cards[k - 1].id.0 == id2);
                        }
                    }
                    if old(self).has(id2) {
                        let k = choose|k: int| 0 <= k < old_cards.len() && old_cards[k].id.0 == id2;
                        if k < i {
                            assert(self.cards@[k].id.0 == id2);
                        } else {
                            assert(self.cards@[k + 1].id.0 == id2);
                        }
                    }
                }
                assert forall|id2: u32| id2 != id && old(self).has(id2) implies self.card(id2) == old(self).card(id2) by {
                    let k = choose|k: int| 0 <= k < self.cards@.len() && self.cards@[k].id.0 == id2;
                    let k2 = choose|k: int| 0 <= k < old_cards.len() && old_cards[k].id.0 == id2;
                    if k2 < i {
                        assert(self.cards@[k2].id.0 == id2);
                        assert(k == k2);
                    } else {
                        assert(self.cards@[k2 + 1].id.0 == id2);
                        assert(k == k2 + 1);
                    }
                }
                let k = choose|k: int| 0 <= k < self.cards@.len() && self.cards@[k].id.0 == id;
                assert(k == i);
            }
        }
    }

    /// The card with id `id`, if any.
    pub fn get(&self, id: CardId) -> (r: Option<&CardData>)
        ensures
            r is Some <==> self.has(id.0),
            r matches Some(c) ==> *c == self.card(id.0),
    {
        proof {
            use_type_invariant(self);
        }
        let n = self.cards.len();
        let mut i: usize = 0;
        while i < n
            invariant
                n == self.cards@.len(),
                0 <= i <= n,
                forall|j: int| 0 <= j < i ==> self.cards@[j].id.0 != id.0,
                strictly_ascending(self.cards@),
            decreases n - i,
        {
            if self.cards[i].id.0 == id.0 {
                proof {
                    assert(self.cards@[i as int].id.0 == id.0);
                    let k = choose|k: int| 0 <= k < self.cards@.len() && self.cards@[k].id.0 == id.0;
                    assert(k == i);
                }
                return Some(&self.cards[i]);
            }
            i = i + 1;
        }
        None
    }

    /// Whether the catalog holds a card with id `id`.
    pub fn contains_key(&self, id: CardId) -> (r: bool)
        ensures
            r == self.has(id.0),
    {
        self.get(id).is_some()
    }
}

} // verus!
