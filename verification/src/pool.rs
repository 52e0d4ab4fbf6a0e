//! Per-player card pools: initialization from the catalog, read-only queries,
//! seeded draws, and `distribute`, the only operation that takes a copy out.

use std::collections::HashMap;
use vstd::prelude::*;
use crate::card::{CardCatalog, CardData, CardId, CardType, ClassId, PlayerId, Rarity, EPIC_POOL_COPIES, LEGENDARY_POOL_COPIES};
use crate::config::GameConfig;
use crate::economy::sat_sub;

verus! {

broadcast use vstd::std_specs::hash::group_hash_axioms;

/// Error returned when `distribute()` cannot take a copy.
#[derive(Debug, PartialEq, Eq, Structural)]
pub enum DistributeError {
    /// No copy of the card is left.
    Exhausted,
    /// The card is not part of this pool.
    UnknownCard,
}

/// Filter applied to `draw_random()`; `None` fields do not restrict.
pub struct PoolFilter {
    /// Restrict to one card type.
    pub card_type: Option<CardType>,
    /// Restrict to a specific class or Neutral.
    pub class: Option<ClassId>,
    /// Restrict to specific rarities.
    pub rarity: Option<Vec<Rarity>>,
    /// Maximum mana cost (inclusive).
    pub max_cost: Option<u32>,
}

impl Default for PoolFilter {
    fn default() -> (f: Self)
        ensures
            f.card_type is None,
            f.class is None,
            f.rarity is None,
            f.max_cost is None,
    {
        PoolFilter { card_type: None, class: None, rarity: None, max_cost: None }
    }
}

/// Per-player pool state, scoped to one game session, keyed by card id.
///
/// `copies_remaining` and `initial_count` share their keys, and no card has
/// more copies remaining than it started with (see `wf`).
pub struct PlayerPool {
    /// Current available copies per card id; only `distribute` lowers them.
    pub copies_remaining: HashMap<u32, u32>,
    /// Copy count at pool initialization; never changed afterwards.
    pub initial_count: HashMap<u32, u32>,
    /// Current shop display slots; `None` is an empty slot.
    pub shop_slots: Vec<Option<CardId>>,
}

/// All per-player pools of one session.
pub struct PlayerPools {
    pub pools: HashMap<u64, PlayerPool>,
}

/// Current compact shop slots per player id.
pub struct ShopSlots(pub HashMap<u64, Vec<CardId>>);

/// Initial draft offerings per player id.
pub struct InitialDraftOffering(pub HashMap<u64, Vec<CardId>>);

/// Manual shop refresh count per player id for the active draft phase.
pub struct ManualRefreshCount(pub HashMap<u64, u32>);

impl ManualRefreshCount {
    /// Reset one player's manual refresh counter to zero, adding the player
    /// when absent; other players keep their counts.
    pub fn reset_for_player(&mut self, player: PlayerId)
        ensures
            final(self).0@ == old(self).0@.insert(player.0, 0),
    {
        self.0.insert(player.0, 0);
    }
}

/// The value stored for `id`, or zero for an absent id.
pub open spec fn count_of(m: Map<u32, u32>, id: u32) -> nat {
    if m.contains_key(id) { m[id] as nat } else { 0 }
}

/// Rarity-default copy count.
pub open spec fn spec_rarity_copies(rarity: Rarity, config: GameConfig) -> u32 {
    match rarity {
        Rarity::Common => config.common_pool_copies,
        Rarity::Uncommon => config.uncommon_pool_copies,
        Rarity::Rare => config.rare_pool_copies,
        Rarity::Epic => EPIC_POOL_COPIES,
        Rarity::Legendary => LEGENDARY_POOL_COPIES,
    }
}

/// Copies a card starts with: a positive override, else the rarity default.
pub open spec fn spec_copies_for(card: CardData, config: GameConfig) -> u32 {
    match card.pool_copies_override {
        Some(n) => if n >= 1 { n as u32 } else { spec_rarity_copies(card.rarity, config) },
        None => spec_rarity_copies(card.rarity, config),
    }
}

/// Ids of the cards of `s` satisfying `p`, in the order of `s`.
pub open spec fn select_ids(s: Seq<CardData>, p: spec_fn(CardData) -> bool) -> Seq<CardId>
    decreases s.len(),
{
    if s.len() == 0 {
        Seq::empty()
    } else {
        let rest = select_ids(s.drop_last(), p);
        if p(s.last()) { rest.push(s.last().id) } else { rest }
    }
}

/// `None` for no candidates, else the candidate at the seeded index.
pub open spec fn spec_uniform_select(s: Seq<CardId>, seed: u64) -> Option<CardId> {
    if s.len() == 0 {
        None
    } else {
        Some(s[crate::seeded::chacha_index(seed, s.len() as usize) as int])
    }
}

impl PlayerPool {
    /// Copies of `id` left (zero for an unknown id).
    pub open spec fn spec_remaining(self, id: u32) -> nat {
        count_of(self.copies_remaining@, id)
    }

    /// Copies of `id` at initialization (zero for an unknown id).
    pub open spec fn spec_initial(self, id: u32) -> nat {
        count_of(self.initial_count@, id)
    }

    /// Copies of `id` distributed so far.
    pub open spec fn spec_acquired(self, id: u32) -> int {
        sat_sub(self.spec_initial(id) as int, self.spec_remaining(id) as int)
    }

    /// The pool bookkeeping rule: both maps have the same cards, and
    /// remaining plus acquired equals the initial count for every card.
    pub open spec fn wf(self) -> bool {
        &&& self.copies_remaining@.dom() == self.initial_count@.dom()
        &&& forall|id: u32| #[trigger] self.copies_remaining@.contains_key(id)
            ==> self.copies_remaining@[id] <= self.initial_count@[id]
    }

    /// Build a new pool from the catalog.
    ///
    /// Each catalog card gets `pool_copies_override` copies when that is at
    /// least one, and its rarity default from `config` otherwise.
    pub fn initialize(catalog: &CardCatalog, config: &GameConfig) -> (pool: Self)
        ensures
            forall|id: u32| pool.copies_remaining@.contains_key(id) <==> catalog.has(id),
            forall|id: u32| catalog.has(id)
                ==> pool.copies_remaining@[id] == spec_copies_for(catalog.card(id), *config),
            pool.initial_count@ == pool.copies_remaining@,
            pool.shop_slots@ == seq![None::<CardId>, None::<CardId>, None::<CardId>],
            pool.wf(),
    {
        let mut copies_remaining: HashMap<u32, u32> = HashMap::new();
        let mut initial_count: HashMap<u32, u32> = HashMap::new();
        let n = catalog.len();
        let ghost entries = catalog.entries();
        catalog.lemma_ascending();
        let mut i: usize = 0;
        while i < n
            invariant
                n == entries.len(),
                entries == catalog.entries(),
                crate::card::strictly_ascending(entries),
                0 <= i <= n,
                initial_count@ == copies_remaining@,
                forall|id: u32| copies_remaining@.contains_key(id)
                    <==> exists|j: int| 0 <= j < i && entries[j].id.0 == id,
                forall|j: int| 0 <= j < i
                    ==> copies_remaining@[#[trigger] entries[j].id.0] == spec_copies_for(entries[j], *config),
            decreases n - i,
        {
            let card = catalog.entry(i);
            let base = Self::rarity_copies(card.rarity, config);
            let copies: u32 = match card.pool_copies_override {
                Some(n) => if n >= 1 { n as u32 } else { base },
                None => base,
            };
            copies_remaining.insert(card.id.0, copies);
            initial_count.insert(card.id.0, copies);
            proof {
                assert forall|j: int| 0 <= j < i + 1
                    implies copies_remaining@[#[trigger] entries[j].id.0] == spec_copies_for(entries[j], *config) by {
                    if j < i {
                        assert(entries[j].id.0 < entries[i as int].id.0);
                    }
                }
                assert forall|id: u32| copies_remaining@.contains_key(id)
                    implies exists|j: int| 0 <= j < i + 1 && entries[j].id.0 == id by {
                    if id == card.id.0 {
                        assert(entries[i as int].id.0 == id);
                    }
                }
            }
            i = i + 1;
        }
        let mut shop_slots: Vec<Option<CardId>> = Vec::new();
        shop_slots.push(None);
        shop_slots.push(None);
        shop_slots.push(None);
        let pool = PlayerPool { copies_remaining, initial_count, shop_slots };
        proof {
            assert forall|id: u32| catalog.has(id)
                implies pool.copies_remaining@[id] == spec_copies_for(catalog.card(id), *config) by {
                let k = choose|k: int| 0 <= k < entries.len() && entries[k].id.0 == id;
                assert(copies_remaining@[entries[k].id.0] == spec_copies_for(entries[k], *config));
            }
            assert(pool.shop_slots@ =~= seq![None::<CardId>, None::<CardId>, None::<CardId>]);
        }
        pool
    }

    /// Rarity-default copy count: configured for Common, Uncommon and Rare,
    /// fixed for Epic and Legendary.
    pub fn rarity_copies(rarity: Rarity, config: &GameConfig) -> (r: u32)
        ensures
            r == spec_rarity_copies(rarity, *config),
    {
        match rarity {
            Rarity::Common => config.common_pool_copies,
            Rarity::Uncommon => config.uncommon_pool_copies,
            Rarity::Rare => config.rare_pool_copies,
            Rarity::Epic => EPIC_POOL_COPIES,
            Rarity::Legendary => LEGENDARY_POOL_COPIES,
        }
    }

    /// Whether at least one copy of `card_id` is left; `false` for unknown ids.
    pub fn is_available(&self, card_id: CardId) -> (r: bool)
        ensures
            r == (self.spec_remaining(card_id.0) > 0),
    {
        self.copies_remaining(card_id) > 0
    }

    /// Current available copy count; zero for unknown ids.
    pub fn copies_remaining(&self, card_id: CardId) -> (r: u32)
        ensures
            r == self.spec_remaining(card_id.0),
    {
        match self.copies_remaining.get(&card_id.0) {
            Some(n) => *n,
            None => 0,
        }
    }

    /// Copies distributed since initialization: initial minus remaining,
    /// floored at zero; zero for unknown ids.
    pub fn total_acquired(&self, card_id: CardId) -> (r: u32)
        ensures
            r == self.spec_acquired(card_id.0),
    {
        let initial = match self.initial_count.get(&card_id.0) {
            Some(n) => *n,
            None => 0,
        };
        let remaining = self.copies_remaining(card_id);
        initial.saturating_sub(remaining)
    }

    /// Take one copy of `card_id` out of the pool.
    ///
    /// Fails with `UnknownCard` for a card outside the pool and with
    /// `Exhausted` when no copy is left; the pool is unchanged on failure.
    pub fn distribute(&mut self, card_id: CardId) -> (r: Result<(), DistributeError>)
        ensures
            !old(self).copies_remaining@.contains_key(card_id.0)
                ==> r == Err::<(), DistributeError>(DistributeError::UnknownCard),
            old(self).copies_remaining@.contains_key(card_id.0) && old(self).copies_remaining@[card_id.0] == 0
                ==> r == Err::<(), DistributeError>(DistributeError::Exhausted),
            r is Ok <==> old(self).spec_remaining(card_id.0) > 0,
            r is Ok ==> final(self).copies_remaining@
                == old(self).copies_remaining@.insert(card_id.0, (old(self).copies_remaining@[card_id.0] - 1) as u32),
            r is Err ==> final(self).copies_remaining@ == old(self).copies_remaining@,
            final(self).initial_count@ == old(self).initial_count@,
            final(self).shop_slots@ == old(self).shop_slots@,
            old(self).wf() ==> final(self).wf(),
    {
        let current = match self.copies_remaining.get(&card_id.0) {
            None => return Err(DistributeError::UnknownCard),
            Some(n) => *n,
        };
        if current == 0 {
            return Err(DistributeError::Exhausted);
        }
        self.copies_remaining.insert(card_id.0, current - 1);
        assert(self.copies_remaining@.dom() =~= old(self).copies_remaining@.dom());
        Ok(())
    }
}

/// Family name to card ids; a later entry for the same name shadows earlier ones.
pub struct FamilyIndex {
    pub entries: Vec<(String, Vec<CardId>)>,
}

/// Position of the last entry named `name` (meaningful when one exists).
pub open spec fn last_family_position(e: Seq<(String, Vec<CardId>)>, name: Seq<char>) -> int {
    choose|i: int| 0 <= i < e.len() && e[i].0@ == name
        && forall|j: int| i < j < e.len() ==> e[j].0@ != name
}

/// The card ids listed under `name`, if any entry has that name.
pub open spec fn family_members(e: Seq<(String, Vec<CardId>)>, name: Seq<char>) -> Option<Seq<CardId>> {
    if exists|i: int| 0 <= i < e.len() && e[i].0@ == name {
        Some(e[last_family_position(e, name)].1@)
    } else {
        None
    }
}

/// The occurrences of `id` in `list`, in order.
pub open spec fn occurrences(list: Seq<CardId>, id: CardId) -> Seq<CardId>
    decreases list.len(),
{
    if list.len() == 0 {
        Seq::empty()
    } else {
        let rest = occurrences(list.drop_last(), id);
        if list.last() == id { rest.push(id) } else { rest }
    }
}

/// For each catalog card satisfying `p`, in ascending id order, every
/// occurrence of its id in `list`: the sorted list of `list` entries that
/// name a catalog card satisfying `p`.
pub open spec fn listed_in_catalog_order(s: Seq<CardData>, list: Seq<CardId>, p: spec_fn(CardData) -> bool) -> Seq<CardId>
    decreases s.len(),
{
    if s.len() == 0 {
        Seq::empty()
    } else {
        let rest = listed_in_catalog_order(s.drop_last(), list, p);
        if p(s.last()) { rest + occurrences(list, s.last().id) } else { rest }
    }
}

/// Whether `card` passes every restriction of `filter`.
pub open spec fn card_matches_filter(card: CardData, filter: PoolFilter) -> bool {
    &&& (filter.card_type matches Some(t) ==> card.card_type == t)
    &&& (filter.class matches Some(c) ==> card.class == c)
    &&& (filter.rarity matches Some(v) ==> v@.contains(card.rarity))
    &&& (filter.max_cost matches Some(m) ==> card.cost <= m)
}

/// Whether `id` names a catalog card passing `filter`.
pub open spec fn spec_matches_filter(id: CardId, catalog: CardCatalog, filter: PoolFilter) -> bool {
    catalog.has(id.0) && card_matches_filter(catalog.card(id.0), filter)
}

/// Ids of catalog cards, in ascending order, for which `keep` holds.
fn select_catalog_ids<F: Fn(&CardData) -> bool>(
    catalog: &CardCatalog,
    keep: F,
    Ghost(p): Ghost<spec_fn(CardData) -> bool>,
) -> (r: Vec<CardId>)
    requires
        forall|c: &CardData| #[trigger] call_requires(keep, (c,)),
        forall|c: &CardData, b: bool| call_ensures(keep, (c,), b) ==> b == p(*c),
    ensures
        r@ == select_ids(catalog.entries(), p),
{
    let n = catalog.len();
    let mut out: Vec<CardId> = Vec::new();
    let mut i: usize = 0;
    while i < n
        invariant
            n == catalog.entries().len(),
            0 <= i <= n,
            out@ == select_ids(catalog.entries().take(i as int), p),
            forall|c: &CardData| #[trigger] call_requires(keep, (c,)),
            forall|c: &CardData, b: bool| call_ensures(keep, (c,), b) ==> b == p(*c),
        decreases n - i,
    {
        let c = catalog.entry(i);
        let ghost e = catalog.entries();
        assert(e.take(i + 1).drop_last() =~= e.take(i as int));
        assert(e.take(i + 1).last() == e[i as int]);
        if keep(c) {
            out.push(c.id);
        }
        i = i + 1;
    }
    assert(catalog.entries().take(n as int) =~= catalog.entries());
    out
}

/// `select_ids` yields nothing exactly when no card satisfies the predicate.
pub(crate) proof fn lemma_select_ids_empty(s: Seq<CardData>, p: spec_fn(CardData) -> bool)
    ensures
        select_ids(s, p).len() == 0 <==> forall|j: int| 0 <= j < s.len() ==> !p(#[trigger] s[j]),
    decreases s.len(),
{
    if s.len() > 0 {
        lemma_select_ids_empty(s.drop_last(), p);
        if select_ids(s, p).len() == 0 {
            assert forall|j: int| 0 <= j < s.len() implies !p(#[trigger] s[j]) by {
                if j < s.len() - 1 {
                    assert(s.drop_last()[j] == s[j]);
                }
            }
        } else if forall|j: int| 0 <= j < s.len() ==> !p(#[trigger] s[j]) {
            assert forall|j: int| 0 <= j < s.drop_last().len() implies !p(#[trigger] s.drop_last()[j]) by {
                assert(s.drop_last()[j] == s[j]);
            }
            assert(!p(s[s.len() - 1]));
        }
    }
}

/// A candidate picked from `select_ids` is the id of a card satisfying the
/// predicate.
proof fn lemma_selected_candidate(s: Seq<CardData>, p: spec_fn(CardData) -> bool, x: CardId)
    requires
        exists|i: int| 0 <= i < select_ids(s, p).len() && select_ids(s, p)[i] == x,
    ensures
        exists|j: int| 0 <= j < s.len() && #[trigger] s[j].id == x && p(s[j]),
{
    let i = choose|i: int| 0 <= i < select_ids(s, p).len() && select_ids(s, p)[i] == x;
    law_selected_ids_satisfy(s, p, i);
}

/// Uniformly pick one of `eligible` with the seeded draw; `None` when empty.
fn uniform_select(eligible: &Vec<CardId>, seed: u64) -> (r: Option<CardId>)
    ensures
        r == spec_uniform_select(eligible@, seed),
        r is None <==> eligible@.len() == 0,
        r matches Some(x) ==> exists|i: int| 0 <= i < eligible@.len() && eligible@[i] == x,
{
    if eligible.len() == 0 {
        return None;
    }
    let index = crate::seeded::seeded_index(seed, eligible.len());
    assert(eligible@[index as int] == eligible@[index as int]);
    Some(eligible[index])
}

/// Whether `id` names a catalog card that passes every restriction of `filter`.
pub fn matches_filter(id: &CardId, catalog: &CardCatalog, filter: &PoolFilter) -> (r: bool)
    ensures
        r == spec_matches_filter(*id, *catalog, *filter),
{
    let card = match catalog.get(*id) {
        Some(card) => card,
        None => return false,
    };
    if let Some(card_type) = filter.card_type {
        if card.card_type != card_type {
            return false;
        }
    }
    if let Some(class) = filter.class {
        if card.class != class {
            return false;
        }
    }
    if let Some(rarities) = &filter.rarity {
        let n = rarities.len();
        let mut found = false;
        let mut j: usize = 0;
        while j < n
            invariant
                n == rarities@.len(),
                0 <= j <= n,
                found == exists|k: int| 0 <= k < j && rarities@[k] == card.rarity,
            decreases n - j,
        {
            if rarities[j] == card.rarity {
                found = true;
            }
            j = j + 1;
        }
        if !found {
            return false;
        }
        assert(rarities@.contains(card.rarity));
    }
    if let Some(max_cost) = filter.max_cost {
        if card.cost > max_cost {
            return false;
        }
    }
    true
}

impl PlayerPool {
    /// Ids of the catalog cards of `player_class` with a copy left, ascending:
    /// the candidates of a class shop draw.
    pub fn class_draw_candidates(&self, catalog: &CardCatalog, player_class: ClassId) -> (r: Vec<CardId>)
        ensures
            r@ == select_ids(catalog.entries(),
                |c: CardData| c.class == player_class && self.spec_remaining(c.id.0) > 0),
    {
        let keep = |c: &CardData| -> (b: bool)
            ensures
                b == (c.class == player_class && self.spec_remaining(c.id.0) > 0),
        { c.class == player_class && self.copies_remaining(c.id) > 0 };
        select_catalog_ids(catalog, keep,
            Ghost(|c: CardData| c.class == player_class && self.spec_remaining(c.id.0) > 0))
    }

    /// Ids of the catalog cards with a copy left that are not already in
    /// `drawn`, ascending: the candidates of one shop-refresh slot.
    pub fn refresh_candidates(&self, catalog: &CardCatalog, drawn: &Vec<CardId>) -> (r: Vec<CardId>)
        ensures
            r@ == select_ids(catalog.entries(),
                |c: CardData| self.spec_remaining(c.id.0) > 0 && !drawn@.contains(c.id)),
    {
        let keep = |c: &CardData| -> (b: bool)
            ensures
                b == (self.spec_remaining(c.id.0) > 0 && !drawn@.contains(c.id)),
        {
            if self.copies_remaining(c.id) == 0 {
                return false;
            }
            let n = drawn.len();
            let mut j: usize = 0;
            while j < n
                invariant
                    n == drawn@.len(),
                    0 <= j <= n,
                    forall|k: int| 0 <= k < j ==> drawn@[k] != c.id,
                decreases n - j,
            {
                if drawn[j] == c.id {
                    assert(drawn@[j as int] == c.id);
                    return false;
                }
                j = j + 1;
            }
            true
        };
        select_catalog_ids(catalog, keep,
            Ghost(|c: CardData| self.spec_remaining(c.id.0) > 0 && !drawn@.contains(c.id)))
    }

    /// Copies distributed so far of each of `ids`, in the same order.
    pub fn acquired_counts(&self, ids: &Vec<CardId>) -> (r: Vec<u32>)
        ensures
            r@.len() == ids@.len(),
            forall|i: int| 0 <= i < ids@.len() ==> r@[i] == self.spec_acquired(#[trigger] ids@[i].0),
    {
        let n = ids.len();
        let mut out: Vec<u32> = Vec::new();
        let mut i: usize = 0;
        while i < n
            invariant
                n == ids@.len(),
                0 <= i <= n,
                out@.len() == i,
                forall|k: int| 0 <= k < i ==> out@[k] == self.spec_acquired(#[trigger] ids@[k].0),
            decreases n - i,
        {
            let a = self.total_acquired(ids[i]);
            out.push(a);
            i = i + 1;
        }
        out
    }

    /// Uniformly draw from the shared neutral auction pool.
    ///
    /// Candidates are the Neutral Rare and Neutral Legendary catalog cards with
    /// a copy left in `auction_pool`, ascending by id.
    pub fn draw_auction_card(auction_pool: &PlayerPool, catalog: &CardCatalog, seed: u64) -> (r: Option<CardId>)
        ensures
            r == spec_uniform_select(select_ids(catalog.entries(), |c: CardData|
                c.class == ClassId::Neutral && (c.rarity == Rarity::Rare || c.rarity == Rarity::Legendary)
                    && auction_pool.spec_remaining(c.id.0) > 0), seed),
            r is None <==> forall|j: int| 0 <= j < catalog.entries().len() ==> !(#[trigger] catalog.entries()[j].class
                == ClassId::Neutral && (catalog.entries()[j].rarity == Rarity::Rare || catalog.entries()[j].rarity
                == Rarity::Legendary) && auction_pool.spec_remaining(catalog.entries()[j].id.0) > 0),
            r matches Some(id) ==> exists|j: int| 0 <= j < catalog.entries().len() && #[trigger] catalog.entries()[j].id
                == id && catalog.entries()[j].class == ClassId::Neutral && (catalog.entries()[j].rarity == Rarity::Rare
                || catalog.entries()[j].rarity == Rarity::Legendary) && auction_pool.spec_remaining(id.0) > 0,
    {
        let keep = |c: &CardData| -> (b: bool)
            ensures
                b == (c.class == ClassId::Neutral && (c.rarity == Rarity::Rare || c.rarity == Rarity::Legendary)
                    && auction_pool.spec_remaining(c.id.0) > 0),
        {
            c.class == ClassId::Neutral && (c.rarity == Rarity::Rare || c.rarity == Rarity::Legendary)
                && auction_pool.copies_remaining(c.id) > 0
        };
        let ghost p = |c: CardData|
            c.class == ClassId::Neutral && (c.rarity == Rarity::Rare || c.rarity == Rarity::Legendary)
                && auction_pool.spec_remaining(c.id.0) > 0;
        let eligible = select_catalog_ids(catalog, keep, Ghost(p));
        let r = uniform_select(&eligible, seed);
        proof {
            lemma_select_ids_empty(catalog.entries(), p);
            if let Some(x) = r {
                lemma_selected_candidate(catalog.entries(), p, x);
            }
        }
        r
    }

    /// Uniformly draw an available card matching `filter`; never changes the pool.
    ///
    /// Candidates are the catalog cards with a copy left that match `filter`,
    /// ascending by id.
    pub fn draw_random(&self, catalog: &CardCatalog, filter: &PoolFilter, seed: u64) -> (r: Option<CardId>)
        ensures
            r == spec_uniform_select(select_ids(catalog.entries(), |c: CardData|
                self.spec_remaining(c.id.0) > 0 && spec_matches_filter(c.id, *catalog, *filter)), seed),
            r is None <==> forall|j: int| 0 <= j < catalog.entries().len() ==> !(self.spec_remaining(
                #[trigger] catalog.entries()[j].id.0) > 0 && spec_matches_filter(catalog.entries()[j].id, *catalog,
                *filter)),
            r matches Some(id) ==> self.spec_remaining(id.0) > 0 && spec_matches_filter(id, *catalog, *filter),
    {
        let keep = |c: &CardData| -> (b: bool)
            ensures
                b == (self.spec_remaining(c.id.0) > 0 && spec_matches_filter(c.id, *catalog, *filter)),
        { self.copies_remaining(c.id) > 0 && matches_filter(&c.id, catalog, filter) };
        let ghost p = |c: CardData| self.spec_remaining(c.id.0) > 0 && spec_matches_filter(c.id, *catalog, *filter);
        let eligible = select_catalog_ids(catalog, keep, Ghost(p));
        let r = uniform_select(&eligible, seed);
        proof {
            lemma_select_ids_empty(catalog.entries(), p);
            if let Some(x) = r {
                lemma_selected_candidate(catalog.entries(), p, x);
            }
        }
        r
    }
}

impl FamilyIndex {
    /// The card ids listed under `family` (the last entry of that name).
    pub fn members(&self, family: &String) -> (r: Option<&Vec<CardId>>)
        ensures
            r matches Some(v) ==> family_members(self.entries@, family@) == Some(v@),
            r is None ==> family_members(self.entries@, family@) is None,
    {
        let n = self.entries.len();
        let mut found: Option<usize> = None;
        let mut i: usize = 0;
        while i < n
            invariant
                n == self.entries@.len(),
                0 <= i <= n,
                found matches Some(k) ==> k < i && self.entries@[k as int].0@ == family@
                    && forall|j: int| k < j < i ==> self.entries@[j].0@ != family@,
                found is None ==> forall|j: int| 0 <= j < i ==> self.entries@[j].0@ != family@,
            decreases n - i,
        {
            if self.entries[i].0 == *family {
                found = Some(i);
            }
            i = i + 1;
        }
        match found {
            Some(k) => {
                proof {
                    let e = self.entries@;
                    assert(0 <= k < e.len() && e[k as int].0@ == family@);
                    let p = last_family_position(e, family@);
                    if p < k {
                        assert(e[k as int].0@ != family@);
                    }
                    if p > k {
                        assert(e[p].0@ != family@);
                    }
                }
                Some(&self.entries[k].1)
            },
            None => None,
        }
    }
}

/// The occurrences of `id` in `list`, in order, appended to `out`.
fn push_occurrences(out: &mut Vec<CardId>, list: &Vec<CardId>, id: CardId)
    ensures
        final(out)@ == old(out)@ + occurrences(list@, id),
{
    let n = list.len();
    let ghost base = out@;
    let mut j: usize = 0;
    while j < n
        invariant
            n == list@.len(),
            0 <= j <= n,
            out@ == base + occurrences(list@.take(j as int), id),
        decreases n - j,
    {
        assert(list@.take(j + 1).drop_last() =~= list@.take(j as int));
        if list[j] == id {
            out.push(id);
            assert(out@ =~= base + occurrences(list@.take(j + 1), id));
        }
        j = j + 1;
    }
    assert(list@.take(n as int) =~= list@);
}

/// `id` occurs in `occurrences(list, id)` exactly when it is listed, and no
/// other id occurs there.
proof fn lemma_occurrences_contains(list: Seq<CardId>, id: CardId, x: CardId)
    ensures
        occurrences(list, id).contains(x) <==> x == id && list.contains(id),
    decreases list.len(),
{
    if list.len() > 0 {
        let rest = list.drop_last();
        lemma_occurrences_contains(rest, id, x);
        if list.last() == id {
            assert(occurrences(list, id) == occurrences(rest, id).push(id));
            if x == id {
                assert(occurrences(list, id)[occurrences(rest, id).len() as int] == id);
                assert(list[list.len() - 1] == id);
            }
        }
        if rest.contains(id) {
            let k = choose|k: int| 0 <= k < rest.len() && rest[k] == id;
            assert(list[k] == id);
        }
        if list.contains(id) && list.last() != id {
            let k = choose|k: int| 0 <= k < list.len() && list[k] == id;
            assert(rest[k] == id);
        }
        if occurrences(list, id).contains(x) && list.last() == id && !occurrences(rest, id).contains(x) {
            let k = choose|k: int| 0 <= k < occurrences(list, id).len() && occurrences(list, id)[k] == x;
            assert(k == occurrences(rest, id).len());
        }
        if occurrences(rest, id).contains(x) && list.last() == id {
            let k = choose|k: int| 0 <= k < occurrences(rest, id).len() && occurrences(rest, id)[k] == x;
            assert(occurrences(list, id)[k] == x);
        }
    }
}

/// An id appears in `listed_in_catalog_order(s, list, p)` exactly when it is
/// listed and names a card of `s` satisfying `p`.
proof fn lemma_listed_contains(s: Seq<CardData>, list: Seq<CardId>, p: spec_fn(CardData) -> bool, x: CardId)
    ensures
        listed_in_catalog_order(s, list, p).contains(x) <==> list.contains(x)
            && exists|j: int| 0 <= j < s.len() && #[trigger] s[j].id == x && p(s[j]),
    decreases s.len(),
{
    if s.len() > 0 {
        let rest = s.drop_last();
        let c = s.last();
        lemma_listed_contains(rest, list, p, x);
        lemma_occurrences_contains(list, c.id, x);
        let a = listed_in_catalog_order(rest, list, p);
        if p(c) {
            let b = occurrences(list, c.id);
            assert(listed_in_catalog_order(s, list, p) == a + b);
            if (a + b).contains(x) {
                let k = choose|k: int| 0 <= k < (a + b).len() && (a + b)[k] == x;
                if k < a.len() {
                    assert(a[k] == x);
                } else {
                    assert(b[k - a.len()] == x);
                    assert(s[s.len() - 1].id == x);
                }
            }
            if a.contains(x) {
                let k = choose|k: int| 0 <= k < a.len() && a[k] == x;
                assert((a + b)[k] == x);
            }
            if b.contains(x) {
                let k = choose|k: int| 0 <= k < b.len() && b[k] == x;
                assert((a + b)[a.len() + k] == x);
            }
        }
        if exists|j: int| 0 <= j < s.len() && #[trigger] s[j].id == x && p(s[j]) {
            let j = choose|j: int| 0 <= j < s.len() && #[trigger] s[j].id == x && p(s[j]);
            if j < rest.len() {
                assert(rest[j] == s[j]);
            }
        }
        if exists|j: int| 0 <= j < rest.len() && #[trigger] rest[j].id == x && p(rest[j]) {
            let j = choose|j: int| 0 <= j < rest.len() && #[trigger] rest[j].id == x && p(rest[j]);
            assert(s[j] == rest[j]);
        }
    }
}

impl PlayerPool {
    /// Uniformly draw one available Neutral card from a family.
    ///
    /// Candidates are the entries of the family's list that name a Neutral
    /// catalog card with a copy left, sorted by id; `None` for an unknown
    /// family or when no candidate remains.
    pub fn draw_family_card(&self, family: &String, catalog: &CardCatalog, family_index: &FamilyIndex, seed: u64)
        -> (r: Option<CardId>)
        ensures
            family_members(family_index.entries@, family@) is None ==> r is None,
            family_members(family_index.entries@, family@) matches Some(list) ==>
                r == spec_uniform_select(listed_in_catalog_order(catalog.entries(), list,
                    |c: CardData| c.class == ClassId::Neutral && self.spec_remaining(c.id.0) > 0), seed),
            family_members(family_index.entries@, family@) matches Some(list) ==> (r matches Some(id) ==> {
                &&& list.contains(id)
                &&& catalog.has(id.0)
                &&& catalog.card(id.0).class == ClassId::Neutral
                &&& self.spec_remaining(id.0) > 0
            }),
            family_members(family_index.entries@, family@) matches Some(list) ==> (r is None <==> !exists|k: int|
                0 <= k < list.len() && catalog.has(#[trigger] list[k].0) && catalog.card(list[k].0).class
                    == ClassId::Neutral && self.spec_remaining(list[k].0) > 0),
    {
        catalog.lemma_ascending();
        let list = match family_index.members(family) {
            Some(list) => list,
            None => return None,
        };
        let ghost p = |c: CardData| c.class == ClassId::Neutral && self.spec_remaining(c.id.0) > 0;
        let n = catalog.len();
        let mut eligible: Vec<CardId> = Vec::new();
        let mut i: usize = 0;
        while i < n
            invariant
                n == catalog.entries().len(),
                0 <= i <= n,
                eligible@ == listed_in_catalog_order(catalog.entries().take(i as int), list@, p),
                p == (|c: CardData| c.class == ClassId::Neutral && self.spec_remaining(c.id.0) > 0),
            decreases n - i,
        {
            let c = catalog.entry(i);
            let ghost e = catalog.entries();
            assert(e.take(i + 1).drop_last() =~= e.take(i as int));
            assert(e.take(i + 1).last() == e[i as int]);
            if c.class == ClassId::Neutral && self.copies_remaining(c.id) > 0 {
                push_occurrences(&mut eligible, list, c.id);
            }
            i = i + 1;
        }
        assert(catalog.entries().take(n as int) =~= catalog.entries());
        let r = uniform_select(&eligible, seed);
        proof {
            let e = catalog.entries();
            if let Some(x) = r {
                let i = choose|i: int| 0 <= i < eligible@.len() && eligible@[i] == x;
                assert(eligible@.contains(x));
                lemma_listed_contains(e, list@, p, x);
                let j = choose|j: int| 0 <= j < e.len() && #[trigger] e[j].id == x && p(e[j]);
                assert(catalog.has(x.0));
                let j2 = choose|j2: int| 0 <= j2 < e.len() && e[j2].id.0 == x.0;
                if j2 < j {
                    assert(e[j2].id.0 < e[j].id.0);
                } else if j < j2 {
                    assert(e[j].id.0 < e[j2].id.0);
                }
            } else {
                if exists|k: int| 0 <= k < list@.len() && catalog.has(#[trigger] list@[k].0)
                    && catalog.card(list@[k].0).class == ClassId::Neutral && self.spec_remaining(list@[k].0) > 0 {
                    let k = choose|k: int| 0 <= k < list@.len() && catalog.has(#[trigger] list@[k].0)
                        && catalog.card(list@[k].0).class == ClassId::Neutral && self.spec_remaining(list@[k].0) > 0;
                    let x = list@[k];
                    let j = choose|j: int| 0 <= j < e.len() && e[j].id.0 == x.0;
                    assert(e[j].id == x);
                    assert(p(e[j]));
                    assert(list@.contains(x));
                    lemma_listed_contains(e, list@, p, x);
                    let m = choose|m: int| 0 <= m < eligible@.len() && eligible@[m] == x;
                    assert(false);
                }
            }
        }
        r
    }

    /// Whether some id of `ids` names a Neutral catalog card with a copy left:
    /// a family that passes this takes part in the neutral family draw.
    pub fn family_has_available_neutral(&self, catalog: &CardCatalog, ids: &Vec<CardId>) -> (r: bool)
        ensures
            r == exists|k: int| 0 <= k < ids@.len() && catalog.has(#[trigger] ids@[k].0)
                && catalog.card(ids@[k].0).class == ClassId::Neutral && self.spec_remaining(ids@[k].0) > 0,
    {
        let n = ids.len();
        let mut i: usize = 0;
        while i < n
            invariant
                n == ids@.len(),
                0 <= i <= n,
                forall|k: int| 0 <= k < i ==> !(catalog.has(#[trigger] ids@[k].0)
                    && catalog.card(ids@[k].0).class == ClassId::Neutral && self.spec_remaining(ids@[k].0) > 0),
            decreases n - i,
        {
            let id = ids[i];
            match catalog.get(id) {
                Some(card) => {
                    if card.class == ClassId::Neutral && self.copies_remaining(id) > 0 {
                        assert(catalog.has(ids@[i as int].0));
                        return true;
                    }
                },
                None => {},
            }
            i = i + 1;
        }
        false
    }

    /// Copies of the cards of `ids` distributed so far, summed: the weight
    /// input of a family in the neutral family draw. `None` when the sum
    /// does not fit in a `u32`.
    pub fn family_acquired_total(&self, ids: &Vec<CardId>) -> (r: Option<u32>)
        ensures
            r matches Some(t) ==> t == acquired_sum(*self, ids@),
            r is None ==> acquired_sum(*self, ids@) > u32::MAX,
    {
        let n = ids.len();
        let mut total: u32 = 0;
        let mut i: usize = 0;
        while i < n
            invariant
                n == ids@.len(),
                0 <= i <= n,
                total == acquired_sum(*self, ids@.take(i as int)),
            decreases n - i,
        {
            assert(ids@.take(i + 1).drop_last() =~= ids@.take(i as int));
            let a = self.total_acquired(ids[i]);
            if a > u32::MAX - total {
                proof {
                    lemma_acquired_sum_prefix(*self, ids@, i as int + 1);
                }
                return None;
            }
            total = total + a;
            i = i + 1;
        }
        assert(ids@.take(n as int) =~= ids@);
        Some(total)
    }

    /// Draw distinct card ids for the initial draft offering; never changes
    /// the pool.
    ///
    /// Candidates are the catalog cards of `class` and the Neutral cards,
    /// ascending by id; they are shuffled with `seed` and the first `count`
    /// are kept.
    pub fn draw_initial_draft(&self, catalog: &CardCatalog, class: ClassId, count: u8, seed: u64)
        -> (r: Vec<CardId>)
        ensures
            r@ == spec_initial_draft(catalog.entries(), class, count, seed),
            r@.no_duplicates(),
            r@.len() == if (count as int) < select_ids(catalog.entries(),
                |c: CardData| c.class == class || c.class == ClassId::Neutral).len() {
                count as int
            } else {
                select_ids(catalog.entries(), |c: CardData| c.class == class || c.class == ClassId::Neutral).len() as int
            },
            forall|k: int| 0 <= k < r@.len() ==> names_class_or_neutral(catalog.entries(), class, #[trigger] r@[k]),
    {
        catalog.lemma_ascending();
        let keep = |c: &CardData| -> (b: bool)
            ensures
                b == (c.class == class || c.class == ClassId::Neutral),
        { c.class == class || c.class == ClassId::Neutral };
        let eligible = select_catalog_ids(catalog, keep,
            Ghost(|c: CardData| c.class == class || c.class == ClassId::Neutral));
        let raw = card_ids_to_u32(&eligible);
        let shuffled = crate::seeded::seeded_shuffle(raw, seed);
        proof {
            law_initial_draft_distinct_class_or_neutral(catalog.entries(), class, count, seed, shuffled@);
        }
        let n = shuffled.len();
        let take = if (count as usize) < n { count as usize } else { n };
        let mut out: Vec<CardId> = Vec::new();
        let mut i: usize = 0;
        while i < take
            invariant
                take <= n,
                n == shuffled@.len(),
                0 <= i <= take,
                out@ == shuffled@.take(i as int).map_values(|x: u32| CardId(x)),
            decreases take - i,
        {
            out.push(CardId(shuffled[i]));
            assert(shuffled@.take(i + 1) =~= shuffled@.take(i as int).push(shuffled@[i as int]));
            assert(out@ =~= shuffled@.take(i + 1).map_values(|x: u32| CardId(x)));
            i = i + 1;
        }
        proof {
            let d = spec_initial_draft(catalog.entries(), class, count, seed);
            assert(out@ =~= d);
            assert forall|k: int| 0 <= k < out@.len() implies names_class_or_neutral(catalog.entries(), class,
                #[trigger] out@[k]) by {
                assert(out@[k] == d[k]);
                let j = choose|j: int| 0 <= j < catalog.entries().len() && catalog.entries()[j].id == d[k]
                    && (catalog.entries()[j].class == class || catalog.entries()[j].class == ClassId::Neutral);
            }
        }
        out
    }
}

/// `id` names a catalog card of `class` or a Neutral one.
pub open spec fn names_class_or_neutral(entries: Seq<CardData>, class: ClassId, id: CardId) -> bool {
    exists|i: int| 0 <= i < entries.len() && entries[i].id == id
        && (entries[i].class == class || entries[i].class == ClassId::Neutral)
}

/// Sum of the acquired counts of `ids` (duplicates counted each time).
pub open spec fn acquired_sum(pool: PlayerPool, ids: Seq<CardId>) -> int
    decreases ids.len(),
{
    if ids.len() == 0 {
        0
    } else {
        acquired_sum(pool, ids.drop_last()) + pool.spec_acquired(ids.last().0)
    }
}

/// The sum over a prefix never exceeds the sum over the whole sequence.
proof fn lemma_acquired_sum_prefix(pool: PlayerPool, ids: Seq<CardId>, k: int)
    requires
        0 <= k <= ids.len(),
    ensures
        acquired_sum(pool, ids.take(k)) <= acquired_sum(pool, ids),
    decreases ids.len() - k,
{
    if k < ids.len() {
        lemma_acquired_sum_prefix(pool, ids, k + 1);
        assert(ids.take(k + 1).drop_last() =~= ids.take(k));
    } else {
        assert(ids.take(k) =~= ids);
    }
}

/// The raw values of card ids.
pub open spec fn ids_as_u32(s: Seq<CardId>) -> Seq<u32> {
    s.map_values(|c: CardId| c.0)
}

/// The initial draft: class and Neutral catalog ids, ascending, shuffled
/// with `seed`, first `count` of them.
pub open spec fn spec_initial_draft(entries: Seq<CardData>, class: ClassId, count: u8, seed: u64) -> Seq<CardId> {
    let eligible = select_ids(entries, |c: CardData| c.class == class || c.class == ClassId::Neutral);
    let shuffled = crate::seeded::chacha_shuffle(seed, ids_as_u32(eligible));
    let take = if (count as int) < shuffled.len() { count as int } else { shuffled.len() as int };
    shuffled.take(take).map_values(|x: u32| CardId(x))
}

fn card_ids_to_u32(ids: &Vec<CardId>) -> (r: Vec<u32>)
    ensures
        r@ == ids_as_u32(ids@),
{
    let n = ids.len();
    let mut out: Vec<u32> = Vec::new();
    let mut i: usize = 0;
    while i < n
        invariant
            n == ids@.len(),
            0 <= i <= n,
            out@ == ids_as_u32(ids@.take(i as int)),
        decreases n - i,
    {
        out.push(ids[i].0);
        assert(ids_as_u32(ids@.take(i + 1)) =~= ids_as_u32(ids@.take(i as int)).push(ids@[i as int].0));
        i = i + 1;
    }
    assert(ids@.take(n as int) =~= ids@);
    out
}

/// In a well-formed pool, every card's remaining copies plus its acquired
/// copies equal its initial count.
pub proof fn law_remaining_plus_acquired_is_initial(pool: PlayerPool, id: u32)
    requires
        pool.wf(),
    ensures
        pool.spec_remaining(id) + pool.spec_acquired(id) == pool.spec_initial(id),
{
}

/// A successful `distribute` of `id` (its postcondition, stated on the maps)
/// moves exactly one copy of `id` from remaining to acquired and leaves every
/// other card as it was.
pub proof fn law_distribute_moves_one_copy(before: PlayerPool, after: PlayerPool, id: u32, other: u32)
    requires
        before.wf(),
        before.spec_remaining(id) > 0,
        after.copies_remaining@ == before.copies_remaining@.insert(id, (before.copies_remaining@[id] - 1) as u32),
        after.initial_count@ == before.initial_count@,
        other != id,
    ensures
        after.spec_remaining(id) == before.spec_remaining(id) - 1,
        after.spec_acquired(id) == before.spec_acquired(id) + 1,
        after.spec_remaining(other) == before.spec_remaining(other),
        after.spec_acquired(other) == before.spec_acquired(other),
{
}

/// With positive configured copy counts, every catalog card starts with at
/// least one copy.
pub proof fn law_initial_copies_positive(card: CardData, config: GameConfig)
    requires
        config.common_pool_copies >= 1,
        config.uncommon_pool_copies >= 1,
        config.rare_pool_copies >= 1,
    ensures
        spec_copies_for(card, config) >= 1,
{
}

/// Every id that `select_ids` yields belongs to a card of the input that
/// satisfies the predicate.
pub proof fn law_selected_ids_satisfy(s: Seq<CardData>, p: spec_fn(CardData) -> bool, k: int)
    requires
        0 <= k < select_ids(s, p).len(),
    ensures
        exists|i: int| 0 <= i < s.len() && s[i].id == select_ids(s, p)[k] && p(s[i]),
    decreases s.len(),
{
    let rest = select_ids(s.drop_last(), p);
    if k < rest.len() {
        law_selected_ids_satisfy(s.drop_last(), p, k);
        let i = choose|i: int| 0 <= i < s.drop_last().len() && s.drop_last()[i].id == rest[k] && p(s.drop_last()[i]);
        assert(s[i] == s.drop_last()[i]);
    } else {
        assert(s[s.len() - 1].id == select_ids(s, p)[k]);
    }
}

/// Ids selected from cards in strictly ascending id order are strictly
/// ascending, hence distinct.
pub proof fn law_selected_ids_ascending(s: Seq<CardData>, p: spec_fn(CardData) -> bool)
    requires
        crate::card::strictly_ascending(s),
    ensures
        forall|a: int, b: int| 0 <= a < b < select_ids(s, p).len()
            ==> select_ids(s, p)[a].0 < select_ids(s, p)[b].0,
        select_ids(s, p).no_duplicates(),
    decreases s.len(),
{
    if s.len() > 0 {
        law_selected_ids_ascending(s.drop_last(), p);
        let rest = select_ids(s.drop_last(), p);
        if p(s.last()) {
            assert forall|k: int| 0 <= k < rest.len() implies rest[k].0 < s.last().id.0 by {
                law_selected_ids_satisfy(s.drop_last(), p, k);
            }
        }
    }
}

/// A uniform draw yields `None` exactly when there is no candidate, and
/// otherwise one of the candidates.
pub proof fn law_uniform_select_picks_candidate(s: Seq<CardId>, seed: u64, index: usize)
    requires
        s.len() > 0 ==> index == crate::seeded::chacha_index(seed, s.len() as usize),
        s.len() > 0 ==> index < s.len(),
    ensures
        spec_uniform_select(s, seed) is None <==> s.len() == 0,
        spec_uniform_select(s, seed) matches Some(x) ==> s.contains(x),
{
    if s.len() > 0 {
        assert(s[index as int] == spec_uniform_select(s, seed)->0);
    }
}

/// The initial draft holds no card twice, holds `count` cards or all
/// candidates when fewer, and only cards of the player's class or Neutral.
pub proof fn law_initial_draft_distinct_class_or_neutral(
    entries: Seq<CardData>,
    class: ClassId,
    count: u8,
    seed: u64,
    shuffled: Seq<u32>,
)
    requires
        crate::card::strictly_ascending(entries),
        shuffled == crate::seeded::chacha_shuffle(seed,
            ids_as_u32(select_ids(entries, |c: CardData| c.class == class || c.class == ClassId::Neutral))),
        shuffled.to_multiset()
            == ids_as_u32(select_ids(entries, |c: CardData| c.class == class || c.class == ClassId::Neutral)).to_multiset(),
    ensures
        spec_initial_draft(entries, class, count, seed).no_duplicates(),
        spec_initial_draft(entries, class, count, seed).len() == if (count as int) < select_ids(entries,
            |c: CardData| c.class == class || c.class == ClassId::Neutral).len() {
            count as int
        } else {
            select_ids(entries, |c: CardData| c.class == class || c.class == ClassId::Neutral).len() as int
        },
        forall|k: int| 0 <= k < spec_initial_draft(entries, class, count, seed).len() ==>
            exists|i: int| 0 <= i < entries.len()
                && entries[i].id == #[trigger] spec_initial_draft(entries, class, count, seed)[k]
                && (entries[i].class == class || entries[i].class == ClassId::Neutral),
{
    broadcast use vstd::seq_lib::group_to_multiset_ensures;
    let p = |c: CardData| c.class == class || c.class == ClassId::Neutral;
    let eligible = select_ids(entries, p);
    let raw = ids_as_u32(eligible);
    law_selected_ids_ascending(entries, p);
    assert(raw.no_duplicates()) by {
        assert forall|a: int, b: int| 0 <= a < raw.len() && 0 <= b < raw.len() && a != b
            implies raw[a] != raw[b] by {
            if a < b {
                assert(eligible[a].0 < eligible[b].0);
            } else {
                assert(eligible[b].0 < eligible[a].0);
            }
        }
    }
    raw.lemma_multiset_has_no_duplicates();
    assert(shuffled.len() == raw.len()) by {
        assert(shuffled.to_multiset().len() == raw.to_multiset().len());
    }
    shuffled.lemma_multiset_has_no_duplicates_conv();
    let draft = spec_initial_draft(entries, class, count, seed);
    let take = if (count as int) < shuffled.len() { count as int } else { shuffled.len() as int };
    assert(draft == shuffled.take(take).map_values(|x: u32| CardId(x)));
    assert forall|a: int, b: int| 0 <= a < draft.len() && 0 <= b < draft.len() && a != b
        implies draft[a] != draft[b] by {
        assert(shuffled[a] != shuffled[b]);
    }
    assert forall|k: int| 0 <= k < draft.len() implies
        exists|i: int| 0 <= i < entries.len() && entries[i].id == #[trigger] draft[k]
            && (entries[i].class == class || entries[i].class == ClassId::Neutral) by {
        let x = shuffled[k];
        assert(shuffled.to_multiset().count(x) > 0);
        assert(raw.to_multiset().count(x) > 0);
        assert(raw.contains(x));
        let m = choose|m: int| 0 <= m < raw.len() && raw[m] == x;
        law_selected_ids_satisfy(entries, p, m);
        assert(draft[k] == CardId(x));
        assert(eligible[m] == CardId(x));
    }
}

/// A filter accepts exactly the catalog cards that pass each of its
/// restrictions: with a class, only cards of that class; with a card type,
/// only cards of that type; with rarities, only cards of a listed rarity;
/// with a maximum cost, only cards costing at most that. So a card drawn by
/// `draw_random` under a class filter is of that class.
pub proof fn law_filter_restricts(id: CardId, catalog: CardCatalog, filter: PoolFilter)
    ensures
        spec_matches_filter(id, catalog, filter) ==> catalog.has(id.0),
        spec_matches_filter(id, catalog, filter) && filter.class is Some
            ==> catalog.card(id.0).class == filter.class->0,
        spec_matches_filter(id, catalog, filter) && filter.card_type is Some
            ==> catalog.card(id.0).card_type == filter.card_type->0,
        spec_matches_filter(id, catalog, filter) && filter.rarity is Some
            ==> filter.rarity->0@.contains(catalog.card(id.0).rarity),
        spec_matches_filter(id, catalog, filter) && filter.max_cost is Some
            ==> catalog.card(id.0).cost <= filter.max_cost->0,
        catalog.has(id.0)
            && (filter.class is None || catalog.card(id.0).class == filter.class->0)
            && (filter.card_type is None || catalog.card(id.0).card_type == filter.card_type->0)
            && (filter.rarity is None || filter.rarity->0@.contains(catalog.card(id.0).rarity))
            && (filter.max_cost is None || catalog.card(id.0).cost <= filter.max_cost->0)
            ==> spec_matches_filter(id, catalog, filter),
{
}

} // verus!
