//! Weighted shop draws: the class-card draw, the neutral-family draw and the
//! atomic shop refresh.
//!
//! The weighting itself (raw weights from acquired counts, normalization and
//! the cumulative pick) is floating point, so the caller supplies it as a
//! selector: given the acquired counts of the candidates, in candidate order,
//! it answers the index of the chosen candidate. Everything around that
//! choice (which cards are candidates, their order, what is distributed and
//! when a refresh stops) is stated and proved here for every selector; for a
//! selector that always answers a candidate index, as the weighted pick
//! does, a draw is also proved to succeed whenever a candidate is left.

use vstd::prelude::*;
use crate::card::{CardCatalog, CardData, CardId, ClassId};
use crate::pool::{
    acquired_sum, count_of, law_selected_ids_satisfy, lemma_select_ids_empty, select_ids, FamilyIndex, PlayerPool,
};
use vstd::string::StrSliceExecFns;
use crate::economy::sat_sub;

verus! {

/// The candidate chosen by a selector answer: `None` when the selector
/// declined or answered an index out of range.
pub open spec fn pick<T>(cands: Seq<T>, out: Option<usize>) -> Option<T> {
    match out {
        Some(i) => if (i as int) < cands.len() { Some(cands[i as int]) } else { None },
        None => None,
    }
}

/// A selector that, handed at least one count, always answers the index of
/// one of them, as the cumulative weighted pick does.
pub open spec fn always_picks<F: Fn(Vec<u32>) -> Option<usize>>(select: F) -> bool {
    forall|a: Vec<u32>, out: Option<usize>|
        #[trigger] call_ensures(select, (a,), out) && a@.len() > 0 ==> match out {
            Some(i) => (i as int) < a@.len(),
            None => false,
        }
}

/// A slot selector that, handed at least one count, always answers the
/// index of one of them, whatever the slot.
pub open spec fn always_picks_for_slot<F: Fn(Vec<u32>, usize) -> Option<usize>>(select: F) -> bool {
    forall|a: Vec<u32>, slot: usize, out: Option<usize>|
        #[trigger] call_ensures(select, (a, slot), out) && a@.len() > 0 ==> match out {
            Some(i) => (i as int) < a@.len(),
            None => false,
        }
}

/// Copies of `id` distributed so far, given the remaining and initial maps.
pub open spec fn acquired_in(remaining: Map<u32, u32>, initial: Map<u32, u32>, id: u32) -> int {
    sat_sub(count_of(initial, id) as int, count_of(remaining, id) as int)
}

/// The acquired counts of `ids`, in order: what a selector is handed.
pub open spec fn acquired_seq(remaining: Map<u32, u32>, initial: Map<u32, u32>, ids: Seq<CardId>) -> Seq<u32> {
    ids.map_values(|id: CardId| acquired_in(remaining, initial, id.0) as u32)
}

/// The class-draw candidates: catalog cards of `class` with a copy left,
/// ascending by id.
pub open spec fn class_candidates(remaining: Map<u32, u32>, catalog: CardCatalog, class: ClassId) -> Seq<CardId> {
    select_ids(catalog.entries(), |c: CardData| c.class == class && count_of(remaining, c.id.0) > 0)
}

/// What a one-shot weighted draw over `cands` may answer: `None` without
/// candidates, else the pick of some answer the selector may give for the
/// candidates' acquired counts.
pub open spec fn weighted_outcome<F: Fn(Vec<u32>) -> Option<usize>>(
    select: F,
    counts: Seq<u32>,
    cands: Seq<CardId>,
    result: Option<CardId>,
) -> bool {
    if cands.len() == 0 {
        result is None
    } else {
        exists|a: Vec<u32>, out: Option<usize>|
            a@ == counts && #[trigger] call_ensures(select, (a,), out) && result == pick(cands, out)
    }
}

/// The shop-refresh candidates for the next slot: catalog cards with a copy
/// left that were not drawn yet in this refresh, ascending by id.
pub open spec fn shop_candidates(remaining: Map<u32, u32>, catalog: CardCatalog, drawn: Seq<CardId>) -> Seq<CardId> {
    select_ids(catalog.entries(), |c: CardData| count_of(remaining, c.id.0) > 0 && !drawn.contains(c.id))
}

/// The remaining-copies map after one copy of each of `ids` was taken.
pub open spec fn after_draws(m: Map<u32, u32>, ids: Seq<CardId>) -> Map<u32, u32>
    decreases ids.len(),
{
    if ids.len() == 0 {
        m
    } else {
        let prev = after_draws(m, ids.drop_last());
        let id = ids.last().0;
        if prev.contains_key(id) && prev[id] > 0 {
            prev.insert(id, (prev[id] - 1) as u32)
        } else {
            prev
        }
    }
}

/// What one refresh slot may produce, with `drawn` already drawn this
/// refresh: `None` without candidates, else the pick of some answer the
/// selector may give for the candidates' acquired counts and the slot index.
pub open spec fn slot_outcome<F: Fn(Vec<u32>, usize) -> Option<usize>>(
    select: F,
    remaining: Map<u32, u32>,
    initial: Map<u32, u32>,
    catalog: CardCatalog,
    drawn: Seq<CardId>,
    slot: usize,
    result: Option<CardId>,
) -> bool {
    let cands = shop_candidates(remaining, catalog, drawn);
    if cands.len() == 0 {
        result is None
    } else {
        exists|a: Vec<u32>, out: Option<usize>|
            a@ == acquired_seq(remaining, initial, cands)
                && #[trigger] call_ensures(select, (a, slot), out)
                && result == pick(cands, out)
    }
}

impl PlayerPool {
    /// Weighted draw for a class shop slot.
    ///
    /// Candidates are the catalog cards of `player_class` with a copy left,
    /// ascending by id; `select` receives their acquired counts and answers
    /// an index. Returns `None` when the class subset is exhausted or the
    /// answer is not a candidate index. The pool is not changed.
    pub fn draw_class_card<F: Fn(Vec<u32>) -> Option<usize>>(
        &self,
        catalog: &CardCatalog,
        player_class: ClassId,
        select: F,
    ) -> (r: Option<CardId>)
        requires
            forall|a: Vec<u32>| #[trigger] call_requires(select, (a,)),
        ensures
            weighted_outcome(select,
                acquired_seq(self.copies_remaining@, self.initial_count@,
                    class_candidates(self.copies_remaining@, *catalog, player_class)),
                class_candidates(self.copies_remaining@, *catalog, player_class), r),
            always_picks(select) ==> (r is Some
                <==> class_candidates(self.copies_remaining@, *catalog, player_class).len() > 0),
    {
        let eligible = self.class_draw_candidates(catalog, player_class);
        let ghost cands = class_candidates(self.copies_remaining@, *catalog, player_class);
        assert((|c: CardData| c.class == player_class && self.spec_remaining(c.id.0) > 0)
            =~= (|c: CardData| c.class == player_class && count_of(self.copies_remaining@, c.id.0) > 0));
        assert(eligible@ == cands);
        if eligible.len() == 0 {
            return None;
        }
        let counts = self.acquired_counts(&eligible);
        assert(counts@ =~= acquired_seq(self.copies_remaining@, self.initial_count@, cands));
        let ghost a = counts;
        let out = select(counts);
        let r = match out {
            Some(i) => if i < eligible.len() { Some(eligible[i]) } else { None },
            None => None,
        };
        assert(call_ensures(select, (a,), out) && r == pick(cands, out));
        assert(a@.len() == cands.len());
        r
    }
}

/// What the shop shows in display slot `i`: the `i`-th card drawn, empty
/// when fewer were drawn.
pub open spec fn display_slot(drawn: Seq<CardId>, i: int) -> Option<CardId> {
    if 0 <= i < drawn.len() {
        Some(drawn[i])
    } else {
        None
    }
}

/// The three display slots for the cards drawn.
fn display_slots(drawn: &Vec<CardId>) -> (r: Vec<Option<CardId>>)
    ensures
        r@ == seq![display_slot(drawn@, 0), display_slot(drawn@, 1), display_slot(drawn@, 2)],
{
    let mut r: Vec<Option<CardId>> = Vec::new();
    let mut i: usize = 0;
    while i < 3
        invariant
            0 <= i <= 3,
            r@.len() == i,
            forall|k: int| 0 <= k < i ==> r@[k] == display_slot(drawn@, k),
        decreases 3 - i,
    {
        if i < drawn.len() {
            r.push(Some(drawn[i]));
        } else {
            r.push(None);
        }
        i = i + 1;
    }
    assert(r@ =~= seq![display_slot(drawn@, 0), display_slot(drawn@, 1), display_slot(drawn@, 2)]);
    r
}

/// Atomic shop refresh: draws up to `slot_count` distinct cards and takes
/// one copy of each out of `pool` as it is drawn.
///
/// For each slot, the candidates are the catalog cards with a copy left that
/// were not drawn yet, ascending by id; `select` receives their acquired
/// counts and the slot index and answers an index. The refresh stops early
/// when no candidate is left or the answer is not a candidate index, so the
/// result may be shorter than `slot_count`. The shop's three display
/// slots then show the first three cards drawn, empty where fewer were
/// drawn.
pub fn refresh_shop<F: Fn(Vec<u32>, usize) -> Option<usize>>(
    pool: &mut PlayerPool,
    catalog: &CardCatalog,
    _family_index: &FamilyIndex,
    slot_count: usize,
    select: F,
) -> (r: Vec<CardId>)
    requires
        forall|a: Vec<u32>, s: usize| #[trigger] call_requires(select, (a, s)),
    ensures
        r@.len() <= slot_count,
        final(pool).initial_count@ == old(pool).initial_count@,
        final(pool).shop_slots@ == seq![display_slot(r@, 0), display_slot(r@, 1), display_slot(r@, 2)],
        final(pool).copies_remaining@ == after_draws(old(pool).copies_remaining@, r@),
        forall|k: int| 0 <= k < r@.len() ==> slot_outcome(select,
            after_draws(old(pool).copies_remaining@, #[trigger] r@.take(k)), old(pool).initial_count@,
            *catalog, r@.take(k), k as usize, Some(r@[k])),
        r@.len() < slot_count ==> slot_outcome(select, final(pool).copies_remaining@,
            old(pool).initial_count@, *catalog, r@, r@.len() as usize, None),
        r@.no_duplicates(),
        forall|k: int| 0 <= k < r@.len() ==> catalog.has(#[trigger] r@[k].0)
            && count_of(old(pool).copies_remaining@, r@[k].0) > 0,
        always_picks_for_slot(select) && r@.len() < slot_count ==> forall|j: int|
            0 <= j < catalog.entries().len() && count_of(old(pool).copies_remaining@,
                #[trigger] catalog.entries()[j].id.0) > 0 ==> r@.contains(catalog.entries()[j].id),
{
    let ghost rem0 = pool.copies_remaining@;
    let ghost init0 = pool.initial_count@;
    let ghost slots0 = pool.shop_slots@;
    let mut drawn: Vec<CardId> = Vec::new();
    let mut slot: usize = 0;
    assert(drawn@ =~= Seq::<CardId>::empty());
    while slot < slot_count
        invariant
            drawn@.len() == slot,
            slot <= slot_count,
            pool.copies_remaining@ == after_draws(rem0, drawn@),
            pool.initial_count@ == init0,
            pool.shop_slots@ == slots0,
            forall|a: Vec<u32>, s: usize| #[trigger] call_requires(select, (a, s)),
            forall|k: int| 0 <= k < drawn@.len() ==> slot_outcome(select,
                after_draws(rem0, #[trigger] drawn@.take(k)), init0, *catalog, drawn@.take(k), k as usize,
                Some(drawn@[k])),
        ensures
            drawn@.len() < slot_count ==> slot_outcome(select, pool.copies_remaining@, init0, *catalog,
                drawn@, drawn@.len() as usize, None),
            always_picks_for_slot(select) && drawn@.len() < slot_count ==> shop_candidates(
                pool.copies_remaining@, *catalog, drawn@).len() == 0,
        decreases slot_count - slot,
    {
        let eligible = pool.refresh_candidates(catalog, &drawn);
        let ghost remaining = pool.copies_remaining@;
        let ghost cands = shop_candidates(remaining, *catalog, drawn@);
        assert((|c: CardData| pool.spec_remaining(c.id.0) > 0 && !drawn@.contains(c.id))
            =~= (|c: CardData| count_of(remaining, c.id.0) > 0 && !drawn@.contains(c.id)));
        assert(eligible@ == cands);
        if eligible.len() == 0 {
            break;
        }
        let counts = pool.acquired_counts(&eligible);
        assert(counts@ =~= acquired_seq(remaining, init0, cands));
        assert(counts@.len() == eligible@.len());
        let ghost a = counts;
        let out = select(counts, slot);
        let index = match out {
            Some(i) => i,
            None => {
                assert(call_ensures(select, (a, slot), out) && pick(cands, out) is None);
                break;
            },
        };
        if index >= eligible.len() {
            assert(call_ensures(select, (a, slot), out) && pick(cands, out) is None);
            break;
        }
        let card_id = eligible[index];
        assert(call_ensures(select, (a, slot), out) && pick(cands, out) == Some(card_id));
        proof {
            law_selected_ids_satisfy(catalog.entries(),
                |c: CardData| count_of(remaining, c.id.0) > 0 && !drawn@.contains(c.id), index as int);
        }
        let res = pool.distribute(card_id);
        if res.is_err() {
            break;
        }
        let ghost old_drawn = drawn@;
        drawn.push(card_id);
        proof {
            assert(drawn@.drop_last() =~= old_drawn);
            assert(drawn@.take(old_drawn.len() as int) =~= old_drawn);
            assert forall|k: int| 0 <= k < drawn@.len() implies slot_outcome(select,
                after_draws(rem0, #[trigger] drawn@.take(k)), init0, *catalog, drawn@.take(k), k as usize,
                Some(drawn@[k])) by {
                if k < old_drawn.len() {
                    assert(drawn@.take(k) =~= old_drawn.take(k));
                }
            }
        }
        slot = slot + 1;
    }
    proof {
        law_refresh_draws_distinct_available_cards(select, rem0, init0, *catalog, drawn@);
        if always_picks_for_slot(select) && drawn@.len() < slot_count {
            let after = pool.copies_remaining@;
            let p = |c: CardData| count_of(after, c.id.0) > 0 && !drawn@.contains(c.id);
            assert(shop_candidates(after, *catalog, drawn@) == select_ids(catalog.entries(), p));
            lemma_select_ids_empty(catalog.entries(), p);
            assert forall|j: int|
                0 <= j < catalog.entries().len() && count_of(rem0, #[trigger] catalog.entries()[j].id.0) > 0
                implies drawn@.contains(catalog.entries()[j].id) by {
                let id = catalog.entries()[j].id;
                assert(!p(catalog.entries()[j]));
                assert(count_of(after, id.0) == if drawn@.contains(CardId(id.0)) {
                    count_of(rem0, id.0) - 1
                } else {
                    count_of(rem0, id.0) as int
                });
            }
        }
    }
    pool.shop_slots = display_slots(&drawn);
    drawn
}

/// `a` sorts strictly before `b`: lexicographic order on characters by code
/// point, the order of `String` comparison (UTF-8 byte order agrees with code
/// point order).
pub open spec fn name_precedes(a: Seq<char>, b: Seq<char>) -> bool
    decreases a.len(),
{
    if a.len() == 0 {
        b.len() > 0
    } else if b.len() == 0 {
        false
    } else if a[0] != b[0] {
        (a[0] as u32) < (b[0] as u32)
    } else {
        name_precedes(a.drop_first(), b.drop_first())
    }
}

/// No name sorts before itself.
pub proof fn lemma_name_precedes_irreflexive(a: Seq<char>)
    ensures
        !name_precedes(a, a),
    decreases a.len(),
{
    if a.len() > 0 {
        lemma_name_precedes_irreflexive(a.drop_first());
    }
}

/// Sorting before is transitive.
pub proof fn lemma_name_precedes_transitive(a: Seq<char>, b: Seq<char>, c: Seq<char>)
    requires
        name_precedes(a, b),
        name_precedes(b, c),
    ensures
        name_precedes(a, c),
    decreases a.len(),
{
    if a.len() > 0 && b.len() > 0 && c.len() > 0 && a[0] == b[0] && b[0] == c[0] {
        lemma_name_precedes_transitive(a.drop_first(), b.drop_first(), c.drop_first());
    }
}

/// Of two different names, one sorts before the other.
pub proof fn lemma_name_precedes_total(a: Seq<char>, b: Seq<char>)
    requires
        a != b,
    ensures
        name_precedes(a, b) || name_precedes(b, a),
    decreases a.len(),
{
    if a.len() == 0 {
        if b.len() == 0 {
            assert(a =~= b);
        }
    } else if b.len() > 0 && a[0] != b[0] {
        vstd::utf8::char_u32_cast(a[0], a[0] as u32);
        vstd::utf8::char_u32_cast(b[0], b[0] as u32);
    } else if b.len() > 0 && a[0] == b[0] {
        if a.drop_first() =~= b.drop_first() {
            assert(a =~= seq![a[0]] + a.drop_first());
            assert(b =~= seq![b[0]] + b.drop_first());
        } else {
            lemma_name_precedes_total(a.drop_first(), b.drop_first());
        }
    }
}

/// Whether `a` sorts strictly before `b`.
fn name_less(a: &String, b: &String) -> (r: bool)
    ensures
        r == name_precedes(a@, b@),
{
    let sa = a.as_str();
    let sb = b.as_str();
    let na = sa.unicode_len();
    let nb = sb.unicode_len();
    let mut i: usize = 0;
    assert(a@.skip(0) =~= a@);
    assert(b@.skip(0) =~= b@);
    while i < na && i < nb
        invariant
            na == a@.len(),
            nb == b@.len(),
            sa@ == a@,
            sb@ == b@,
            0 <= i <= na,
            i <= nb,
            name_precedes(a@, b@) == name_precedes(a@.skip(i as int), b@.skip(i as int)),
        decreases na - i,
    {
        let ca = sa.get_char(i);
        let cb = sb.get_char(i);
        assert(a@.skip(i as int)[0] == ca && b@.skip(i as int)[0] == cb);
        if ca != cb {
            return (ca as u32) < (cb as u32);
        }
        assert(a@.skip(i as int).drop_first() =~= a@.skip(i + 1));
        assert(b@.skip(i as int).drop_first() =~= b@.skip(i + 1));
        i = i + 1;
    }
    i == na && i < nb
}

/// Whether `ids` names a Neutral catalog card with a copy left.
pub open spec fn has_available_neutral(pool: PlayerPool, catalog: CardCatalog, ids: Seq<CardId>) -> bool {
    exists|k: int| 0 <= k < ids.len() && catalog.has(#[trigger] ids[k].0)
        && catalog.card(ids[k].0).class == ClassId::Neutral && pool.spec_remaining(ids[k].0) > 0
}

/// Entry `i` of the family index takes part in the neutral family draw: no
/// later entry has its name, and it lists a Neutral catalog card with a copy
/// left.
pub open spec fn family_entry_eligible(
    pool: PlayerPool,
    catalog: CardCatalog,
    e: Seq<(String, Vec<CardId>)>,
    i: int,
) -> bool {
    &&& 0 <= i < e.len()
    &&& forall|j: int| i < j < e.len() ==> e[j].0@ != e[i].0@
    &&& has_available_neutral(pool, catalog, e[i].1@)
}

/// Index entry `q` backs candidate `c`: it is eligible, has `c`'s name, and
/// its cards' summed acquired count is `c`'s count.
pub open spec fn entry_backs(
    pool: PlayerPool,
    catalog: CardCatalog,
    e: Seq<(String, Vec<CardId>)>,
    c: (String, u32),
    q: int,
) -> bool {
    &&& family_entry_eligible(pool, catalog, e, q)
    &&& e[q].0@ == c.0@
    &&& c.1 == acquired_sum(pool, e[q].1@)
}

/// Some index entry before `i` backs candidate `c`.
pub open spec fn backed_before(
    pool: PlayerPool,
    catalog: CardCatalog,
    e: Seq<(String, Vec<CardId>)>,
    c: (String, u32),
    i: int,
) -> bool {
    exists|q: int| #[trigger] entry_backs(pool, catalog, e, c, q) && q < i
}

/// `cands` lists the eligible families once each, by name in ascending
/// order, each with the summed acquired count of its cards.
pub open spec fn is_family_order(
    pool: PlayerPool,
    catalog: CardCatalog,
    e: Seq<(String, Vec<CardId>)>,
    cands: Seq<(String, u32)>,
) -> bool {
    &&& forall|a: int, b: int| 0 <= a < b < cands.len() ==> name_precedes(cands[a].0@, cands[b].0@)
    &&& forall|k: int| 0 <= k < cands.len() ==> backed_before(pool, catalog, e, #[trigger] cands[k], e.len() as int)
    &&& forall|i: int| #[trigger] family_entry_eligible(pool, catalog, e, i) ==> exists|k: int|
        0 <= k < cands.len() && #[trigger] cands[k].0@ == e[i].0@
}

/// The summed acquired counts of `cands`, in order: what the selector of a
/// family draw is handed.
pub open spec fn family_weights_input(cands: Seq<(String, u32)>) -> Seq<u32> {
    cands.map_values(|p: (String, u32)| p.1)
}

/// What a family draw over `cands` may answer: `None` without candidates,
/// else the name picked by some answer the selector may give.
pub open spec fn family_outcome<F: Fn(Vec<u32>) -> Option<usize>>(
    select: F,
    cands: Seq<(String, u32)>,
    result: Option<String>,
) -> bool {
    if cands.len() == 0 {
        result is None
    } else {
        exists|a: Vec<u32>, out: Option<usize>|
            a@ == family_weights_input(cands) && #[trigger] call_ensures(select, (a,), out)
                && match pick(cands, out) {
                    None => result is None,
                    Some(p) => result matches Some(s) && s@ == p.0@,
                }
    }
}

/// What the family candidates built from the first `i` index entries hold:
/// names ascending, each from an eligible entry before `i` with its summed
/// count, and every eligible entry before `i` listed.
#[verifier::opaque]
pub open spec fn family_prefix_facts(
    pool: PlayerPool,
    catalog: CardCatalog,
    e: Seq<(String, Vec<CardId>)>,
    sorted: Seq<(String, u32)>,
    i: int,
) -> bool {
    &&& forall|a: int, b: int| 0 <= a < b < sorted.len() ==> name_precedes(sorted[a].0@, sorted[b].0@)
    &&& forall|k: int| 0 <= k < sorted.len() ==> backed_before(pool, catalog, e, #[trigger] sorted[k], i)
    &&& forall|q: int| #[trigger] family_entry_eligible(pool, catalog, e, q) && q < i ==> exists|k: int|
        0 <= k < sorted.len() && #[trigger] sorted[k].0@ == e[q].0@
}

/// A listed family differs in name from an eligible entry not yet scanned.
proof fn lemma_family_facts_distinct(
    pool: PlayerPool,
    catalog: CardCatalog,
    e: Seq<(String, Vec<CardId>)>,
    sorted: Seq<(String, u32)>,
    i: int,
    k: int,
)
    requires
        family_prefix_facts(pool, catalog, e, sorted, i),
        family_entry_eligible(pool, catalog, e, i),
        0 <= k < sorted.len(),
    ensures
        sorted[k].0@ != e[i].0@,
{
    reveal(family_prefix_facts);
    assert(backed_before(pool, catalog, e, sorted[k], i));
    let q = choose|q: int| #[trigger] entry_backs(pool, catalog, e, sorted[k], q) && q < i;
}

/// Skipping an entry that is not eligible keeps the facts.
proof fn lemma_family_facts_skip(
    pool: PlayerPool,
    catalog: CardCatalog,
    e: Seq<(String, Vec<CardId>)>,
    sorted: Seq<(String, u32)>,
    i: int,
)
    requires
        family_prefix_facts(pool, catalog, e, sorted, i),
        !family_entry_eligible(pool, catalog, e, i),
    ensures
        family_prefix_facts(pool, catalog, e, sorted, i + 1),
{
    reveal(family_prefix_facts);
    assert forall|k: int| 0 <= k < sorted.len() implies backed_before(pool, catalog, e, #[trigger] sorted[k], i + 1) by {
        assert(backed_before(pool, catalog, e, sorted[k], i));
        let q = choose|q: int| #[trigger] entry_backs(pool, catalog, e, sorted[k], q) && q < i;
        assert(entry_backs(pool, catalog, e, sorted[k], q) && q < i + 1);
    }
}

/// Inserting eligible entry `i` at its ordered place keeps the names ascending.
proof fn lemma_family_insert_ordered(
    old_sorted: Seq<(String, u32)>,
    ns: Seq<(String, u32)>,
    p: int,
    x: (String, u32),
)
    requires
        forall|a: int, b: int| 0 <= a < b < old_sorted.len()
            ==> name_precedes(old_sorted[a].0@, old_sorted[b].0@),
        0 <= p <= old_sorted.len(),
        ns == old_sorted.insert(p, x),
        forall|q: int| 0 <= q < p ==> name_precedes(old_sorted[q].0@, x.0@),
        forall|q: int| p <= q < old_sorted.len() ==> name_precedes(x.0@, old_sorted[q].0@),
    ensures
        forall|a: int, b: int| 0 <= a < b < ns.len() ==> name_precedes(ns[a].0@, ns[b].0@),
{
    assert forall|a: int, b: int| 0 <= a < b < ns.len() implies name_precedes(ns[a].0@, ns[b].0@) by {
        if b < p {
            assert(ns[a] == old_sorted[a] && ns[b] == old_sorted[b]);
        } else if b == p {
            assert(ns[a] == old_sorted[a]);
        } else if a < p {
            assert(ns[a] == old_sorted[a] && ns[b] == old_sorted[b - 1]);
            lemma_name_precedes_transitive(old_sorted[a].0@, x.0@, old_sorted[b - 1].0@);
        } else if a == p {
            assert(ns[b] == old_sorted[b - 1]);
        } else {
            assert(ns[a] == old_sorted[a - 1] && ns[b] == old_sorted[b - 1]);
        }
    }
}

/// Inserting eligible entry `i` at its ordered place keeps the facts.
#[verifier::rlimit(30)]
proof fn lemma_family_facts_insert(
    pool: PlayerPool,
    catalog: CardCatalog,
    e: Seq<(String, Vec<CardId>)>,
    old_sorted: Seq<(String, u32)>,
    ns: Seq<(String, u32)>,
    p: int,
    i: int,
    x: (String, u32),
)
    requires
        family_prefix_facts(pool, catalog, e, old_sorted, i),
        family_entry_eligible(pool, catalog, e, i),
        x.0@ == e[i].0@,
        x.1 == acquired_sum(pool, e[i].1@),
        0 <= p <= old_sorted.len(),
        ns == old_sorted.insert(p, x),
        forall|q: int| 0 <= q < p ==> name_precedes(old_sorted[q].0@, x.0@),
        forall|q: int| p <= q < old_sorted.len() ==> name_precedes(x.0@, old_sorted[q].0@),
    ensures
        family_prefix_facts(pool, catalog, e, ns, i + 1),
{
    reveal(family_prefix_facts);
    lemma_family_insert_ordered(old_sorted, ns, p, x);
    assert forall|k: int| 0 <= k < ns.len() implies backed_before(pool, catalog, e, #[trigger] ns[k], i + 1) by {
        if k < p {
            assert(ns[k] == old_sorted[k]);
            assert(backed_before(pool, catalog, e, old_sorted[k], i));
            let q = choose|q: int| #[trigger] entry_backs(pool, catalog, e, old_sorted[k], q) && q < i;
            assert(entry_backs(pool, catalog, e, ns[k], q) && q < i + 1);
        } else if k == p {
            assert(ns[k] == x);
            assert(entry_backs(pool, catalog, e, ns[k], i) && i < i + 1);
        } else {
            assert(ns[k] == old_sorted[k - 1]);
            assert(backed_before(pool, catalog, e, old_sorted[k - 1], i));
            let q = choose|q: int| #[trigger] entry_backs(pool, catalog, e, old_sorted[k - 1], q) && q < i;
            assert(entry_backs(pool, catalog, e, ns[k], q) && q < i + 1);
        }
    }
    assert forall|q: int| #[trigger] family_entry_eligible(pool, catalog, e, q) && q < i + 1
        implies exists|k: int| 0 <= k < ns.len() && #[trigger] ns[k].0@ == e[q].0@ by {
        if q == i {
            assert(ns[p].0@ == e[q].0@);
        } else {
            let k = choose|k: int| 0 <= k < old_sorted.len() && #[trigger] old_sorted[k].0@ == e[q].0@;
            if k < p {
                assert(ns[k] == old_sorted[k]);
            } else {
                assert(ns[k + 1] == old_sorted[k]);
            }
        }
    }
}

/// The facts over the whole index are the family order.
proof fn lemma_family_facts_complete(
    pool: PlayerPool,
    catalog: CardCatalog,
    e: Seq<(String, Vec<CardId>)>,
    sorted: Seq<(String, u32)>,
)
    requires
        family_prefix_facts(pool, catalog, e, sorted, e.len() as int),
    ensures
        is_family_order(pool, catalog, e, sorted),
{
    reveal(family_prefix_facts);
    assert forall|k: int| #![trigger sorted[k]] 0 <= k < sorted.len() implies exists|q: int|
        #[trigger] entry_backs(pool, catalog, e, sorted[k], q) by {
        let q = choose|q: int| #[trigger] entry_backs(pool, catalog, e, sorted[k], q) && q < e.len();
    }
}

impl PlayerPool {
    /// Whether no entry after `i` has the name of entry `i`.
    fn family_entry_is_last(family_index: &FamilyIndex, i: usize) -> (r: bool)
        requires
            i < family_index.entries@.len(),
        ensures
            r == forall|j: int| i < j < family_index.entries@.len()
                ==> family_index.entries@[j].0@ != family_index.entries@[i as int].0@,
    {
        let n = family_index.entries.len();
        let mut j: usize = i + 1;
        while j < n
            invariant
                n == family_index.entries@.len(),
                i < j <= n,
                forall|k: int| i < k < j ==> family_index.entries@[k].0@ != family_index.entries@[i as int].0@,
            decreases n - j,
        {
            if family_index.entries[j].0 == family_index.entries[i].0 {
                return false;
            }
            j = j + 1;
        }
        true
    }

    /// The eligible families by name in ascending order, each with its
    /// summed acquired count.
    fn neutral_family_candidates(&self, catalog: &CardCatalog, family_index: &FamilyIndex)
        -> (r: Vec<(String, u32)>)
        requires
            forall|i: int| 0 <= i < family_index.entries@.len()
                ==> acquired_sum(*self, #[trigger] family_index.entries@[i].1@) <= u32::MAX,
        ensures
            is_family_order(*self, *catalog, family_index.entries@, r@),
    {
        let ghost e = family_index.entries@;
        let n = family_index.entries.len();
        let mut sorted: Vec<(String, u32)> = Vec::new();
        let mut i: usize = 0;
        proof {
            reveal(family_prefix_facts);
        }
        while i < n
            invariant
                n == e.len(),
                e == family_index.entries@,
                0 <= i <= n,
                forall|q: int| 0 <= q < e.len() ==> acquired_sum(*self, #[trigger] e[q].1@) <= u32::MAX,
                family_prefix_facts(*self, *catalog, e, sorted@, i as int),
            decreases n - i,
        {
            let last = Self::family_entry_is_last(family_index, i);
            let available = last && self.family_has_available_neutral(catalog, &family_index.entries[i].1);
            if available {
                assert(family_entry_eligible(*self, *catalog, e, i as int));
                let total = match self.family_acquired_total(&family_index.entries[i].1) {
                    Some(t) => t,
                    None => {
                        assert(acquired_sum(*self, e[i as int].1@) <= u32::MAX);
                        0
                    },
                };
                let name = family_index.entries[i].0.clone();
                let len = sorted.len();
                let mut p: usize = 0;
                while p < len && name_less(&sorted[p].0, &name)
                    invariant
                        len == sorted@.len(),
                        0 <= p <= len,
                        forall|q: int| 0 <= q < p ==> name_precedes(sorted@[q].0@, name@),
                    decreases len - p,
                {
                    p = p + 1;
                }
                proof {
                    if p < len {
                        lemma_family_facts_distinct(*self, *catalog, e, sorted@, i as int, p as int);
                        assert(!name_precedes(sorted@[p as int].0@, name@));
                        lemma_name_precedes_total(sorted@[p as int].0@, name@);
                        reveal(family_prefix_facts);
                        assert forall|q: int| p <= q < len implies name_precedes(name@, sorted@[q].0@) by {
                            if q > p {
                                lemma_name_precedes_transitive(name@, sorted@[p as int].0@, sorted@[q].0@);
                            }
                        }
                    }
                }
                let ghost old_sorted = sorted@;
                let ghost x = (name, total);
                sorted.insert(p, (name, total));
                proof {
                    lemma_family_facts_insert(*self, *catalog, e, old_sorted, sorted@, p as int, i as int, x);
                }
            } else {
                proof {
                    lemma_family_facts_skip(*self, *catalog, e, sorted@, i as int);
                }
            }
            i = i + 1;
        }
        proof {
            lemma_family_facts_complete(*self, *catalog, e, sorted@);
        }
        sorted
    }

    /// Weighted draw over eligible Neutral families.
    ///
    /// The weight unit is the family: a family takes part when its list
    /// names a Neutral catalog card with a copy left, and its weight input is
    /// the acquired count summed over its cards. Families are ordered by
    /// name; `select` receives their summed counts and answers an index.
    /// Returns `None` when every neutral family is exhausted or the answer is
    /// not a family index. The pool is not changed.
    pub fn draw_neutral_family<F: Fn(Vec<u32>) -> Option<usize>>(
        &self,
        catalog: &CardCatalog,
        family_index: &FamilyIndex,
        select: F,
    ) -> (r: Option<String>)
        requires
            forall|a: Vec<u32>| #[trigger] call_requires(select, (a,)),
            forall|i: int| 0 <= i < family_index.entries@.len()
                ==> acquired_sum(*self, #[trigger] family_index.entries@[i].1@) <= u32::MAX,
        ensures
            exists|cands: Seq<(String, u32)>|
                is_family_order(*self, *catalog, family_index.entries@, cands)
                    && #[trigger] family_outcome(select, cands, r),
            always_picks(select) ==> (r is Some <==> exists|i: int|
                #[trigger] family_entry_eligible(*self, *catalog, family_index.entries@, i)),
    {
        let eligible = self.neutral_family_candidates(catalog, family_index);
        if eligible.len() == 0 {
            assert(family_outcome(select, eligible@, None));
            return None;
        }
        let n = eligible.len();
        let mut weights: Vec<u32> = Vec::new();
        let mut k: usize = 0;
        while k < n
            invariant
                n == eligible@.len(),
                0 <= k <= n,
                weights@ == family_weights_input(eligible@.take(k as int)),
            decreases n - k,
        {
            weights.push(eligible[k].1);
            assert(family_weights_input(eligible@.take(k + 1))
                =~= family_weights_input(eligible@.take(k as int)).push(eligible@[k as int].1));
            k = k + 1;
        }
        assert(eligible@.take(n as int) =~= eligible@);
        let ghost a = weights;
        let out = select(weights);
        let r = match out {
            Some(i) => if i < eligible.len() { Some(eligible[i].0.clone()) } else { None },
            None => None,
        };
        assert(call_ensures(select, (a,), out));
        assert(family_outcome(select, eligible@, r));
        proof {
            assert(a@.len() == eligible@.len());
            assert(backed_before(*self, *catalog, family_index.entries@, eligible@[0],
                family_index.entries@.len() as int));
            let q = choose|q: int| #[trigger] entry_backs(*self, *catalog, family_index.entries@, eligible@[0], q)
                && q < family_index.entries@.len();
            assert(family_entry_eligible(*self, *catalog, family_index.entries@, q));
        }
        r
    }
}

/// Two strictly ascending name sequences with the same names are equal.
proof fn lemma_sorted_names_equal(a: Seq<Seq<char>>, b: Seq<Seq<char>>)
    requires
        forall|i: int, j: int| 0 <= i < j < a.len() ==> name_precedes(a[i], a[j]),
        forall|i: int, j: int| 0 <= i < j < b.len() ==> name_precedes(b[i], b[j]),
        forall|x: Seq<char>| a.contains(x) <==> b.contains(x),
    ensures
        a == b,
    decreases a.len(),
{
    if a.len() == 0 {
        if b.len() > 0 {
            assert(b.contains(b[0]));
        }
        assert(a =~= b);
    } else {
        assert(a.contains(a[0]));
        let j = choose|j: int| 0 <= j < b.len() && b[j] == a[0];
        assert(b.contains(b[0]));
        let i = choose|i: int| 0 <= i < a.len() && a[i] == b[0];
        if j > 0 && i > 0 {
            lemma_name_precedes_transitive(a[0], b[0], a[0]);
            lemma_name_precedes_irreflexive(a[0]);
        }
        if j > 0 && i == 0 {
            lemma_name_precedes_irreflexive(b[0]);
        }
        assert(a[0] == b[0]);
        let a1 = a.drop_first();
        let b1 = b.drop_first();
        assert forall|x: Seq<char>| a1.contains(x) implies b1.contains(x) by {
            let k = choose|k: int| 0 <= k < a1.len() && a1[k] == x;
            assert(a[k + 1] == x);
            lemma_name_precedes_irreflexive(x);
            assert(b.contains(x));
            let m = choose|m: int| 0 <= m < b.len() && b[m] == x;
            assert(m != 0);
            assert(b1[m - 1] == x);
        }
        assert forall|x: Seq<char>| b1.contains(x) implies a1.contains(x) by {
            let k = choose|k: int| 0 <= k < b1.len() && b1[k] == x;
            assert(b[k + 1] == x);
            lemma_name_precedes_irreflexive(x);
            assert(a.contains(x));
            let m = choose|m: int| 0 <= m < a.len() && a[m] == x;
            assert(m != 0);
            assert(a1[m - 1] == x);
        }
        lemma_sorted_names_equal(a1, b1);
        assert(a =~= seq![a[0]] + a1);
        assert(b =~= seq![b[0]] + b1);
    }
}

/// The names of a candidate list, in order.
pub open spec fn family_names(cands: Seq<(String, u32)>) -> Seq<Seq<char>> {
    cands.map_values(|p: (String, u32)| p.0@)
}

/// The family order is determined by the pool, the catalog and the index:
/// two lists that both satisfy it have the same names and counts, position
/// by position.
pub proof fn law_family_order_unique(
    pool: PlayerPool,
    catalog: CardCatalog,
    e: Seq<(String, Vec<CardId>)>,
    c1: Seq<(String, u32)>,
    c2: Seq<(String, u32)>,
)
    requires
        is_family_order(pool, catalog, e, c1),
        is_family_order(pool, catalog, e, c2),
    ensures
        c1.len() == c2.len(),
        forall|k: int| 0 <= k < c1.len() ==> c1[k].0@ == c2[k].0@ && c1[k].1 == c2[k].1,
{
    let n1 = family_names(c1);
    let n2 = family_names(c2);
    assert forall|x: Seq<char>| n1.contains(x) implies n2.contains(x) by {
        let k = choose|k: int| 0 <= k < n1.len() && n1[k] == x;
        assert(backed_before(pool, catalog, e, c1[k], e.len() as int));
        let q = choose|q: int| #[trigger] entry_backs(pool, catalog, e, c1[k], q) && q < e.len();
        assert(family_entry_eligible(pool, catalog, e, q));
        let m = choose|m: int| 0 <= m < c2.len() && #[trigger] c2[m].0@ == e[q].0@;
        assert(n2[m] == x);
    }
    assert forall|x: Seq<char>| n2.contains(x) implies n1.contains(x) by {
        let k = choose|k: int| 0 <= k < n2.len() && n2[k] == x;
        assert(backed_before(pool, catalog, e, c2[k], e.len() as int));
        let q = choose|q: int| #[trigger] entry_backs(pool, catalog, e, c2[k], q) && q < e.len();
        assert(family_entry_eligible(pool, catalog, e, q));
        let m = choose|m: int| 0 <= m < c1.len() && #[trigger] c1[m].0@ == e[q].0@;
        assert(n1[m] == x);
    }
    lemma_sorted_names_equal(n1, n2);
    assert forall|k: int| 0 <= k < c1.len() implies c1[k].0@ == c2[k].0@ && c1[k].1 == c2[k].1 by {
        assert(n1[k] == n2[k]);
        assert(backed_before(pool, catalog, e, c1[k], e.len() as int));
        assert(backed_before(pool, catalog, e, c2[k], e.len() as int));
        let q1 = choose|q: int| #[trigger] entry_backs(pool, catalog, e, c1[k], q) && q < e.len();
        let q2 = choose|q: int| #[trigger] entry_backs(pool, catalog, e, c2[k], q) && q < e.len();
        if q1 < q2 {
            assert(e[q2].0@ != e[q1].0@);
        } else if q2 < q1 {
            assert(e[q1].0@ != e[q2].0@);
        }
    }
}

/// Taking one copy of each of `r`, all different and all with a copy left,
/// lowers exactly their counts by one.
proof fn lemma_after_distinct_draws(m: Map<u32, u32>, r: Seq<CardId>)
    requires
        r.no_duplicates(),
        forall|k: int| 0 <= k < r.len() ==> count_of(m, #[trigger] r[k].0) > 0,
    ensures
        forall|id: u32| #[trigger] count_of(after_draws(m, r), id)
            == if r.contains(CardId(id)) { count_of(m, id) - 1 } else { count_of(m, id) as int },
    decreases r.len(),
{
    if r.len() > 0 {
        let rest = r.drop_last();
        let x = r.last();
        assert forall|k: int| 0 <= k < rest.len() implies count_of(m, #[trigger] rest[k].0) > 0 by {
            assert(rest[k] == r[k]);
        }
        assert(rest.no_duplicates()) by {
            assert forall|i: int, j: int| 0 <= i < rest.len() && 0 <= j < rest.len() && i != j
                implies rest[i] != rest[j] by {
                assert(rest[i] == r[i] && rest[j] == r[j]);
            }
        }
        lemma_after_distinct_draws(m, rest);
        assert(!rest.contains(x)) by {
            if rest.contains(x) {
                let k = choose|k: int| 0 <= k < rest.len() && rest[k] == x;
                assert(r[k] == r[r.len() - 1]);
            }
        }
        assert(count_of(m, r[r.len() - 1].0) > 0);
        assert(count_of(after_draws(m, rest), x.0) == count_of(m, x.0));
        assert forall|id: u32| #[trigger] count_of(after_draws(m, r), id)
            == if r.contains(CardId(id)) { count_of(m, id) - 1 } else { count_of(m, id) as int } by {
            assert(count_of(after_draws(m, rest), id)
                == if rest.contains(CardId(id)) { count_of(m, id) - 1 } else { count_of(m, id) as int });
            if id == x.0 {
                assert(r[r.len() - 1] == CardId(id));
            } else {
                if r.contains(CardId(id)) {
                    let k = choose|k: int| 0 <= k < r.len() && r[k] == CardId(id);
                    assert(rest[k] == CardId(id));
                }
                if rest.contains(CardId(id)) {
                    let k = choose|k: int| 0 <= k < rest.len() && rest[k] == CardId(id);
                    assert(r[k] == CardId(id));
                }
            }
        }
    }
}

/// A shop refresh draws no card twice, draws only catalog cards that had a
/// copy left, and takes exactly one copy of each card it drew: whatever the
/// selector answered, for every outcome that `refresh_shop` may return.
pub proof fn law_refresh_draws_distinct_available_cards<F: Fn(Vec<u32>, usize) -> Option<usize>>(
    select: F,
    remaining: Map<u32, u32>,
    initial: Map<u32, u32>,
    catalog: CardCatalog,
    r: Seq<CardId>,
)
    requires
        forall|k: int| 0 <= k < r.len() ==> slot_outcome(select, after_draws(remaining, #[trigger] r.take(k)),
            initial, catalog, r.take(k), k as usize, Some(r[k])),
    ensures
        r.no_duplicates(),
        forall|k: int| 0 <= k < r.len() ==> catalog.has(#[trigger] r[k].0) && count_of(remaining, r[k].0) > 0,
        forall|id: u32| #[trigger] count_of(after_draws(remaining, r), id)
            == if r.contains(CardId(id)) { count_of(remaining, id) - 1 } else { count_of(remaining, id) as int },
    decreases r.len(),
{
    if r.len() > 0 {
        let n = r.len() - 1;
        let rest = r.drop_last();
        let x = r[n];
        assert forall|k: int| 0 <= k < rest.len() implies slot_outcome(select,
            after_draws(remaining, #[trigger] rest.take(k)), initial, catalog, rest.take(k), k as usize,
            Some(rest[k])) by {
            assert(rest.take(k) =~= r.take(k));
            assert(rest[k] == r[k]);
            assert(slot_outcome(select, after_draws(remaining, r.take(k)), initial, catalog, r.take(k), k as usize,
                Some(r[k])));
        }
        law_refresh_draws_distinct_available_cards(select, remaining, initial, catalog, rest);
        assert(r.take(n) =~= rest);
        assert(slot_outcome(select, after_draws(remaining, r.take(n)), initial, catalog, r.take(n), n as usize,
            Some(r[n])));
        let prev = after_draws(remaining, rest);
        let p = |c: CardData| count_of(prev, c.id.0) > 0 && !rest.contains(c.id);
        let cands = shop_candidates(prev, catalog, rest);
        assert(cands == select_ids(catalog.entries(), p));
        let (a, out) = choose|a: Vec<u32>, out: Option<usize>|
            a@ == acquired_seq(prev, initial, cands) && #[trigger] call_ensures(select, (a, n as usize), out)
                && Some(x) == pick(cands, out);
        let i = out->0;
        law_selected_ids_satisfy(catalog.entries(), p, i as int);
        let j = choose|j: int| 0 <= j < catalog.entries().len() && catalog.entries()[j].id == cands[i as int]
            && p(catalog.entries()[j]);
        assert(catalog.entries()[j].id.0 == x.0);
        assert(!rest.contains(x));
        assert(count_of(prev, x.0) == count_of(remaining, x.0));
        assert(r =~= rest.push(x));
        assert(r.no_duplicates()) by {
            assert forall|a: int, b: int| 0 <= a < r.len() && 0 <= b < r.len() && a != b implies r[a] != r[b] by {
                if a == n {
                    assert(rest[b] == r[b]);
                } else if b == n {
                    assert(rest[a] == r[a]);
                } else {
                    assert(rest[a] == r[a] && rest[b] == r[b]);
                }
            }
        }
        assert forall|k: int| 0 <= k < r.len() implies catalog.has(#[trigger] r[k].0)
            && count_of(remaining, r[k].0) > 0 by {
            if k < n {
                assert(rest[k] == r[k]);
            }
        }
        lemma_after_distinct_draws(remaining, r);
    } else {
        assert(r =~= Seq::<CardId>::empty());
    }
}

/// A class draw yields nothing when the class subset is exhausted, and
/// otherwise at most a catalog card of the class with a copy left.
pub proof fn law_class_draw_picks_available_class_card<F: Fn(Vec<u32>) -> Option<usize>>(
    select: F,
    remaining: Map<u32, u32>,
    initial: Map<u32, u32>,
    catalog: CardCatalog,
    class: ClassId,
    result: Option<CardId>,
)
    requires
        weighted_outcome(select, acquired_seq(remaining, initial, class_candidates(remaining, catalog, class)),
            class_candidates(remaining, catalog, class), result),
    ensures
        class_candidates(remaining, catalog, class).len() == 0 ==> result is None,
        result matches Some(id) ==> exists|j: int| 0 <= j < catalog.entries().len()
            && #[trigger] catalog.entries()[j].id == id && catalog.entries()[j].class == class
            && count_of(remaining, id.0) > 0,
{
    let cands = class_candidates(remaining, catalog, class);
    if cands.len() > 0 && result is Some {
        let p = |c: CardData| c.class == class && count_of(remaining, c.id.0) > 0;
        let (a, out) = choose|a: Vec<u32>, out: Option<usize>|
            a@ == acquired_seq(remaining, initial, cands) && #[trigger] call_ensures(select, (a,), out)
                && result == pick(cands, out);
        let i = out->0;
        law_selected_ids_satisfy(catalog.entries(), p, i as int);
    }
}

} // verus!
