//! Pool lifecycle across a session: creation at the initial draft and
//! teardown at game over.

use vstd::prelude::*;
use crate::card::{CardCatalog, PlayerId};
use crate::config::GameConfig;
use crate::pool::{InitialDraftOffering, ManualRefreshCount, PlayerPool, PlayerPools, ShopSlots};
use crate::rsm::{DraftPhase, SessionView};

verus! {

broadcast use vstd::std_specs::hash::group_hash_axioms;

/// At the start of the initial draft, replace all pools with a fresh pool
/// per session player; other drafts leave the pools alone.
pub fn initialize_player_pools_on_draft_started(
    pools: &mut PlayerPools,
    phase: DraftPhase,
    session: &SessionView,
    catalog: &CardCatalog,
    config: &GameConfig,
)
    ensures
        phase != DraftPhase::Initial ==> final(pools).pools@ == old(pools).pools@,
        phase == DraftPhase::Initial ==> forall|k: u64| #[trigger] final(pools).pools@.contains_key(k)
            <==> session.player_list().contains(PlayerId(k)),
        phase == DraftPhase::Initial ==> forall|k: u64, id: u32| #[trigger] final(pools).pools@.contains_key(k)
            ==> (#[trigger] final(pools).pools@[k].copies_remaining@.contains_key(id) <==> catalog.has(id)),
        phase == DraftPhase::Initial ==> forall|k: u64, id: u32| #[trigger] final(pools).pools@.contains_key(k)
            && catalog.has(id) ==> #[trigger] final(pools).pools@[k].copies_remaining@[id]
                == crate::pool::spec_copies_for(catalog.card(id), *config),
        phase == DraftPhase::Initial ==> forall|k: u64| #[trigger] final(pools).pools@.contains_key(k)
            ==> final(pools).pools@[k].wf() && final(pools).pools@[k].initial_count@ == final(pools).pools@[k].copies_remaining@,
{
    if phase != DraftPhase::Initial {
        return;
    }
    pools.pools.clear();
    let players = session.players();
    let n = players.len();
    let mut i: usize = 0;
    while i < n
        invariant
            n == players@.len(),
            0 <= i <= n,
            forall|k: u64| #[trigger] pools.pools@.contains_key(k) <==> players@.take(i as int).contains(PlayerId(k)),
            forall|k: u64, id: u32| #[trigger] pools.pools@.contains_key(k)
                ==> (#[trigger] pools.pools@[k].copies_remaining@.contains_key(id) <==> catalog.has(id)),
            forall|k: u64, id: u32| #[trigger] pools.pools@.contains_key(k) && catalog.has(id)
                ==> #[trigger] pools.pools@[k].copies_remaining@[id] == crate::pool::spec_copies_for(catalog.card(id), *config),
            forall|k: u64| #[trigger] pools.pools@.contains_key(k)
                ==> pools.pools@[k].wf() && pools.pools@[k].initial_count@ == pools.pools@[k].copies_remaining@,
        decreases n - i,
    {
        let p = players[i];
        let pool = PlayerPool::initialize(catalog, config);
        pools.pools.insert(p.0, pool);
        proof {
            let t0 = players@.take(i as int);
            let t1 = players@.take(i + 1);
            assert(t1 =~= t0.push(p));
            assert forall|k: u64| t1.contains(PlayerId(k)) <==> (t0.contains(PlayerId(k)) || PlayerId(k) == p) by {
                if t1.contains(PlayerId(k)) && PlayerId(k) != p {
                    let j = choose|j: int| 0 <= j < t1.len() && t1[j] == PlayerId(k);
                    assert(t0[j] == PlayerId(k));
                }
                if t0.contains(PlayerId(k)) {
                    let j = choose|j: int| 0 <= j < t0.len() && t0[j] == PlayerId(k);
                    assert(t1[j] == PlayerId(k));
                }
                if PlayerId(k) == p {
                    assert(t1[i as int] == p);
                }
            }
        }
        i = i + 1;
    }
    assert(players@.take(n as int) =~= players@);
}

/// After a game over (`game_over_seen`), drop every pool, shop slot, draft
/// offering and refresh count of the session; otherwise change nothing.
pub fn clear_pool_session_resources_on_game_over(
    game_over_seen: bool,
    pools: &mut PlayerPools,
    shop_slots: &mut ShopSlots,
    draft_offering: &mut InitialDraftOffering,
    refresh_count: &mut ManualRefreshCount,
)
    ensures
        game_over_seen ==> final(pools).pools@ == Map::<u64, PlayerPool>::empty()
            && final(shop_slots).0@ == Map::<u64, Vec<crate::card::CardId>>::empty()
            && final(draft_offering).0@ == Map::<u64, Vec<crate::card::CardId>>::empty()
            && final(refresh_count).0@ == Map::<u64, u32>::empty(),
        !game_over_seen ==> final(pools).pools@ == old(pools).pools@
            && final(shop_slots).0@ == old(shop_slots).0@
            && final(draft_offering).0@ == old(draft_offering).0@
            && final(refresh_count).0@ == old(refresh_count).0@,
{
    if !game_over_seen {
        return;
    }
    pools.pools.clear();
    shop_slots.0.clear();
    draft_offering.0.clear();
    refresh_count.0.clear();
}

} // verus!
