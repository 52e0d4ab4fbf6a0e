//! Economy updates driven by round events: draft start income, end of
//! resolution, and reward messages.

use std::collections::HashMap;
use vstd::prelude::*;
use crate::card::PlayerId;
use crate::config::GameConfig;
use crate::economy::{
    apply_gold_award, apply_mana_ramp, discard_current_mana, increment_mana_cap, sat_add_u32,
    spec_after_discard_current, spec_after_gold_award, spec_after_increment_mana_cap, spec_after_mana_ramp,
    PlayerEconomy,
};
use crate::rsm::{DraftPhase, SessionView};

verus! {

broadcast use vstd::std_specs::hash::group_hash_axioms;

/// Economy state of every player, keyed by player id.
pub struct PlayerEconomies(pub HashMap<u64, PlayerEconomy>);

/// Gold captured when a resolution ends, keyed by player id, for the next
/// draft's interest.
pub struct InterestSnapshots(pub HashMap<u64, u32>);

/// A player's full economy, for the network layer.
#[derive(Clone, Copy, Debug, PartialEq, Eq, Structural)]
pub struct S2CGoldUpdate {
    pub player: PlayerId,
    pub gold: u32,
    pub current_mana: u32,
    pub reserve_mana: u32,
    pub mana_cap: u32,
}

/// A player's gold and reservation, for the network layer.
#[derive(Clone, Copy, Debug, PartialEq, Eq, Structural)]
pub struct S2CGoldBroadcast {
    pub player_id: PlayerId,
    pub gold: u32,
    pub reserved_gold: u32,
}

/// Persistent gold awarded during resolution.
#[derive(Clone, Copy, Debug, PartialEq, Eq, Structural)]
pub struct AwardGold {
    pub player: PlayerId,
    pub amount: u32,
}

/// A mana cap reward: `amount` unit increments.
#[derive(Clone, Copy, Debug, PartialEq, Eq, Structural)]
pub struct ManaCapIncreased {
    pub player: PlayerId,
    pub amount: u32,
}

/// The gold broadcast of `economy`.
pub fn gold_broadcast(player_id: PlayerId, economy: &PlayerEconomy) -> (b: S2CGoldBroadcast)
    ensures
        b == (S2CGoldBroadcast { player_id, gold: economy.gold, reserved_gold: economy.reserved_gold }),
{
    S2CGoldBroadcast { player_id, gold: economy.gold, reserved_gold: economy.reserved_gold }
}

/// A new player's economy.
pub open spec fn starting_economy(config: GameConfig) -> PlayerEconomy {
    PlayerEconomy { gold: config.starting_gold, current_mana: 0, reserve_mana: 0, mana_cap: config.mana_cap, reserved_gold: 0 }
}

/// Interest on a gold snapshot: one gold per threshold (a zero threshold
/// counts as one), capped at the configured maximum.
pub open spec fn spec_interest(snapshot: u32, config: GameConfig) -> u32 {
    let threshold: u32 = if config.interest_threshold_gold >= 1 { config.interest_threshold_gold } else { 1 };
    let raw = snapshot / threshold;
    if raw <= config.interest_max_bonus { raw as u32 } else { config.interest_max_bonus }
}

/// A player's economy after the start of a draft: the mana ramp, then in
/// auction and shop drafts the round income (baseline plus interest).
pub open spec fn spec_draft_start(e: PlayerEconomy, snapshot: u32, round: u32, phase: DraftPhase, config: GameConfig) -> PlayerEconomy {
    let ramped = spec_after_mana_ramp(e, round);
    if phase == DraftPhase::Auction || phase == DraftPhase::Shop {
        spec_after_gold_award(ramped,
            sat_add_u32(config.gold_baseline_per_round as int, spec_interest(snapshot, config) as int) as u32)
    } else {
        ramped
    }
}

/// A player's economy before a draft start: the stored one, else a new one.
pub open spec fn economy_or_new(m: Map<u64, PlayerEconomy>, k: u64, config: GameConfig) -> PlayerEconomy {
    if m.contains_key(k) { m[k] } else { starting_economy(config) }
}

/// A player's interest snapshot, zero when none.
pub open spec fn snapshot_or_zero(m: Map<u64, u32>, k: u64) -> u32 {
    if m.contains_key(k) { m[k] } else { 0 }
}

/// Apply the start of a draft to every session player (in seat order):
/// create missing economies, ramp mana, and in auction and shop drafts pay
/// the round income from the interest snapshot, which is consumed. Returns
/// each player's gold update and broadcast, in seat order.
pub fn on_draft_started(
    economies: &mut PlayerEconomies,
    snapshots: &mut InterestSnapshots,
    session: &SessionView,
    round: u32,
    phase: DraftPhase,
    config: &GameConfig,
) -> (r: Vec<(S2CGoldUpdate, S2CGoldBroadcast)>)
    ensures
        forall|k: u64| #[trigger] final(economies).0@.contains_key(k)
            <==> old(economies).0@.contains_key(k) || session.player_list().contains(PlayerId(k)),
        forall|k: u64| session.player_list().contains(PlayerId(k))
            ==> #[trigger] final(economies).0@[k] == spec_draft_start(economy_or_new(old(economies).0@, k, *config),
                snapshot_or_zero(old(snapshots).0@, k), round, phase, *config),
        forall|k: u64| !session.player_list().contains(PlayerId(k)) && old(economies).0@.contains_key(k)
            ==> #[trigger] final(economies).0@[k] == old(economies).0@[k],
        forall|k: u64| #[trigger] final(snapshots).0@.contains_key(k) <==> old(snapshots).0@.contains_key(k)
            && !((phase == DraftPhase::Auction || phase == DraftPhase::Shop) && session.player_list().contains(PlayerId(k))),
        forall|k: u64| #[trigger] final(snapshots).0@.contains_key(k) ==> final(snapshots).0@[k] == old(snapshots).0@[k],
        r@.len() == session.player_list().len(),
        forall|i: int| 0 <= i < r@.len() ==> {
            let p = session.player_list()[i];
            let e = final(economies).0@[p.0];
            #[trigger] r@[i] == (S2CGoldUpdate { player: p, gold: e.gold, current_mana: e.current_mana,
                reserve_mana: e.reserve_mana, mana_cap: e.mana_cap },
                S2CGoldBroadcast { player_id: p, gold: e.gold, reserved_gold: e.reserved_gold })
        },
{
    let players = session.players();
    let pays_income = match phase {
        DraftPhase::Auction | DraftPhase::Shop => true,
        DraftPhase::Initial => false,
    };
    let ghost e0 = economies.0@;
    let ghost s0 = snapshots.0@;
    let mut out: Vec<(S2CGoldUpdate, S2CGoldBroadcast)> = Vec::new();
    let n = players.len();
    let mut i: usize = 0;
    while i < n
        invariant
            n == players@.len(),
            players@ == session.player_list(),
            players@.no_duplicates(),
            0 <= i <= n,
            pays_income == (phase == DraftPhase::Auction || phase == DraftPhase::Shop),
            out@.len() == i,
            forall|k: u64| #[trigger] economies.0@.contains_key(k)
                <==> e0.contains_key(k) || players@.take(i as int).contains(PlayerId(k)),
            forall|k: u64| players@.take(i as int).contains(PlayerId(k))
                ==> #[trigger] economies.0@[k] == spec_draft_start(economy_or_new(e0, k, *config),
                    snapshot_or_zero(s0, k), round, phase, *config),
            forall|k: u64| !players@.take(i as int).contains(PlayerId(k)) && e0.contains_key(k)
                ==> #[trigger] economies.0@[k] == e0[k],
            forall|k: u64| #[trigger] snapshots.0@.contains_key(k) <==> s0.contains_key(k)
                && !(pays_income && players@.take(i as int).contains(PlayerId(k))),
            forall|k: u64| #[trigger] snapshots.0@.contains_key(k) ==> snapshots.0@[k] == s0[k],
            forall|j: int| 0 <= j < i ==> {
                let p = players@[j];
                let e = economies.0@[p.0];
                #[trigger] out@[j] == (S2CGoldUpdate { player: p, gold: e.gold, current_mana: e.current_mana,
                    reserve_mana: e.reserve_mana, mana_cap: e.mana_cap },
                    S2CGoldBroadcast { player_id: p, gold: e.gold, reserved_gold: e.reserved_gold })
            },
        decreases n - i,
    {
        let p = players[i];
        let ghost t0 = players@.take(i as int);
        let ghost t1 = players@.take(i + 1);
        assert(t1 =~= t0.push(p));
        proof {
            if t0.contains(p) {
                let j = choose|j: int| 0 <= j < t0.len() && t0[j] == p;
                assert(players@[j] == players@[i as int]);
            }
            assert(t1[i as int] == p);
        }
        let mut economy = match economies.0.get(&p.0) {
            Some(e) => *e,
            None => PlayerEconomy {
                gold: config.starting_gold,
                current_mana: 0,
                reserve_mana: 0,
                mana_cap: config.mana_cap,
                reserved_gold: 0,
            },
        };
        apply_mana_ramp(&mut economy, round);
        if pays_income {
            let snap = match snapshots.0.remove(&p.0) {
                Some(v) => v,
                None => 0,
            };
            let threshold = if config.interest_threshold_gold >= 1 { config.interest_threshold_gold } else { 1 };
            let raw = snap / threshold;
            let interest = if raw <= config.interest_max_bonus { raw } else { config.interest_max_bonus };
            apply_gold_award(&mut economy, config.gold_baseline_per_round.saturating_add(interest));
        }
        economies.0.insert(p.0, economy);
        out.push((
            S2CGoldUpdate {
                player: p,
                gold: economy.gold,
                current_mana: economy.current_mana,
                reserve_mana: economy.reserve_mana,
                mana_cap: economy.mana_cap,
            },
            gold_broadcast(p, &economy),
        ));
        proof {
            assert forall|k: u64| t1.contains(PlayerId(k)) <==> (t0.contains(PlayerId(k)) || PlayerId(k) == p) by {
                if t1.contains(PlayerId(k)) && PlayerId(k) != p {
                    let j = choose|j: int| 0 <= j < t1.len() && t1[j] == PlayerId(k);
                    assert(t0[j] == PlayerId(k));
                }
                if t0.contains(PlayerId(k)) {
                    let j = choose|j: int| 0 <= j < t0.len() && t0[j] == PlayerId(k);
                    assert(t1[j] == PlayerId(k));
                }
            }
            assert forall|j: int| 0 <= j < i + 1 implies {
                let q = players@[j];
                let e = economies.0@[q.0];
                #[trigger] out@[j] == (S2CGoldUpdate { player: q, gold: e.gold, current_mana: e.current_mana,
                    reserve_mana: e.reserve_mana, mana_cap: e.mana_cap },
                    S2CGoldBroadcast { player_id: q, gold: e.gold, reserved_gold: e.reserved_gold })
            } by {
                if j < i {
                    assert(players@[j] != p);
                    assert(players@[j].0 != p.0);
                }
            }
        }
        i = i + 1;
    }
    assert(players@.take(n as int) =~= players@);
    out
}

/// Close a resolution for every session player that has an economy: record
/// the gold as the interest snapshot and discard current mana.
pub fn on_resolution_complete(economies: &mut PlayerEconomies, snapshots: &mut InterestSnapshots, session: &SessionView)
    ensures
        final(economies).0@.dom() == old(economies).0@.dom(),
        forall|k: u64| #[trigger] old(economies).0@.contains_key(k) ==> final(economies).0@[k]
            == if session.player_list().contains(PlayerId(k)) {
                spec_after_discard_current(old(economies).0@[k])
            } else {
                old(economies).0@[k]
            },
        forall|k: u64| #[trigger] final(snapshots).0@.contains_key(k) <==> old(snapshots).0@.contains_key(k)
            || (session.player_list().contains(PlayerId(k)) && old(economies).0@.contains_key(k)),
        forall|k: u64| #[trigger] final(snapshots).0@.contains_key(k) ==> final(snapshots).0@[k]
            == if session.player_list().contains(PlayerId(k)) && old(economies).0@.contains_key(k) {
                old(economies).0@[k].gold
            } else {
                old(snapshots).0@[k]
            },
{
    let players = session.players();
    let ghost e0 = economies.0@;
    let ghost s0 = snapshots.0@;
    let n = players.len();
    let mut i: usize = 0;
    while i < n
        invariant
            n == players@.len(),
            players@ == session.player_list(),
            players@.no_duplicates(),
            0 <= i <= n,
            economies.0@.dom() == e0.dom(),
            forall|k: u64| #[trigger] e0.contains_key(k) ==> economies.0@[k]
                == if players@.take(i as int).contains(PlayerId(k)) { spec_after_discard_current(e0[k]) } else { e0[k] },
            forall|k: u64| #[trigger] snapshots.0@.contains_key(k) <==> s0.contains_key(k)
                || (players@.take(i as int).contains(PlayerId(k)) && e0.contains_key(k)),
            forall|k: u64| #[trigger] snapshots.0@.contains_key(k) ==> snapshots.0@[k]
                == if players@.take(i as int).contains(PlayerId(k)) && e0.contains_key(k) { e0[k].gold } else { s0[k] },
        decreases n - i,
    {
        let p = players[i];
        let ghost t0 = players@.take(i as int);
        let ghost t1 = players@.take(i + 1);
        assert(t1 =~= t0.push(p));
        proof {
            if t0.contains(p) {
                let j = choose|j: int| 0 <= j < t0.len() && t0[j] == p;
                assert(players@[j] == players@[i as int]);
            }
            assert(t1[i as int] == p);
            assert forall|k: u64| t1.contains(PlayerId(k)) <==> (t0.contains(PlayerId(k)) || PlayerId(k) == p) by {
                if t1.contains(PlayerId(k)) && PlayerId(k) != p {
                    let j = choose|j: int| 0 <= j < t1.len() && t1[j] == PlayerId(k);
                    assert(t0[j] == PlayerId(k));
                }
                if t0.contains(PlayerId(k)) {
                    let j = choose|j: int| 0 <= j < t0.len() && t0[j] == PlayerId(k);
                    assert(t1[j] == PlayerId(k));
                }
            }
        }
        match economies.0.get(&p.0) {
            Some(e) => {
                let mut economy = *e;
                snapshots.0.insert(p.0, economy.gold);
                discard_current_mana(&mut economy);
                economies.0.insert(p.0, economy);
                assert(economies.0@.dom() =~= e0.dom());
            },
            None => {},
        }
        i = i + 1;
    }
    assert(players@.take(n as int) =~= players@);
}

/// Apply gold awards, in order, to the players that have an economy.
pub fn apply_award_gold_messages(economies: &mut PlayerEconomies, awards: &Vec<AwardGold>)
    ensures
        final(economies).0@ == awards_applied(old(economies).0@, awards@),
{
    let n = awards.len();
    let mut i: usize = 0;
    let ghost e0 = economies.0@;
    while i < n
        invariant
            n == awards@.len(),
            0 <= i <= n,
            economies.0@ == awards_applied(e0, awards@.take(i as int)),
        decreases n - i,
    {
        let a = awards[i];
        assert(awards@.take(i + 1).drop_last() =~= awards@.take(i as int));
        match economies.0.get(&a.player.0) {
            Some(e) => {
                let mut economy = *e;
                apply_gold_award(&mut economy, a.amount);
                economies.0.insert(a.player.0, economy);
            },
            None => {},
        }
        i = i + 1;
    }
    assert(awards@.take(n as int) =~= awards@);
}

/// Economies after gold awards applied in order.
pub open spec fn awards_applied(m: Map<u64, PlayerEconomy>, awards: Seq<AwardGold>) -> Map<u64, PlayerEconomy>
    decreases awards.len(),
{
    if awards.len() == 0 {
        m
    } else {
        let prev = awards_applied(m, awards.drop_last());
        let a = awards.last();
        if prev.contains_key(a.player.0) {
            prev.insert(a.player.0, spec_after_gold_award(prev[a.player.0], a.amount))
        } else {
            prev
        }
    }
}

/// `e` after `times` mana cap increments with ceiling `max`.
pub open spec fn cap_increments(e: PlayerEconomy, times: nat, max: u32) -> PlayerEconomy
    decreases times,
{
    if times == 0 { e } else { spec_after_increment_mana_cap(cap_increments(e, (times - 1) as nat, max), max) }
}

/// Economies after mana cap rewards applied in order.
pub open spec fn cap_rewards_applied(m: Map<u64, PlayerEconomy>, events: Seq<ManaCapIncreased>, max: u32) -> Map<u64, PlayerEconomy>
    decreases events.len(),
{
    if events.len() == 0 {
        m
    } else {
        let prev = cap_rewards_applied(m, events.drop_last(), max);
        let ev = events.last();
        if prev.contains_key(ev.player.0) {
            prev.insert(ev.player.0, cap_increments(prev[ev.player.0], ev.amount as nat, max))
        } else {
            prev
        }
    }
}

/// Apply mana cap rewards, in order, to the players that have an economy;
/// each reward raises the cap `amount` times, never past the ceiling.
/// Nothing happens without a configuration.
pub fn apply_mana_cap_increased_messages(economies: &mut PlayerEconomies, events: &Vec<ManaCapIncreased>, config: &Option<GameConfig>)
    ensures
        config is None ==> final(economies).0@ == old(economies).0@,
        config matches Some(c) ==> final(economies).0@ == cap_rewards_applied(old(economies).0@, events@, c.mana_cap_max),
{
    let config = match config {
        Some(c) => c,
        None => return,
    };
    let n = events.len();
    let mut i: usize = 0;
    let ghost e0 = economies.0@;
    while i < n
        invariant
            n == events@.len(),
            0 <= i <= n,
            economies.0@ == cap_rewards_applied(e0, events@.take(i as int), config.mana_cap_max),
        decreases n - i,
    {
        let ev = events[i];
        assert(events@.take(i + 1).drop_last() =~= events@.take(i as int));
        match economies.0.get(&ev.player.0) {
            Some(e) => {
                let mut economy = *e;
                let mut j: u32 = 0;
                while j < ev.amount
                    invariant
                        0 <= j <= ev.amount,
                        economy == cap_increments(*e, j as nat, config.mana_cap_max),
                    decreases ev.amount - j,
                {
                    increment_mana_cap(&mut economy, config);
                    j = j + 1;
                }
                economies.0.insert(ev.player.0, economy);
            },
            None => {},
        }
        i = i + 1;
    }
    assert(events@.take(n as int) =~= events@);
}

/// Interest never exceeds the configured maximum bonus.
pub proof fn law_interest_capped(snapshot: u32, config: GameConfig)
    ensures
        spec_interest(snapshot, config) <= config.interest_max_bonus,
{
}

/// The start of a draft never lowers gold, never touches reserve mana or the
/// reservation, and sets current mana to the ramp.
pub proof fn law_draft_start_keeps_savings(e: PlayerEconomy, snapshot: u32, round: u32, phase: DraftPhase, config: GameConfig)
    ensures
        spec_draft_start(e, snapshot, round, phase, config).gold >= e.gold,
        spec_draft_start(e, snapshot, round, phase, config).reserve_mana == e.reserve_mana,
        spec_draft_start(e, snapshot, round, phase, config).reserved_gold == e.reserved_gold,
        spec_draft_start(e, snapshot, round, phase, config).current_mana
            == if round <= e.mana_cap { round } else { e.mana_cap },
{
}

/// Round income at the start of a shop or auction draft: gold rises by the
/// baseline plus one gold of interest per full threshold of the snapshot (a
/// zero threshold counts as one), the interest at most the maximum bonus,
/// and the total capped at `u32::MAX`. A snapshot of at least one
/// threshold earns at least one gold of interest when the bonus allows it.
/// The initial draft pays nothing.
pub proof fn law_draft_income(e: PlayerEconomy, snapshot: u32, round: u32, phase: DraftPhase, config: GameConfig)
    ensures
        ({
            let threshold: int = if config.interest_threshold_gold == 0 {
                1
            } else {
                config.interest_threshold_gold as int
            };
            let per_threshold: int = snapshot as int / threshold;
            let interest: int = if per_threshold < config.interest_max_bonus as int {
                per_threshold
            } else {
                config.interest_max_bonus as int
            };
            let total: int = e.gold as int + config.gold_baseline_per_round as int + interest;
            &&& (phase == DraftPhase::Auction || phase == DraftPhase::Shop) ==> spec_draft_start(e, snapshot, round,
                phase, config).gold as int == if total > u32::MAX as int { u32::MAX as int } else { total }
            &&& (phase == DraftPhase::Auction || phase == DraftPhase::Shop) && snapshot as int >= threshold
                && config.interest_max_bonus >= 1 && total <= u32::MAX as int ==> spec_draft_start(e, snapshot,
                round, phase, config).gold as int >= e.gold as int + config.gold_baseline_per_round as int + 1
            &&& phase == DraftPhase::Initial ==> spec_draft_start(e, snapshot, round, phase, config).gold == e.gold
        }),
{
    let threshold: int = if config.interest_threshold_gold == 0 { 1 } else { config.interest_threshold_gold as int };
    if snapshot as int >= threshold {
        assert(snapshot as int / threshold >= 1) by (nonlinear_arith)
            requires
                snapshot as int >= threshold,
                threshold >= 1,
        ;
    }
}

/// Gold awarded to player `k` by `awards`, summed.
pub open spec fn awarded_to(awards: Seq<AwardGold>, k: u64) -> int
    decreases awards.len(),
{
    if awards.len() == 0 {
        0
    } else {
        awarded_to(awards.drop_last(), k) + if awards.last().player.0 == k {
            awards.last().amount as int
        } else {
            0
        }
    }
}

proof fn lemma_awarded_nonnegative(awards: Seq<AwardGold>, k: u64)
    ensures
        awarded_to(awards, k) >= 0,
    decreases awards.len(),
{
    if awards.len() > 0 {
        lemma_awarded_nonnegative(awards.drop_last(), k);
    }
}

/// After gold awards, every player with an economy holds their old gold
/// plus everything awarded to them, capped at `u32::MAX`; nothing else of
/// any economy changes, and no economy appears or disappears.
pub proof fn law_awards_add_up(m: Map<u64, PlayerEconomy>, awards: Seq<AwardGold>)
    ensures
        forall|k: u64| #[trigger] awards_applied(m, awards).contains_key(k) <==> m.contains_key(k),
        forall|k: u64| m.contains_key(k) ==> {
            let total = m[k].gold as int + awarded_to(awards, k);
            #[trigger] awards_applied(m, awards)[k] == (PlayerEconomy {
                gold: (if total > u32::MAX as int { u32::MAX as int } else { total }) as u32,
                ..m[k]
            })
        },
    decreases awards.len(),
{
    if awards.len() > 0 {
        let rest = awards.drop_last();
        let a = awards.last();
        law_awards_add_up(m, rest);
        let prev = awards_applied(m, rest);
        assert forall|k: u64| #[trigger] awards_applied(m, awards).contains_key(k) <==> m.contains_key(k) by {
            assert(prev.contains_key(k) <==> m.contains_key(k));
        }
        assert forall|k: u64| m.contains_key(k) implies {
            let total = m[k].gold as int + awarded_to(awards, k);
            #[trigger] awards_applied(m, awards)[k] == (PlayerEconomy {
                gold: (if total > u32::MAX as int { u32::MAX as int } else { total }) as u32,
                ..m[k]
            })
        } by {
            assert(prev.contains_key(k));
            lemma_awarded_nonnegative(rest, k);
            let t0 = m[k].gold as int + awarded_to(rest, k);
            let g0: int = if t0 > u32::MAX as int { u32::MAX as int } else { t0 };
            assert(prev[k].gold as int == g0);
            if a.player.0 == k {
                let t1 = t0 + a.amount as int;
                assert(awarded_to(awards, k) == awarded_to(rest, k) + a.amount as int);
                assert(awards_applied(m, awards)[k] == spec_after_gold_award(prev[k], a.amount));
                assert(awards_applied(m, awards)[k].gold as int == (if t1 > u32::MAX as int {
                    u32::MAX as int
                } else {
                    t1
                }));
            } else {
                assert(awarded_to(awards, k) == awarded_to(rest, k));
            }
        }
    } else {
        assert forall|k: u64| m.contains_key(k) implies {
            let total = m[k].gold as int + awarded_to(awards, k);
            #[trigger] awards_applied(m, awards)[k] == (PlayerEconomy {
                gold: (if total > u32::MAX as int { u32::MAX as int } else { total }) as u32,
                ..m[k]
            })
        } by {
            assert(m[k].gold as int <= u32::MAX as int);
        }
    }
}

/// Mana cap raises granted to player `k` by `events`, summed.
pub open spec fn cap_raises_to(events: Seq<ManaCapIncreased>, k: u64) -> int
    decreases events.len(),
{
    if events.len() == 0 {
        0
    } else {
        cap_raises_to(events.drop_last(), k) + if events.last().player.0 == k {
            events.last().amount as int
        } else {
            0
        }
    }
}

/// `e`'s mana cap after `n` raises toward `max`.
proof fn lemma_cap_increments(e: PlayerEconomy, n: nat, max: u32)
    ensures
        cap_increments(e, n, max) == (PlayerEconomy {
            mana_cap: (if e.mana_cap >= max {
                e.mana_cap as int
            } else if e.mana_cap + n > max {
                max as int
            } else {
                e.mana_cap + n
            }) as u32,
            ..e
        }),
    decreases n,
{
    if n > 0 {
        lemma_cap_increments(e, (n - 1) as nat, max);
    }
}

proof fn lemma_cap_raises_nonnegative(events: Seq<ManaCapIncreased>, k: u64)
    ensures
        cap_raises_to(events, k) >= 0,
    decreases events.len(),
{
    if events.len() > 0 {
        lemma_cap_raises_nonnegative(events.drop_last(), k);
    }
}

/// After mana cap rewards, every player with an economy has their cap
/// raised by everything granted to them, but never past the ceiling (a cap
/// already at or above it stays); nothing else of any economy changes, and
/// no economy appears or disappears.
pub proof fn law_cap_rewards_add_up(m: Map<u64, PlayerEconomy>, events: Seq<ManaCapIncreased>, max: u32)
    ensures
        forall|k: u64| #[trigger] cap_rewards_applied(m, events, max).contains_key(k) <==> m.contains_key(k),
        forall|k: u64| m.contains_key(k) ==> {
            let raised = m[k].mana_cap + cap_raises_to(events, k);
            #[trigger] cap_rewards_applied(m, events, max)[k] == (PlayerEconomy {
                mana_cap: (if m[k].mana_cap >= max {
                    m[k].mana_cap as int
                } else if raised > max {
                    max as int
                } else {
                    raised
                }) as u32,
                ..m[k]
            })
        },
    decreases events.len(),
{
    if events.len() > 0 {
        let rest = events.drop_last();
        let ev = events.last();
        law_cap_rewards_add_up(m, rest, max);
        let prev = cap_rewards_applied(m, rest, max);
        assert forall|k: u64| #[trigger] cap_rewards_applied(m, events, max).contains_key(k) <==> m.contains_key(k) by {
            assert(prev.contains_key(k) <==> m.contains_key(k));
        }
        assert forall|k: u64| m.contains_key(k) implies {
            let raised = m[k].mana_cap + cap_raises_to(events, k);
            #[trigger] cap_rewards_applied(m, events, max)[k] == (PlayerEconomy {
                mana_cap: (if m[k].mana_cap >= max {
                    m[k].mana_cap as int
                } else if raised > max {
                    max as int
                } else {
                    raised
                }) as u32,
                ..m[k]
            })
        } by {
            assert(prev.contains_key(k));
            lemma_cap_raises_nonnegative(rest, k);
            if ev.player.0 == k {
                lemma_cap_increments(prev[k], ev.amount as nat, max);
                assert(cap_raises_to(events, k) == cap_raises_to(rest, k) + ev.amount as int);
            } else {
                assert(cap_raises_to(events, k) == cap_raises_to(rest, k));
            }
        }
    }
}

} // verus!
