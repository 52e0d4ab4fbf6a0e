//! Objective destruction counters read by the round state machine.

use std::collections::HashMap;
use vstd::prelude::*;
use crate::card::PlayerId;

verus! {

broadcast use vstd::std_specs::hash::group_hash_axioms;

/// Objective destruction counters keyed by player id.
pub struct ObjectiveCounters {
    /// Destroyed real objectives keyed by defending player.
    pub real_destroyed: HashMap<u64, u32>,
    /// Destroyed fake objectives keyed by attacking player.
    pub fake_destroyed: HashMap<u64, u32>,
}

impl ObjectiveCounters {
    /// No counters.
    pub fn new() -> (c: Self)
        ensures
            c.real_destroyed@ == Map::<u64, u32>::empty(),
            c.fake_destroyed@ == Map::<u64, u32>::empty(),
    {
        ObjectiveCounters { real_destroyed: HashMap::new(), fake_destroyed: HashMap::new() }
    }

    /// Reset both counter maps to exactly the given players, each at zero.
    pub fn reset_for_players(&mut self, players: &Vec<PlayerId>)
        ensures
            forall|k: u64| #[trigger] final(self).real_destroyed@.contains_key(k) <==> players@.contains(PlayerId(k)),
            forall|k: u64| #[trigger] final(self).fake_destroyed@.contains_key(k) <==> players@.contains(PlayerId(k)),
            forall|k: u64| final(self).real_destroyed@.contains_key(k) ==> #[trigger] final(self).real_destroyed@[k] == 0,
            forall|k: u64| final(self).fake_destroyed@.contains_key(k) ==> #[trigger] final(self).fake_destroyed@[k] == 0,
    {
        self.real_destroyed.clear();
        self.fake_destroyed.clear();
        let n = players.len();
        let mut i: usize = 0;
        while i < n
            invariant
                n == players@.len(),
                0 <= i <= n,
                forall|k: u64| #[trigger] self.real_destroyed@.contains_key(k) <==> players@.take(i as int).contains(PlayerId(k)),
                forall|k: u64| #[trigger] self.fake_destroyed@.contains_key(k) <==> players@.take(i as int).contains(PlayerId(k)),
                forall|k: u64| self.real_destroyed@.contains_key(k) ==> #[trigger] self.real_destroyed@[k] == 0,
                forall|k: u64| self.fake_destroyed@.contains_key(k) ==> #[trigger] self.fake_destroyed@[k] == 0,
            decreases n - i,
        {
            let p = players[i];
            self.real_destroyed.insert(p.0, 0);
            self.fake_destroyed.insert(p.0, 0);
            proof {
                let t0 = players@.take(i as int);
                let t1 = players@.take(i + 1);
                assert(t1 =~= t0.push(p));
                assert forall|k: u64| t1.contains(PlayerId(k)) <==> (t0.contains(PlayerId(k)) || PlayerId(k) == p) by {
                    if t1.contains(PlayerId(k)) && PlayerId(k) != p {
                        let j = choose|j: int| 0 <= j < t1.len() && #[trigger] t1[j] == PlayerId(k);
                        assert(t0[j] == PlayerId(k));
                    }
                    if t0.contains(PlayerId(k)) {
                        let j = choose|j: int| 0 <= j < t0.len() && #[trigger] t0[j] == PlayerId(k);
                        assert(t1[j] == PlayerId(k));
                    }
                    if PlayerId(k) == p {
                        assert(t1[i as int] == p);
                    }
                }
            }
            i = i + 1;
        }
        assert(players@.take(n as int) =~= players@);
    }

    /// Number of real objectives destroyed for `player`; zero when untracked.
    pub fn real_objectives_destroyed(&self, player: PlayerId) -> (r: u32)
        ensures
            r == count_of_u64(self.real_destroyed@, player.0),
    {
        match self.real_destroyed.get(&player.0) {
            Some(n) => *n,
            None => 0,
        }
    }

    /// Number of fake objectives rewarded for `player`; zero when untracked.
    pub fn fake_objectives_destroyed(&self, player: PlayerId) -> (r: u32)
        ensures
            r == count_of_u64(self.fake_destroyed@, player.0),
    {
        match self.fake_destroyed.get(&player.0) {
            Some(n) => *n,
            None => 0,
        }
    }
}

/// The value stored for `k`, or zero for an absent key.
pub open spec fn count_of_u64(m: Map<u64, u32>, k: u64) -> u32 {
    if m.contains_key(k) { m[k] } else { 0 }
}

} // verus!
