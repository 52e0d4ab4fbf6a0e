//! Round state machine: the phases of a session, their timers, and the
//! decisions that move a session from phase to phase.
//!
//! Every transition is a function from the current state and its inputs to
//! the next state and the list of events that the host then publishes.

use std::collections::{HashMap, HashSet};
use vstd::prelude::*;
use crate::card::PlayerId;
use crate::config::GameConfig;
use crate::settings::{spec_apply_to_ms, PlacementTimerMultiplier};
use crate::objective::{count_of_u64, ObjectiveCounters};
use crate::timer::PhaseTimer;

verus! {

broadcast use vstd::std_specs::hash::group_hash_axioms;

/// Phase of a game session.
#[derive(Clone, Copy, Debug, PartialEq, Eq, Hash, Structural)]
pub enum RoundPhase {
    Lobby,
    DraftInitial,
    DraftAuction,
    DraftShop,
    Placement,
    Resolution,
    GameOver,
}

/// Sub-phase announced when a draft starts.
#[derive(Clone, Copy, Debug, PartialEq, Eq, Hash, Structural)]
pub enum DraftPhase {
    Initial,
    Auction,
    Shop,
}

/// Why a session ended.
#[derive(Clone, Copy, Debug, PartialEq, Eq, Hash, Structural)]
pub enum GameOverReason {
    Disconnect,
    Draw,
    ObjectivesDestroyed,
    ResolutionTimeout,
}

/// What a shop refresh announced at draft entry does.
#[derive(Clone, Copy, Debug, PartialEq, Eq, Hash, Structural)]
pub enum ShopRefreshTrigger {
    /// DRAFT_INITIAL entry: draw the initial draft offering.
    DraftInitial,
    /// DRAFT_AUCTION entry: draw and lock auction-round shop slots.
    AuctionLock,
    /// DRAFT_SHOP entry on non-auction rounds: draw active shop slots.
    ShopOpen,
    /// DRAFT_AUCTION -> DRAFT_SHOP: unlock existing auction slots.
    ShopUnlock,
}

/// A requested end of the session.
#[derive(Clone, Copy, Debug, PartialEq, Eq, Structural)]
pub struct GameOverRequest {
    pub reason: GameOverReason,
    pub loser: Option<PlayerId>,
}

/// A request to leave `expected_source`; with `game_over`, to end the session.
#[derive(Clone, Copy, Debug, PartialEq, Eq, Structural)]
pub struct PhaseAdvanceRequest {
    pub expected_source: RoundPhase,
    pub game_over: Option<GameOverRequest>,
}

impl PhaseAdvanceRequest {
    /// A request to advance out of `expected_source`.
    pub fn new(expected_source: RoundPhase) -> (r: Self)
        ensures
            r == (PhaseAdvanceRequest { expected_source, game_over: None }),
    {
        PhaseAdvanceRequest { expected_source, game_over: None }
    }

    /// A request to end the session from `expected_source`.
    pub fn game_over(expected_source: RoundPhase, reason: GameOverReason, loser: Option<PlayerId>) -> (r: Self)
        ensures
            r == (PhaseAdvanceRequest { expected_source, game_over: Some(GameOverRequest { reason, loser }) }),
    {
        PhaseAdvanceRequest { expected_source, game_over: Some(GameOverRequest { reason, loser }) }
    }
}

/// The phase advance requested during the current frame, if any; a later
/// request replaces an earlier one.
#[derive(Clone, Copy, Debug)]
pub struct PendingPhaseAdvance {
    pub request: Option<PhaseAdvanceRequest>,
}

impl PendingPhaseAdvance {
    /// Nothing requested.
    pub fn new() -> (p: Self)
        ensures
            p.request is None,
    {
        PendingPhaseAdvance { request: None }
    }

    /// Record `request`.
    pub fn request(&mut self, request: PhaseAdvanceRequest)
        ensures
            final(self).request == Some(request),
    {
        self.request = Some(request);
    }

    /// Whether a request is pending.
    pub fn is_requested(&self) -> (r: bool)
        ensures
            r == self.request is Some,
    {
        self.request.is_some()
    }

    /// Take the pending request, leaving none.
    pub fn take(&mut self) -> (r: Option<PhaseAdvanceRequest>)
        ensures
            r == old(self).request,
            final(self).request is None,
    {
        let r = self.request;
        self.request = None;
        r
    }
}

/// What a transition publishes, in order.
#[derive(Clone, Copy, Debug, PartialEq, Eq, Structural)]
pub enum RsmEvent {
    /// The lobby closed; every player's class is locked.
    LobbyComplete,
    /// Every player's class choice becomes final.
    LockAllClasses,
    DraftStarted { round: u32, phase: DraftPhase },
    ShopRefreshTriggered { player_id: PlayerId, trigger: ShopRefreshTrigger },
    AuctionPhaseEntered { round: u32 },
    AbortAuction,
    PlacementPhaseEntered { round: u32 },
    ResolutionPhaseEntered { round: u32 },
    BeginResolution { round: u32 },
    GameOverEmitted { reason: GameOverReason, loser: Option<PlayerId>, round: u32 },
    BroadcastPhaseChanged { phase: RoundPhase, round: u32, timer_ms: u32 },
}

/// The players of the active session, each once, in seat order.
pub struct SessionView {
    players: Vec<PlayerId>,
    player_count: u8,
}

/// `s` without repeats, keeping first occurrences in order.
pub open spec fn dedup(s: Seq<PlayerId>) -> Seq<PlayerId>
    decreases s.len(),
{
    if s.len() == 0 {
        Seq::empty()
    } else {
        let d = dedup(s.drop_last());
        if d.contains(s.last()) { d } else { d.push(s.last()) }
    }
}

proof fn lemma_dedup_members(s: Seq<PlayerId>)
    ensures
        dedup(s).no_duplicates(),
        forall|x: PlayerId| dedup(s).contains(x) <==> s.contains(x),
    decreases s.len(),
{
    if s.len() > 0 {
        let t = s.drop_last();
        lemma_dedup_members(t);
        let d = dedup(t);
        let last = s.last();
        assert forall|x: PlayerId| s.contains(x) <==> (t.contains(x) || x == last) by {
            if s.contains(x) && x != last {
                let j = choose|j: int| 0 <= j < s.len() && s[j] == x;
                assert(j != s.len() - 1);
                assert(t[j] == x);
            }
            if t.contains(x) {
                let j = choose|j: int| 0 <= j < t.len() && t[j] == x;
                assert(s[j] == x);
            }
            if x == last {
                assert(s[s.len() - 1] == x);
            }
        }
        if !d.contains(last) {
            let e = d.push(last);
            assert forall|x: PlayerId| e.contains(x) <==> (d.contains(x) || x == last) by {
                if e.contains(x) && x != last {
                    let j = choose|j: int| 0 <= j < e.len() && e[j] == x;
                    assert(j != e.len() - 1);
                    assert(d[j] == x);
                }
                if d.contains(x) {
                    let j = choose|j: int| 0 <= j < d.len() && d[j] == x;
                    assert(e[j] == x);
                }
                if x == last {
                    assert(e[e.len() - 1] == x);
                }
            }
            assert forall|a: int, b: int| 0 <= a < e.len() && 0 <= b < e.len() && a != b implies e[a] != e[b] by {
                if a == e.len() - 1 {
                    assert(d.contains(e[b]));
                } else if b == e.len() - 1 {
                    assert(d.contains(e[a]));
                }
            }
        }
    }
}

impl SessionView {
    #[verifier::type_invariant]
    spec fn distinct(self) -> bool {
        self.players@.no_duplicates()
    }

    /// Session players, each once, in seat order.
    pub closed spec fn player_list(self) -> Seq<PlayerId> {
        self.players@
    }

    /// Number of seats of the session.
    pub closed spec fn seats(self) -> u8 {
        self.player_count
    }

    /// Number of seats of the session.
    pub fn player_count(&self) -> (r: u8)
        ensures
            r == self.seats(),
    {
        self.player_count
    }

    /// A session of `player_count` seats holding `players`; a player listed
    /// twice is kept once, at its first position.
    pub fn new(players: Vec<PlayerId>, player_count: u8) -> (s: Self)
        ensures
            s.player_list() == dedup(players@),
            s.seats() == player_count,
    {
        let n = players.len();
        let mut out: Vec<PlayerId> = Vec::new();
        let mut i: usize = 0;
        while i < n
            invariant
                n == players@.len(),
                0 <= i <= n,
                out@ == dedup(players@.take(i as int)),
            decreases n - i,
        {
            let p = players[i];
            assert(players@.take(i + 1).drop_last() =~= players@.take(i as int));
            let m = out.len();
            let mut found = false;
            let mut j: usize = 0;
            while j < m
                invariant
                    m == out@.len(),
                    0 <= j <= m,
                    found == exists|k: int| 0 <= k < j && out@[k] == p,
                decreases m - j,
            {
                if out[j] == p {
                    found = true;
                }
                j = j + 1;
            }
            if !found {
                out.push(p);
            }
            i = i + 1;
        }
        assert(players@.take(n as int) =~= players@);
        proof {
            lemma_dedup_members(players@);
        }
        SessionView { players: out, player_count }
    }

    /// Session players, each once, in seat order.
    pub fn players(&self) -> (r: &Vec<PlayerId>)
        ensures
            r@ == self.player_list(),
            r@.no_duplicates(),
    {
        proof {
            use_type_invariant(self);
        }
        &self.players
    }
}

/// Phase durations from the game configuration.
#[derive(Clone, Copy, Debug)]
pub struct RsmTimings {
    pub draft_initial_timer_seconds: u32,
    pub draft_shop_timer_seconds: u32,
    pub resolution_max_duration_seconds: u32,
}

/// Everything besides the state that transitions read.
pub struct RsmContext {
    /// The active session, when one exists.
    pub session: Option<SessionView>,
    /// Configured phase durations, when the configuration is loaded.
    pub timings: Option<RsmTimings>,
    /// Placement timer of an ordinary round, in milliseconds, with the
    /// session's multiplier applied; zero means no timer.
    pub placement_timer_ms: u32,
    /// Placement timer of a round that followed an auction, in milliseconds,
    /// with the session's multiplier applied; zero means no timer.
    pub auction_followup_placement_timer_ms: u32,
    /// Disconnect grace window in seconds.
    pub disconnect_grace_seconds: u32,
    /// Whether every player has chosen a class, when class choice is tracked.
    pub all_classes_chosen: Option<bool>,
}

/// Server-authoritative round state.
pub struct RoundState {
    pub phase: RoundPhase,
    pub round_number: u32,
    pub placement_timer: Option<PhaseTimer>,
    pub draft_shop_timer: Option<PhaseTimer>,
    pub draft_initial_timer: Option<PhaseTimer>,
    pub auction_safety_timer: Option<PhaseTimer>,
    pub resolution_safety_timer: Option<PhaseTimer>,
    /// Players (by id) whose placement arrived this phase.
    pub submissions_received: HashSet<u64>,
    /// Players (by id) ready to leave the current draft phase.
    pub draft_ready_players: HashSet<u64>,
    /// Remaining disconnect grace per player id, in milliseconds.
    pub disconnect_trackers: HashMap<u64, u32>,
    /// A disconnect loss detected during resolution, applied when it ends.
    pub pending_disconnect_outcome: Option<GameOverRequest>,
}

/// The mathematical state of a round: timers by their armed durations.
#[verifier::ext_equal]
pub struct RsmView {
    pub phase: RoundPhase,
    pub round_number: u32,
    pub placement_ms: Option<nat>,
    pub draft_shop_ms: Option<nat>,
    pub draft_initial_ms: Option<nat>,
    pub auction_safety_ms: Option<nat>,
    pub resolution_safety_ms: Option<nat>,
    pub submissions: Set<u64>,
    pub ready: Set<u64>,
    pub trackers: Map<u64, u32>,
    pub pending_disconnect_outcome: Option<GameOverRequest>,
}

/// A timer by its armed duration.
pub open spec fn timer_ms(t: Option<PhaseTimer>) -> Option<nat> {
    match t {
        Some(t) => Some(t.armed_ms()),
        None => None,
    }
}

/// Every phase timer of `after` is exactly the one of `before`.
pub open spec fn timers_kept(before: RoundState, after: RoundState) -> bool {
    &&& after.placement_timer == before.placement_timer
    &&& after.draft_shop_timer == before.draft_shop_timer
    &&& after.draft_initial_timer == before.draft_initial_timer
    &&& after.auction_safety_timer == before.auction_safety_timer
    &&& after.resolution_safety_timer == before.resolution_safety_timer
}

/// A timer that has not run yet.
pub open spec fn fresh_timer(t: Option<PhaseTimer>) -> bool {
    t matches Some(x) ==> x.elapsed_ns() == 0 && !x.has_finished()
}

/// One timer slot after a transition: a slot it sets is empty or holds a
/// timer that has not run yet; a slot it leaves alone keeps its timer.
pub open spec fn timer_slot_after(before: Option<PhaseTimer>, set: bool, after: Option<PhaseTimer>) -> bool {
    if set {
        fresh_timer(after)
    } else {
        after == before
    }
}

/// Which timer slots a transition sets, in the order placement, draft shop,
/// initial draft, auction safety, resolution safety.
pub struct TimerSlots {
    pub placement: bool,
    pub draft_shop: bool,
    pub draft_initial: bool,
    pub auction_safety: bool,
    pub resolution_safety: bool,
}

/// No timer slot is set.
pub open spec fn no_timer_slots() -> TimerSlots {
    TimerSlots { placement: false, draft_shop: false, draft_initial: false, auction_safety: false, resolution_safety: false }
}

/// The timers of `after`, given those of `before` and the slots set.
pub open spec fn timers_after(before: RoundState, set: TimerSlots, after: RoundState) -> bool {
    &&& timer_slot_after(before.placement_timer, set.placement, after.placement_timer)
    &&& timer_slot_after(before.draft_shop_timer, set.draft_shop, after.draft_shop_timer)
    &&& timer_slot_after(before.draft_initial_timer, set.draft_initial, after.draft_initial_timer)
    &&& timer_slot_after(before.auction_safety_timer, set.auction_safety, after.auction_safety_timer)
    &&& timer_slot_after(before.resolution_safety_timer, set.resolution_safety, after.resolution_safety_timer)
}

/// The slots that entering the initial draft sets: none when the lobby
/// still waits for class choices, else placement, draft shop and initial
/// draft.
pub open spec fn draft_initial_timer_slots(ctx: RsmContext) -> TimerSlots {
    if ctx.all_classes_chosen == Some(false) {
        no_timer_slots()
    } else {
        TimerSlots { placement: true, draft_shop: true, draft_initial: true, auction_safety: false, resolution_safety: false }
    }
}

/// The slots that applying request `r` in `phase` sets.
pub open spec fn advance_timer_slots(phase: RoundPhase, r: PhaseAdvanceRequest, ctx: RsmContext) -> TimerSlots {
    if r.expected_source != phase {
        no_timer_slots()
    } else if r.game_over is Some {
        TimerSlots { placement: true, draft_shop: true, draft_initial: true, auction_safety: true, resolution_safety: true }
    } else {
        match phase {
            RoundPhase::Lobby => draft_initial_timer_slots(ctx),
            RoundPhase::DraftInitial => TimerSlots { placement: true, draft_shop: true, draft_initial: true, ..no_timer_slots() },
            RoundPhase::DraftAuction => TimerSlots { draft_shop: true, ..no_timer_slots() },
            RoundPhase::DraftShop => TimerSlots { placement: true, draft_shop: true, ..no_timer_slots() },
            RoundPhase::Placement => TimerSlots { placement: true, resolution_safety: true, ..no_timer_slots() },
            RoundPhase::Resolution => TimerSlots { draft_shop: true, resolution_safety: true, ..no_timer_slots() },
            RoundPhase::GameOver => no_timer_slots(),
        }
    }
}

/// The request `advance_phase` applies: the pending one, else the standing one.
pub open spec fn taken_request(pending: Option<PhaseAdvanceRequest>, standing: Option<PhaseAdvanceRequest>) -> Option<PhaseAdvanceRequest> {
    if pending is Some { pending } else { standing }
}

/// `request` is an ordinary (not game-over) advance out of `phase`.
pub open spec fn ordinary_advance(phase: RoundPhase, request: Option<PhaseAdvanceRequest>) -> bool {
    request matches Some(r) && r.expected_source == phase && r.game_over is None
}

impl View for RoundState {
    type V = RsmView;

    open spec fn view(&self) -> RsmView {
        RsmView {
            phase: self.phase,
            round_number: self.round_number,
            placement_ms: timer_ms(self.placement_timer),
            draft_shop_ms: timer_ms(self.draft_shop_timer),
            draft_initial_ms: timer_ms(self.draft_initial_timer),
            auction_safety_ms: timer_ms(self.auction_safety_timer),
            resolution_safety_ms: timer_ms(self.resolution_safety_timer),
            submissions: self.submissions_received@,
            ready: self.draft_ready_players@,
            trackers: self.disconnect_trackers@,
            pending_disconnect_outcome: self.pending_disconnect_outcome,
        }
    }
}

/// Every third round is an auction round.
pub open spec fn spec_is_auction_round(round_number: u32) -> bool {
    round_number % 3 == 0
}

/// Seconds to milliseconds, capped at `u32::MAX`.
pub open spec fn spec_seconds_to_ms(seconds: u32) -> u32 {
    if seconds as int * 1000 > u32::MAX { u32::MAX } else { (seconds * 1000) as u32 }
}

/// Timer announced with a draft phase.
pub open spec fn spec_draft_timer_ms(phase: DraftPhase, timings: Option<RsmTimings>) -> u32 {
    match timings {
        None => 0,
        Some(t) => match phase {
            DraftPhase::Initial => spec_seconds_to_ms(t.draft_initial_timer_seconds),
            DraftPhase::Auction => 0,
            DraftPhase::Shop => spec_seconds_to_ms(t.draft_shop_timer_seconds),
        },
    }
}

/// Round phase a draft phase is played in.
pub open spec fn draft_round_phase(phase: DraftPhase) -> RoundPhase {
    match phase {
        DraftPhase::Initial => RoundPhase::DraftInitial,
        DraftPhase::Auction => RoundPhase::DraftAuction,
        DraftPhase::Shop => RoundPhase::DraftShop,
    }
}

/// Players of the session, or none without a session.
pub open spec fn session_players(ctx: RsmContext) -> Seq<PlayerId> {
    match ctx.session {
        Some(s) => s.player_list(),
        None => Seq::empty(),
    }
}

/// A one-shot timer of a whole number of seconds, when configured.
pub open spec fn seconds_timer(timings: Option<RsmTimings>, seconds: spec_fn(RsmTimings) -> u32) -> Option<nat> {
    match timings {
        Some(t) => Some(seconds(t) as nat * 1000),
        None => None,
    }
}

/// A placement timer of `ms` milliseconds; none when `ms` is zero.
pub open spec fn placement_timer_arm(ms: u32) -> Option<nat> {
    if ms > 0 { Some(ms as nat) } else { None }
}

/// The events announcing entry into a draft phase: draft started, one shop
/// refresh per session player, the auction entry when `auction_round` is
/// given, and the phase broadcast.
pub open spec fn draft_entry_events(
    round: u32,
    phase: RoundPhase,
    draft_phase: DraftPhase,
    trigger: ShopRefreshTrigger,
    auction_round: Option<u32>,
    ctx: RsmContext,
) -> Seq<RsmEvent> {
    seq![RsmEvent::DraftStarted { round, phase: draft_phase }]
        + session_players(ctx).map_values(|p: PlayerId| RsmEvent::ShopRefreshTriggered { player_id: p, trigger })
        + match auction_round {
            Some(r) => seq![RsmEvent::AuctionPhaseEntered { round: r }],
            None => Seq::empty(),
        }
        + seq![RsmEvent::BroadcastPhaseChanged {
            phase,
            round,
            timer_ms: spec_draft_timer_ms(draft_phase, ctx.timings),
        }]
}

/// Disconnect trackers reset to the grace window for every session player.
pub open spec fn reset_trackers(v: RsmView, ctx: RsmContext) -> Map<u64, u32> {
    match ctx.session {
        Some(s) => Map::new(
            |k: u64| s.player_list().contains(PlayerId(k)),
            |k: u64| spec_seconds_to_ms(ctx.disconnect_grace_seconds),
        ),
        None => v.trackers,
    }
}

/// Entering the initial draft from the lobby: blocked while some player has
/// not chosen a class; otherwise classes lock, round one starts, and the
/// initial draft timer is armed.
pub open spec fn spec_enter_draft_initial(v: RsmView, ctx: RsmContext) -> (RsmView, Seq<RsmEvent>) {
    if ctx.all_classes_chosen == Some(false) {
        (v, Seq::empty())
    } else {
        let lock = if ctx.all_classes_chosen == Some(true) { seq![RsmEvent::LockAllClasses] } else { Seq::empty() };
        (RsmView {
            phase: RoundPhase::DraftInitial,
            round_number: 1,
            ready: Set::empty(),
            submissions: Set::empty(),
            draft_shop_ms: None,
            placement_ms: None,
            draft_initial_ms: seconds_timer(ctx.timings, |t: RsmTimings| t.draft_initial_timer_seconds),
            trackers: reset_trackers(v, ctx),
            ..v
        }, lock + seq![RsmEvent::LobbyComplete]
            + draft_entry_events(1, RoundPhase::DraftInitial, DraftPhase::Initial, ShopRefreshTrigger::DraftInitial, None, ctx))
    }
}

/// The transition `advance_phase` makes for `request`.
pub open spec fn spec_advance(v: RsmView, request: PhaseAdvanceRequest, ctx: RsmContext) -> (RsmView, Seq<RsmEvent>) {
    if v.phase != request.expected_source {
        (v, Seq::empty())
    } else if let Some(go) = request.game_over {
        (RsmView {
            phase: RoundPhase::GameOver,
            placement_ms: None,
            draft_shop_ms: None,
            draft_initial_ms: None,
            resolution_safety_ms: None,
            auction_safety_ms: None,
            ..v
        }, seq![
            RsmEvent::GameOverEmitted { reason: go.reason, loser: go.loser, round: v.round_number },
            RsmEvent::BroadcastPhaseChanged { phase: RoundPhase::GameOver, round: v.round_number, timer_ms: 0 },
        ])
    } else {
        match v.phase {
            RoundPhase::Lobby => spec_enter_draft_initial(v, ctx),
            RoundPhase::DraftInitial => (RsmView {
                phase: RoundPhase::Placement,
                draft_initial_ms: None,
                draft_shop_ms: None,
                ready: Set::empty(),
                submissions: Set::empty(),
                placement_ms: placement_timer_arm(ctx.placement_timer_ms),
                ..v
            }, seq![
                RsmEvent::PlacementPhaseEntered { round: v.round_number },
                RsmEvent::BroadcastPhaseChanged { phase: RoundPhase::Placement, round: v.round_number, timer_ms: ctx.placement_timer_ms },
            ]),
            RoundPhase::DraftAuction => (RsmView {
                phase: RoundPhase::DraftShop,
                ready: Set::empty(),
                draft_shop_ms: seconds_timer(ctx.timings, |t: RsmTimings| t.draft_shop_timer_seconds),
                ..v
            }, draft_entry_events(v.round_number, RoundPhase::DraftShop, DraftPhase::Shop, ShopRefreshTrigger::ShopUnlock, None, ctx)),
            RoundPhase::DraftShop => {
                let ms = if spec_is_auction_round(v.round_number) {
                    ctx.auction_followup_placement_timer_ms
                } else {
                    ctx.placement_timer_ms
                };
                (RsmView {
                    phase: RoundPhase::Placement,
                    draft_shop_ms: None,
                    ready: Set::empty(),
                    submissions: Set::empty(),
                    placement_ms: placement_timer_arm(ms),
                    ..v
                }, seq![
                    RsmEvent::PlacementPhaseEntered { round: v.round_number },
                    RsmEvent::BroadcastPhaseChanged { phase: RoundPhase::Placement, round: v.round_number, timer_ms: ms },
                ])
            },
            RoundPhase::Placement => (RsmView {
                phase: RoundPhase::Resolution,
                placement_ms: None,
                resolution_safety_ms: seconds_timer(ctx.timings, |t: RsmTimings| t.resolution_max_duration_seconds),
                ..v
            }, seq![
                RsmEvent::ResolutionPhaseEntered { round: v.round_number },
                RsmEvent::BeginResolution { round: v.round_number },
                RsmEvent::BroadcastPhaseChanged { phase: RoundPhase::Resolution, round: v.round_number, timer_ms: 0 },
            ]),
            RoundPhase::Resolution => {
                let next = (v.round_number + 1) as u32;
                if spec_is_auction_round(next) {
                    (RsmView {
                        phase: RoundPhase::DraftAuction,
                        round_number: next,
                        resolution_safety_ms: None,
                        draft_shop_ms: None,
                        ..v
                    }, draft_entry_events(next, RoundPhase::DraftAuction, DraftPhase::Auction,
                        ShopRefreshTrigger::AuctionLock, Some(next), ctx))
                } else {
                    (RsmView {
                        phase: RoundPhase::DraftShop,
                        round_number: next,
                        resolution_safety_ms: None,
                        ready: Set::empty(),
                        draft_shop_ms: seconds_timer(ctx.timings, |t: RsmTimings| t.draft_shop_timer_seconds),
                        ..v
                    }, draft_entry_events(next, RoundPhase::DraftShop, DraftPhase::Shop,
                        ShopRefreshTrigger::ShopOpen, None, ctx))
                }
            },
            RoundPhase::GameOver => (v, Seq::empty()),
        }
    }
}

/// Whether round `round_number` is an auction round (every third round).
pub fn is_auction_round(round_number: u32) -> (r: bool)
    requires
        round_number >= 1,
    ensures
        r == spec_is_auction_round(round_number),
{
    round_number % 3 == 0
}

/// Seconds to milliseconds, capped at `u32::MAX`.
pub fn seconds_to_ms(seconds: u32) -> (r: u32)
    ensures
        r == spec_seconds_to_ms(seconds),
{
    if seconds > u32::MAX / 1000 { u32::MAX } else { seconds * 1000 }
}

/// The placement timer of a round in milliseconds: the configured seconds
/// (those of a round that follows an auction, when it does) as
/// milliseconds, stretched by the session's multiplier, the standard one
/// without a session; zero without a configuration.
pub open spec fn spec_placement_timer_ms(
    multiplier: Option<PlacementTimerMultiplier>,
    config: Option<GameConfig>,
    auction_followup: bool,
) -> u32 {
    match config {
        None => 0,
        Some(c) => {
            let seconds = if auction_followup {
                c.auction_followup_placement_timer_seconds
            } else {
                c.placement_timer_seconds
            };
            let m = match multiplier {
                Some(m) => m,
                None => PlacementTimerMultiplier::X1,
            };
            spec_apply_to_ms(m, spec_seconds_to_ms(seconds))
        },
    }
}

pub fn placement_timer_ms(
    multiplier: Option<PlacementTimerMultiplier>,
    config: &Option<GameConfig>,
    auction_followup: bool,
) -> (r: u32)
    ensures
        r == spec_placement_timer_ms(multiplier, *config, auction_followup),
{
    match config {
        None => 0,
        Some(c) => {
            let seconds = if auction_followup {
                c.auction_followup_placement_timer_seconds
            } else {
                c.placement_timer_seconds
            };
            let m = match multiplier {
                Some(m) => m,
                None => PlacementTimerMultiplier::X1,
            };
            m.apply_to_ms(seconds_to_ms(seconds))
        },
    }
}

/// What transitions read, from the session, the configuration (the
/// built-in grace window stands in when none is loaded) and the session's
/// placement-timer multiplier.
pub fn rsm_context(
    session: Option<SessionView>,
    config: &Option<GameConfig>,
    multiplier: Option<PlacementTimerMultiplier>,
    default_grace_seconds: u32,
    all_classes_chosen: Option<bool>,
) -> (ctx: RsmContext)
    ensures
        ctx.session == session,
        ctx.timings == (match *config {
            None => None,
            Some(c) => Some(RsmTimings {
                draft_initial_timer_seconds: c.draft_initial_timer_seconds,
                draft_shop_timer_seconds: c.draft_shop_timer_seconds,
                resolution_max_duration_seconds: c.resolution_max_duration_seconds,
            }),
        }),
        ctx.placement_timer_ms == spec_placement_timer_ms(multiplier, *config, false),
        ctx.auction_followup_placement_timer_ms == spec_placement_timer_ms(multiplier, *config, true),
        ctx.disconnect_grace_seconds == (match *config {
            None => default_grace_seconds,
            Some(c) => c.disconnect_grace_seconds,
        }),
        ctx.all_classes_chosen == all_classes_chosen,
{
    let timings = match config {
        None => None,
        Some(c) => Some(RsmTimings {
            draft_initial_timer_seconds: c.draft_initial_timer_seconds,
            draft_shop_timer_seconds: c.draft_shop_timer_seconds,
            resolution_max_duration_seconds: c.resolution_max_duration_seconds,
        }),
    };
    let grace = match config {
        None => default_grace_seconds,
        Some(c) => c.disconnect_grace_seconds,
    };
    RsmContext {
        session,
        timings,
        placement_timer_ms: placement_timer_ms(multiplier, config, false),
        auction_followup_placement_timer_ms: placement_timer_ms(multiplier, config, true),
        disconnect_grace_seconds: grace,
        all_classes_chosen,
    }
}

/// Timer announced with a draft phase: the configured draft duration, none
/// for auctions, zero without configuration.
pub fn draft_timer_ms(draft_phase: DraftPhase, timings: &Option<RsmTimings>) -> (r: u32)
    ensures
        r == spec_draft_timer_ms(draft_phase, *timings),
{
    match timings {
        None => 0,
        Some(t) => match draft_phase {
            DraftPhase::Initial => seconds_to_ms(t.draft_initial_timer_seconds),
            DraftPhase::Auction => 0,
            DraftPhase::Shop => seconds_to_ms(t.draft_shop_timer_seconds),
        },
    }
}

/// Append the draft-entry events to `events`.
fn push_draft_entry_events(
    events: &mut Vec<RsmEvent>,
    round: u32,
    phase: RoundPhase,
    draft_phase: DraftPhase,
    trigger: ShopRefreshTrigger,
    auction_round: Option<u32>,
    ctx: &RsmContext,
)
    ensures
        final(events)@ == old(events)@ + draft_entry_events(round, phase, draft_phase, trigger, auction_round, *ctx),
{
    let ghost base = events@;
    events.push(RsmEvent::DraftStarted { round, phase: draft_phase });
    let ghost players = session_players(*ctx);
    let ghost f = |p: PlayerId| RsmEvent::ShopRefreshTriggered { player_id: p, trigger };
    if let Some(session) = &ctx.session {
        let list = session.players();
        let n = list.len();
        let mut i: usize = 0;
        while i < n
            invariant
                n == list@.len(),
                players == list@,
                f == (|p: PlayerId| RsmEvent::ShopRefreshTriggered { player_id: p, trigger }),
                0 <= i <= n,
                events@ == base + seq![RsmEvent::DraftStarted { round, phase: draft_phase }]
                    + players.take(i as int).map_values(f),
            decreases n - i,
        {
            events.push(RsmEvent::ShopRefreshTriggered { player_id: list[i], trigger });
            assert(players.take(i + 1).map_values(f) =~= players.take(i as int).map_values(f).push(f(players[i as int])));
            i = i + 1;
        }
        assert(players.take(n as int) =~= players);
    } else {
        assert(players.map_values(f) =~= Seq::<RsmEvent>::empty());
    }
    let ghost mid = events@;
    if let Some(r) = auction_round {
        events.push(RsmEvent::AuctionPhaseEntered { round: r });
    }
    let timer_ms = draft_timer_ms(draft_phase, &ctx.timings);
    events.push(RsmEvent::BroadcastPhaseChanged { phase, round, timer_ms });
    assert(events@ =~= base + draft_entry_events(round, phase, draft_phase, trigger, auction_round, *ctx));
}

/// A player's readiness to leave the current draft phase.
#[derive(Clone, Copy, Debug, PartialEq, Eq, Structural)]
pub struct DraftReadySignal {
    pub player: PlayerId,
    pub ready: bool,
}

/// A placement that the input layer accepted.
#[derive(Clone, Copy, Debug, PartialEq, Eq, Structural)]
pub struct PlacementSubmitted {
    pub player: PlayerId,
}

/// Whether `player` belongs to the session.
pub open spec fn spec_in_session(player: PlayerId, session: Option<SessionView>) -> bool {
    match session {
        Some(s) => s.player_list().contains(player),
        None => false,
    }
}

/// Whether `seen` covers as many players as the session has seats.
pub open spec fn spec_all_players_seen(seen: Set<u64>, session: Option<SessionView>) -> bool {
    match session {
        Some(s) => s.seats() > 0 && seen.len() >= s.seats(),
        None => false,
    }
}

/// Game over for players whose disconnect grace ran out: none for nobody,
/// a disconnect loss for one player, a draw for more.
pub open spec fn spec_disconnect_outcome(breaching: Seq<PlayerId>) -> Option<GameOverRequest> {
    if breaching.len() == 0 {
        None
    } else if breaching.len() == 1 {
        Some(GameOverRequest { reason: GameOverReason::Disconnect, loser: Some(breaching[0]) })
    } else {
        Some(GameOverRequest { reason: GameOverReason::Draw, loser: None })
    }
}

/// Session players that have lost at least two real objectives, in seat order.
pub open spec fn objective_losers(real_lost: Map<u64, u32>, session: Option<SessionView>) -> Seq<PlayerId> {
    match session {
        Some(s) => s.player_list().filter(|p: PlayerId| count_of_u64(real_lost, p.0) >= 2),
        None => Seq::empty(),
    }
}

/// Game over by objectives: the single player with two real objectives
/// destroyed loses; several such players draw.
pub open spec fn spec_objective_outcome(real_lost: Map<u64, u32>, session: Option<SessionView>)
    -> Option<(GameOverReason, Option<PlayerId>)>
{
    let q = objective_losers(real_lost, session);
    if session is None || q.len() == 0 {
        None
    } else if q.len() == 1 {
        Some((GameOverReason::ObjectivesDestroyed, Some(q[0])))
    } else {
        Some((GameOverReason::Draw, None))
    }
}

/// Ready set after applying `signals` of session players in order.
pub open spec fn ready_after(ready: Set<u64>, signals: Seq<DraftReadySignal>, session: Option<SessionView>) -> Set<u64>
    decreases signals.len(),
{
    if signals.len() == 0 {
        ready
    } else {
        let prev = ready_after(ready, signals.drop_last(), session);
        let sig = signals.last();
        if spec_in_session(sig.player, session) {
            if sig.ready { prev.insert(sig.player.0) } else { prev.remove(sig.player.0) }
        } else {
            prev
        }
    }
}

/// Whether some session player's signal left every seat ready.
pub open spec fn ready_requested(ready: Set<u64>, signals: Seq<DraftReadySignal>, session: Option<SessionView>) -> bool
    decreases signals.len(),
{
    if signals.len() == 0 {
        false
    } else {
        ready_requested(ready, signals.drop_last(), session)
            || (spec_in_session(signals.last().player, session)
                && spec_all_players_seen(ready_after(ready, signals, session), session))
    }
}

/// Submission set after recording `subs` of session players in order.
pub open spec fn submissions_after(subm: Set<u64>, subs: Seq<PlacementSubmitted>, session: Option<SessionView>) -> Set<u64>
    decreases subs.len(),
{
    if subs.len() == 0 {
        subm
    } else {
        let prev = submissions_after(subm, subs.drop_last(), session);
        if spec_in_session(subs.last().player, session) { prev.insert(subs.last().player.0) } else { prev }
    }
}

/// Whether some session player's submission completed every seat.
pub open spec fn placement_requested(subm: Set<u64>, subs: Seq<PlacementSubmitted>, session: Option<SessionView>) -> bool
    decreases subs.len(),
{
    if subs.len() == 0 {
        false
    } else {
        placement_requested(subm, subs.drop_last(), session)
            || (spec_in_session(subs.last().player, session)
                && spec_all_players_seen(submissions_after(subm, subs, session), session))
    }
}

/// Request that ends resolution: game over by objectives, or the next draft.
pub open spec fn resolution_end_request(real_lost: Map<u64, u32>, session: Option<SessionView>) -> PhaseAdvanceRequest {
    match spec_objective_outcome(real_lost, session) {
        Some((reason, loser)) => PhaseAdvanceRequest {
            expected_source: RoundPhase::Resolution,
            game_over: Some(GameOverRequest { reason, loser }),
        },
        None => PhaseAdvanceRequest { expected_source: RoundPhase::Resolution, game_over: None },
    }
}

/// State and pending request after `rsm_input_reader`.
pub open spec fn spec_input_reader(
    v: RsmView,
    pending: Option<PhaseAdvanceRequest>,
    session: Option<SessionView>,
    real_lost: Map<u64, u32>,
    auction_settled: nat,
    resolution_complete: nat,
    ready: Seq<DraftReadySignal>,
    subs: Seq<PlacementSubmitted>,
) -> (RsmView, Option<PhaseAdvanceRequest>) {
    match v.phase {
        RoundPhase::DraftAuction => (v, if auction_settled > 0 {
            Some(PhaseAdvanceRequest { expected_source: RoundPhase::DraftAuction, game_over: None })
        } else {
            pending
        }),
        RoundPhase::Resolution => if resolution_complete == 0 {
            (v, pending)
        } else {
            match v.pending_disconnect_outcome {
                Some(o) => (RsmView { pending_disconnect_outcome: None, ..v }, Some(if resolution_complete == 1 {
                    PhaseAdvanceRequest { expected_source: RoundPhase::Resolution, game_over: Some(o) }
                } else {
                    resolution_end_request(real_lost, session)
                })),
                None => (v, Some(resolution_end_request(real_lost, session))),
            }
        },
        RoundPhase::DraftInitial | RoundPhase::DraftShop => (
            RsmView { ready: ready_after(v.ready, ready, session), ..v },
            if ready_requested(v.ready, ready, session) {
                Some(PhaseAdvanceRequest { expected_source: v.phase, game_over: None })
            } else {
                pending
            },
        ),
        RoundPhase::Placement => (
            RsmView { submissions: submissions_after(v.submissions, subs, session), ..v },
            if placement_requested(v.submissions, subs, session) {
                Some(PhaseAdvanceRequest { expected_source: RoundPhase::Placement, game_over: None })
            } else {
                pending
            },
        ),
        _ => (v, pending),
    }
}

/// Whether `player` belongs to the session.
pub fn player_is_in_session(player: PlayerId, session: &Option<SessionView>) -> (r: bool)
    ensures
        r == spec_in_session(player, *session),
{
    match session {
        None => false,
        Some(s) => {
            let list = s.players();
            let n = list.len();
            let mut i: usize = 0;
            while i < n
                invariant
                    n == list@.len(),
                    list@ == s.player_list(),
                    *session == Some(*s),
                    0 <= i <= n,
                    forall|k: int| 0 <= k < i ==> list@[k] != player,
                decreases n - i,
            {
                if list[i] == player {
                    assert(list@[i as int] == player);
                    assert(s.player_list().contains(player));
                    return true;
                }
                i = i + 1;
            }
            false
        },
    }
}

/// Whether `players_seen` covers as many players as the session has seats;
/// `false` without a session or for a session without seats.
pub fn all_players_seen(players_seen: &HashSet<u64>, session: &Option<SessionView>) -> (r: bool)
    ensures
        r == spec_all_players_seen(players_seen@, *session),
{
    match session {
        None => false,
        Some(s) => {
            let expected = s.player_count() as usize;
            expected > 0 && players_seen.len() >= expected
        },
    }
}

/// Game over for the players whose disconnect grace ran out.
pub fn disconnect_game_over_outcome(breaching_players: &Vec<PlayerId>) -> (r: Option<GameOverRequest>)
    ensures
        r == spec_disconnect_outcome(breaching_players@),
{
    if breaching_players.len() == 0 {
        None
    } else if breaching_players.len() == 1 {
        Some(GameOverRequest { reason: GameOverReason::Disconnect, loser: Some(breaching_players[0]) })
    } else {
        Some(GameOverRequest { reason: GameOverReason::Draw, loser: None })
    }
}

/// Game over by objectives after a resolution (see `spec_objective_outcome`).
pub fn evaluate_objective_win_condition(objective_counters: &ObjectiveCounters, session: &Option<SessionView>)
    -> (r: Option<(GameOverReason, Option<PlayerId>)>)
    ensures
        r == spec_objective_outcome(objective_counters.real_destroyed@, *session),
{
    let s = match session {
        None => return None,
        Some(s) => s,
    };
    let list = s.players();
    let ghost pred = |p: PlayerId| count_of_u64(objective_counters.real_destroyed@, p.0) >= 2;
    let n = list.len();
    let mut qualifying: Vec<PlayerId> = Vec::new();
    let mut i: usize = 0;
    while i < n
        invariant
            n == list@.len(),
            0 <= i <= n,
            qualifying@ == list@.take(i as int).filter(pred),
            pred == (|p: PlayerId| count_of_u64(objective_counters.real_destroyed@, p.0) >= 2),
        decreases n - i,
    {
        let p = list[i];
        assert(list@.take(i + 1).drop_last() =~= list@.take(i as int));
        proof {
            reveal_with_fuel(Seq::<PlayerId>::filter, 1);
        }
        if objective_counters.real_objectives_destroyed(p) >= 2 {
            qualifying.push(p);
        }
        i = i + 1;
    }
    assert(list@.take(n as int) =~= list@);
    if qualifying.len() == 0 {
        None
    } else if qualifying.len() == 1 {
        Some((GameOverReason::ObjectivesDestroyed, Some(qualifying[0])))
    } else {
        Some((GameOverReason::Draw, None))
    }
}

/// Trackers after disconnect notices: a session player without a tracker
/// gets the full grace window; an existing tracker keeps counting down.
pub open spec fn trackers_after_disconnects(m: Map<u64, u32>, players: Seq<PlayerId>, session: Option<SessionView>, grace: u32) -> Map<u64, u32>
    decreases players.len(),
{
    if players.len() == 0 {
        m
    } else {
        let prev = trackers_after_disconnects(m, players.drop_last(), session, grace);
        let p = players.last();
        if spec_in_session(p, session) && !prev.contains_key(p.0) { prev.insert(p.0, grace) } else { prev }
    }
}

/// Trackers after reconnects or heartbeats: each session player's grace
/// window restarts in full.
pub open spec fn trackers_after_refresh(m: Map<u64, u32>, players: Seq<PlayerId>, session: Option<SessionView>, grace: u32) -> Map<u64, u32>
    decreases players.len(),
{
    if players.len() == 0 {
        m
    } else {
        let prev = trackers_after_refresh(m, players.drop_last(), session, grace);
        let p = players.last();
        if spec_in_session(p, session) { prev.insert(p.0, grace) } else { prev }
    }
}

/// Trackers after `delta_ms` elapsed: session players' windows shrink,
/// floored at zero; other trackers are left alone.
pub open spec fn trackers_after_elapsed(m: Map<u64, u32>, session: Option<SessionView>, delta_ms: u32) -> Map<u64, u32> {
    Map::new(
        |k: u64| m.contains_key(k),
        |k: u64| if spec_in_session(PlayerId(k), session) {
            crate::economy::sat_sub(m[k] as int, delta_ms as int) as u32
        } else {
            m[k]
        },
    )
}

/// Session players, in seat order, whose remaining grace is below `delta_ms`.
pub open spec fn breaching_players(m: Map<u64, u32>, session: Option<SessionView>, delta_ms: u32) -> Seq<PlayerId> {
    match session {
        Some(s) => s.player_list().filter(|p: PlayerId| m.contains_key(p.0) && delta_ms > m[p.0]),
        None => Seq::empty(),
    }
}

/// State, pending request and events after `tick_disconnect_timers`.
pub open spec fn spec_tick_disconnect(
    v: RsmView,
    pending: Option<PhaseAdvanceRequest>,
    session: Option<SessionView>,
    grace_seconds: u32,
    disconnected: Seq<PlayerId>,
    reconnected: Seq<PlayerId>,
    heartbeats: Seq<PlayerId>,
    delta_ms: u32,
) -> (RsmView, Option<PhaseAdvanceRequest>, Seq<RsmEvent>) {
    let grace = spec_seconds_to_ms(grace_seconds);
    let t1 = trackers_after_disconnects(v.trackers, disconnected, session, grace);
    let t2 = trackers_after_refresh(trackers_after_refresh(t1, reconnected, session, grace), heartbeats, session, grace);
    if v.phase == RoundPhase::GameOver || pending is Some {
        (RsmView { trackers: t2, ..v }, pending, Seq::empty())
    } else {
        let t3 = trackers_after_elapsed(t2, session, delta_ms);
        let v3 = RsmView { trackers: t3, ..v };
        if v.pending_disconnect_outcome is Some {
            (v3, pending, Seq::empty())
        } else {
            match spec_disconnect_outcome(breaching_players(t2, session, delta_ms)) {
                None => (v3, pending, Seq::empty()),
                Some(o) => if v.phase == RoundPhase::Resolution {
                    (RsmView { pending_disconnect_outcome: Some(o), ..v3 }, pending, Seq::empty())
                } else {
                    (v3, Some(PhaseAdvanceRequest { expected_source: v.phase, game_over: Some(o) }),
                        if v.phase == RoundPhase::DraftAuction { seq![RsmEvent::AbortAuction] } else { Seq::empty() })
                },
            }
        }
    }
}

/// What the phase timer requests when it finishes.
pub open spec fn spec_timer_request(phase: RoundPhase) -> PhaseAdvanceRequest {
    if phase == RoundPhase::Resolution {
        PhaseAdvanceRequest {
            expected_source: RoundPhase::Resolution,
            game_over: Some(GameOverRequest { reason: GameOverReason::ResolutionTimeout, loser: None }),
        }
    } else {
        PhaseAdvanceRequest { expected_source: phase, game_over: None }
    }
}

/// The timer that bounds `phase`, by armed duration.
pub open spec fn phase_timer_ms(v: RsmView) -> Option<nat> {
    match v.phase {
        RoundPhase::DraftInitial => v.draft_initial_ms,
        RoundPhase::DraftShop => v.draft_shop_ms,
        RoundPhase::Placement => v.placement_ms,
        RoundPhase::Resolution => v.resolution_safety_ms,
        _ => None,
    }
}

/// Phase announcement queued for the network layer.
#[derive(Clone, Copy, Debug, PartialEq, Eq, Structural)]
pub struct PhaseChanged {
    pub phase: RoundPhase,
    pub round_number: u32,
    pub timer_duration_ms: u32,
}

impl RoundState {
    /// A fresh session in the lobby, round zero, no timers.
    pub fn new() -> (s: Self)
        ensures
            s@.phase == RoundPhase::Lobby,
            s@.round_number == 0,
            s@.placement_ms is None,
            s@.draft_shop_ms is None,
            s@.draft_initial_ms is None,
            s@.auction_safety_ms is None,
            s@.resolution_safety_ms is None,
            s@.submissions == Set::<u64>::empty(),
            s@.ready == Set::<u64>::empty(),
            s@.trackers == Map::<u64, u32>::empty(),
            s@.pending_disconnect_outcome is None,
    {
        RoundState {
            phase: RoundPhase::Lobby,
            round_number: 0,
            placement_timer: None,
            draft_shop_timer: None,
            draft_initial_timer: None,
            auction_safety_timer: None,
            resolution_safety_timer: None,
            submissions_received: HashSet::new(),
            draft_ready_players: HashSet::new(),
            disconnect_trackers: HashMap::new(),
            pending_disconnect_outcome: None,
        }
    }

    /// Reset every session player's disconnect grace to the full window; no
    /// change without a session.
    fn reset_disconnect_trackers_for_session(&mut self, ctx: &RsmContext)
        ensures
            final(self)@ == (RsmView { trackers: reset_trackers(old(self)@, *ctx), ..old(self)@ }),
            timers_kept(*old(self), *final(self)),
    {
        let session = match &ctx.session {
            Some(s) => s,
            None => return,
        };
        let grace_ms = seconds_to_ms(ctx.disconnect_grace_seconds);
        self.disconnect_trackers.clear();
        let list = session.players();
        let n = list.len();
        let mut i: usize = 0;
        while i < n
            invariant
                n == list@.len(),
                0 <= i <= n,
                grace_ms == spec_seconds_to_ms(ctx.disconnect_grace_seconds),
                forall|k: u64| #[trigger] self.disconnect_trackers@.contains_key(k)
                    <==> list@.take(i as int).contains(PlayerId(k)),
                forall|k: u64| #[trigger] self.disconnect_trackers@.contains_key(k)
                    ==> self.disconnect_trackers@[k] == grace_ms,
                self.phase == old(self).phase,
                self.round_number == old(self).round_number,
                timers_kept(*old(self), *self),
                self.submissions_received@ == old(self).submissions_received@,
                self.draft_ready_players@ == old(self).draft_ready_players@,
                self.pending_disconnect_outcome == old(self).pending_disconnect_outcome,
            decreases n - i,
        {
            let p = list[i];
            self.disconnect_trackers.insert(p.0, grace_ms);
            proof {
                let t0 = list@.take(i as int);
                let t1 = list@.take(i + 1);
                assert(t1 =~= t0.push(p));
                assert forall|k: u64| #[trigger] self.disconnect_trackers@.contains_key(k)
                    <==> t1.contains(PlayerId(k)) by {
                    if t1.contains(PlayerId(k)) && PlayerId(k) != p {
                        let j = choose|j: int| 0 <= j < t1.len() && #[trigger] t1[j] == PlayerId(k);
                        assert(t0[j] == PlayerId(k));
                    }
                    if t0.contains(PlayerId(k)) {
                        let j = choose|j: int| 0 <= j < t0.len() && #[trigger] t0[j] == PlayerId(k);
                        assert(t1[j] == PlayerId(k));
                    }
                    if PlayerId(k) == p {
                        assert(t1[i as int] == p);
                    }
                }
            }
            i = i + 1;
        }
        assert(list@.take(n as int) =~= list@);
        assert(self.disconnect_trackers@ =~= reset_trackers(old(self)@, *ctx));
    }

    /// Leave the lobby for the initial draft (see `spec_enter_draft_initial`).
    fn enter_draft_initial(&mut self, ctx: &RsmContext) -> (events: Vec<RsmEvent>)
        ensures
            (final(self)@, events@) == spec_enter_draft_initial(old(self)@, *ctx),
            timers_after(*old(self), draft_initial_timer_slots(*ctx), *final(self)),
    {
        let mut events: Vec<RsmEvent> = Vec::new();
        if let Some(all_chosen) = ctx.all_classes_chosen {
            if !all_chosen {
                return events;
            }
            events.push(RsmEvent::LockAllClasses);
        }
        let ghost lock = events@;
        self.phase = RoundPhase::DraftInitial;
        self.round_number = 1;
        self.draft_ready_players.clear();
        self.submissions_received.clear();
        self.draft_shop_timer = None;
        self.placement_timer = None;
        self.draft_initial_timer = match &ctx.timings {
            Some(t) => Some(PhaseTimer::once_seconds(t.draft_initial_timer_seconds)),
            None => None,
        };
        self.reset_disconnect_trackers_for_session(ctx);
        events.push(RsmEvent::LobbyComplete);
        push_draft_entry_events(&mut events, 1, RoundPhase::DraftInitial, DraftPhase::Initial,
            ShopRefreshTrigger::DraftInitial, None, ctx);
        assert(events@ =~= spec_enter_draft_initial(old(self)@, *ctx).1);
        events
    }

    /// Fold this frame's inputs into the state and the pending request
    /// (see `spec_input_reader`): auction settlements close the auction,
    /// resolution completions end the resolution (with a recorded
    /// disconnect loss first), ready signals and placements of session
    /// players advance once every seat has answered.
    pub fn rsm_input_reader(
        &mut self,
        pending: &mut PendingPhaseAdvance,
        session: &Option<SessionView>,
        objective_counters: &ObjectiveCounters,
        auction_settled: usize,
        resolution_complete: usize,
        ready_signals: &Vec<DraftReadySignal>,
        placement_submitted: &Vec<PlacementSubmitted>,
    )
        ensures
            (final(self)@, final(pending).request) == spec_input_reader(old(self)@, old(pending).request, *session,
                objective_counters.real_destroyed@, auction_settled as nat, resolution_complete as nat,
                ready_signals@, placement_submitted@),
            timers_kept(*old(self), *final(self)),
    {
        match self.phase {
            RoundPhase::DraftAuction => {
                if auction_settled > 0 {
                    pending.request(PhaseAdvanceRequest::new(RoundPhase::DraftAuction));
                }
            },
            RoundPhase::Resolution => {
                if resolution_complete > 0 {
                    let end = match evaluate_objective_win_condition(objective_counters, session) {
                        Some((reason, loser)) => PhaseAdvanceRequest::game_over(RoundPhase::Resolution, reason, loser),
                        None => PhaseAdvanceRequest::new(RoundPhase::Resolution),
                    };
                    match self.pending_disconnect_outcome {
                        Some(outcome) => {
                            self.pending_disconnect_outcome = None;
                            if resolution_complete == 1 {
                                pending.request(PhaseAdvanceRequest::game_over(
                                    RoundPhase::Resolution, outcome.reason, outcome.loser));
                            } else {
                                pending.request(end);
                            }
                        },
                        None => {
                            pending.request(end);
                        },
                    }
                }
            },
            RoundPhase::DraftInitial | RoundPhase::DraftShop => {
                let ghost v0 = self@;
                let ghost p0 = pending.request;
                let n = ready_signals.len();
                let mut i: usize = 0;
                while i < n
                    invariant
                        n == ready_signals@.len(),
                        0 <= i <= n,
                        v0.phase == RoundPhase::DraftInitial || v0.phase == RoundPhase::DraftShop,
                        timers_kept(*old(self), *self),
                        self@ == (RsmView { ready: ready_after(v0.ready, ready_signals@.take(i as int), *session), ..v0 }),
                        pending.request == if ready_requested(v0.ready, ready_signals@.take(i as int), *session) {
                            Some(PhaseAdvanceRequest { expected_source: v0.phase, game_over: None })
                        } else {
                            p0
                        },
                    decreases n - i,
                {
                    let sig = ready_signals[i];
                    assert(ready_signals@.take(i + 1).drop_last() =~= ready_signals@.take(i as int));
                    assert(ready_signals@.take(i + 1).last() == sig);
                    if player_is_in_session(sig.player, session) {
                        if sig.ready {
                            self.draft_ready_players.insert(sig.player.0);
                        } else {
                            self.draft_ready_players.remove(&sig.player.0);
                        }
                        if all_players_seen(&self.draft_ready_players, session) {
                            pending.request(PhaseAdvanceRequest::new(self.phase));
                        }
                    }
                    assert(self@ =~= (RsmView { ready: ready_after(v0.ready, ready_signals@.take(i + 1), *session), ..v0 }));
                    i = i + 1;
                }
                assert(ready_signals@.take(n as int) =~= ready_signals@);
            },
            RoundPhase::Placement => {
                let ghost v0 = self@;
                let ghost p0 = pending.request;
                let n = placement_submitted.len();
                let mut i: usize = 0;
                while i < n
                    invariant
                        n == placement_submitted@.len(),
                        0 <= i <= n,
                        v0.phase == RoundPhase::Placement,
                        timers_kept(*old(self), *self),
                        self@ == (RsmView { submissions: submissions_after(v0.submissions, placement_submitted@.take(i as int), *session), ..v0 }),
                        pending.request == if placement_requested(v0.submissions, placement_submitted@.take(i as int), *session) {
                            Some(PhaseAdvanceRequest { expected_source: RoundPhase::Placement, game_over: None })
                        } else {
                            p0
                        },
                    decreases n - i,
                {
                    let sub = placement_submitted[i];
                    assert(placement_submitted@.take(i + 1).drop_last() =~= placement_submitted@.take(i as int));
                    assert(placement_submitted@.take(i + 1).last() == sub);
                    if player_is_in_session(sub.player, session) {
                        self.submissions_received.insert(sub.player.0);
                        if all_players_seen(&self.submissions_received, session) {
                            pending.request(PhaseAdvanceRequest::new(RoundPhase::Placement));
                        }
                    }
                    assert(self@ =~= (RsmView { submissions: submissions_after(v0.submissions, placement_submitted@.take(i + 1), *session), ..v0 }));
                    i = i + 1;
                }
                assert(placement_submitted@.take(n as int) =~= placement_submitted@);
            },
            _ => {},
        }
    }

    /// The armed timer that bounds the current phase, if any.
    pub open spec fn current_timer(self) -> Option<PhaseTimer> {
        match self.phase {
            RoundPhase::DraftInitial => self.draft_initial_timer,
            RoundPhase::DraftShop => self.draft_shop_timer,
            RoundPhase::Placement => self.placement_timer,
            RoundPhase::Resolution => self.resolution_safety_timer,
            _ => None,
        }
    }

    /// The state with the current phase's timer replaced by `t`.
    pub open spec fn with_current_timer(self, t: PhaseTimer) -> Self {
        match self.phase {
            RoundPhase::DraftInitial => RoundState { draft_initial_timer: Some(t), ..self },
            RoundPhase::DraftShop => RoundState { draft_shop_timer: Some(t), ..self },
            RoundPhase::Placement => RoundState { placement_timer: Some(t), ..self },
            RoundPhase::Resolution => RoundState { resolution_safety_timer: Some(t), ..self },
            _ => self,
        }
    }

    /// Request what the current phase's timer asks for when it finished.
    pub fn on_phase_timer(&self, pending: &mut PendingPhaseAdvance, finished: bool)
        ensures
            final(pending).request == if finished { Some(spec_timer_request(self.phase)) } else { old(pending).request },
    {
        if finished {
            if self.phase == RoundPhase::Resolution {
                pending.request(PhaseAdvanceRequest::game_over(RoundPhase::Resolution, GameOverReason::ResolutionTimeout, None));
            } else {
                pending.request(PhaseAdvanceRequest::new(self.phase));
            }
        }
    }

    /// Tick the timer of the current phase by `elapsed_nanos` and request
    /// the phase's timeout when it finishes; nothing while a request is
    /// pending or in a phase without a timer.
    pub fn tick_rsm_timers(&mut self, pending: &mut PendingPhaseAdvance, elapsed_nanos: u64)
        ensures
            final(self)@ == old(self)@,
            old(pending).request is Some ==> *final(self) == *old(self) && final(pending).request
                == old(pending).request,
            old(pending).request is None ==> match old(self).current_timer() {
                None => *final(self) == *old(self) && final(pending).request is None,
                Some(t) => *final(self) == old(self).with_current_timer(t.ticked(elapsed_nanos))
                    && final(pending).request == if t.fires(elapsed_nanos) {
                    Some(spec_timer_request(old(self).phase))
                } else {
                    None
                },
            },
    {
        if pending.is_requested() {
            return;
        }
        let finished = match self.phase {
            RoundPhase::DraftInitial => match &mut self.draft_initial_timer {
                Some(t) => t.tick(elapsed_nanos),
                None => false,
            },
            RoundPhase::DraftShop => match &mut self.draft_shop_timer {
                Some(t) => t.tick(elapsed_nanos),
                None => false,
            },
            RoundPhase::Placement => match &mut self.placement_timer {
                Some(t) => t.tick(elapsed_nanos),
                None => false,
            },
            RoundPhase::Resolution => match &mut self.resolution_safety_timer {
                Some(t) => t.tick(elapsed_nanos),
                None => false,
            },
            _ => false,
        };
        assert(self@ =~= old(self)@);
        self.on_phase_timer(pending, finished);
    }

    /// Count down disconnect grace windows (see `spec_tick_disconnect`).
    ///
    /// Disconnects start a player's grace window unless one is running;
    /// reconnects and heartbeats restart it. Then, unless the session is over
    /// or a request is pending, the windows of session players shrink by
    /// `delta_ms`; players whose window ran out lose (one player) or draw
    /// (several). During resolution the loss is recorded for its end; during
    /// an auction the auction is aborted first.
    pub fn tick_disconnect_timers(
        &mut self,
        pending: &mut PendingPhaseAdvance,
        session: &Option<SessionView>,
        grace_seconds: u32,
        disconnected: &Vec<PlayerId>,
        reconnected: &Vec<PlayerId>,
        heartbeats: &Vec<PlayerId>,
        delta_ms: u32,
    ) -> (events: Vec<RsmEvent>)
        ensures
            (final(self)@, final(pending).request, events@) == spec_tick_disconnect(old(self)@, old(pending).request,
                *session, grace_seconds, disconnected@, reconnected@, heartbeats@, delta_ms),
            timers_kept(*old(self), *final(self)),
    {
        let grace_ms = seconds_to_ms(grace_seconds);
        let ghost v0 = self@;
        self.start_grace_windows(session, grace_ms, disconnected);
        self.restart_grace_windows(session, grace_ms, reconnected);
        self.restart_grace_windows(session, grace_ms, heartbeats);
        let ghost t2 = self.disconnect_trackers@;
        let mut events: Vec<RsmEvent> = Vec::new();
        if self.phase == RoundPhase::GameOver || pending.is_requested() {
            return events;
        }
        let breaching = self.count_down_grace_windows(session, delta_ms);
        if self.pending_disconnect_outcome.is_some() {
            return events;
        }
        let outcome = match disconnect_game_over_outcome(&breaching) {
            Some(o) => o,
            None => return events,
        };
        if self.phase == RoundPhase::Resolution {
            self.pending_disconnect_outcome = Some(outcome);
            return events;
        }
        if self.phase == RoundPhase::DraftAuction {
            events.push(RsmEvent::AbortAuction);
        }
        pending.request(PhaseAdvanceRequest::game_over(self.phase, outcome.reason, outcome.loser));
        events
    }

    fn start_grace_windows(&mut self, session: &Option<SessionView>, grace_ms: u32, players: &Vec<PlayerId>)
        ensures
            timers_kept(*old(self), *final(self)),
            final(self)@ == (RsmView {
                trackers: trackers_after_disconnects(old(self)@.trackers, players@, *session, grace_ms),
                ..old(self)@
            }),
    {
        let ghost v0 = self@;
        let n = players.len();
        let mut i: usize = 0;
        while i < n
            invariant
                timers_kept(*old(self), *self),
                n == players@.len(),
                0 <= i <= n,
                self@ == (RsmView {
                    trackers: trackers_after_disconnects(v0.trackers, players@.take(i as int), *session, grace_ms),
                    ..v0
                }),
            decreases n - i,
        {
            let p = players[i];
            assert(players@.take(i + 1).drop_last() =~= players@.take(i as int));
            assert(players@.take(i + 1).last() == p);
            if player_is_in_session(p, session) && !self.disconnect_trackers.contains_key(&p.0) {
                self.disconnect_trackers.insert(p.0, grace_ms);
            }
            assert(self@ =~= (RsmView {
                trackers: trackers_after_disconnects(v0.trackers, players@.take(i + 1), *session, grace_ms),
                ..v0
            }));
            i = i + 1;
        }
        assert(players@.take(n as int) =~= players@);
    }

    fn restart_grace_windows(&mut self, session: &Option<SessionView>, grace_ms: u32, players: &Vec<PlayerId>)
        ensures
            timers_kept(*old(self), *final(self)),
            final(self)@ == (RsmView {
                trackers: trackers_after_refresh(old(self)@.trackers, players@, *session, grace_ms),
                ..old(self)@
            }),
    {
        let ghost v0 = self@;
        let n = players.len();
        let mut i: usize = 0;
        while i < n
            invariant
                timers_kept(*old(self), *self),
                n == players@.len(),
                0 <= i <= n,
                self@ == (RsmView {
                    trackers: trackers_after_refresh(v0.trackers, players@.take(i as int), *session, grace_ms),
                    ..v0
                }),
            decreases n - i,
        {
            let p = players[i];
            assert(players@.take(i + 1).drop_last() =~= players@.take(i as int));
            assert(players@.take(i + 1).last() == p);
            if player_is_in_session(p, session) {
                self.disconnect_trackers.insert(p.0, grace_ms);
            }
            assert(self@ =~= (RsmView {
                trackers: trackers_after_refresh(v0.trackers, players@.take(i + 1), *session, grace_ms),
                ..v0
            }));
            i = i + 1;
        }
        assert(players@.take(n as int) =~= players@);
    }

    fn count_down_grace_windows(&mut self, session: &Option<SessionView>, delta_ms: u32) -> (breaching: Vec<PlayerId>)
        ensures
            timers_kept(*old(self), *final(self)),
            final(self)@ == (RsmView {
                trackers: trackers_after_elapsed(old(self)@.trackers, *session, delta_ms),
                ..old(self)@
            }),
            breaching@ == breaching_players(old(self)@.trackers, *session, delta_ms),
    {
        let ghost v0 = self@;
        let ghost t0 = self.disconnect_trackers@;
        let mut breaching: Vec<PlayerId> = Vec::new();
        let s = match session {
            Some(s) => s,
            None => {
                assert(self.disconnect_trackers@ =~= trackers_after_elapsed(t0, *session, delta_ms));
                return breaching;
            },
        };
        let list = s.players();
        let ghost pred = |p: PlayerId| t0.contains_key(p.0) && delta_ms > t0[p.0];
        let n = list.len();
        let mut i: usize = 0;
        while i < n
            invariant
                timers_kept(*old(self), *self),
                n == list@.len(),
                list@ == s.player_list(),
                list@.no_duplicates(),
                *session == Some(*s),
                0 <= i <= n,
                pred == (|p: PlayerId| t0.contains_key(p.0) && delta_ms > t0[p.0]),
                breaching@ == list@.take(i as int).filter(pred),
                self@ == (RsmView { trackers: self.disconnect_trackers@, ..v0 }),
                self.disconnect_trackers@.dom() == t0.dom(),
                forall|k: u64| #[trigger] self.disconnect_trackers@.contains_key(k) ==>
                    self.disconnect_trackers@[k] == if list@.take(i as int).contains(PlayerId(k)) {
                        crate::economy::sat_sub(t0[k] as int, delta_ms as int) as u32
                    } else {
                        t0[k]
                    },
            decreases n - i,
        {
            let p = list[i];
            let ghost before_take = list@.take(i as int);
            let ghost after_take = list@.take(i + 1);
            assert(after_take.drop_last() =~= before_take);
            assert(after_take =~= before_take.push(p));
            proof {
                reveal_with_fuel(Seq::<PlayerId>::filter, 1);
                if before_take.contains(p) {
                    let j = choose|j: int| 0 <= j < before_take.len() && before_take[j] == p;
                    assert(list@[j] == list@[i as int]);
                }
            }
            match self.disconnect_trackers.get(&p.0) {
                Some(remaining) => {
                    let before = *remaining;
                    let after = if before >= delta_ms { before - delta_ms } else { 0 };
                    self.disconnect_trackers.insert(p.0, after);
                    if delta_ms > before {
                        breaching.push(p);
                    }
                },
                None => {},
            }
            proof {
                assert(self.disconnect_trackers@.dom() =~= t0.dom());
                assert forall|k: u64| #[trigger] self.disconnect_trackers@.contains_key(k) implies
                    self.disconnect_trackers@[k] == if after_take.contains(PlayerId(k)) {
                        crate::economy::sat_sub(t0[k] as int, delta_ms as int) as u32
                    } else {
                        t0[k]
                    } by {
                    if PlayerId(k) != p {
                        if after_take.contains(PlayerId(k)) {
                            let j = choose|j: int| 0 <= j < after_take.len() && after_take[j] == PlayerId(k);
                            assert(before_take[j] == PlayerId(k));
                        }
                        if before_take.contains(PlayerId(k)) {
                            let j = choose|j: int| 0 <= j < before_take.len() && before_take[j] == PlayerId(k);
                            assert(after_take[j] == PlayerId(k));
                        }
                    } else {
                        assert(after_take[i as int] == p);
                    }
                }
            }
            i = i + 1;
        }
        assert(list@.take(n as int) =~= list@);
        proof {
            assert forall|k: u64| #[trigger] t0.contains_key(k) && list@.contains(PlayerId(k))
                <==> t0.contains_key(k) && spec_in_session(PlayerId(k), *session) by {}
        }
        assert(self.disconnect_trackers@ =~= trackers_after_elapsed(t0, *session, delta_ms));
        assert(self@ =~= (RsmView { trackers: trackers_after_elapsed(t0, *session, delta_ms), ..v0 }));
        breaching
    }

    /// Enter the initial draft when the session becomes ready in the lobby;
    /// outside the lobby nothing happens. Returns the transition's events
    /// and the phase announcement for the network layer.
    pub fn on_session_ready(&mut self, ctx: &RsmContext) -> (r: (Vec<RsmEvent>, Option<PhaseChanged>))
        ensures
            old(self).phase != RoundPhase::Lobby ==> final(self)@ == old(self)@ && r.0@ == Seq::<RsmEvent>::empty()
                && r.1 is None,
            old(self).phase == RoundPhase::Lobby ==> (final(self)@, r.0@) == spec_enter_draft_initial(old(self)@, *ctx)
                && r.1 == Some(PhaseChanged {
                    phase: final(self).phase,
                    round_number: final(self).round_number,
                    timer_duration_ms: spec_draft_timer_ms(DraftPhase::Initial, ctx.timings),
                }),
            old(self).phase != RoundPhase::Lobby ==> timers_kept(*old(self), *final(self)),
            old(self).phase == RoundPhase::Lobby ==> timers_after(*old(self), draft_initial_timer_slots(*ctx),
                *final(self)),
    {
        if self.phase != RoundPhase::Lobby {
            return (Vec::new(), None);
        }
        let events = self.enter_draft_initial(ctx);
        let message = PhaseChanged {
            phase: self.phase,
            round_number: self.round_number,
            timer_duration_ms: draft_timer_ms(DraftPhase::Initial, &ctx.timings),
        };
        (events, Some(message))
    }

    /// Apply the pending phase-advance request, or else the standing one.
    ///
    /// A request whose expected source is not the current phase is ignored.
    /// A game-over request ends the session from any phase; otherwise the
    /// session moves to the next phase (see `spec_advance`).
    pub fn advance_phase(
        &mut self,
        pending: &mut PendingPhaseAdvance,
        standing: Option<PhaseAdvanceRequest>,
        ctx: &RsmContext,
    ) -> (events: Vec<RsmEvent>)
        requires
            old(self).phase == RoundPhase::DraftShop && ordinary_advance(old(self).phase,
                taken_request(old(pending).request, standing)) ==> old(self).round_number >= 1,
            old(self).phase == RoundPhase::Resolution && ordinary_advance(old(self).phase,
                taken_request(old(pending).request, standing)) ==> old(self).round_number < u32::MAX,
        ensures
            final(pending).request is None,
            (final(self)@, events@) == spec_advance_taken(old(self)@, taken_request(old(pending).request, standing),
                *ctx),
            match taken_request(old(pending).request, standing) {
                None => final(self)@ == old(self)@ && events@ == Seq::<RsmEvent>::empty()
                    && timers_kept(*old(self), *final(self)),
                Some(r) => (final(self)@, events@) == spec_advance(old(self)@, r, *ctx)
                    && timers_after(*old(self), advance_timer_slots(old(self).phase, r, *ctx), *final(self)),
            },
    {
        let request = match pending.take() {
            Some(r) => r,
            None => match standing {
                Some(r) => r,
                None => return Vec::new(),
            },
        };
        if self.phase != request.expected_source {
            return Vec::new();
        }
        let mut events: Vec<RsmEvent> = Vec::new();
        if let Some(game_over) = request.game_over {
            self.phase = RoundPhase::GameOver;
            self.placement_timer = None;
            self.draft_shop_timer = None;
            self.draft_initial_timer = None;
            self.resolution_safety_timer = None;
            self.auction_safety_timer = None;
            events.push(RsmEvent::GameOverEmitted {
                reason: game_over.reason,
                loser: game_over.loser,
                round: self.round_number,
            });
            events.push(RsmEvent::BroadcastPhaseChanged {
                phase: RoundPhase::GameOver,
                round: self.round_number,
                timer_ms: 0,
            });
            assert(events@ =~= spec_advance(old(self)@, request, *ctx).1);
            return events;
        }
        match self.phase {
            RoundPhase::Lobby => {
                events = self.enter_draft_initial(ctx);
            },
            RoundPhase::DraftInitial => {
                self.phase = RoundPhase::Placement;
                self.draft_initial_timer = None;
                self.draft_shop_timer = None;
                self.draft_ready_players.clear();
                self.submissions_received.clear();
                let timer_ms = ctx.placement_timer_ms;
                self.placement_timer = if timer_ms > 0 { Some(PhaseTimer::once_millis(timer_ms)) } else { None };
                events.push(RsmEvent::PlacementPhaseEntered { round: self.round_number });
                events.push(RsmEvent::BroadcastPhaseChanged { phase: RoundPhase::Placement, round: self.round_number, timer_ms });
                assert(events@ =~= spec_advance(old(self)@, request, *ctx).1);
            },
            RoundPhase::DraftAuction => {
                self.phase = RoundPhase::DraftShop;
                self.draft_ready_players.clear();
                self.draft_shop_timer = match &ctx.timings {
                    Some(t) => Some(PhaseTimer::once_seconds(t.draft_shop_timer_seconds)),
                    None => None,
                };
                push_draft_entry_events(&mut events, self.round_number, RoundPhase::DraftShop, DraftPhase::Shop,
                    ShopRefreshTrigger::ShopUnlock, None, ctx);
                assert(events@ =~= spec_advance(old(self)@, request, *ctx).1);
            },
            RoundPhase::DraftShop => {
                self.phase = RoundPhase::Placement;
                self.draft_shop_timer = None;
                self.draft_ready_players.clear();
                self.submissions_received.clear();
                let timer_ms = if is_auction_round(self.round_number) {
                    ctx.auction_followup_placement_timer_ms
                } else {
                    ctx.placement_timer_ms
                };
                self.placement_timer = if timer_ms > 0 { Some(PhaseTimer::once_millis(timer_ms)) } else { None };
                events.push(RsmEvent::PlacementPhaseEntered { round: self.round_number });
                events.push(RsmEvent::BroadcastPhaseChanged { phase: RoundPhase::Placement, round: self.round_number, timer_ms });
                assert(events@ =~= spec_advance(old(self)@, request, *ctx).1);
            },
            RoundPhase::Placement => {
                self.phase = RoundPhase::Resolution;
                self.placement_timer = None;
                self.resolution_safety_timer = match &ctx.timings {
                    Some(t) => Some(PhaseTimer::once_seconds(t.resolution_max_duration_seconds)),
                    None => None,
                };
                events.push(RsmEvent::ResolutionPhaseEntered { round: self.round_number });
                events.push(RsmEvent::BeginResolution { round: self.round_number });
                events.push(RsmEvent::BroadcastPhaseChanged { phase: RoundPhase::Resolution, round: self.round_number, timer_ms: 0 });
                assert(events@ =~= spec_advance(old(self)@, request, *ctx).1);
            },
            RoundPhase::Resolution => {
                self.resolution_safety_timer = None;
                self.round_number = self.round_number + 1;
                let enters_auction = is_auction_round(self.round_number);
                let next_round = self.round_number;
                if enters_auction {
                    self.phase = RoundPhase::DraftAuction;
                    self.draft_shop_timer = None;
                    push_draft_entry_events(&mut events, next_round, RoundPhase::DraftAuction, DraftPhase::Auction,
                        ShopRefreshTrigger::AuctionLock, Some(next_round), ctx);
                } else {
                    self.phase = RoundPhase::DraftShop;
                    self.draft_ready_players.clear();
                    self.draft_shop_timer = match &ctx.timings {
                        Some(t) => Some(PhaseTimer::once_seconds(t.draft_shop_timer_seconds)),
                        None => None,
                    };
                    push_draft_entry_events(&mut events, next_round, RoundPhase::DraftShop, DraftPhase::Shop,
                        ShopRefreshTrigger::ShopOpen, None, ctx);
                }
                assert(events@ =~= spec_advance(old(self)@, request, *ctx).1);
            },
            RoundPhase::GameOver => {},
        }
        events
    }
}

/// The phase an ordinary (not game-over) advance leads to.
pub open spec fn spec_next_phase(phase: RoundPhase, round_number: u32) -> RoundPhase {
    match phase {
        RoundPhase::Lobby => RoundPhase::DraftInitial,
        RoundPhase::DraftInitial => RoundPhase::Placement,
        RoundPhase::DraftAuction => RoundPhase::DraftShop,
        RoundPhase::DraftShop => RoundPhase::Placement,
        RoundPhase::Placement => RoundPhase::Resolution,
        RoundPhase::Resolution => if spec_is_auction_round((round_number + 1) as u32) {
            RoundPhase::DraftAuction
        } else {
            RoundPhase::DraftShop
        },
        RoundPhase::GameOver => RoundPhase::GameOver,
    }
}

/// An ordinary advance request for the current phase moves the session
/// along the round cycle: lobby, initial draft, placement, resolution, then
/// an auction draft every third round and a shop draft otherwise, back to
/// placement. Leaving the lobby waits until every player chose a class. The
/// round number rises by one exactly when a resolution ends, and becomes one
/// when the lobby closes.
pub proof fn law_round_cycle(v: RsmView, request: PhaseAdvanceRequest, ctx: RsmContext)
    requires
        request.expected_source == v.phase,
        request.game_over is None,
        v.phase == RoundPhase::Resolution ==> v.round_number < u32::MAX,
    ensures
        v.phase != RoundPhase::Lobby || ctx.all_classes_chosen != Some(false)
            ==> spec_advance(v, request, ctx).0.phase == spec_next_phase(v.phase, v.round_number),
        v.phase == RoundPhase::Lobby && ctx.all_classes_chosen == Some(false)
            ==> spec_advance(v, request, ctx).0 == v,
        spec_advance(v, request, ctx).0.round_number == if v.phase == RoundPhase::Resolution {
            (v.round_number + 1) as u32
        } else if v.phase == RoundPhase::Lobby && ctx.all_classes_chosen != Some(false) {
            1
        } else {
            v.round_number
        },
{
}

/// The state and events after `advance_phase` took `taken` (none, when no
/// request was pending or standing).
pub open spec fn spec_advance_taken(v: RsmView, taken: Option<PhaseAdvanceRequest>, ctx: RsmContext) -> (RsmView, Seq<RsmEvent>) {
    match taken {
        None => (v, Seq::empty()),
        Some(r) => spec_advance(v, r, ctx),
    }
}

/// One call of `advance_phase`, whatever it took: with no request, or one
/// for another phase, nothing changes and nothing is published; a finished
/// session stays finished in the same round; and the round number moves
/// only on an ordinary advance, by one when a resolution ends and to one
/// when the lobby closes.
pub proof fn law_advance_phase(v: RsmView, taken: Option<PhaseAdvanceRequest>, ctx: RsmContext)
    requires
        v.phase == RoundPhase::Resolution && ordinary_advance(v.phase, taken) ==> v.round_number < u32::MAX,
    ensures
        (taken is None || taken->0.expected_source != v.phase) ==> spec_advance_taken(v, taken, ctx).0 == v
            && spec_advance_taken(v, taken, ctx).1 == Seq::<RsmEvent>::empty(),
        v.phase == RoundPhase::GameOver ==> spec_advance_taken(v, taken, ctx).0.phase == RoundPhase::GameOver
            && spec_advance_taken(v, taken, ctx).0.round_number == v.round_number,
        spec_advance_taken(v, taken, ctx).0.round_number == if ordinary_advance(v.phase, taken)
            && v.phase == RoundPhase::Resolution {
            (v.round_number + 1) as u32
        } else if ordinary_advance(v.phase, taken) && v.phase == RoundPhase::Lobby
            && ctx.all_classes_chosen != Some(false) {
            1
        } else {
            v.round_number
        },
{
    if let Some(r) = taken {
        if r.expected_source == v.phase && r.game_over is None {
            law_round_cycle(v, r, ctx);
        }
    }
}

/// A request whose expected source is not the current phase changes nothing
/// and publishes nothing.
pub proof fn law_stale_request_ignored(v: RsmView, request: PhaseAdvanceRequest, ctx: RsmContext)
    requires
        request.expected_source != v.phase,
    ensures
        spec_advance(v, request, ctx).0 == v,
        spec_advance(v, request, ctx).1 == Seq::<RsmEvent>::empty(),
{
}

/// Once over, a session stays over whatever is requested.
pub proof fn law_game_over_is_final(v: RsmView, request: PhaseAdvanceRequest, ctx: RsmContext)
    requires
        v.phase == RoundPhase::GameOver,
    ensures
        spec_advance(v, request, ctx).0.phase == RoundPhase::GameOver,
{
}

/// An accepted game-over request ends the session from any phase, stops
/// every phase timer, and publishes the game over followed by the phase
/// broadcast.
pub proof fn law_game_over_stops_timers(v: RsmView, request: PhaseAdvanceRequest, ctx: RsmContext)
    requires
        request.expected_source == v.phase,
        request.game_over is Some,
    ensures
        spec_advance(v, request, ctx).0.phase == RoundPhase::GameOver,
        spec_advance(v, request, ctx).0.placement_ms is None,
        spec_advance(v, request, ctx).0.draft_shop_ms is None,
        spec_advance(v, request, ctx).0.draft_initial_ms is None,
        spec_advance(v, request, ctx).0.auction_safety_ms is None,
        spec_advance(v, request, ctx).0.resolution_safety_ms is None,
        spec_advance(v, request, ctx).1 == seq![
            RsmEvent::GameOverEmitted {
                reason: request.game_over->0.reason,
                loser: request.game_over->0.loser,
                round: v.round_number,
            },
            RsmEvent::BroadcastPhaseChanged { phase: RoundPhase::GameOver, round: v.round_number, timer_ms: 0 },
        ],
{
}

/// Every transition that publishes anything ends with the broadcast of the
/// phase and round it entered.
pub proof fn law_transition_broadcasts_new_phase(v: RsmView, request: PhaseAdvanceRequest, ctx: RsmContext)
    requires
        spec_advance(v, request, ctx).1.len() > 0,
        v.phase == RoundPhase::Resolution && request.game_over is None ==> v.round_number < u32::MAX,
    ensures
        spec_advance(v, request, ctx).1.last() matches RsmEvent::BroadcastPhaseChanged { phase, round, timer_ms }
            && phase == spec_advance(v, request, ctx).0.phase
            && round == spec_advance(v, request, ctx).0.round_number,
{
}

/// Auction rounds are entered from resolution exactly every third round, and
/// announce the auction for the new round.
pub proof fn law_auction_every_third_round(v: RsmView, request: PhaseAdvanceRequest, ctx: RsmContext)
    requires
        v.phase == RoundPhase::Resolution,
        request.expected_source == RoundPhase::Resolution,
        request.game_over is None,
        v.round_number < u32::MAX,
    ensures
        (spec_advance(v, request, ctx).0.phase == RoundPhase::DraftAuction)
            <==> (v.round_number + 1) % 3 == 0,
        (v.round_number + 1) % 3 == 0 ==> spec_advance(v, request, ctx).1.contains(
            RsmEvent::AuctionPhaseEntered { round: (v.round_number + 1) as u32 }),
{
    let next = (v.round_number + 1) as u32;
    if next % 3 == 0 {
        let events = draft_entry_events(next, RoundPhase::DraftAuction, DraftPhase::Auction,
            ShopRefreshTrigger::AuctionLock, Some(next), ctx);
        let head = seq![RsmEvent::DraftStarted { round: next, phase: DraftPhase::Auction }]
            + session_players(ctx).map_values(|p: PlayerId| RsmEvent::ShopRefreshTriggered {
                player_id: p, trigger: ShopRefreshTrigger::AuctionLock });
        assert(events[head.len() as int] == RsmEvent::AuctionPhaseEntered { round: next });
    }
}

/// A disconnect timeout ends nothing when nobody ran out of grace, is a loss
/// for the only player who did, and a draw when several did.
pub proof fn law_disconnect_outcome(breaching: Seq<PlayerId>)
    ensures
        spec_disconnect_outcome(breaching) is None <==> breaching.len() == 0,
        breaching.len() == 1 ==> spec_disconnect_outcome(breaching)
            == Some(GameOverRequest { reason: GameOverReason::Disconnect, loser: Some(breaching[0]) }),
        breaching.len() >= 2 ==> spec_disconnect_outcome(breaching)
            == Some(GameOverRequest { reason: GameOverReason::Draw, loser: None }),
{
}

/// The number of seen players decides whether all are seen: a session
/// with seats is complete once as many players as seats were seen, and
/// never before.
pub proof fn law_all_players_seen_counts_seats(seen: Set<u64>, s: SessionView)
    requires
        seen.finite(),
    ensures
        seen.len() < s.seats() ==> !spec_all_players_seen(seen, Some(s)),
        s.seats() > 0 && seen.len() >= s.seats() ==> spec_all_players_seen(seen, Some(s)),
        s.seats() == 0 ==> !spec_all_players_seen(seen, Some(s)),
        !spec_all_players_seen(seen, None),
{
}

/// Recording submissions adds at most one player per submission.
proof fn lemma_submissions_grow_by_at_most_one(subm: Set<u64>, subs: Seq<PlacementSubmitted>, session: Option<SessionView>)
    requires
        subm.finite(),
    ensures
        submissions_after(subm, subs, session).finite(),
        submissions_after(subm, subs, session).len() <= subm.len() + subs.len(),
        forall|k: int| 0 <= k <= subs.len() ==> #[trigger] submissions_after(subm, subs.take(k), session).len()
            <= subm.len() + k,
    decreases subs.len(),
{
    if subs.len() > 0 {
        lemma_submissions_grow_by_at_most_one(subm, subs.drop_last(), session);
        assert forall|k: int| 0 <= k <= subs.len() implies #[trigger] submissions_after(subm, subs.take(k), session).len()
            <= subm.len() + k by {
            if k < subs.len() {
                assert(subs.take(k) =~= subs.drop_last().take(k));
            } else {
                assert(subs.take(k) =~= subs);
            }
        }
    } else {
        assert forall|k: int| 0 <= k <= subs.len() implies #[trigger] submissions_after(subm, subs.take(k), session).len()
            <= subm.len() + k by {
            assert(subs.take(k) =~= subs);
        }
    }
}

/// Ready signals add at most one player per signal.
proof fn lemma_ready_grows_by_at_most_one(ready: Set<u64>, signals: Seq<DraftReadySignal>, session: Option<SessionView>)
    requires
        ready.finite(),
    ensures
        ready_after(ready, signals, session).finite(),
        ready_after(ready, signals, session).len() <= ready.len() + signals.len(),
    decreases signals.len(),
{
    if signals.len() > 0 {
        lemma_ready_grows_by_at_most_one(ready, signals.drop_last(), session);
    }
}

/// Placement is not left before every seat has submitted: while the
/// submissions already in and those arriving cannot cover the seats, the
/// input reader requests no advance out of placement.
pub proof fn law_placement_waits_for_every_seat(
    v: RsmView,
    pending: Option<PhaseAdvanceRequest>,
    s: SessionView,
    real_lost: Map<u64, u32>,
    auction_settled: nat,
    resolution_complete: nat,
    ready: Seq<DraftReadySignal>,
    subs: Seq<PlacementSubmitted>,
)
    requires
        v.phase == RoundPhase::Placement,
        v.submissions.finite(),
        v.submissions.len() + subs.len() < s.seats(),
    ensures
        spec_input_reader(v, pending, Some(s), real_lost, auction_settled, resolution_complete, ready, subs).1
            == pending,
    decreases subs.len(),
{
    lemma_placement_not_requested(v.submissions, subs, s);
}

proof fn lemma_placement_not_requested(subm: Set<u64>, subs: Seq<PlacementSubmitted>, s: SessionView)
    requires
        subm.finite(),
        subm.len() + subs.len() < s.seats(),
    ensures
        !placement_requested(subm, subs, Some(s)),
    decreases subs.len(),
{
    if subs.len() > 0 {
        lemma_placement_not_requested(subm, subs.drop_last(), s);
        lemma_submissions_grow_by_at_most_one(subm, subs, Some(s));
    }
}

proof fn lemma_ready_not_requested(ready: Set<u64>, signals: Seq<DraftReadySignal>, s: SessionView)
    requires
        ready.finite(),
        ready.len() + signals.len() < s.seats(),
    ensures
        !ready_requested(ready, signals, Some(s)),
    decreases signals.len(),
{
    if signals.len() > 0 {
        lemma_ready_not_requested(ready, signals.drop_last(), s);
        lemma_ready_grows_by_at_most_one(ready, signals, Some(s));
    }
}

/// A draft is not left by readiness before every seat is ready: while the
/// players already ready and the signals arriving cannot cover the seats,
/// the input reader requests no advance out of the draft.
pub proof fn law_draft_waits_for_every_seat(
    v: RsmView,
    pending: Option<PhaseAdvanceRequest>,
    s: SessionView,
    real_lost: Map<u64, u32>,
    auction_settled: nat,
    resolution_complete: nat,
    ready: Seq<DraftReadySignal>,
    subs: Seq<PlacementSubmitted>,
)
    requires
        v.phase == RoundPhase::DraftInitial || v.phase == RoundPhase::DraftShop,
        v.ready.finite(),
        v.ready.len() + ready.len() < s.seats(),
    ensures
        spec_input_reader(v, pending, Some(s), real_lost, auction_settled, resolution_complete, ready, subs).1
            == pending,
{
    lemma_ready_not_requested(v.ready, ready, s);
}

/// Real objectives `p` has lost reach the losing count of two.
pub open spec fn lost_two_real(real_lost: Map<u64, u32>, p: PlayerId) -> bool {
    real_lost.contains_key(p.0) && real_lost[p.0] >= 2
}

/// Filtering a list without repeats, where only `p` may pass, keeps at most
/// one element.
proof fn lemma_filter_at_most_one(l: Seq<PlayerId>, pred: spec_fn(PlayerId) -> bool, p: PlayerId)
    requires
        l.no_duplicates(),
        forall|i: int| 0 <= i < l.len() && pred(l[i]) ==> l[i] == p,
    ensures
        l.filter(pred).len() <= 1,
        !l.contains(p) ==> l.filter(pred).len() == 0,
    decreases l.len(),
{
    reveal_with_fuel(Seq::<PlayerId>::filter, 1);
    if l.len() > 0 {
        let rest = l.drop_last();
        assert(rest.no_duplicates()) by {
            assert forall|i: int, j: int| 0 <= i < rest.len() && 0 <= j < rest.len() && i != j
                implies rest[i] != rest[j] by {
                assert(rest[i] == l[i] && rest[j] == l[j]);
            }
        }
        assert forall|i: int| 0 <= i < rest.len() && pred(rest[i]) implies rest[i] == p by {
            assert(rest[i] == l[i]);
        }
        lemma_filter_at_most_one(rest, pred, p);
        if pred(l.last()) {
            assert(l[l.len() - 1] == p);
            assert(!rest.contains(p)) by {
                if rest.contains(p) {
                    let k = choose|k: int| 0 <= k < rest.len() && rest[k] == p;
                    assert(l[k] == l[l.len() - 1]);
                }
            }
        } else if !l.contains(p) {
            assert(!rest.contains(p)) by {
                if rest.contains(p) {
                    let k = choose|k: int| 0 <= k < rest.len() && rest[k] == p;
                    assert(l[k] == p);
                }
            }
        }
    }
}

/// After a resolution, objectives decide the game: when exactly one session
/// player has lost two real objectives, that player loses; when none has,
/// the game goes on; when two have, it is a draw. The request that ends the
/// resolution carries that outcome.
pub proof fn law_objective_outcome(real_lost: Map<u64, u32>, s: SessionView, p: PlayerId, q: PlayerId)
    requires
        s.player_list().no_duplicates(),
    ensures
        s.player_list().contains(p) && lost_two_real(real_lost, p) && (forall|o: PlayerId|
            #[trigger] s.player_list().contains(o) && o != p ==> !lost_two_real(real_lost, o))
            ==> spec_objective_outcome(real_lost, Some(s)) == Some((GameOverReason::ObjectivesDestroyed, Some(p)))
            && resolution_end_request(real_lost, Some(s)) == (PhaseAdvanceRequest {
                expected_source: RoundPhase::Resolution,
                game_over: Some(GameOverRequest { reason: GameOverReason::ObjectivesDestroyed, loser: Some(p) }),
            }),
        (forall|o: PlayerId| #[trigger] s.player_list().contains(o) ==> !lost_two_real(real_lost, o))
            ==> spec_objective_outcome(real_lost, Some(s)) is None
            && resolution_end_request(real_lost, Some(s)) == (PhaseAdvanceRequest {
                expected_source: RoundPhase::Resolution,
                game_over: None,
            }),
        s.player_list().contains(p) && s.player_list().contains(q) && p != q && lost_two_real(real_lost, p)
            && lost_two_real(real_lost, q) ==> spec_objective_outcome(real_lost, Some(s))
            == Some((GameOverReason::Draw, None::<PlayerId>)),
{
    let l = s.player_list();
    let pred = |x: PlayerId| count_of_u64(real_lost, x.0) >= 2;
    assert(objective_losers(real_lost, Some(s)) == l.filter(pred));
    assert forall|x: PlayerId| pred(x) == lost_two_real(real_lost, x) by {}
    broadcast use vstd::seq_lib::group_filter_ensures;
    if l.contains(p) && lost_two_real(real_lost, p) && (forall|o: PlayerId|
        #[trigger] l.contains(o) && o != p ==> !lost_two_real(real_lost, o)) {
        assert forall|i: int| 0 <= i < l.len() && pred(l[i]) implies l[i] == p by {
            assert(l.contains(l[i]));
        }
        lemma_filter_at_most_one(l, pred, p);
        let k = choose|k: int| 0 <= k < l.len() && l[k] == p;
        l.lemma_filter_contains(pred, k);
        let f = l.filter(pred);
        let j = choose|j: int| 0 <= j < f.len() && f[j] == p;
        assert(f[0] == p);
    }
    if forall|o: PlayerId| #[trigger] l.contains(o) ==> !lost_two_real(real_lost, o) {
        let f = l.filter(pred);
        if f.len() > 0 {
            l.lemma_filter_pred(pred, 0);
            l.lemma_filter_contains_rev(pred, f[0]);
            assert(f.contains(f[0]));
        }
    }
    if l.contains(p) && l.contains(q) && p != q && lost_two_real(real_lost, p) && lost_two_real(real_lost, q) {
        let f = l.filter(pred);
        let kp = choose|k: int| 0 <= k < l.len() && l[k] == p;
        let kq = choose|k: int| 0 <= k < l.len() && l[k] == q;
        l.lemma_filter_contains(pred, kp);
        l.lemma_filter_contains(pred, kq);
        if f.len() <= 1 {
            let a = choose|j: int| 0 <= j < f.len() && f[j] == p;
            let b = choose|j: int| 0 <= j < f.len() && f[j] == q;
            assert(a == b);
        }
    }
}

} // verus!
