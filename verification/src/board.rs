//! Board components, class tokens, and the per-unit board snapshot.

use vstd::prelude::*;
use crate::card::{CardId, ClassId, PlayerId};

verus! {

/// Absolute board cell occupied by a live unit or cell marker.
#[derive(Clone, Copy, Debug, PartialEq, Eq, Structural)]
pub struct BoardPosition {
    pub lane: u8,
    pub cell: u8,
}

/// Objective lane attachment for non-cell token entities.
#[derive(Clone, Copy, Debug, PartialEq, Eq, Structural)]
pub struct ObjectiveAttachment {
    pub lane: u8,
}

/// Current controller for a unit-like board entity.
#[derive(Clone, Copy, Debug, PartialEq, Eq, Structural)]
pub struct UnitOwner(pub PlayerId);

/// Card definition backing a live board unit.
#[derive(Clone, Copy, Debug, PartialEq, Eq, Structural)]
pub struct UnitCardRef(pub CardId);

/// Current controller for a seed marker.
#[derive(Clone, Copy, Debug, PartialEq, Eq, Structural)]
pub struct SeedOwner(pub PlayerId);

/// Logical combat stats for unit tokens.
#[derive(Clone, Copy, Debug, PartialEq, Eq, Structural)]
pub struct UnitStats {
    pub hp: u8,
    pub atk: u8,
    pub mp: u8,
    pub ar: u8,
}

impl UnitStats {
    /// Stats with the given hit points, attack, movement and armor.
    pub fn new(hp: u8, atk: u8, mp: u8, ar: u8) -> (s: Self)
        ensures
            s == (UnitStats { hp, atk, mp, ar }),
    {
        UnitStats { hp, atk, mp, ar }
    }
}

/// Class that spawned a token entity; set at spawn time, never changed.
#[derive(Clone, Copy, Debug, PartialEq, Eq, Structural)]
pub struct SourceClass(pub ClassId);

/// Marker present on all class token entities.
#[derive(Clone, Copy, Debug, PartialEq, Eq, Structural)]
pub struct TokenUnit;

/// Marker for seed cell hazards.
#[derive(Clone, Copy, Debug, PartialEq, Eq, Structural)]
pub struct SeedMarker;

/// Kind of a class token.
#[derive(Clone, Copy, Debug, PartialEq, Eq, Structural)]
pub enum ClassTokenKind {
    Mummy,
    ChachaNoir,
    Seed,
    Madoll,
    LaGonflable,
    LaSacrifiee,
    Sinistro,
}

/// What spawning a token of some kind puts on the board.
#[derive(Clone, Copy, Debug, PartialEq, Eq, Structural)]
pub struct TokenBlueprint {
    pub kind: ClassTokenKind,
    /// Combat stats; seeds have none.
    pub stats: Option<UnitStats>,
    pub source_class: ClassId,
    /// Whether the token is a seed marker owned through `SeedOwner`.
    pub seed: bool,
    /// Whether the token occupies a board cell (otherwise it attaches to an
    /// objective lane).
    pub on_cell: bool,
}

/// The blueprint of each token kind.
pub open spec fn spec_token_blueprint(kind: ClassTokenKind) -> TokenBlueprint {
    match kind {
        ClassTokenKind::Mummy => TokenBlueprint { kind, stats: Some(UnitStats { hp: 2, atk: 2, mp: 3, ar: 0 }),
            source_class: ClassId::Xelor, seed: false, on_cell: true },
        ClassTokenKind::ChachaNoir => TokenBlueprint { kind, stats: Some(UnitStats { hp: 2, atk: 2, mp: 6, ar: 0 }),
            source_class: ClassId::Ecaflip, seed: false, on_cell: true },
        ClassTokenKind::Seed => TokenBlueprint { kind, stats: None,
            source_class: ClassId::Sadida, seed: true, on_cell: true },
        ClassTokenKind::Madoll => TokenBlueprint { kind, stats: Some(UnitStats { hp: 3, atk: 1, mp: 3, ar: 0 }),
            source_class: ClassId::Sadida, seed: false, on_cell: true },
        ClassTokenKind::LaGonflable => TokenBlueprint { kind, stats: Some(UnitStats { hp: 3, atk: 2, mp: 3, ar: 0 }),
            source_class: ClassId::Sadida, seed: false, on_cell: true },
        ClassTokenKind::LaSacrifiee => TokenBlueprint { kind, stats: Some(UnitStats { hp: 2, atk: 2, mp: 3, ar: 0 }),
            source_class: ClassId::Sadida, seed: false, on_cell: true },
        ClassTokenKind::Sinistro => TokenBlueprint { kind, stats: None,
            source_class: ClassId::Xelor, seed: false, on_cell: false },
    }
}

impl ClassTokenKind {
    /// What spawning a token of this kind puts on the board.
    pub fn blueprint(self) -> (b: TokenBlueprint)
        ensures
            b == spec_token_blueprint(self),
    {
        match self {
            ClassTokenKind::Mummy => TokenBlueprint { kind: self, stats: Some(UnitStats::new(2, 2, 3, 0)),
                source_class: ClassId::Xelor, seed: false, on_cell: true },
            ClassTokenKind::ChachaNoir => TokenBlueprint { kind: self, stats: Some(UnitStats::new(2, 2, 6, 0)),
                source_class: ClassId::Ecaflip, seed: false, on_cell: true },
            ClassTokenKind::Seed => TokenBlueprint { kind: self, stats: None,
                source_class: ClassId::Sadida, seed: true, on_cell: true },
            ClassTokenKind::Madoll => TokenBlueprint { kind: self, stats: Some(UnitStats::new(3, 1, 3, 0)),
                source_class: ClassId::Sadida, seed: false, on_cell: true },
            ClassTokenKind::LaGonflable => TokenBlueprint { kind: self, stats: Some(UnitStats::new(3, 2, 3, 0)),
                source_class: ClassId::Sadida, seed: false, on_cell: true },
            ClassTokenKind::LaSacrifiee => TokenBlueprint { kind: self, stats: Some(UnitStats::new(2, 2, 3, 0)),
                source_class: ClassId::Sadida, seed: false, on_cell: true },
            ClassTokenKind::Sinistro => TokenBlueprint { kind: self, stats: None,
                source_class: ClassId::Xelor, seed: false, on_cell: false },
        }
    }
}

/// Where a unit sits on the board.
#[derive(Clone, Copy, Debug, PartialEq, Eq, Structural)]
pub enum UnitBoardLocation {
    BoardCell { lane: u8, cell: u8 },
    ObjectiveAttachment { lane: u8 },
}

/// Stats part of a unit snapshot.
#[derive(Clone, Copy, Debug, PartialEq, Eq, Structural)]
pub struct UnitStatsSnapshot {
    pub hp: u8,
    pub atk: u8,
    pub mp: u8,
    pub ar: u8,
}

/// Snapshot of one board unit.
#[derive(Clone, Copy, Debug, PartialEq, Eq, Structural)]
pub struct UnitBoardState {
    pub unit_id: u64,
    pub owner_id: PlayerId,
    pub location: UnitBoardLocation,
    pub stats: Option<UnitStatsSnapshot>,
    pub source_class: Option<ClassId>,
}

/// The snapshot of a unit with the given components: the unit owner, else
/// the seed owner; the board cell, else the objective attachment; `None`
/// when the unit has no owner or no location.
pub open spec fn spec_unit_board_state(
    unit_id: u64,
    unit_owner: Option<UnitOwner>,
    seed_owner: Option<SeedOwner>,
    position: Option<BoardPosition>,
    attachment: Option<ObjectiveAttachment>,
    stats: Option<UnitStats>,
    source_class: Option<SourceClass>,
) -> Option<UnitBoardState> {
    let owner: Option<PlayerId> = match unit_owner {
        Some(o) => Some(o.0),
        None => match seed_owner {
            Some(o) => Some(o.0),
            None => None,
        },
    };
    let location: Option<UnitBoardLocation> = match position {
        Some(p) => Some(UnitBoardLocation::BoardCell { lane: p.lane, cell: p.cell }),
        None => match attachment {
            Some(a) => Some(UnitBoardLocation::ObjectiveAttachment { lane: a.lane }),
            None => None,
        },
    };
    match (owner, location) {
        (Some(owner_id), Some(location)) => Some(UnitBoardState {
            unit_id,
            owner_id,
            location,
            stats: match stats {
                Some(s) => Some(UnitStatsSnapshot { hp: s.hp, atk: s.atk, mp: s.mp, ar: s.ar }),
                None => None,
            },
            source_class: match source_class {
                Some(c) => Some(c.0),
                None => None,
            },
        }),
        _ => None,
    }
}

/// Build the snapshot of a unit from its components (see
/// `spec_unit_board_state`).
pub fn build_unit_board_state(
    unit_id: u64,
    unit_owner: Option<UnitOwner>,
    seed_owner: Option<SeedOwner>,
    position: Option<BoardPosition>,
    attachment: Option<ObjectiveAttachment>,
    stats: Option<UnitStats>,
    source_class: Option<SourceClass>,
) -> (r: Option<UnitBoardState>)
    ensures
        r == spec_unit_board_state(unit_id, unit_owner, seed_owner, position, attachment, stats, source_class),
{
    let owner_id = match unit_owner {
        Some(o) => o.0,
        None => match seed_owner {
            Some(o) => o.0,
            None => return None,
        },
    };
    let location = match position {
        Some(p) => UnitBoardLocation::BoardCell { lane: p.lane, cell: p.cell },
        None => match attachment {
            Some(a) => UnitBoardLocation::ObjectiveAttachment { lane: a.lane },
            None => return None,
        },
    };
    let stats = match stats {
        Some(s) => Some(UnitStatsSnapshot { hp: s.hp, atk: s.atk, mp: s.mp, ar: s.ar }),
        None => None,
    };
    let source_class = match source_class {
        Some(c) => Some(c.0),
        None => None,
    };
    Some(UnitBoardState { unit_id, owner_id, location, stats, source_class })
}

/// Unit ids non-decreasing along the sequence.
pub open spec fn sorted_by_unit_id(s: Seq<UnitBoardState>) -> bool {
    forall|i: int, j: int| 0 <= i < j < s.len() ==> s[i].unit_id <= s[j].unit_id
}

/// The snapshots ordered by unit id.
pub fn sort_unit_board_states(units: Vec<UnitBoardState>) -> (r: Vec<UnitBoardState>)
    ensures
        sorted_by_unit_id(r@),
        r@.to_multiset() == units@.to_multiset(),
{
    let n = units.len();
    let mut out: Vec<UnitBoardState> = Vec::new();
    let mut i: usize = 0;
    assert(units@.take(0) =~= out@);
    while i < n
        invariant
            n == units@.len(),
            0 <= i <= n,
            sorted_by_unit_id(out@),
            out@.to_multiset() == units@.take(i as int).to_multiset(),
        decreases n - i,
    {
        let u = units[i];
        let m = out.len();
        let mut j: usize = m;
        while j > 0 && out[j - 1].unit_id > u.unit_id
            invariant
                m == out@.len(),
                0 <= j <= m,
                forall|k: int| j <= k < m ==> out@[k].unit_id > u.unit_id,
            decreases j,
        {
            j = j - 1;
        }
        let ghost before = out@;
        out.insert(j, u);
        assert(out@ == before.insert(j as int, u));
        assert(units@.take(i + 1) =~= units@.take(i as int).push(u));
        proof {
            vstd::seq_lib::to_multiset_insert(before, j as int, u);
            vstd::seq_lib::to_multiset_build(units@.take(i as int), u);
        }
        assert(out@.to_multiset() == before.to_multiset().insert(u));
        assert(units@.take(i + 1).to_multiset() == units@.take(i as int).to_multiset().insert(u));
        assert(sorted_by_unit_id(out@)) by {
            assert forall|a: int, b: int| 0 <= a < b < out@.len() implies out@[a].unit_id <= out@[b].unit_id by {
                if b < j {
                } else if a < j && b == j {
                    assert(before[a].unit_id <= u.unit_id);
                } else if a < j && b > j {
                    assert(before[a].unit_id <= before[b - 1].unit_id);
                } else if a == j {
                    assert(before[b - 1].unit_id > u.unit_id);
                } else {
                    assert(before[a - 1].unit_id <= before[b - 1].unit_id);
                }
            }
        }
        i = i + 1;
    }
    assert(units@.take(n as int) =~= units@);
    out
}

} // verus!
