//! Transient notices: the banner announcing a new phase, and the
//! photosensitivity warning shown before play.

use vstd::prelude::*;

use crate::protocol::RoundPhase;

verus! {

/// Banner lifetime in milliseconds.
pub const PHASE_BANNER_LIFETIME_MS: u64 = 1400;

pub open spec fn spec_banner_label(phase: RoundPhase) -> Option<Seq<char>> {
    match phase {
        RoundPhase::DraftInitial => Some("DRAFT"@),
        RoundPhase::DraftShop => Some("SHOP"@),
        RoundPhase::DraftAuction => Some("AUCTION"@),
        RoundPhase::Placement => Some("PLACEMENT"@),
        RoundPhase::Resolution => Some("RESOLUTION"@),
        _ => None,
    }
}

/// The banner for a phase; the lobby, the handshake and game over raise
/// none.
pub fn phase_banner_label_for(phase: RoundPhase) -> (r: Option<&'static str>)
    ensures
        match spec_banner_label(phase) {
            Some(l) => r matches Some(s) && s@ == l,
            None => r is None,
        },
{
    match phase {
        RoundPhase::DraftInitial => Some("DRAFT"),
        RoundPhase::DraftShop => Some("SHOP"),
        RoundPhase::DraftAuction => Some("AUCTION"),
        RoundPhase::Placement => Some("PLACEMENT"),
        RoundPhase::Resolution => Some("RESOLUTION"),
        RoundPhase::Lobby | RoundPhase::Handshaking | RoundPhase::GameOver => None,
    }
}

/// What a phase change does to the banner.
#[derive(Clone, Copy, Debug, PartialEq, Eq, Structural)]
pub enum PhaseBannerAction {
    /// Same phase as before: the banner stays as it is.
    Keep,
    /// A new phase: banners shown are removed, and one is raised for the
    /// phase when it has a label.
    Replace(Option<RoundPhase>),
}

/// The last phase seen by the banner.
#[derive(Clone, Copy, Debug, PartialEq, Eq, Structural)]
pub struct PhaseBannerTracker {
    pub last_phase: Option<RoundPhase>,
}

impl PhaseBannerTracker {
    pub fn new() -> (t: Self)
        ensures
            t.last_phase is None,
    {
        PhaseBannerTracker { last_phase: None }
    }

    /// See the current phase; a change replaces the banner.
    pub fn observe(&mut self, phase: RoundPhase) -> (a: PhaseBannerAction)
        ensures
            final(self).last_phase == Some(phase),
            old(self).last_phase == Some(phase) ==> a == PhaseBannerAction::Keep,
            old(self).last_phase != Some(phase) ==> a == PhaseBannerAction::Replace(
                if spec_banner_label(phase) is Some {
                    Some(phase)
                } else {
                    None
                },
            ),
    {
        let same = match self.last_phase {
            Some(p) => p == phase,
            None => false,
        };
        if same {
            return PhaseBannerAction::Keep;
        }
        self.last_phase = Some(phase);
        match phase_banner_label_for(phase) {
            Some(_) => PhaseBannerAction::Replace(Some(phase)),
            None => PhaseBannerAction::Replace(None),
        }
    }
}

/// Whether the photosensitivity warning was dismissed.
#[derive(Clone, Copy, Debug, PartialEq, Eq, Structural)]
pub struct PhotosensitivityWarningState {
    acknowledged: bool,
}

impl PhotosensitivityWarningState {
    pub closed spec fn spec_acknowledged(self) -> bool {
        self.acknowledged
    }

    pub fn new() -> (s: Self)
        ensures
            !s.spec_acknowledged(),
    {
        PhotosensitivityWarningState { acknowledged: false }
    }

    pub fn is_acknowledged(&self) -> (r: bool)
        ensures
            r == self.spec_acknowledged(),
    {
        self.acknowledged
    }

    /// The player acknowledged the warning, or a session started: the
    /// warning is hidden for good.
    pub fn acknowledge(&mut self)
        ensures
            final(self).spec_acknowledged(),
    {
        self.acknowledged = true;
    }
}

} // verus!
