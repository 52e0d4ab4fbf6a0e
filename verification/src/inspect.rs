//! The card inspect overlay of the shop/auction panels: which card, if any,
//! is shown enlarged.

use vstd::prelude::*;

use crate::card::CardId;

verus! {

/// The inspected card; `None` while the overlay is closed.
#[derive(Clone, Copy, Debug, PartialEq, Eq, Structural)]
pub struct ShopAuctionCardInspectTarget(pub Option<CardId>);

/// The target after one frame's input: the latest request toggles that
/// card (open, or closed when already shown); without a request, a dismiss
/// closes the overlay.
pub open spec fn spec_inspect_target(target: Option<CardId>, requests: Seq<CardId>, dismiss: bool) -> Option<CardId> {
    if requests.len() > 0 {
        let latest = requests[requests.len() - 1];
        if target == Some(latest) {
            None
        } else {
            Some(latest)
        }
    } else if dismiss {
        None
    } else {
        target
    }
}

impl ShopAuctionCardInspectTarget {
    /// Fold one frame's inspect requests (oldest first) and dismiss signals
    /// (a dismiss message or the Escape key) into the target.
    pub fn apply(&mut self, requests: &Vec<CardId>, dismiss: bool)
        ensures
            final(self).0 == spec_inspect_target(old(self).0, requests@, dismiss),
    {
        let n = requests.len();
        if n > 0 {
            let latest = requests[n - 1];
            let same = match self.0 {
                Some(c) => c.0 == latest.0,
                None => false,
            };
            if same {
                self.0 = None;
            } else {
                self.0 = Some(latest);
            }
        } else if dismiss && self.0.is_some() {
            self.0 = None;
        }
    }
}


/// Requesting the same card twice from a closed overlay opens then closes
/// it; requesting another card while one is shown switches to it.
pub proof fn law_inspect_request_toggles(id: CardId, other: CardId)
    requires
        id != other,
    ensures
        spec_inspect_target(spec_inspect_target(None, seq![id], false), seq![id], false) is None,
        spec_inspect_target(Some(id), seq![other], false) == Some(other),
        spec_inspect_target(Some(id), Seq::empty(), true) is None,
{
}

} // verus!
