//! The server-to-client values that the client-side shop and auction logic
//! reads: the phase announced on the wire and the auction messages.

use vstd::prelude::*;

use crate::card::{CardId, PlayerId};

verus! {

/// Round phase as announced to clients. `Handshaking` is the client's own
/// phase before the session is joined; the server never enters it.
#[derive(Clone, Copy, Debug, PartialEq, Eq, Hash, Structural)]
pub enum RoundPhase {
    Handshaking,
    Lobby,
    DraftInitial,
    DraftAuction,
    DraftShop,
    Placement,
    Resolution,
    GameOver,
}

/// Why the server refused a bid.
#[derive(Clone, Copy, Debug, PartialEq, Eq, Hash, Structural)]
pub enum BidRejectedReason {
    InsufficientGold,
    AmountTooLow,
    AlreadyLeader,
    HandFull,
    AuctionExpired,
}

/// The card put up for auction.
#[derive(Clone, Copy, Debug, PartialEq, Eq, Structural)]
pub struct S2CAuctionCard {
    pub card_id: CardId,
    pub starting_price: u32,
    pub timer_duration_ms: u32,
}

/// A bid the server accepted, with the auction timer it restarted.
#[derive(Clone, Copy, Debug, PartialEq, Eq, Structural)]
pub struct S2CAuctionBidAccepted {
    pub bidder: PlayerId,
    pub amount: u32,
    pub new_timer_ms: u32,
}

/// The end of an auction: its winner, if any bid was placed, and the price.
#[derive(Clone, Copy, Debug, PartialEq, Eq, Structural)]
pub struct S2CAuctionSettled {
    pub winner: Option<PlayerId>,
    pub amount: u32,
}

/// The running auction as carried by a reconnection snapshot.
/// `last_accepted_bid` is zero while no bid has been accepted.
#[derive(Clone, Copy, Debug, PartialEq, Eq, Structural)]
pub struct AuctionSnapshot {
    pub card_id: CardId,
    pub starting_price: u32,
    pub last_accepted_bid: u32,
    pub current_leader: Option<PlayerId>,
    pub timer_remaining_ms: u32,
}

} // verus!
