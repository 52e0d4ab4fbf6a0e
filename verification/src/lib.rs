//! Verified core of a two-player card auto-battler: the per-player economy,
//! the card pool and its seeded draws, the round state machine, objective
//! counters, board token stats, and the client-side shop/auction state.

pub mod auction;
pub mod config;
pub mod draws;
pub mod board;
pub mod card;
pub mod economy;
pub mod economy_system;
pub mod inspect;
pub mod labels;
pub mod lobby;
pub mod notices;
pub mod objective;
pub mod offering;
pub mod panel_views;
pub mod panels;
pub mod pool;
pub mod pool_system;
pub mod protocol;
pub mod purchases;
pub mod room_code;
pub mod rsm;
pub mod seeded;
pub mod settings;
pub mod shop_auction;
pub mod shop_auction_input;
pub mod text;
pub mod timer;
