//! Settlement of a two-player wagered game of Hex whose stakes are released
//! over time through payment streams that stand in for the players' clocks.
//!
//! The crate holds the rules: the board and its moves, the escrow record of a
//! game, the requests sent to the streaming service, and the decisions taken
//! before and after every move. Remote calls are described, never made: every
//! entry point returns the calls to issue and takes their answers as values.

use vstd::prelude::*;

pub mod bid;
pub mod board;
pub mod cell;
pub mod connect;
pub mod contract;
pub mod external;
pub mod game;
pub mod internal;
pub mod laws;
pub mod roketo;
pub mod utils;

pub use contract::Contract;

verus! {

/// The kind of move a player submits.
#[derive(Clone, Copy, Debug, PartialEq, Eq, Structural)]
pub enum MoveType {
    PLACE,
    SWAP,
}

/// The sections of the persisted ledger.
#[derive(Clone, Copy, Debug, PartialEq, Eq, Structural)]
pub enum StorageKey {
    Games,
    Field { game_id: u64 },
    Bid,
}

} // verus!
