//! The limits and the addresses the settlement works with.

use vstd::prelude::*;

verus! {

/// The shortest time, in seconds, that a game's clocks may be set to.
pub const MIN_PLAYTIME: u32 = 5 * 60;

/// The longest time, in seconds, that a game's clocks may be set to.
pub const MAX_PLAYTIME: u32 = 60 * 60;

/// The time, in seconds, of a staked game that names none.
pub const DEFAULT_PLAYTIME: u32 = 20 * 60;

/// One whole token, in its smallest unit.
pub const ONE_NEAR: u128 = 1_000_000_000_000_000_000_000_000;

/// The smallest stake.
pub const MIN_BID: u128 = 2 * ONE_NEAR;

/// The largest stake.
pub const MAX_BID: u128 = 100 * ONE_NEAR;

/// A million million units of gas.
pub const ONE_TERA: u64 = 1_000_000_000_000;

/// The gas a player has to attach to pay a stake.
pub const MIN_MAKE_BID_GAS: u64 = 300 * ONE_TERA;

/// The gas a player has to attach to move.
pub const MIN_MAKE_MOVE_GAS: u64 = 300 * ONE_TERA;

/// What a player pays on top of the stake for the streams to be opened.
pub const FEE: u128 = 200_000_000_000_000_000_000_000;

/// The longest side of a board: the longest whose cells a machine of 32 bits
/// can count.
pub const MAX_FIELD_SIZE: usize = 65535;

/// The side of a board where a game names none.
pub const DEFAULT_FIELD_SIZE: usize = 11;

/// The account of the streaming service.
pub const ROKETO_ACC: &'static str = "streaming-r-v2.dcversus.testnet";

/// The account of the token that the streams pay in.
pub const WRAP_ACC: &'static str = "wrap.testnet";

} // verus!
