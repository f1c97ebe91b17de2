//! The escrow record of a staked game.

use vstd::prelude::*;
use crate::external::{empty_stream_id, no_stream, read_single, single, AccountView, Reply, StreamId};
use crate::game::Player;
use crate::internal::{SagaError, StreamRequest};
use crate::roketo::{stop_stream, StreamCall};

verus! {

/// The stake of a game, who has paid it, and the two clock streams.
#[derive(Clone, Copy, Debug, PartialEq, Eq)]
pub struct Bid {
    /// What each player stakes.
    pub bid: u128,
    pub did_first_player_bet: bool,
    pub did_second_player_bet: bool,
    /// The first player's clock.
    pub stream_to_first_player: StreamId,
    /// The second player's clock.
    pub stream_to_second_player: StreamId,
}

impl Bid {
    /// The record before anybody has paid.
    pub open spec fn fresh(bid: u128) -> Bid {
        Bid {
            bid,
            did_first_player_bet: false,
            did_second_player_bet: false,
            stream_to_first_player: no_stream(),
            stream_to_second_player: no_stream(),
        }
    }

    /// The record once `player` has paid and the stream is open. A player who
    /// pays again replaces the stream recorded before.
    pub open spec fn funded(self, player: Player, stream_id: StreamId) -> Bid {
        match player {
            Player::First => Bid { did_first_player_bet: true, stream_to_first_player: stream_id, ..self },
            Player::Second => Bid {
                did_second_player_bet: true,
                stream_to_second_player: stream_id,
                ..self
            },
        }
    }

    /// Whether both players have paid.
    pub open spec fn is_funded(self) -> bool {
        self.did_first_player_bet && self.did_second_player_bet
    }

    /// Both stakes together.
    pub open spec fn pot(self) -> int {
        2 * self.bid
    }

    /// The clock of a player.
    pub open spec fn stream_of(self, player: Player) -> StreamId {
        match player {
            Player::First => self.stream_to_first_player,
            Player::Second => self.stream_to_second_player,
        }
    }

    /// The record of a stake nobody has paid yet.
    pub fn new(bid: u128) -> (r: Bid)
        ensures
            r == Bid::fresh(bid),
    {
        Bid {
            bid,
            did_first_player_bet: false,
            did_second_player_bet: false,
            stream_to_first_player: empty_stream_id(),
            stream_to_second_player: empty_stream_id(),
        }
    }

    /// Records that `player` has paid and that `stream_id` is that player's
    /// clock.
    pub fn record_funding(&mut self, player: Player, stream_id: StreamId)
        ensures
            *final(self) == old(self).funded(player, stream_id),
    {
        match player {
            Player::First => {
                self.did_first_player_bet = true;
                self.stream_to_first_player = stream_id;
            },
            Player::Second => {
                self.did_second_player_bet = true;
                self.stream_to_second_player = stream_id;
            },
        }
    }

    /// Whether both players have paid.
    pub fn both_funded(&self) -> (r: bool)
        ensures
            r == self.is_funded(),
    {
        self.did_first_player_bet && self.did_second_player_bet
    }

    /// The two requests that end both clocks, the first player's first.
    pub fn stop_streams(&self) -> (r: (StreamCall, StreamCall))
        ensures
            r.0 == StreamCall::of(StreamRequest::Stop, self.stream_to_first_player),
            r.1 == StreamCall::of(StreamRequest::Stop, self.stream_to_second_player),
    {
        (stop_stream(self.stream_to_first_player), stop_stream(self.stream_to_second_player))
    }

    /// The record after the answer to a player's payment: the stream that the
    /// service's account reports as the last one made becomes that player's
    /// clock.
    pub open spec fn after_reply(self, player: Player, results: Seq<Reply<AccountView>>) -> Result<
        Bid,
        SagaError,
    > {
        match single(results) {
            Err(e) => Err(e),
            Ok(account) => match account.last_created_stream {
                Option::None => Err(SagaError::NoStreamCreated),
                Option::Some(stream_id) => Ok(self.funded(player, stream_id)),
            },
        }
    }

    /// Reads the answer to a player's payment and records the funding.
    pub fn resolve_funding(&self, player: Player, results: &Vec<Reply<AccountView>>) -> (r: Result<
        Bid,
        SagaError,
    >)
        ensures
            r == self.after_reply(player, results@),
    {
        match read_single(results) {
            Err(e) => Err(e),
            Ok(account) => match account.last_created_stream {
                None => Err(SagaError::NoStreamCreated),
                Some(stream_id) => {
                    let mut bid = *self;
                    bid.record_funding(player, stream_id);
                    Ok(bid)
                },
            },
        }
    }
}

} // verus!
