//! The settlement's decisions on the two clock streams of a game.

use vstd::prelude::*;
use crate::bid::Bid;
use crate::cell::Cell;
use crate::external::{empty_stream_id, no_stream, Reply, Stream, StreamFinishReason, StreamId, StreamStatus};
use crate::game::{Game, GameView, MoveError, Player};
use crate::roketo::{start_stream, stop_stream, stream_call, Call, StreamCall};
use crate::MoveType;

verus! {

/// Which clocks have run out since they were last looked at.
#[derive(Clone, Copy, Debug, PartialEq, Eq, Structural)]
pub enum FinishedStreams {
    Neither,
    First,
    Second,
    Both,
}

/// The three classes into which the settlement folds a stream's status.
#[derive(Clone, Copy, Debug, PartialEq, Eq, Structural)]
pub enum StatusType {
    Active,
    Paused,
    Finished,
}

impl StatusType {
    /// The class of a status. A stream that its receiver stopped counts as
    /// paused, like one that never started: leaving is no forfeit. Every other
    /// end counts as finished.
    pub open spec fn of(status: StreamStatus) -> StatusType {
        match status {
            StreamStatus::Active => StatusType::Active,
            StreamStatus::Initialized => StatusType::Paused,
            StreamStatus::Paused => StatusType::Paused,
            StreamStatus::Finished { reason } => if reason == StreamFinishReason::StoppedByReceiver {
                StatusType::Paused
            } else {
                StatusType::Finished
            },
        }
    }

    /// Classifies a status.
    pub fn new(status: StreamStatus) -> (r: StatusType)
        ensures
            r == StatusType::of(status),
    {
        match status {
            StreamStatus::Active => StatusType::Active,
            StreamStatus::Initialized => StatusType::Paused,
            StreamStatus::Paused => StatusType::Paused,
            StreamStatus::Finished { reason: StreamFinishReason::StoppedByReceiver } => StatusType::Paused,
            StreamStatus::Finished {
                reason: StreamFinishReason::FinishedBecauseCannotBeExtended,
            } => StatusType::Finished,
            StreamStatus::Finished { reason: StreamFinishReason::FinishedNaturally } => StatusType::Finished,
            StreamStatus::Finished { reason: StreamFinishReason::FinishedWhileTransferred } => StatusType::Finished,
            StreamStatus::Finished { reason: StreamFinishReason::StoppedByOwner } => StatusType::Finished,
        }
    }
}

/// Why a step of the settlement could not be taken.
#[derive(Clone, Copy, Debug, PartialEq, Eq, Structural)]
pub enum SagaError {
    /// The step was called by another account than the ledger's own.
    Untrusted,
    /// Another number of answers arrived than the step waits for.
    WrongResultsCount,
    /// The remote call failed.
    CallFailed,
    /// The answer has another shape than expected.
    WrongValueReceived,
    /// The service's account names no stream as the last one made.
    NoStreamCreated,
    /// No game has this identifier, or the game has no stake.
    NoSuchBet,
    /// No game has this identifier.
    NoSuchGame,
}

/// Where a call into the ledger comes from: the account that made it, and the
/// ledger's own account.
#[derive(Debug, PartialEq, Eq)]
pub struct Origin {
    pub predecessor: String,
    pub current: String,
}

impl Origin {
    /// Whether the ledger has called itself. The steps that follow a remote
    /// call are taken for nobody else.
    pub open spec fn is_own(&self) -> bool {
        self.predecessor@ == self.current@
    }

    /// Turns down a call that the ledger has not made itself.
    pub fn trusted(&self) -> (r: Result<(), SagaError>)
        ensures
            r == if self.is_own() {
                Ok::<(), SagaError>(())
            } else {
                Err::<(), SagaError>(SagaError::Untrusted)
            },
    {
        if self.predecessor == self.current {
            Ok(())
        } else {
            Err(SagaError::Untrusted)
        }
    }
}

/// What is asked of the service for one stream.
#[derive(Clone, Copy, Debug, PartialEq, Eq, Structural)]
pub enum StreamRequest {
    Pause,
    Stop,
    Start,
}

/// The status a stream is recorded with once the request has gone out.
pub open spec fn status_after(status: StreamStatus, request: Option<StreamRequest>) -> StreamStatus {
    match request {
        Option::None => status,
        Option::Some(StreamRequest::Pause) => StreamStatus::Paused,
        Option::Some(StreamRequest::Stop) => StreamStatus::Finished {
            reason: StreamFinishReason::StoppedByOwner,
        },
        Option::Some(StreamRequest::Start) => StreamStatus::Active,
    }
}

/// What halts a stream before it is classified: nothing unless it is running;
/// a stop where all of its balance can already be withdrawn, since nothing is
/// left to protect; else a pause.
pub open spec fn halt_request(stream: Stream) -> Option<StreamRequest> {
    if stream.status != StreamStatus::Active {
        Option::None
    } else if stream.balance == stream.available_to_withdraw_by_formula {
        Option::Some(StreamRequest::Stop)
    } else {
        Option::Some(StreamRequest::Pause)
    }
}

/// A stream as it is recorded after `halt_request` has gone out.
pub open spec fn halted(stream: Stream) -> Stream {
    Stream { status: status_after(stream.status, halt_request(stream)), ..stream }
}

/// Decides how to halt one stream, and records the status it will have.
pub fn halt_stream(stream: Stream) -> (r: (Option<StreamRequest>, Stream))
    ensures
        r.0 == halt_request(stream),
        r.1 == halted(stream),
        r.1.status != StreamStatus::Active,
{
    match stream.status {
        StreamStatus::Active => {
            if stream.balance == stream.available_to_withdraw_by_formula {
                (
                    Some(StreamRequest::Stop),
                    Stream {
                        status: StreamStatus::Finished { reason: StreamFinishReason::StoppedByOwner },
                        ..stream
                    },
                )
            } else {
                (Some(StreamRequest::Pause), Stream { status: StreamStatus::Paused, ..stream })
            }
        },
        _ => (None, stream),
    }
}

/// The summary of two classified streams; none while either is running.
pub open spec fn summary(first: StatusType, second: StatusType) -> Option<FinishedStreams> {
    match (first, second) {
        (StatusType::Paused, StatusType::Paused) => Option::Some(FinishedStreams::Neither),
        (StatusType::Finished, StatusType::Paused) => Option::Some(FinishedStreams::First),
        (StatusType::Paused, StatusType::Finished) => Option::Some(FinishedStreams::Second),
        (StatusType::Finished, StatusType::Finished) => Option::Some(FinishedStreams::Both),
        _ => Option::None,
    }
}

/// Which clocks have run out, from the two streams' statuses.
pub fn summarize(first: StreamStatus, second: StreamStatus) -> (r: Option<FinishedStreams>)
    ensures
        r == summary(StatusType::of(first), StatusType::of(second)),
        r is None <==> first == StreamStatus::Active || second == StreamStatus::Active,
{
    match (StatusType::new(first), StatusType::new(second)) {
        (StatusType::Active, _) => None,
        (_, StatusType::Active) => None,
        (StatusType::Paused, StatusType::Paused) => Some(FinishedStreams::Neither),
        (StatusType::Finished, StatusType::Paused) => Some(FinishedStreams::First),
        (StatusType::Paused, StatusType::Finished) => Some(FinishedStreams::Second),
        (StatusType::Finished, StatusType::Finished) => Some(FinishedStreams::Both),
    }
}

/// How to halt the two clocks of a game, and the streams as they are recorded
/// once that is asked.
#[derive(Clone, Copy, Debug, PartialEq, Eq)]
pub struct HaltPlan {
    pub first: Option<StreamRequest>,
    pub second: Option<StreamRequest>,
    pub stream1: Stream,
    pub stream2: Stream,
}

impl HaltPlan {
    /// The requests that halt the clocks, to be sent together: the first
    /// player's before the second's.
    pub open spec fn calls(self) -> Seq<StreamCall> {
        (match self.first {
            Option::Some(request) => seq![StreamCall::of(request, self.stream1.id)],
            Option::None => Seq::<StreamCall>::empty(),
        }) + (match self.second {
            Option::Some(request) => seq![StreamCall::of(request, self.stream2.id)],
            Option::None => Seq::<StreamCall>::empty(),
        })
    }

    /// The requests that halt the clocks.
    pub fn requests(&self) -> (r: Vec<StreamCall>)
        ensures
            r@ == self.calls(),
    {
        let mut calls: Vec<StreamCall> = Vec::new();
        match self.first {
            Some(request) => {
                calls.push(stream_call(request, self.stream1.id));
            },
            None => {},
        }
        match self.second {
            Some(request) => {
                calls.push(stream_call(request, self.stream2.id));
            },
            None => {},
        }
        assert(calls@ =~= self.calls());
        calls
    }
}

/// What the answers to the query of both clocks lead to: two answers are
/// waited for, the first is read before the second, and each stream that is
/// still running is halted.
pub open spec fn halt_plan(results: Seq<Reply<Stream>>) -> Result<HaltPlan, SagaError> {
    if results.len() != 2 {
        Err(SagaError::WrongResultsCount)
    } else {
        match results[0] {
            Reply::Failed => Err(SagaError::CallFailed),
            Reply::Malformed => Err(SagaError::WrongValueReceived),
            Reply::Received(stream1) => match results[1] {
                Reply::Failed => Err(SagaError::CallFailed),
                Reply::Malformed => Err(SagaError::WrongValueReceived),
                Reply::Received(stream2) => Ok(
                    HaltPlan {
                        first: halt_request(stream1),
                        second: halt_request(stream2),
                        stream1: halted(stream1),
                        stream2: halted(stream2),
                    },
                ),
            },
        }
    }
}

/// Reads the answers to the query of both clocks and decides how to halt them.
pub fn halt_streams(results: &Vec<Reply<Stream>>) -> (r: Result<HaltPlan, SagaError>)
    ensures
        r == halt_plan(results@),
        r matches Ok(plan) ==> plan.stream1.status != StreamStatus::Active && plan.stream2.status
            != StreamStatus::Active,
{
    if results.len() != 2 {
        return Err(SagaError::WrongResultsCount);
    }
    let stream1 = match &results[0] {
        Reply::Failed => {
            return Err(SagaError::CallFailed);
        },
        Reply::Malformed => {
            return Err(SagaError::WrongValueReceived);
        },
        Reply::Received(stream) => *stream,
    };
    let stream2 = match &results[1] {
        Reply::Failed => {
            return Err(SagaError::CallFailed);
        },
        Reply::Malformed => {
            return Err(SagaError::WrongValueReceived);
        },
        Reply::Received(stream) => *stream,
    };
    let (first, stream1) = halt_stream(stream1);
    let (second, stream2) = halt_stream(stream2);
    Ok(HaltPlan { first, second, stream1, stream2 })
}

/// What is to be asked of the outside once a step of the settlement is taken:
/// which clocks to end, which to start, and what to pay to whom. The clocks
/// are ended first, the first player's before the second's; the payments come
/// last, the first player's before the second's, and neither waits for the
/// other to succeed.
#[derive(Clone, Copy, Debug, PartialEq, Eq)]
pub struct Plan {
    pub stop_first: bool,
    pub stop_second: bool,
    pub start: Option<Player>,
    pub pay_first: u128,
    pub pay_second: u128,
    /// The stream that the requests about the first player's clock go to.
    pub first: StreamId,
    /// The stream that the requests about the second player's clock go to.
    pub second: StreamId,
}

impl Plan {
    /// The plan that asks for nothing.
    pub open spec fn idle() -> Plan {
        Plan {
            stop_first: false,
            stop_second: false,
            start: Option::None,
            pay_first: 0,
            pay_second: 0,
            first: no_stream(),
            second: no_stream(),
        }
    }

    /// The stream of a player's clock that the plan speaks of.
    pub open spec fn stream_of(self, player: Player) -> StreamId {
        match player {
            Player::First => self.first,
            Player::Second => self.second,
        }
    }

    /// Whether the plan asks for no remote call at all.
    pub open spec fn is_idle(self) -> bool {
        !self.stop_first && !self.stop_second && self.start is None && self.pay_first == 0
            && self.pay_second == 0
    }

    /// Whether the plan leaves the clock of `player` running.
    pub open spec fn runs(self, player: Player) -> bool {
        self.start == Option::Some(player) && !match player {
            Player::First => self.stop_first,
            Player::Second => self.stop_second,
        }
    }

    /// The remote calls of the plan, in the order in which each waits for the
    /// one before: the clocks that are ended, the first player's first; the
    /// clock that is started; the payments, the first player's first. Nothing
    /// is paid where the amount is zero.
    pub open spec fn calls(self) -> Seq<Call> {
        (if self.stop_first {
            seq![Call::Stream(StreamCall::of(StreamRequest::Stop, self.first))]
        } else {
            Seq::<Call>::empty()
        }) + (if self.stop_second {
            seq![Call::Stream(StreamCall::of(StreamRequest::Stop, self.second))]
        } else {
            Seq::<Call>::empty()
        }) + (match self.start {
            Option::Some(player) => seq![
                Call::Stream(StreamCall::of(StreamRequest::Start, self.stream_of(player))),
            ],
            Option::None => Seq::<Call>::empty(),
        }) + (if self.pay_first > 0 {
            seq![Call::Transfer { to: Player::First, amount: self.pay_first }]
        } else {
            Seq::<Call>::empty()
        }) + (if self.pay_second > 0 {
            seq![Call::Transfer { to: Player::Second, amount: self.pay_second }]
        } else {
            Seq::<Call>::empty()
        })
    }

    /// The remote calls of the plan, in their order.
    pub fn remote_calls(&self) -> (r: Vec<Call>)
        ensures
            r@ == self.calls(),
    {
        let mut calls: Vec<Call> = Vec::new();
        if self.stop_first {
            calls.push(Call::Stream(stop_stream(self.first)));
        }
        if self.stop_second {
            calls.push(Call::Stream(stop_stream(self.second)));
        }
        match self.start {
            Some(Player::First) => {
                calls.push(Call::Stream(start_stream(self.first)));
            },
            Some(Player::Second) => {
                calls.push(Call::Stream(start_stream(self.second)));
            },
            None => {},
        }
        if self.pay_first > 0 {
            calls.push(Call::Transfer { to: Player::First, amount: self.pay_first });
        }
        if self.pay_second > 0 {
            calls.push(Call::Transfer { to: Player::Second, amount: self.pay_second });
        }
        assert(calls@ =~= self.calls());
        calls
    }

    /// The plan that asks for nothing.
    pub fn nothing() -> (r: Plan)
        ensures
            r == Plan::idle(),
            r.is_idle(),
    {
        Plan {
            stop_first: false,
            stop_second: false,
            start: None,
            pay_first: 0,
            pay_second: 0,
            first: empty_stream_id(),
            second: empty_stream_id(),
        }
    }
}

/// The status a player's clock is recorded with once a plan is carried out:
/// ended where the plan ends it, running where the plan starts it, else as it
/// was.
pub open spec fn clock_after(plan: Plan, player: Player, status: StreamStatus) -> StreamStatus {
    let stopped = match player {
        Player::First => plan.stop_first,
        Player::Second => plan.stop_second,
    };
    if stopped {
        StreamStatus::Finished { reason: StreamFinishReason::StoppedByOwner }
    } else if plan.start == Option::Some(player) {
        StreamStatus::Active
    } else {
        status
    }
}

/// What each player is paid at the end, the first player's share first: the
/// winner takes both stakes; without a winner each takes back their own.
pub open spec fn payout(stake: u128, winner: Option<Player>) -> (int, int) {
    match winner {
        Option::Some(Player::First) => (2 * stake, 0),
        Option::Some(Player::Second) => (0, 2 * stake),
        Option::None => (stake as int, stake as int),
    }
}

/// What each player is paid at the end, computed.
pub fn pay(stake: u128, winner: Option<Player>) -> (r: (u128, u128))
    requires
        2 * stake <= u128::MAX,
    ensures
        r.0 == payout(stake, winner).0,
        r.1 == payout(stake, winner).1,
{
    match winner {
        Some(Player::First) => (2 * stake, 0),
        Some(Player::Second) => (0, 2 * stake),
        None => (stake, stake),
    }
}

/// Who wins when clocks have run out: the player whose clock has not; nobody
/// where both have.
pub open spec fn forfeit_winner(finished: FinishedStreams) -> Option<Player> {
    match finished {
        FinishedStreams::First => Option::Some(Player::Second),
        FinishedStreams::Second => Option::Some(Player::First),
        _ => Option::None,
    }
}

/// The plan that closes a game by the clock: every stream that has not ended
/// is ended, under the identifier it was reported with, and the stakes are
/// paid out.
pub open spec fn closing_plan(stake: u128, finished: FinishedStreams, stream1: Stream, stream2: Stream) -> Plan {
    Plan {
        stop_first: !stream1.status.is_finished(),
        stop_second: !stream2.status.is_finished(),
        start: Option::None,
        pay_first: payout(stake, forfeit_winner(finished)).0 as u128,
        pay_second: payout(stake, forfeit_winner(finished)).1 as u128,
        first: stream1.id,
        second: stream2.id,
    }
}

/// Whether the clocks close the game: one has run out, and the game is not
/// over yet.
pub open spec fn closes(game: GameView, finished: FinishedStreams) -> bool {
    !game.is_finished && finished != FinishedStreams::Neither
}

/// The game after the clocks have been looked at.
pub open spec fn settled(game: GameView, finished: FinishedStreams) -> GameView {
    if closes(game, finished) {
        game.closed(forfeit_winner(finished))
    } else {
        game
    }
}

/// Closes the game where a clock has run out. A game that is over, and one
/// whose clocks both still hold time, are left as they are, with nothing to
/// ask for.
pub fn settle(game: &mut Game, bid: &Bid, finished: FinishedStreams, stream1: &Stream, stream2: &Stream) -> (r:
    Plan)
    requires
        old(game).wf(),
        2 * bid.bid <= u128::MAX,
    ensures
        final(game).wf(),
        final(game)@ == settled(old(game)@, finished),
        r == if closes(old(game)@, finished) {
            closing_plan(bid.bid, finished, *stream1, *stream2)
        } else {
            Plan::idle()
        },
{
    if game.is_finished {
        return Plan::nothing();
    }
    let winner = match finished {
        FinishedStreams::Neither => {
            return Plan::nothing();
        },
        FinishedStreams::First => Some(Player::Second),
        FinishedStreams::Second => Some(Player::First),
        FinishedStreams::Both => None,
    };
    game.is_finished = true;
    game.winner = winner;
    let (pay_first, pay_second) = pay(bid.bid, winner);
    Plan {
        stop_first: !stream1.status.has_finished(),
        stop_second: !stream2.status.has_finished(),
        start: None,
        pay_first,
        pay_second,
        first: stream1.id,
        second: stream2.id,
    }
}

/// Why a move on a game with this escrow record is turned down, if it is: a
/// staked game takes no move before both players have paid, and the rest is
/// the board's. A game that is over turns nothing down: a move on it is taken
/// and does nothing.
pub open spec fn verdict(
    game: GameView,
    bid: Option<Bid>,
    move_type: MoveType,
    cell: Option<Cell>,
    caller: Seq<char>,
) -> Option<MoveError> {
    if game.is_finished {
        Option::None
    } else if bid is Some && !bid.unwrap().is_funded() {
        Option::Some(MoveError::BetsNotPlaced)
    } else {
        game.refusal(move_type, cell, caller)
    }
}

/// The plan after a move on a game: nothing without a stake; else, where the
/// move has ended the game, both clocks are ended and the stakes paid out, and
/// where it has not, the clock of the player now to move is started. The
/// clocks are those of the escrow record.
pub open spec fn move_plan(after: GameView, bid: Option<Bid>) -> Plan {
    match bid {
        Option::None => Plan::idle(),
        Option::Some(b) => if after.is_finished {
            Plan {
                stop_first: true,
                stop_second: true,
                start: Option::None,
                pay_first: payout(b.bid, after.winner).0 as u128,
                pay_second: payout(b.bid, after.winner).1 as u128,
                first: b.stream_to_first_player,
                second: b.stream_to_second_player,
            }
        } else {
            Plan {
                stop_first: false,
                stop_second: false,
                start: Option::Some(after.mover()),
                pay_first: 0,
                pay_second: 0,
                first: b.stream_to_first_player,
                second: b.stream_to_second_player,
            }
        },
    }
}

/// The plan after a move request that was taken: nothing where the game was
/// over already, else the plan after the move.
pub open spec fn step_plan(before: GameView, bid: Option<Bid>, move_type: MoveType, cell: Option<Cell>) -> Plan {
    if before.is_finished {
        Plan::idle()
    } else {
        move_plan(before.moved(move_type, cell), bid)
    }
}

/// Checks a move against the game and its escrow record without making it.
pub fn check_move(game: &Game, bid: Option<Bid>, move_type: MoveType, cell: Option<Cell>, caller: &String) -> (r:
    Result<(), MoveError>)
    requires
        game.wf(),
    ensures
        match r {
            Ok(_) => verdict(game@, bid, move_type, cell, caller@) is None,
            Err(e) => verdict(game@, bid, move_type, cell, caller@) == Some(e),
        },
{
    if game.is_finished {
        return Ok(());
    }
    match bid {
        Some(b) => {
            if !b.both_funded() {
                return Err(MoveError::BetsNotPlaced);
            }
        },
        None => {},
    }
    game.check_move(move_type, cell, caller)
}

/// Makes a move on a game and says what to ask of the outside afterwards. A
/// move that is turned down leaves the game as it was. A move on a game that
/// is over is taken, changes nothing and asks for nothing.
pub fn apply_move(
    game: &mut Game,
    bid: Option<Bid>,
    move_type: MoveType,
    cell: Option<Cell>,
    caller: &String,
) -> (r: Result<Plan, MoveError>)
    requires
        old(game).wf(),
        bid matches Some(b) ==> 2 * b.bid <= u128::MAX,
    ensures
        final(game).wf(),
        match r {
            Ok(plan) => {
                &&& verdict(old(game)@, bid, move_type, cell, caller@) is None
                &&& final(game)@ == old(game)@.after(move_type, cell, caller@)
                &&& plan == step_plan(old(game)@, bid, move_type, cell)
            },
            Err(e) => {
                &&& verdict(old(game)@, bid, move_type, cell, caller@) == Some(e)
                &&& final(game)@ == old(game)@
            },
        },
{
    if game.is_finished {
        return Ok(Plan::nothing());
    }
    match bid {
        Some(b) => {
            if !b.both_funded() {
                return Err(MoveError::BetsNotPlaced);
            }
        },
        None => {},
    }
    match game.make_move(move_type, cell, caller) {
        Err(e) => {
            return Err(e);
        },
        Ok(_) => {},
    }
    match bid {
        None => Ok(Plan::nothing()),
        Some(b) => {
            if game.is_finished {
                let (pay_first, pay_second) = pay(b.bid, game.winner);
                Ok(
                    Plan {
                        stop_first: true,
                        stop_second: true,
                        start: None,
                        pay_first,
                        pay_second,
                        first: b.stream_to_first_player,
                        second: b.stream_to_second_player,
                    },
                )
            } else {
                Ok(
                    Plan {
                        stop_first: false,
                        stop_second: false,
                        start: Some(game.mover()),
                        pay_first: 0,
                        pay_second: 0,
                        first: b.stream_to_first_player,
                        second: b.stream_to_second_player,
                    },
                )
            }
        },
    }
}

} // verus!
