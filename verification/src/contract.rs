//! The ledger: every game made so far with its escrow record, and the entry
//! points that players and the settlement's own steps come in by.

use vstd::prelude::*;
use crate::bid::Bid;
use crate::cell::Cell;
use crate::external::{read_single, single, AccountView, Reply, Stream, StreamId, StreamStatus};
use crate::game::{Game, GameIndex, GameView, MoveError, Player};
use crate::internal::{
    apply_move,
    check_move,
    closes,
    closing_plan,
    halt_plan,
    halt_streams,
    settle,
    settled,
    step_plan,
    summarize,
    summary,
    verdict,
    FinishedStreams,
    HaltPlan,
    Origin,
    Plan,
    SagaError,
    StatusType,
};
use crate::roketo::{roketo_create_stream, roketo_get_account, AccountQuery, CreateStream};
use crate::utils::{
    DEFAULT_FIELD_SIZE,
    DEFAULT_PLAYTIME,
    FEE,
    MAX_BID,
    MAX_FIELD_SIZE,
    MAX_PLAYTIME,
    MIN_BID,
    MIN_MAKE_BID_GAS,
    MIN_PLAYTIME,
};
use crate::MoveType;

verus! {

/// Why a game was not made.
#[derive(Clone, Copy, Debug, PartialEq, Eq, Structural)]
pub enum CreateError {
    /// The playing time is shorter or longer than allowed.
    PlaytimeOutOfBounds,
    /// A playing time was named without a stake.
    PlaytimeWithoutBid,
    /// The stake is smaller or larger than allowed.
    BidOutOfBounds,
    /// The side of the board is longer than allowed.
    FieldTooBig,
}

/// Why a stake was not taken.
#[derive(Clone, Copy, Debug, PartialEq, Eq, Structural)]
pub enum BidError {
    /// No game has this identifier, or the game has no stake.
    NoSuchBet,
    /// Too little gas came with the call.
    NotEnoughGas,
    /// Less came with the call than twice the stake and the fee.
    NotEnoughDeposit,
    /// The caller is no player of the game, or has paid already.
    InvalidBet,
}

/// Why a step of a move request was not taken.
#[derive(Clone, Copy, Debug, PartialEq, Eq, Structural)]
pub enum StepError {
    Saga(SagaError),
    Move(MoveError),
}

/// What follows a move request.
#[derive(Clone, Copy, Debug, PartialEq, Eq)]
pub enum MoveStep {
    /// The game has a stake: both clocks are to be queried before the move is
    /// looked at again.
    Query { first: StreamId, second: StreamId },
    /// The game has no stake: the move is made.
    Done(Plan),
}

/// What follows the clocks' summary.
#[derive(Clone, Copy, Debug, PartialEq, Eq)]
pub enum ClockStep {
    /// Neither clock has run out: the move is to be made next, by the step
    /// that makes moves, for this game and with this move.
    Move { game_id: GameIndex, move_type: MoveType, cell: Option<Cell> },
    /// The clocks have decided: the plan is to be carried out, and the move
    /// is not looked at again.
    Close(Plan),
}

/// What follows a player's call to pay the stake: the stream to open, then the
/// service's account of the ledger to query for the stream just made, then the
/// funding to record for `player`.
#[derive(Debug, PartialEq, Eq)]
pub struct Funding {
    pub create: CreateStream,
    pub query: AccountQuery,
    pub player: Player,
}

/// The ledger as a mathematical value.
pub struct ContractView {
    pub games: Seq<GameView>,
    pub bids: Seq<Option<Bid>>,
    pub next_game_id: u64,
}

impl ContractView {
    /// Whether a game has this identifier.
    pub open spec fn has(self, index: GameIndex) -> bool {
        index < self.games.len()
    }

    /// Whether a game with a stake has this identifier.
    pub open spec fn staked(self, index: GameIndex) -> bool {
        self.has(index) && self.bids[index as int] is Some
    }

    /// The ledger with one game replaced.
    pub open spec fn with_game(self, index: GameIndex, game: GameView) -> ContractView {
        ContractView { games: self.games.update(index as int, game), ..self }
    }

    /// The ledger with one escrow record replaced.
    pub open spec fn with_bid(self, index: GameIndex, bid: Bid) -> ContractView {
        ContractView { bids: self.bids.update(index as int, Option::Some(bid)), ..self }
    }

    /// The game with this identifier, if there is one.
    pub open spec fn read(self, index: GameIndex) -> Option<GameView> {
        if self.has(index) {
            Option::Some(self.games[index as int])
        } else {
            Option::None
        }
    }

    /// The ledger with one more game, made with these settings: the game
    /// takes the next identifier, and its escrow record lies beside it.
    pub open spec fn created(
        self,
        first_player: Seq<char>,
        second_player: Seq<char>,
        field_size: Option<usize>,
        bid: Option<u128>,
        playtime: Option<u32>,
    ) -> ContractView {
        ContractView {
            games: self.games.push(
                GameView::fresh(first_player, second_player, side(field_size) as int, clock(bid, playtime)),
            ),
            bids: self.bids.push(escrow(bid)),
            next_game_id: (self.next_game_id + 1) as u64,
        }
    }

    /// What a move request leaves of the ledger, and what it answers.
    pub open spec fn asked(
        self,
        index: GameIndex,
        move_type: MoveType,
        cell: Option<Cell>,
        caller: Seq<char>,
    ) -> (ContractView, Result<MoveStep, MoveError>) {
        if !self.has(index) {
            (self, Err(MoveError::GameNotFound))
        } else {
            let step = requested(self.games[index as int], self.bids[index as int], move_type, cell, caller);
            (self.with_game(index, step.0), step.1)
        }
    }

    /// Why a move is turned down, if it is.
    pub open spec fn move_refusal(
        self,
        index: GameIndex,
        move_type: MoveType,
        cell: Option<Cell>,
        caller: Seq<char>,
    ) -> Option<MoveError> {
        if !self.has(index) {
            Option::Some(MoveError::GameNotFound)
        } else {
            verdict(self.games[index as int], self.bids[index as int], move_type, cell, caller)
        }
    }

    /// Why a stake is not taken, if it is not.
    pub open spec fn bid_refusal(
        self,
        game_id: GameIndex,
        caller: Seq<char>,
        attached_deposit: u128,
        prepaid_gas: u64,
    ) -> Option<BidError> {
        if !self.staked(game_id) {
            Option::Some(BidError::NoSuchBet)
        } else {
            funding_refusal(
                self.games[game_id as int],
                self.bids[game_id as int].unwrap(),
                caller,
                attached_deposit,
                prepaid_gas,
            )
        }
    }

    /// As which player the caller may pay the stake.
    pub open spec fn payer(self, game_id: GameIndex, caller: Seq<char>) -> Option<Player> {
        payer_of(self.games[game_id as int], self.bids[game_id as int].unwrap(), caller)
    }
}

/// Why a game is not made, if it is not: a playing time has to lie within its
/// bounds and needs a stake, a stake has to lie within its bounds, and the
/// side of the board must not be longer than allowed.
pub open spec fn create_refusal(field_size: Option<usize>, bid: Option<u128>, playtime: Option<u32>) -> Option<
    CreateError,
> {
    if playtime is Some && !(MIN_PLAYTIME <= playtime.unwrap() <= MAX_PLAYTIME) {
        Option::Some(CreateError::PlaytimeOutOfBounds)
    } else if playtime is Some && bid is None {
        Option::Some(CreateError::PlaytimeWithoutBid)
    } else if bid is Some && !(MIN_BID <= bid.unwrap() <= MAX_BID) {
        Option::Some(CreateError::BidOutOfBounds)
    } else if side(field_size) > MAX_FIELD_SIZE {
        Option::Some(CreateError::FieldTooBig)
    } else {
        Option::None
    }
}

/// The playing time of a new game: none without a stake, else the time named,
/// else twenty minutes.
pub open spec fn clock(bid: Option<u128>, playtime: Option<u32>) -> Option<u32> {
    if bid is Some {
        if playtime is Some {
            playtime
        } else {
            Option::Some(DEFAULT_PLAYTIME)
        }
    } else {
        Option::None
    }
}

/// The side of a new game's board: the one named, else eleven.
pub open spec fn side(field_size: Option<usize>) -> usize {
    match field_size {
        Option::Some(size) => size,
        Option::None => DEFAULT_FIELD_SIZE,
    }
}

/// The escrow record of a new game.
pub open spec fn escrow(bid: Option<u128>) -> Option<Bid> {
    match bid {
        Option::Some(stake) => Option::Some(Bid::fresh(stake)),
        Option::None => Option::None,
    }
}

/// Whether a stake and a playing time go together: both within their bounds.
pub open spec fn stake_fits(game: GameView, bid: Option<Bid>) -> bool {
    bid matches Option::Some(b) ==> {
        &&& MIN_BID <= b.bid <= MAX_BID
        &&& game.playtime matches Option::Some(p) && MIN_PLAYTIME <= p <= MAX_PLAYTIME
    }
}

/// Checks the settings of a new game and makes it, with its escrow record
/// where it has a stake.
pub fn new_game(
    first_player: String,
    second_player: String,
    field_size: Option<usize>,
    bid: Option<u128>,
    playtime: Option<u32>,
) -> (r: Result<(Game, Option<Bid>), CreateError>)
    ensures
        match r {
            Ok((game, record)) => {
                &&& create_refusal(field_size, bid, playtime) is None
                &&& game.wf()
                &&& game@ == GameView::fresh(
                    first_player@,
                    second_player@,
                    side(field_size) as int,
                    clock(bid, playtime),
                )
                &&& record == escrow(bid)
                &&& stake_fits(game@, record)
            },
            Err(e) => create_refusal(field_size, bid, playtime) == Some(e),
        },
{
    match playtime {
        Some(seconds) => {
            if seconds < MIN_PLAYTIME || seconds > MAX_PLAYTIME {
                return Err(CreateError::PlaytimeOutOfBounds);
            }
            if bid.is_none() {
                return Err(CreateError::PlaytimeWithoutBid);
            }
        },
        None => {},
    }
    match bid {
        Some(stake) => {
            if stake < MIN_BID || stake > MAX_BID {
                return Err(CreateError::BidOutOfBounds);
            }
        },
        None => {},
    }
    let size: usize = match field_size {
        Some(size) => size,
        None => DEFAULT_FIELD_SIZE,
    };
    if size > MAX_FIELD_SIZE {
        return Err(CreateError::FieldTooBig);
    }
    assert(size * size + 2 <= 0xffff_ffff) by (nonlinear_arith)
        requires
            size <= 65535,
    ;
    let game_playtime: Option<u32> = match bid {
        Some(_) => match playtime {
            Some(_) => playtime,
            None => Some(DEFAULT_PLAYTIME),
        },
        None => None,
    };
    let record: Option<Bid> = match bid {
        Some(stake) => Some(Bid::new(stake)),
        None => None,
    };
    Ok((Game::new(first_player, second_player, size, game_playtime), record))
}

/// What a move request on a game leaves of it, and what it answers. A game
/// that is over takes the request and does nothing; a move that is turned
/// down changes nothing; on a game with a stake nothing changes either, for
/// the clocks are to be queried first; on a game without one the move is
/// made at once. Nothing is asked of the outside but that query.
pub open spec fn requested(
    game: GameView,
    bid: Option<Bid>,
    move_type: MoveType,
    cell: Option<Cell>,
    caller: Seq<char>,
) -> (GameView, Result<MoveStep, MoveError>) {
    match verdict(game, bid, move_type, cell, caller) {
        Option::Some(e) => (game, Err(e)),
        Option::None => if !game.is_finished && bid is Some {
            (
                game,
                Ok(
                    MoveStep::Query {
                        first: bid.unwrap().stream_to_first_player,
                        second: bid.unwrap().stream_to_second_player,
                    },
                ),
            )
        } else {
            (game.after(move_type, cell, caller), Ok(MoveStep::Done(Plan::idle())))
        },
    }
}

/// Takes a move request of `caller` on a game.
pub fn request_move(game: &mut Game, bid: Option<Bid>, move_type: MoveType, cell: Option<Cell>, caller: &String) -> (r:
    Result<MoveStep, MoveError>)
    requires
        old(game).wf(),
    ensures
        final(game).wf(),
        final(game)@ == requested(old(game)@, bid, move_type, cell, caller@).0,
        r == requested(old(game)@, bid, move_type, cell, caller@).1,
{
    if game.is_finished {
        return Ok(MoveStep::Done(Plan::nothing()));
    }
    match bid {
        Some(record) => match check_move(game, bid, move_type, cell, caller) {
            Err(e) => Err(e),
            Ok(_) => Ok(
                MoveStep::Query {
                    first: record.stream_to_first_player,
                    second: record.stream_to_second_player,
                },
            ),
        },
        None => match apply_move(game, None, move_type, cell, caller) {
            Err(e) => Err(e),
            Ok(plan) => Ok(MoveStep::Done(plan)),
        },
    }
}

/// What the step after the clocks' summary leaves of a game, and what it
/// answers. The step is taken for the ledger itself only, on one answer, for
/// a game with a stake. Where neither clock has run out the game is left as it
/// is and the move is handed on, as it came, to the step that makes moves;
/// where one has, the game is closed by it; a game that is over stays so, with
/// nothing to ask for.
pub open spec fn resolution(
    game: GameView,
    bid: Option<Bid>,
    game_id: GameIndex,
    move_type: MoveType,
    cell: Option<Cell>,
    results: Seq<Reply<(FinishedStreams, Stream, Stream)>>,
    origin: Origin,
) -> (GameView, Result<ClockStep, SagaError>) {
    if !origin.is_own() {
        (game, Err(SagaError::Untrusted))
    } else {
        match single(results) {
            Err(e) => (game, Err(e)),
            Ok(answer) => match bid {
                Option::None => (game, Err(SagaError::NoSuchBet)),
                Option::Some(b) => if answer.0 == FinishedStreams::Neither {
                    (game, Ok(ClockStep::Move { game_id, move_type, cell }))
                } else if closes(game, answer.0) {
                    (
                        settled(game, answer.0),
                        Ok(ClockStep::Close(closing_plan(b.bid, answer.0, answer.1, answer.2))),
                    )
                } else {
                    (game, Ok(ClockStep::Close(Plan::idle())))
                },
            },
        }
    }
}

/// Takes the clocks' summary for a game: hands the move on where neither
/// clock has run out, and closes the game where one has.
pub fn resolve_step(
    game: &mut Game,
    bid: Option<Bid>,
    game_id: GameIndex,
    move_type: MoveType,
    cell: Option<Cell>,
    results: &Vec<Reply<(FinishedStreams, Stream, Stream)>>,
    origin: &Origin,
) -> (r: Result<ClockStep, SagaError>)
    requires
        old(game).wf(),
        bid matches Some(b) ==> 2 * b.bid <= u128::MAX,
    ensures
        final(game).wf(),
        final(game)@ == resolution(old(game)@, bid, game_id, move_type, cell, results@, *origin).0,
        r == resolution(old(game)@, bid, game_id, move_type, cell, results@, *origin).1,
{
    match origin.trusted() {
        Err(e) => {
            return Err(e);
        },
        Ok(_) => {},
    }
    let (finished, stream1, stream2) = match read_single(results) {
        Err(e) => {
            return Err(e);
        },
        Ok(answer) => answer,
    };
    let record = match bid {
        Some(record) => record,
        None => {
            return Err(SagaError::NoSuchBet);
        },
    };
    match finished {
        FinishedStreams::Neither => Ok(ClockStep::Move { game_id, move_type, cell }),
        _ => Ok(ClockStep::Close(settle(game, &record, finished, &stream1, &stream2))),
    }
}

/// Whether a game and its escrow record go together, computed.
pub fn fits(game: &Game, bid: &Option<Bid>) -> (r: bool)
    ensures
        r == stake_fits(game@, *bid),
{
    match bid {
        None => true,
        Some(b) => {
            MIN_BID <= b.bid && b.bid <= MAX_BID && match game.playtime {
                Some(seconds) => MIN_PLAYTIME <= seconds && seconds <= MAX_PLAYTIME,
                None => false,
            }
        },
    }
}

/// As which player the caller may pay the stake of a game: as the first player
/// who has not paid, else as the second player who has not paid.
pub open spec fn payer_of(game: GameView, bid: Bid, caller: Seq<char>) -> Option<Player> {
    if caller == game.first_player && !bid.did_first_player_bet {
        Option::Some(Player::First)
    } else if caller == game.second_player && !bid.did_second_player_bet {
        Option::Some(Player::Second)
    } else {
        Option::None
    }
}

/// Why a call to pay the stake of a game is not taken, if it is not: it has to
/// come with enough gas, with twice the stake and the fee, and from a player
/// who has not paid.
pub open spec fn funding_refusal(
    game: GameView,
    bid: Bid,
    caller: Seq<char>,
    attached_deposit: u128,
    prepaid_gas: u64,
) -> Option<BidError> {
    if prepaid_gas < MIN_MAKE_BID_GAS {
        Option::Some(BidError::NotEnoughGas)
    } else if attached_deposit < 2 * bid.bid + FEE {
        Option::Some(BidError::NotEnoughDeposit)
    } else if payer_of(game, bid, caller) is None {
        Option::Some(BidError::InvalidBet)
    } else {
        Option::None
    }
}

/// Takes a player's call to pay the stake of a game, with what came with the
/// call, and says which stream to open.
pub fn fund(
    game: &Game,
    bid: &Bid,
    caller: &String,
    current_account: &String,
    attached_deposit: u128,
    prepaid_gas: u64,
) -> (r: Result<Funding, BidError>)
    requires
        stake_fits(game@, Some(*bid)),
    ensures
        match r {
            Err(e) => funding_refusal(game@, *bid, caller@, attached_deposit, prepaid_gas) == Some(e),
            Ok(funding) => {
                &&& funding_refusal(game@, *bid, caller@, attached_deposit, prepaid_gas) is None
                &&& Some(funding.player) == payer_of(game@, *bid, caller@)
                &&& funding.create.opens(bid.bid, game@.playtime.unwrap(), current_account@, caller@)
                &&& funding.query.account_id@ == current_account@
                &&& funding.query.only_if_exist is None
            },
        },
{
    if prepaid_gas < MIN_MAKE_BID_GAS {
        return Err(BidError::NotEnoughGas);
    }
    if attached_deposit < 2 * bid.bid + FEE {
        return Err(BidError::NotEnoughDeposit);
    }
    let player = if *caller == game.first_player && !bid.did_first_player_bet {
        Player::First
    } else if *caller == game.second_player && !bid.did_second_player_bet {
        Player::Second
    } else {
        return Err(BidError::InvalidBet);
    };
    let seconds: u32 = game.playtime.unwrap();
    Ok(
        Funding {
            create: roketo_create_stream(bid.bid, seconds, current_account, caller),
            query: roketo_get_account(current_account.clone()),
            player,
        },
    )
}

/// The ledger. Games are numbered as they are made, and none is ever taken
/// out, so the game of an identifier lies at that place.
#[derive(Debug, PartialEq, Eq)]
pub struct Contract {
    pub games: Vec<Game>,
    pub bids: Vec<Option<Bid>>,
    pub next_game_id: u64,
}

impl View for Contract {
    type V = ContractView;

    open spec fn view(&self) -> ContractView {
        ContractView {
            games: self.games@.map_values(|g: Game| g@),
            bids: self.bids@,
            next_game_id: self.next_game_id,
        }
    }
}

impl Contract {
    /// Every game has its place and is well formed, and every stake lies
    /// within its bounds and has a playing time.
    pub open spec fn wf(&self) -> bool {
        &&& self.games@.len() == self.next_game_id
        &&& self.bids@.len() == self.next_game_id
        &&& forall|i: int| 0 <= i < self.games@.len() ==> (#[trigger] self.games@[i]).wf()
        &&& forall|i: int|
            0 <= i < self.games@.len() ==> stake_fits((#[trigger] self.games@[i])@, self.bids@[i])
    }

    /// The empty ledger.
    pub fn new() -> (r: Contract)
        ensures
            r.wf(),
            r@.games.len() == 0,
            r@.bids.len() == 0,
            r.next_game_id == 0,
    {
        Contract { games: Vec::new(), bids: Vec::new(), next_game_id: 0 }
    }

    /// The place of a game in the ledger, where there is such a game.
    fn slot(&self, index: GameIndex) -> (r: Option<usize>)
        requires
            self.wf(),
        ensures
            r is Some <==> self@.has(index),
            r matches Some(at) ==> at == index && at < self.games@.len(),
    {
        let made: usize = self.games.len();
        if index < made as u64 {
            Some(index as usize)
        } else {
            None
        }
    }

    /// Whether the ledger is well formed.
    pub fn is_valid(&self) -> (r: bool)
        ensures
            r == self.wf(),
    {
        let made: usize = self.games.len();
        if made as u64 != self.next_game_id || self.bids.len() != made {
            return false;
        }
        let mut i: usize = 0;
        while i < made
            invariant
                made == self.games@.len(),
                made == self.bids@.len(),
                i <= made,
                forall|j: int| 0 <= j < i ==> (#[trigger] self.games@[j]).wf(),
                forall|j: int| 0 <= j < i ==> stake_fits((#[trigger] self.games@[j])@, self.bids@[j]),
            decreases made - i,
        {
            if !self.games[i].is_valid() || !fits(&self.games[i], &self.bids[i]) {
                return false;
            }
            i = i + 1;
        }
        true
    }

    /// Makes a game and returns its identifier: the number of games made
    /// before it. Where the settings are turned down, nothing changes.
    pub fn create_game(
        &mut self,
        first_player: String,
        second_player: String,
        field_size: Option<usize>,
        bid: Option<u128>,
        playtime: Option<u32>,
    ) -> (r: Result<GameIndex, CreateError>)
        requires
            old(self).wf(),
        ensures
            final(self).wf(),
            match r {
                Ok(index) => {
                    &&& create_refusal(field_size, bid, playtime) is None
                    &&& index == old(self).next_game_id
                    &&& final(self).next_game_id == index + 1
                    &&& final(self)@ == old(self)@.created(
                        first_player@,
                        second_player@,
                        field_size,
                        bid,
                        playtime,
                    )
                },
                Err(e) => create_refusal(field_size, bid, playtime) == Some(e) && *final(self) == *old(self),
            },
    {
        let ghost first = first_player@;
        let ghost second = second_player@;
        let (game, record) = match new_game(first_player, second_player, field_size, bid, playtime) {
            Err(e) => {
                return Err(e);
            },
            Ok(made) => made,
        };
        let index = self.next_game_id;
        self.games.push(game);
        self.bids.push(record);
        self.next_game_id = self.games.len() as u64;
        proof {
            assert(final(self)@.games =~= old(self)@.created(first, second, field_size, bid, playtime).games);
        }
        Ok(index)
    }

    /// A copy of the game with this identifier, if there is one.
    pub fn get_game(&self, index: GameIndex) -> (r: Option<Game>)
        requires
            self.wf(),
        ensures
            match r {
                Some(game) => self@.read(index) == Some(game@) && game.wf(),
                None => self@.read(index) is None,
            },
    {
        match self.slot(index) {
            Some(at) => Some(self.games[at].copy()),
            None => None,
        }
    }

    /// A copy of the game with this identifier, for the ledger itself.
    pub fn get_game_internal(&self, index: GameIndex, origin: &Origin) -> (r: Result<Game, SagaError>)
        requires
            self.wf(),
        ensures
            match r {
                Ok(game) => origin.is_own() && self@.has(index) && game@ == self@.games[index as int]
                    && game.wf(),
                Err(e) => if !origin.is_own() {
                    e == SagaError::Untrusted
                } else {
                    e == SagaError::NoSuchGame && !self@.has(index)
                },
            },
    {
        match origin.trusted() {
            Err(e) => {
                return Err(e);
            },
            Ok(_) => {},
        }
        match self.get_game(index) {
            Some(game) => Ok(game),
            None => Err(SagaError::NoSuchGame),
        }
    }

    /// The two clocks to query before a move on this game: none where the game
    /// has no stake, or where there is no such game.
    pub fn check_stream_bids(&self, game_id: GameIndex) -> (r: Option<(StreamId, StreamId)>)
        requires
            self.wf(),
        ensures
            r is Some <==> self@.staked(game_id),
            r matches Some(ids) ==> {
                &&& ids.0 == self@.bids[game_id as int].unwrap().stream_to_first_player
                &&& ids.1 == self@.bids[game_id as int].unwrap().stream_to_second_player
            },
    {
        let at: usize = match self.slot(game_id) {
            Some(at) => at,
            None => {
                return None;
            },
        };
        match self.bids[at] {
            Some(bid) => Some((bid.stream_to_first_player, bid.stream_to_second_player)),
            None => None,
        }
    }

    /// Takes a move request of `caller`. A game that is over takes the request
    /// and does nothing. A move that is turned down changes nothing. On a
    /// game with a stake nothing changes either: the clocks are to be queried
    /// first. On a game without one the move is made at once, and nothing is
    /// asked of the outside.
    pub fn make_move(&mut self, index: GameIndex, move_type: MoveType, cell: Option<Cell>, caller: &String) -> (r:
        Result<MoveStep, MoveError>)
        requires
            old(self).wf(),
        ensures
            final(self).wf(),
            final(self)@ == old(self)@.asked(index, move_type, cell, caller@).0,
            r == old(self)@.asked(index, move_type, cell, caller@).1,
    {
        let at: usize = match self.slot(index) {
            Some(at) => at,
            None => {
                return Err(MoveError::GameNotFound);
            },
        };
        let bid = self.bids[at];
        let mut game = self.games[at].copy();
        let step = request_move(&mut game, bid, move_type, cell, caller);
        let ghost after = game@;
        self.games.set(at, game);
        proof {
            assert(final(self)@.games =~= old(self)@.games.update(index as int, after));
        }
        step
    }

    /// Makes a move of `caller` and says what to ask of the outside
    /// afterwards.
    fn move_now(
        &mut self,
        index: GameIndex,
        move_type: MoveType,
        cell: Option<Cell>,
        caller: &String,
    ) -> (r: Result<Plan, MoveError>)
        requires
            old(self).wf(),
        ensures
            final(self).wf(),
            match r {
                Err(e) => {
                    &&& old(self)@.move_refusal(index, move_type, cell, caller@) == Some(e)
                    &&& final(self)@ == old(self)@
                },
                Ok(plan) => {
                    &&& old(self)@.move_refusal(index, move_type, cell, caller@) is None
                    &&& final(self)@ == old(self)@.with_game(
                        index,
                        old(self)@.games[index as int].after(move_type, cell, caller@),
                    )
                    &&& plan == step_plan(
                        old(self)@.games[index as int],
                        old(self)@.bids[index as int],
                        move_type,
                        cell,
                    )
                },
            },
    {
        let at: usize = match self.slot(index) {
            Some(at) => at,
            None => {
                return Err(MoveError::GameNotFound);
            },
        };
        let bid = self.bids[at];
        let mut game = self.games[at].copy();
        match apply_move(&mut game, bid, move_type, cell, caller) {
            Err(e) => Err(e),
            Ok(plan) => {
                let ghost after = game@;
                self.games.set(at, game);
                proof {
                    assert(final(self)@.games =~= old(self)@.games.update(index as int, after));
                }
                Ok(plan)
            },
        }
    }

    /// What the step that makes a move leaves of the ledger, and what it
    /// answers. A move on a game that is over is taken, changes nothing and
    /// asks for nothing.
    pub open spec fn stepped(
        before: ContractView,
        index: GameIndex,
        move_type: MoveType,
        cell: Option<Cell>,
        caller: Seq<char>,
    ) -> (ContractView, Result<Plan, StepError>) {
        match before.move_refusal(index, move_type, cell, caller) {
            Option::Some(e) => (before, Err(StepError::Move(e))),
            Option::None => (
                before.with_game(index, before.games[index as int].after(move_type, cell, caller)),
                Ok(step_plan(before.games[index as int], before.bids[index as int], move_type, cell)),
            ),
        }
    }

    /// Makes a move of `caller` for the ledger itself, and says what to ask of
    /// the outside afterwards. A move that is turned down changes nothing; a
    /// move on a game that is over is taken and does nothing.
    pub fn make_move_internal(
        &mut self,
        index: GameIndex,
        move_type: MoveType,
        cell: Option<Cell>,
        caller: &String,
        origin: &Origin,
    ) -> (r: Result<Plan, StepError>)
        requires
            old(self).wf(),
        ensures
            final(self).wf(),
            if origin.is_own() {
                &&& final(self)@ == Self::stepped(old(self)@, index, move_type, cell, caller@).0
                &&& r == Self::stepped(old(self)@, index, move_type, cell, caller@).1
            } else {
                &&& final(self)@ == old(self)@
                &&& r == Err::<Plan, StepError>(StepError::Saga(SagaError::Untrusted))
            },
    {
        match origin.trusted() {
            Err(e) => {
                return Err(StepError::Saga(e));
            },
            Ok(_) => {},
        }
        match self.move_now(index, move_type, cell, caller) {
            Err(e) => Err(StepError::Move(e)),
            Ok(plan) => Ok(plan),
        }
    }

    /// Reads, for the ledger itself, the answers to the query of both clocks
    /// and decides how to halt those that are running.
    pub fn parse_two_promise_streams(&self, results: &Vec<Reply<Stream>>, origin: &Origin) -> (r: Result<
        HaltPlan,
        SagaError,
    >)
        ensures
            r == if origin.is_own() {
                halt_plan(results@)
            } else {
                Err(SagaError::Untrusted)
            },
            r matches Ok(plan) ==> plan.stream1.status != StreamStatus::Active && plan.stream2.status
                != StreamStatus::Active,
    {
        match origin.trusted() {
            Err(e) => Err(e),
            Ok(_) => halt_streams(results),
        }
    }

    /// Says, for the ledger itself, which of two halted clocks have run out,
    /// and hands the streams on.
    pub fn parse_two_streams(&self, stream1: Stream, stream2: Stream, origin: &Origin) -> (r: Result<
        (FinishedStreams, Stream, Stream),
        SagaError,
    >)
        requires
            stream1.status != StreamStatus::Active,
            stream2.status != StreamStatus::Active,
        ensures
            match r {
                Ok(answer) => {
                    &&& origin.is_own()
                    &&& Some(answer.0) == summary(StatusType::of(stream1.status), StatusType::of(stream2.status))
                    &&& answer.1 == stream1
                    &&& answer.2 == stream2
                },
                Err(e) => !origin.is_own() && e == SagaError::Untrusted,
            },
    {
        match origin.trusted() {
            Err(e) => {
                return Err(e);
            },
            Ok(_) => {},
        }
        match summarize(stream1.status, stream2.status) {
            Some(finished) => Ok((finished, stream1, stream2)),
            None => Ok((FinishedStreams::Neither, stream1, stream2)),
        }
    }

    /// Takes a player's call to pay the stake, with what came with the call,
    /// and says which stream to open. Nothing is recorded before the stream's
    /// making is confirmed.
    pub fn make_bid(
        &self,
        game_id: GameIndex,
        caller: &String,
        current_account: &String,
        attached_deposit: u128,
        prepaid_gas: u64,
    ) -> (r: Result<Funding, BidError>)
        requires
            self.wf(),
        ensures
            match r {
                Err(e) => self@.bid_refusal(game_id, caller@, attached_deposit, prepaid_gas) == Some(e),
                Ok(funding) => {
                    let stake = self@.bids[game_id as int].unwrap().bid;
                    let seconds = self@.games[game_id as int].playtime.unwrap();
                    &&& self@.bid_refusal(game_id, caller@, attached_deposit, prepaid_gas) is None
                    &&& Some(funding.player) == self@.payer(game_id, caller@)
                    &&& funding.create.opens(stake, seconds, current_account@, caller@)
                    &&& funding.query.account_id@ == current_account@
                    &&& funding.query.only_if_exist is None
                },
            },
    {
        let at: usize = match self.slot(game_id) {
            Some(at) => at,
            None => {
                return Err(BidError::NoSuchBet);
            },
        };
        let bid = match self.bids[at] {
            Some(bid) => bid,
            None => {
                return Err(BidError::NoSuchBet);
            },
        };
        fund(&self.games[at], &bid, caller, current_account, attached_deposit, prepaid_gas)
    }

    /// What the step that records a funding leaves of the ledger, and what it
    /// answers: the step is taken for the ledger itself only, on a game with
    /// a stake, and where the answer cannot be read nothing changes.
    pub open spec fn recorded(
        before: ContractView,
        game_id: GameIndex,
        origin: Origin,
        funded: Result<Bid, SagaError>,
    ) -> (ContractView, Result<(), SagaError>) {
        if !origin.is_own() {
            (before, Err(SagaError::Untrusted))
        } else if !before.staked(game_id) {
            (before, Err(SagaError::NoSuchBet))
        } else {
            match funded {
                Err(e) => (before, Err(e)),
                Ok(bid) => (before.with_bid(game_id, bid), Ok(())),
            }
        }
    }

    /// The escrow record of a game once a stream was named as a player's
    /// clock: as the answer's reading, where it could not be read.
    pub open spec fn named(
        before: ContractView,
        game_id: GameIndex,
        player: Player,
        stream_id: Result<StreamId, SagaError>,
    ) -> Result<Bid, SagaError> {
        match stream_id {
            Err(e) => Err(e),
            Ok(id) => Ok(before.bids[game_id as int].unwrap().funded(player, id)),
        }
    }

    /// Writes a funding into the ledger.
    fn record(&mut self, game_id: GameIndex, origin: &Origin, player: Player, results: &Vec<Reply<AccountView>>) -> (r:
        Result<(), SagaError>)
        requires
            old(self).wf(),
        ensures
            final(self).wf(),
            final(self)@ == Self::recorded(
                old(self)@,
                game_id,
                *origin,
                old(self)@.bids[game_id as int].unwrap().after_reply(player, results@),
            ).0,
            r == Self::recorded(
                old(self)@,
                game_id,
                *origin,
                old(self)@.bids[game_id as int].unwrap().after_reply(player, results@),
            ).1,
    {
        match origin.trusted() {
            Err(e) => {
                return Err(e);
            },
            Ok(_) => {},
        }
        let at: usize = match self.slot(game_id) {
            Some(at) => at,
            None => {
                return Err(SagaError::NoSuchBet);
            },
        };
        let bid = match self.bids[at] {
            Some(bid) => bid,
            None => {
                return Err(SagaError::NoSuchBet);
            },
        };
        match bid.resolve_funding(player, results) {
            Err(e) => Err(e),
            Ok(funded) => {
                self.bids.set(at, Some(funded));
                proof {
                    assert(final(self)@.bids =~= old(self)@.bids.update(game_id as int, Some(funded)));
                }
                Ok(())
            },
        }
    }

    /// Reads, for the ledger itself, the answer to a player's payment and
    /// records the funding: the stream that the service reports as the last
    /// one made becomes that player's clock. Where the answer cannot be read,
    /// nothing changes.
    pub fn resolve_player_bid(
        &mut self,
        game_id: GameIndex,
        player: Player,
        results: &Vec<Reply<AccountView>>,
        origin: &Origin,
    ) -> (r: Result<(), SagaError>)
        requires
            old(self).wf(),
        ensures
            final(self).wf(),
            final(self)@ == Self::recorded(
                old(self)@,
                game_id,
                *origin,
                old(self)@.bids[game_id as int].unwrap().after_reply(player, results@),
            ).0,
            r == Self::recorded(
                old(self)@,
                game_id,
                *origin,
                old(self)@.bids[game_id as int].unwrap().after_reply(player, results@),
            ).1,
    {
        self.record(game_id, origin, player, results)
    }

    /// Reads, for the ledger itself, the answer that names the first player's
    /// new stream and records the funding. Where the answer cannot be read,
    /// nothing changes.
    pub fn resolve_first_player(&mut self, game_id: GameIndex, results: &Vec<Reply<StreamId>>, origin: &Origin) -> (r:
        Result<(), SagaError>)
        requires
            old(self).wf(),
        ensures
            final(self).wf(),
            final(self)@ == Self::recorded(
                old(self)@,
                game_id,
                *origin,
                Self::named(old(self)@, game_id, Player::First, single(results@)),
            ).0,
            r == Self::recorded(
                old(self)@,
                game_id,
                *origin,
                Self::named(old(self)@, game_id, Player::First, single(results@)),
            ).1,
    {
        match origin.trusted() {
            Err(e) => {
                return Err(e);
            },
            Ok(_) => {},
        }
        let at: usize = match self.slot(game_id) {
            Some(at) => at,
            None => {
                return Err(SagaError::NoSuchBet);
            },
        };
        let mut bid = match self.bids[at] {
            Some(bid) => bid,
            None => {
                return Err(SagaError::NoSuchBet);
            },
        };
        match read_single(results) {
            Err(e) => Err(e),
            Ok(stream_id) => {
                bid.record_funding(Player::First, stream_id);
                self.bids.set(at, Some(bid));
                proof {
                    assert(final(self)@.bids =~= old(self)@.bids.update(game_id as int, Some(bid)));
                }
                Ok(())
            },
        }
    }

    /// Reads, for the ledger itself, the answer to the second player's payment
    /// and records the funding, as `resolve_player_bid` does for that player.
    pub fn resolve_second_player(&mut self, game_id: GameIndex, results: &Vec<Reply<AccountView>>, origin: &Origin) -> (r:
        Result<(), SagaError>)
        requires
            old(self).wf(),
        ensures
            final(self).wf(),
            final(self)@ == Self::recorded(
                old(self)@,
                game_id,
                *origin,
                old(self)@.bids[game_id as int].unwrap().after_reply(Player::Second, results@),
            ).0,
            r == Self::recorded(
                old(self)@,
                game_id,
                *origin,
                old(self)@.bids[game_id as int].unwrap().after_reply(Player::Second, results@),
            ).1,
    {
        self.record(game_id, origin, Player::Second, results)
    }

    /// What the step after the clocks' summary leaves of the ledger, and what
    /// it answers: what it leaves of the game and answers for it, and for an
    /// identifier without a game the first fault of the call, or that there is
    /// no such stake.
    pub open spec fn resolved(
        before: ContractView,
        game_id: GameIndex,
        move_type: MoveType,
        cell: Option<Cell>,
        results: Seq<Reply<(FinishedStreams, Stream, Stream)>>,
        origin: Origin,
    ) -> (ContractView, Result<ClockStep, SagaError>) {
        if before.has(game_id) {
            let step = resolution(
                before.games[game_id as int],
                before.bids[game_id as int],
                game_id,
                move_type,
                cell,
                results,
                origin,
            );
            (before.with_game(game_id, step.0), step.1)
        } else if !origin.is_own() {
            (before, Err(SagaError::Untrusted))
        } else {
            match single(results) {
                Err(e) => (before, Err(e)),
                Ok(_) => (before, Err(SagaError::NoSuchBet)),
            }
        }
    }

    /// Takes, for the ledger itself, the clocks' summary of a move request.
    /// Where neither clock has run out the ledger stays as it is and the move
    /// is handed on to `make_move_internal`; where one has, the game is closed
    /// by it.
    pub fn resolve_streams(
        &mut self,
        game_id: GameIndex,
        move_type: MoveType,
        cell: Option<Cell>,
        results: &Vec<Reply<(FinishedStreams, Stream, Stream)>>,
        origin: &Origin,
    ) -> (r: Result<ClockStep, SagaError>)
        requires
            old(self).wf(),
        ensures
            final(self).wf(),
            final(self)@ == Self::resolved(old(self)@, game_id, move_type, cell, results@, *origin).0,
            r == Self::resolved(old(self)@, game_id, move_type, cell, results@, *origin).1,
    {
        let at: usize = match self.slot(game_id) {
            Some(at) => at,
            None => {
                match origin.trusted() {
                    Err(e) => {
                        return Err(e);
                    },
                    Ok(_) => {},
                }
                return match read_single(results) {
                    Err(e) => Err(e),
                    Ok(_) => Err(SagaError::NoSuchBet),
                };
            },
        };
        let bid = self.bids[at];
        let mut game = self.games[at].copy();
        let step = resolve_step(&mut game, bid, game_id, move_type, cell, results, origin);
        let ghost after = game@;
        self.games.set(at, game);
        proof {
            assert(final(self)@.games =~= old(self)@.games.update(game_id as int, after));
        }
        step
    }
}

} // verus!
