//! What holds of the settlement as a whole.

use vstd::prelude::*;
use crate::bid::Bid;
use crate::board::EMPTY;
use crate::cell::Cell;
use crate::contract::{
    clock, escrow, requested, resolution, side, ClockStep, Contract, ContractView, MoveStep,
};
use crate::external::{single, Reply, Stream, StreamFinishReason, StreamStatus};
use crate::game::{GameView, MoveError, Player};
use crate::internal::{
    Origin,
    SagaError,
    clock_after,
    closes,
    closing_plan,
    halt_request,
    halted,
    move_plan,
    settled,
    step_plan,
    summary,
    verdict,
    FinishedStreams,
    Plan,
    StatusType,
};
use crate::MoveType;

verus! {

/// A move on a game without a stake asks nothing of the outside: it is turned
/// down, or it is made and the plan after it is idle.
pub proof fn unstaked_move_is_local(game: GameView, move_type: MoveType, cell: Option<Cell>, caller: Seq<char>)
    ensures
        verdict(game, None, move_type, cell, caller) == game.refusal(move_type, cell, caller),
        move_plan(game.moved(move_type, cell), None).is_idle(),
        move_plan(game.moved(move_type, cell), None).calls().len() == 0,
        requested(game, None, move_type, cell, caller) == (
            game.after(move_type, cell, caller),
            match game.refusal(move_type, cell, caller) {
                Option::Some(e) => Err::<MoveStep, MoveError>(e),
                Option::None => Ok::<MoveStep, MoveError>(MoveStep::Done(Plan::idle())),
            },
        ),
        !move_plan(game.moved(move_type, cell), None).runs(Player::First),
        !move_plan(game.moved(move_type, cell), None).runs(Player::Second),
{
}

/// A game with a stake takes no move before both players have paid: whatever
/// the move and whoever makes it, the request and the step that would make the
/// move leave the ledger as it is, and while the game is not over the move is
/// turned down for that reason.
pub proof fn unfunded_game_takes_no_move(
    ledger: ContractView,
    index: u64,
    move_type: MoveType,
    cell: Option<Cell>,
    caller: Seq<char>,
)
    requires
        ledger.staked(index),
        !ledger.bids[index as int].unwrap().is_funded(),
    ensures
        ledger.asked(index, move_type, cell, caller).0 == ledger,
        Contract::stepped(ledger, index, move_type, cell, caller).0 == ledger,
        !ledger.games[index as int].is_finished ==> ledger.move_refusal(index, move_type, cell, caller)
            == Some(MoveError::BetsNotPlaced),
{
    assert(ledger.games.update(index as int, ledger.games[index as int]) =~= ledger.games);
}

/// A game that is over stays as it is: a move on it is taken and does
/// nothing, and the clocks do not close it again, so nothing more is asked of
/// the outside for it.
pub proof fn finished_game_stays(
    game: GameView,
    bid: Option<Bid>,
    move_type: MoveType,
    cell: Option<Cell>,
    caller: Seq<char>,
    finished: FinishedStreams,
)
    requires
        game.is_finished,
    ensures
        verdict(game, bid, move_type, cell, caller) is None,
        game.after(move_type, cell, caller) == game,
        step_plan(game, bid, move_type, cell) == Plan::idle(),
        requested(game, bid, move_type, cell, caller) == (
            game,
            Ok::<MoveStep, MoveError>(MoveStep::Done(Plan::idle())),
        ),
        settled(game, finished) == game,
        !closes(game, finished),
{
}

/// The clocks' summary touches nothing of a game but its end. Board, turn,
/// players and playing time stay; the game is over afterwards exactly where
/// it was over before or a clock has run out; and where neither has, the game
/// stays as it is and the move is handed on as it came.
pub proof fn clocks_decide_the_end_only(
    game: GameView,
    bid: Option<Bid>,
    game_id: u64,
    move_type: MoveType,
    cell: Option<Cell>,
    results: Seq<Reply<(FinishedStreams, Stream, Stream)>>,
    origin: Origin,
)
    ensures
        ({
            let step = resolution(game, bid, game_id, move_type, cell, results, origin);
            &&& step.0.board == game.board
            &&& step.0.turn == game.turn
            &&& step.0.first_player == game.first_player
            &&& step.0.second_player == game.second_player
            &&& step.0.playtime == game.playtime
            &&& step.1 is Err ==> step.0 == game
            &&& step.1 is Ok ==> step.0.is_finished == (game.is_finished || single(results).unwrap().0
                != FinishedStreams::Neither)
            &&& step.1 is Ok && single(results).unwrap().0 == FinishedStreams::Neither ==> step.0 == game
                && step.1 == Ok::<ClockStep, SagaError>(
                ClockStep::Move { game_id, move_type, cell },
            )
            &&& resolution(step.0, bid, game_id, move_type, cell, results, origin).0.is_finished
                == step.0.is_finished
        }),
{
}

/// Looking again at two clocks that are halted changes nothing: nothing is
/// asked of them, they are summed up as before, and a game that the summary
/// has been applied to is left as it is by applying it once more, with
/// nothing to ask for.
pub proof fn second_look_changes_nothing(game: GameView, stream1: Stream, stream2: Stream)
    requires
        stream1.status != StreamStatus::Active,
        stream2.status != StreamStatus::Active,
    ensures
        halt_request(stream1) is None,
        halt_request(stream2) is None,
        halted(stream1) == stream1,
        halted(stream2) == stream2,
        summary(StatusType::of(stream1.status), StatusType::of(stream2.status)) matches Some(finished) && {
            &&& settled(settled(game, finished), finished) == settled(game, finished)
            &&& !closes(settled(game, finished), finished)
            &&& game.is_finished ==> settled(game, finished) == game
        },
{
}

/// While a game with a stake goes on, one clock runs after every move, that
/// of the player now to move; once a move or a clock has ended the game, none
/// does. Both clocks are halted before the move is looked at.
pub proof fn one_clock_runs(
    game: GameView,
    bid: Bid,
    stream1: Stream,
    stream2: Stream,
    move_type: MoveType,
    cell: Option<Cell>,
    finished: FinishedStreams,
)
    ensures
        halted(stream1).status != StreamStatus::Active,
        halted(stream2).status != StreamStatus::Active,
        ({
            let after = game.moved(move_type, cell);
            let plan = move_plan(after, Some(bid));
            let first = clock_after(plan, Player::First, halted(stream1).status);
            let second = clock_after(plan, Player::Second, halted(stream2).status);
            if after.is_finished {
                first != StreamStatus::Active && second != StreamStatus::Active
            } else {
                &&& (first == StreamStatus::Active) != (second == StreamStatus::Active)
                &&& (first == StreamStatus::Active) == (after.mover() == Player::First)
                &&& plan.runs(after.mover())
                &&& !plan.runs(after.mover().other())
            }
        }),
        ({
            let plan = closing_plan(bid.bid, finished, halted(stream1), halted(stream2));
            &&& clock_after(plan, Player::First, halted(stream1).status) != StreamStatus::Active
            &&& clock_after(plan, Player::Second, halted(stream2).status) != StreamStatus::Active
        }),
{
}

/// A player whose clock has run out while the other's is paused forfeits: the
/// game is over, the other player has won and is paid both stakes, and the
/// clock that has not ended is ended.
pub proof fn forfeit_pays_the_pot(game: GameView, bid: Bid, stream1: Stream, stream2: Stream)
    requires
        !game.is_finished,
        2 * bid.bid <= u128::MAX,
    ensures
        stream1.status == (StreamStatus::Finished { reason: StreamFinishReason::FinishedNaturally })
            && stream2.status == StreamStatus::Paused ==> {
            let finished = FinishedStreams::First;
            let plan = closing_plan(bid.bid, finished, stream1, stream2);
            &&& summary(StatusType::of(stream1.status), StatusType::of(stream2.status)) == Some(finished)
            &&& settled(game, finished).is_finished
            &&& settled(game, finished).winner == Some(Player::Second)
            &&& plan.pay_second == bid.pot()
            &&& plan.pay_first == 0
            &&& !plan.stop_first
            &&& plan.stop_second
        },
        stream2.status == (StreamStatus::Finished { reason: StreamFinishReason::FinishedNaturally })
            && stream1.status == StreamStatus::Paused ==> {
            let finished = FinishedStreams::Second;
            let plan = closing_plan(bid.bid, finished, stream1, stream2);
            &&& summary(StatusType::of(stream1.status), StatusType::of(stream2.status)) == Some(finished)
            &&& settled(game, finished).is_finished
            &&& settled(game, finished).winner == Some(Player::First)
            &&& plan.pay_first == bid.pot()
            &&& plan.pay_second == 0
            &&& plan.stop_first
            &&& !plan.stop_second
        },
{
}

/// Where both clocks have run out, the game is over without a winner, and
/// each player is paid back their own stake.
pub proof fn double_forfeit_refunds(game: GameView, bid: Bid, stream1: Stream, stream2: Stream)
    requires
        !game.is_finished,
        StatusType::of(stream1.status) == StatusType::Finished,
        StatusType::of(stream2.status) == StatusType::Finished,
    ensures
        summary(StatusType::of(stream1.status), StatusType::of(stream2.status)) == Some(
            FinishedStreams::Both,
        ),
        settled(game, FinishedStreams::Both).is_finished,
        settled(game, FinishedStreams::Both).winner is None,
        closing_plan(bid.bid, FinishedStreams::Both, stream1, stream2).pay_first == bid.bid,
        closing_plan(bid.bid, FinishedStreams::Both, stream1, stream2).pay_second
            == bid.bid,
        !closing_plan(bid.bid, FinishedStreams::Both, stream1, stream2).stop_first,
        !closing_plan(bid.bid, FinishedStreams::Both, stream1, stream2).stop_second,
{
}

/// A game read back right after it was made has an empty board of the side
/// it was made with, and the first turn ahead, whatever the ledger held and
/// whatever the settings; the games made before it read as they did.
pub proof fn new_game_reads_back(
    ledger: ContractView,
    first_player: Seq<char>,
    second_player: Seq<char>,
    field_size: Option<usize>,
    bid: Option<u128>,
    playtime: Option<u32>,
)
    requires
        ledger.games.len() == ledger.next_game_id,
        ledger.bids.len() == ledger.next_game_id,
    ensures
        ({
            let size = side(field_size) as int;
            let after = ledger.created(first_player, second_player, field_size, bid, playtime);
            &&& after.read(ledger.next_game_id) matches Some(read)
            &&& read == GameView::fresh(first_player, second_player, size, clock(bid, playtime))
            &&& read.first_player == first_player
            &&& read.second_player == second_player
            &&& read.turn == 0
            &&& !read.is_finished
            &&& read.winner is None
            &&& read.board.size == size
            &&& read.board.cells.len() == size * size
            &&& forall|i: int| 0 <= i < read.board.cells.len() ==> read.board.cells[i] == EMPTY
            &&& forall|x: int, y: int| read.board.contains(x, y) ==> read.board.at(x, y) == EMPTY
            &&& after.bids[ledger.next_game_id as int] == escrow(bid)
            &&& forall|index: u64| ledger.has(index) ==> after.read(index) == ledger.read(index)
        }),
{
    let size = side(field_size) as int;
    let game = GameView::fresh(first_player, second_player, size, clock(bid, playtime));
    assert(size * size >= 0) by (nonlinear_arith)
        requires
            0 <= size,
    ;
    assert forall|x: int, y: int| game.board.contains(x, y) implies game.board.at(x, y) == EMPTY by {
        crate::board::lemma_place(size, x, y);
    }
}

} // verus!
