//! A game: its two players, its board, whose turn it is, and how it ended.

use vstd::prelude::*;
use crate::board::{filled, lemma_filled_bound, lemma_filled_update, lemma_place, Board, Grid, EMPTY, FIRST, SECOND};
use crate::cell::Cell;
use crate::MoveType;

verus! {

/// The identifier of a game: games are numbered from zero as they are made.
pub type GameIndex = u64;

/// One of the two players.
#[derive(Clone, Copy, Debug, PartialEq, Eq, Structural)]
pub enum Player {
    First,
    Second,
}

impl Player {
    /// The mark of this player's stones.
    pub open spec fn mark(self) -> u8 {
        match self {
            Player::First => FIRST,
            Player::Second => SECOND,
        }
    }

    /// The opponent.
    pub open spec fn other(self) -> Player {
        match self {
            Player::First => Player::Second,
            Player::Second => Player::First,
        }
    }

    /// The opponent, computed.
    pub fn opponent(&self) -> (r: Player)
        ensures
            r == self.other(),
    {
        match self {
            Player::First => Player::Second,
            Player::Second => Player::First,
        }
    }
}

/// Why a move was turned down.
#[derive(Clone, Copy, Debug, PartialEq, Eq, Structural)]
pub enum MoveError {
    /// No game has this identifier.
    GameNotFound,
    /// The game has a stake that the players have not both paid.
    BetsNotPlaced,
    /// A placement without a cell, or with one off the board.
    IncorrectArgs,
    /// It is not the caller's turn.
    InvalidTurn,
    /// The cell already holds a stone.
    CellOccupied,
    /// The swap is open to the second player on the second turn only.
    SwapNotAllowed,
}

/// A game as a mathematical value.
pub struct GameView {
    pub first_player: Seq<char>,
    pub second_player: Seq<char>,
    pub turn: nat,
    pub board: Grid,
    pub playtime: Option<u32>,
    pub is_finished: bool,
    pub winner: Option<Player>,
    pub prev_block_height: Option<u64>,
}

impl GameView {
    /// The game as it is made: an empty board, the first turn ahead.
    pub open spec fn fresh(
        first_player: Seq<char>,
        second_player: Seq<char>,
        size: int,
        playtime: Option<u32>,
    ) -> GameView {
        GameView {
            first_player,
            second_player,
            turn: 0,
            board: Grid::empty(size),
            playtime,
            is_finished: false,
            winner: Option::None,
            prev_block_height: Option::None,
        }
    }

    /// Who is to move: the first player on even turns, the second on odd ones.
    pub open spec fn mover(self) -> Player {
        if self.turn % 2 == 0 {
            Player::First
        } else {
            Player::Second
        }
    }

    /// The account of a player.
    pub open spec fn account(self, player: Player) -> Seq<char> {
        match player {
            Player::First => self.first_player,
            Player::Second => self.second_player,
        }
    }

    /// Why the move is turned down, if it is. A placement needs a cell, the
    /// caller's turn, and an empty cell of the board; a swap needs the second
    /// player on the second turn. A game that is over turns nothing down: a
    /// move on it is taken and does nothing.
    pub open spec fn refusal(self, move_type: MoveType, cell: Option<Cell>, caller: Seq<char>) -> Option<
        MoveError,
    > {
        if self.is_finished {
            Option::None
        } else {
            match move_type {
                MoveType::PLACE => match cell {
                    Option::None => Option::Some(MoveError::IncorrectArgs),
                    Option::Some(c) => if caller != self.account(self.mover()) {
                        Option::Some(MoveError::InvalidTurn)
                    } else if !self.board.contains(c.x as int, c.y as int) {
                        Option::Some(MoveError::IncorrectArgs)
                    } else if self.board.at(c.x as int, c.y as int) != EMPTY {
                        Option::Some(MoveError::CellOccupied)
                    } else {
                        Option::None
                    },
                },
                MoveType::SWAP => if caller != self.second_player || self.turn != 1 {
                    Option::Some(MoveError::SwapNotAllowed)
                } else {
                    Option::None
                },
            }
        }
    }

    /// The board after a move that was made.
    pub open spec fn board_after(self, move_type: MoveType, cell: Option<Cell>) -> Grid {
        match move_type {
            MoveType::PLACE => self.board.put(
                cell.unwrap().x as int,
                cell.unwrap().y as int,
                self.mover().mark(),
            ),
            MoveType::SWAP => self.board.swapped(),
        }
    }

    /// The game after a move that was made: the stone is set or the board
    /// swapped, the turn passes, and the game is over with the mover as
    /// winner where the mover's stones now join that player's sides.
    pub open spec fn moved(self, move_type: MoveType, cell: Option<Cell>) -> GameView {
        let board = self.board_after(move_type, cell);
        let won = board.wins(self.mover().mark());
        GameView {
            board,
            turn: self.turn + 1,
            is_finished: won,
            winner: if won {
                Option::Some(self.mover())
            } else {
                self.winner
            },
            ..self
        }
    }

    /// The game after a move: as it was where the game is over or the move is
    /// turned down.
    pub open spec fn after(self, move_type: MoveType, cell: Option<Cell>, caller: Seq<char>) -> GameView {
        if self.is_finished || self.refusal(move_type, cell, caller) is Some {
            self
        } else {
            self.moved(move_type, cell)
        }
    }

    /// The game closed by a clock: over, with the given winner or none.
    pub open spec fn closed(self, winner: Option<Player>) -> GameView {
        GameView { is_finished: true, winner, ..self }
    }
}

/// A game.
#[derive(Debug, PartialEq, Eq)]
pub struct Game {
    pub first_player: String,
    pub second_player: String,
    pub turn: u64,
    pub board: Board,
    /// The time each player has in all, in seconds; none without a stake.
    pub playtime: Option<u32>,
    pub is_finished: bool,
    pub winner: Option<Player>,
    /// The block in which the move before the last was made, where known.
    pub prev_block_height: Option<u64>,
}

impl View for Game {
    type V = GameView;

    open spec fn view(&self) -> GameView {
        GameView {
            first_player: self.first_player@,
            second_player: self.second_player@,
            turn: self.turn as nat,
            board: self.board@,
            playtime: self.playtime,
            is_finished: self.is_finished,
            winner: self.winner,
            prev_block_height: self.prev_block_height,
        }
    }
}

impl Game {
    /// A board that is a square of marks, and a turn counter that the stones
    /// on it account for: every turn but a swap has set one.
    pub open spec fn wf(&self) -> bool {
        &&& self.board.wf()
        &&& self.turn <= filled(self.board@.cells) + 2
    }

    /// A new game on an empty board of side `size`.
    pub fn new(first_player: String, second_player: String, size: usize, playtime: Option<u32>) -> (r:
        Game)
        requires
            size * size + 2 <= usize::MAX,
        ensures
            r.wf(),
            r@ == GameView::fresh(first_player@, second_player@, size as int, playtime),
    {
        Game {
            first_player,
            second_player,
            turn: 0,
            board: Board::new(size),
            playtime,
            is_finished: false,
            winner: None,
            prev_block_height: None,
        }
    }

    /// Whether the game is well formed.
    pub fn is_valid(&self) -> (r: bool)
        ensures
            r == self.wf(),
    {
        if !self.board.is_valid() {
            return false;
        }
        let stones: usize = self.board.count_filled();
        proof {
            lemma_filled_bound(self.board@.cells);
        }
        self.turn <= (stones + 2) as u64
    }

    /// A copy of the game.
    pub fn copy(&self) -> (r: Game)
        ensures
            r@ == self@,
            r.wf() == self.wf(),
    {
        let field = self.board.field.clone();
        assert(field@ =~= self.board.field@);
        Game {
            first_player: self.first_player.clone(),
            second_player: self.second_player.clone(),
            turn: self.turn,
            board: Board { size: self.board.size, field },
            playtime: self.playtime,
            is_finished: self.is_finished,
            winner: self.winner,
            prev_block_height: self.prev_block_height,
        }
    }

    /// Who is to move.
    pub fn mover(&self) -> (r: Player)
        ensures
            r == self@.mover(),
    {
        if self.turn % 2 == 0 {
            Player::First
        } else {
            Player::Second
        }
    }

    /// Says whether a move of `caller` would be turned down, and why.
    pub fn check_move(&self, move_type: MoveType, cell: Option<Cell>, caller: &String) -> (r: Result<
        (),
        MoveError,
    >)
        requires
            self.wf(),
        ensures
            match r {
                Ok(_) => self@.refusal(move_type, cell, caller@) is None,
                Err(e) => self@.refusal(move_type, cell, caller@) == Some(e),
            },
    {
        if self.is_finished {
            return Ok(());
        }
        match move_type {
            MoveType::PLACE => match cell {
                None => Err(MoveError::IncorrectArgs),
                Some(c) => {
                    let on_turn = match self.mover() {
                        Player::First => *caller == self.first_player,
                        Player::Second => *caller == self.second_player,
                    };
                    if !on_turn {
                        Err(MoveError::InvalidTurn)
                    } else if c.x >= self.board.size || c.y >= self.board.size {
                        Err(MoveError::IncorrectArgs)
                    } else if self.board.get_cell(&c) != EMPTY {
                        Err(MoveError::CellOccupied)
                    } else {
                        Ok(())
                    }
                },
            },
            MoveType::SWAP => {
                if *caller == self.second_player && self.turn == 1 {
                    Ok(())
                } else {
                    Err(MoveError::SwapNotAllowed)
                }
            },
        }
    }

    /// Makes a move of `caller`, or turns it down and leaves the game as it
    /// was. On a game that is over the move is taken and nothing happens.
    pub fn make_move(&mut self, move_type: MoveType, cell: Option<Cell>, caller: &String) -> (r: Result<
        (),
        MoveError,
    >)
        requires
            old(self).wf(),
        ensures
            final(self).wf(),
            final(self)@ == old(self)@.after(move_type, cell, caller@),
            match r {
                Ok(_) => old(self)@.refusal(move_type, cell, caller@) is None,
                Err(e) => old(self)@.refusal(move_type, cell, caller@) == Some(e),
            },
    {
        if self.is_finished {
            return Ok(());
        }
        match self.check_move(move_type, cell, caller) {
            Err(e) => {
                return Err(e);
            },
            Ok(_) => {},
        }
        let player = self.mover();
        let mark: u8 = match player {
            Player::First => FIRST,
            Player::Second => SECOND,
        };
        proof {
            lemma_filled_bound(self.board@.cells);
        }
        match move_type {
            MoveType::PLACE => {
                let c = cell.unwrap();
                proof {
                    lemma_place(self.board.size as int, c.x as int, c.y as int);
                    lemma_filled_update(
                        self.board@.cells,
                        c.y as int * self.board.size as int + c.x as int,
                        mark,
                    );
                    lemma_filled_bound(
                        self.board@.cells.update(c.y as int * self.board.size as int + c.x as int, mark),
                    );
                }
                self.board.set_cell(&c, mark);
            },
            MoveType::SWAP => {
                self.board = self.board.swapped();
            },
        }
        self.turn = self.turn + 1;
        if self.board.has_won(mark) {
            self.is_finished = true;
            self.winner = Some(player);
        }
        Ok(())
    }
}

} // verus!
