use hex_escrow::board::Board;
use hex_escrow::cell::Cell;
use hex_escrow::game::{Game, MoveError, Player};
use hex_escrow::MoveType;

fn board(size: usize, rows: &[&str]) -> Board {
    let mut b = Board::new(size);
    for (y, row) in rows.iter().enumerate() {
        for (x, c) in row.chars().enumerate() {
            let mark = match c {
                '1' => 1,
                '2' => 2,
                _ => 0,
            };
            b.set_cell(&Cell::new(x, y), mark);
        }
    }
    b
}

#[test]
fn new_board_is_empty() {
    let b = Board::new(4);
    assert_eq!(b.size, 4);
    assert_eq!(b.field, vec![0u8; 16]);
    assert_eq!(Board::new(0).field, Vec::<u8>::new());
}

#[test]
fn cells_are_set_and_read() {
    let mut b = Board::new(3);
    b.set_cell(&Cell::new(2, 1), 2);
    assert_eq!(b.get_cell(&Cell::new(2, 1)), 2);
    assert_eq!(b.get_cell(&Cell::new(1, 2)), 0);
    assert_eq!(b.field, vec![0, 0, 0, 0, 0, 2, 0, 0, 0]);
    let c = Cell::new(4, 9);
    assert_eq!((c.x, c.y), (4, 9));
}

#[test]
fn swap_mirrors_and_changes_owner() {
    let b = board(3, &["010", "002", "100"]);
    let s = b.swapped();
    assert_eq!(s, board(3, &["002", "200", "010"]));
    assert_eq!(s.swapped(), b);
}

#[test]
fn first_player_joins_top_and_bottom() {
    let b = board(3, &["010", "010", "010"]);
    assert!(b.has_won(1));
    assert!(!b.has_won(2));
    let b = board(3, &["111", "000", "111"]);
    assert!(!b.has_won(1));
    let b = board(3, &["222", "000", "000"]);
    assert!(b.has_won(2));
    assert!(!b.has_won(1));
}

#[test]
fn chains_follow_the_six_neighbours() {
    let b = board(3, &["001", "010", "100"]);
    assert!(b.has_won(1));
    let b = board(3, &["100", "010", "001"]);
    assert!(!b.has_won(1));
    let b = board(3, &["002", "020", "200"]);
    assert!(b.has_won(2));
    let b = board(3, &["200", "020", "002"]);
    assert!(!b.has_won(2));
    let b = board(4, &["1000", "1100", "0010", "0010"]);
    assert!(!b.has_won(1));
    let b = board(4, &["0100", "0110", "0010", "0010"]);
    assert!(b.has_won(1));
    let b = board(4, &["0001", "0111", "0100", "1100"]);
    assert!(b.has_won(1));
}

#[test]
fn empty_boards_have_no_winner() {
    assert!(!Board::new(0).has_won(1));
    assert!(!Board::new(0).has_won(2));
    assert!(!Board::new(5).has_won(1));
    assert!(!Board::new(5).has_won(2));
}

#[test]
fn placing_passes_the_turn() {
    let alice = String::from("alice");
    let bob = String::from("bob");
    let mut game = Game::new(alice.clone(), bob.clone(), 3, None);
    assert_eq!(game.mover(), Player::First);
    assert_eq!(game.make_move(MoveType::PLACE, Some(Cell::new(1, 0)), &alice), Ok(()));
    assert_eq!(game.turn, 1);
    assert_eq!(game.mover(), Player::Second);
    assert_eq!(game.board, board(3, &["010", "000", "000"]));
    assert_eq!(game.make_move(MoveType::PLACE, Some(Cell::new(1, 1)), &bob), Ok(()));
    assert_eq!(game.turn, 2);
    assert_eq!(game.board, board(3, &["010", "020", "000"]));
    assert!(!game.is_finished);
    assert_eq!(game.winner, None);
    assert_eq!(Player::First.opponent(), Player::Second);
    assert_eq!(Player::Second.opponent(), Player::First);
}

#[test]
fn swap_takes_over_the_first_stone() {
    let alice = String::from("alice");
    let bob = String::from("bob");
    let mut game = Game::new(alice.clone(), bob.clone(), 5, None);
    game.make_move(MoveType::PLACE, Some(Cell::new(4, 0)), &alice).unwrap();
    assert_eq!(game.make_move(MoveType::SWAP, None, &bob), Ok(()));
    assert_eq!(game.turn, 2);
    assert_eq!(game.board.get_cell(&Cell::new(4, 0)), 0);
    assert_eq!(game.board.get_cell(&Cell::new(0, 4)), 2);
    assert_eq!(game.make_move(MoveType::SWAP, None, &bob), Err(MoveError::SwapNotAllowed));
    assert_eq!(game.check_move(MoveType::PLACE, Some(Cell::new(0, 4)), &alice), Err(MoveError::CellOccupied));
    assert_eq!(game.check_move(MoveType::PLACE, Some(Cell::new(4, 0)), &alice), Ok(()));
}

#[test]
fn joining_the_sides_wins() {
    let alice = String::from("alice");
    let bob = String::from("bob");
    let mut game = Game::new(alice.clone(), bob.clone(), 2, None);
    game.make_move(MoveType::PLACE, Some(Cell::new(0, 0)), &alice).unwrap();
    game.make_move(MoveType::PLACE, Some(Cell::new(0, 1)), &bob).unwrap();
    game.make_move(MoveType::PLACE, Some(Cell::new(1, 0)), &alice).unwrap();
    assert!(!game.is_finished);
    game.make_move(MoveType::PLACE, Some(Cell::new(1, 1)), &bob).unwrap();
    assert!(game.is_finished);
    assert_eq!(game.winner, Some(Player::Second));
    assert_eq!(game.turn, 4);
    let over = game.copy();
    assert_eq!(game.make_move(MoveType::PLACE, Some(Cell::new(1, 1)), &alice), Ok(()));
    assert_eq!(game.make_move(MoveType::SWAP, None, &bob), Ok(()));
    assert_eq!(game.check_move(MoveType::PLACE, None, &bob), Ok(()));
    assert_eq!(game, over);
}
