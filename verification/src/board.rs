//! The board: a square grid of cells, each empty or owned by a player.

use vstd::prelude::*;
use crate::cell::Cell;

verus! {

/// The mark of an empty cell.
pub const EMPTY: u8 = 0;

/// The mark of a cell of the first player.
pub const FIRST: u8 = 1;

/// The mark of a cell of the second player.
pub const SECOND: u8 = 2;

/// The mark with the two players exchanged.
pub open spec fn flipped(mark: u8) -> u8 {
    if mark == FIRST {
        SECOND
    } else if mark == SECOND {
        FIRST
    } else {
        mark
    }
}

/// The number of cells that are not empty.
pub open spec fn filled(cells: Seq<u8>) -> nat
    decreases cells.len(),
{
    if cells.len() == 0 {
        0
    } else {
        filled(cells.drop_last()) + if cells.last() != EMPTY { 1nat } else { 0nat }
    }
}

/// No more cells are filled than there are.
pub proof fn lemma_filled_bound(cells: Seq<u8>)
    ensures
        filled(cells) <= cells.len(),
    decreases cells.len(),
{
    if cells.len() > 0 {
        lemma_filled_bound(cells.drop_last());
    }
}

/// Filling an empty cell adds one to the count.
pub proof fn lemma_filled_update(cells: Seq<u8>, i: int, mark: u8)
    requires
        0 <= i < cells.len(),
        cells[i] == EMPTY,
        mark != EMPTY,
    ensures
        filled(cells.update(i, mark)) == filled(cells) + 1,
    decreases cells.len(),
{
    let after = cells.update(i, mark);
    if i == cells.len() - 1 {
        assert(after.drop_last() =~= cells.drop_last());
    } else {
        assert(after.drop_last() =~= cells.drop_last().update(i, mark));
        lemma_filled_update(cells.drop_last(), i, mark);
    }
}

/// Row `y` and column `x` of a square of side `size` lie at one place, and no
/// two positions share it.
pub proof fn lemma_place(size: int, x: int, y: int)
    requires
        0 <= x < size,
        0 <= y < size,
    ensures
        0 <= y * size <= y * size + x < size * size,
        (y * size + x) / size == y,
        (y * size + x) % size == x,
{
    assert(0 <= y * size <= y * size + x < size * size) by (nonlinear_arith)
        requires
            0 <= x < size,
            0 <= y < size,
    ;
    vstd::arithmetic::div_mod::lemma_fundamental_div_mod_converse(y * size + x, size, y, x);
}

/// The board as a mathematical value.
pub struct Grid {
    pub size: int,
    pub cells: Seq<u8>,
}

impl Grid {
    /// A square of marks.
    pub open spec fn wf(self) -> bool {
        &&& 0 <= self.size
        &&& self.cells.len() == self.size * self.size
        &&& forall|i: int| 0 <= i < self.cells.len() ==> #[trigger] self.cells[i] <= SECOND
    }

    pub open spec fn contains(self, x: int, y: int) -> bool {
        0 <= x < self.size && 0 <= y < self.size
    }

    /// The mark at column `x` of row `y`.
    pub open spec fn at(self, x: int, y: int) -> u8 {
        self.cells[y * self.size + x]
    }

    /// The board of side `size` with every cell empty.
    pub open spec fn empty(size: int) -> Grid {
        Grid { size, cells: Seq::new((size * size) as nat, |i: int| EMPTY) }
    }

    /// The board with `mark` at column `x` of row `y`.
    pub open spec fn put(self, x: int, y: int, mark: u8) -> Grid {
        Grid { size: self.size, cells: self.cells.update(y * self.size + x, mark) }
    }

    /// The board mirrored at its main diagonal, with the two players exchanged.
    pub open spec fn swapped(self) -> Grid {
        Grid {
            size: self.size,
            cells: Seq::new(
                self.cells.len(),
                |i: int| flipped(self.at(i / self.size, i % self.size)),
            ),
        }
    }
}

/// Every place of a square of side `size` is a row and a column of it.
pub proof fn lemma_row_and_column(size: int, i: int)
    requires
        0 <= size,
        0 <= i < size * size,
    ensures
        0 <= i / size < size,
        0 <= i % size < size,
        (i / size) * size + i % size == i,
{
    assert(size > 0) by (nonlinear_arith)
        requires
            0 <= size,
            0 <= i < size * size,
    ;
    vstd::arithmetic::div_mod::lemma_fundamental_div_mod(i, size);
    vstd::arithmetic::div_mod::lemma_mod_bound(i, size);
    let row = i / size;
    let column = i % size;
    assert(0 <= row < size && row * size + column == i) by (nonlinear_arith)
        requires
            0 <= i < size * size,
            size > 0,
            i == size * row + column,
            0 <= column < size,
    ;
}

/// The swap moves the stone at column `x` of row `y` to column `y` of row
/// `x`, and hands it to the other player.
pub proof fn lemma_swapped_at(grid: Grid, x: int, y: int)
    requires
        grid.wf(),
        grid.contains(x, y),
    ensures
        grid.swapped().at(y, x) == flipped(grid.at(x, y)),
{
    lemma_place(grid.size, y, x);
    lemma_place(grid.size, x, y);
}

/// A swapped board is a board.
pub proof fn lemma_swapped_wf(grid: Grid)
    requires
        grid.wf(),
    ensures
        grid.swapped().wf(),
{
    let n = grid.size;
    assert forall|i: int| 0 <= i < grid.swapped().cells.len() implies #[trigger] grid.swapped().cells[i]
        <= SECOND by {
        lemma_row_and_column(n, i);
        lemma_place(n, i / n, i % n);
    }
}

/// Swapping twice gives the board back.
pub proof fn lemma_swapped_twice(grid: Grid)
    requires
        grid.wf(),
    ensures
        grid.swapped().swapped() == grid,
{
    let n = grid.size;
    let twice = grid.swapped().swapped();
    lemma_swapped_wf(grid);
    assert forall|i: int| 0 <= i < grid.cells.len() implies twice.cells[i] == grid.cells[i] by {
        lemma_row_and_column(n, i);
        let row = i / n;
        let column = i % n;
        lemma_swapped_at(grid, column, row);
    }
    assert(twice.cells =~= grid.cells);
}

/// The board of a game. Cells lie row by row.
#[derive(Debug, PartialEq, Eq)]
pub struct Board {
    pub size: usize,
    pub field: Vec<u8>,
}

impl View for Board {
    type V = Grid;

    open spec fn view(&self) -> Grid {
        Grid { size: self.size as int, cells: self.field@ }
    }
}

impl Board {
    /// A square of marks, small enough for its cells and its moves to be
    /// counted.
    pub open spec fn wf(&self) -> bool {
        self@.wf() && self.size * self.size + 2 <= usize::MAX
    }

    /// The empty board of side `size`.
    pub fn new(size: usize) -> (r: Board)
        requires
            size * size + 2 <= usize::MAX,
        ensures
            r.wf(),
            r@ == Grid::empty(size as int),
    {
        let total: usize = size * size;
        let mut field: Vec<u8> = Vec::new();
        let mut i: usize = 0;
        while i < total
            invariant
                i <= total,
                field@.len() == i,
                forall|j: int| 0 <= j < i ==> field@[j] == EMPTY,
            decreases total - i,
        {
            field.push(EMPTY);
            i = i + 1;
        }
        let r = Board { size, field };
        assert(r@.cells =~= Grid::empty(size as int).cells);
        r
    }

    /// The number of cells that hold a stone.
    pub fn count_filled(&self) -> (r: usize)
        ensures
            r == filled(self.field@),
    {
        let mut count: usize = 0;
        let mut i: usize = 0;
        assert(self.field@.take(0) =~= Seq::<u8>::empty());
        while i < self.field.len()
            invariant
                i <= self.field@.len(),
                count == filled(self.field@.take(i as int)),
                count <= i,
            decreases self.field@.len() - i,
        {
            assert(self.field@.take(i + 1).drop_last() =~= self.field@.take(i as int));
            if self.field[i] != EMPTY {
                count = count + 1;
            }
            i = i + 1;
        }
        assert(self.field@.take(i as int) =~= self.field@);
        count
    }

    /// Whether the board is well formed.
    pub fn is_valid(&self) -> (r: bool)
        ensures
            r == self.wf(),
    {
        let total: usize = match self.size.checked_mul(self.size) {
            Some(total) => total,
            None => {
                return false;
            },
        };
        if total > usize::MAX - 2 || self.field.len() != total {
            return false;
        }
        let mut i: usize = 0;
        while i < self.field.len()
            invariant
                i <= self.field@.len(),
                forall|j: int| 0 <= j < i ==> #[trigger] self.field@[j] <= SECOND,
            decreases self.field@.len() - i,
        {
            if self.field[i] > SECOND {
                return false;
            }
            i = i + 1;
        }
        true
    }

    /// The mark of a cell.
    pub fn get_cell(&self, cell: &Cell) -> (r: u8)
        requires
            self.wf(),
            self@.contains(cell.x as int, cell.y as int),
        ensures
            r == self@.at(cell.x as int, cell.y as int),
            r <= SECOND,
    {
        proof {
            lemma_place(self.size as int, cell.x as int, cell.y as int);
        }
        self.field[cell.y * self.size + cell.x]
    }

    /// Sets the mark of a cell.
    pub fn set_cell(&mut self, cell: &Cell, mark: u8)
        requires
            old(self).wf(),
            old(self)@.contains(cell.x as int, cell.y as int),
            mark <= SECOND,
        ensures
            final(self).wf(),
            final(self)@ == old(self)@.put(cell.x as int, cell.y as int, mark),
    {
        proof {
            lemma_place(self.size as int, cell.x as int, cell.y as int);
        }
        self.field.set(cell.y * self.size + cell.x, mark);
    }

    /// The board after the swap: every stone mirrored at the main diagonal and
    /// handed to the other player.
    pub fn swapped(&self) -> (r: Board)
        requires
            self.wf(),
        ensures
            r.wf(),
            r@ == self@.swapped(),
    {
        let n: usize = self.size;
        let mut field: Vec<u8> = Vec::new();
        let mut y: usize = 0;
        while y < n
            invariant
                self.wf(),
                n == self.size,
                y <= n,
                field@.len() == y * n,
                forall|i: int| 0 <= i < field@.len() ==> field@[i] == self@.swapped().cells[i],
                forall|i: int| 0 <= i < field@.len() ==> #[trigger] field@[i] <= SECOND,
            decreases n - y,
        {
            let mut x: usize = 0;
            while x < n
                invariant
                    self.wf(),
                    n == self.size,
                    y < n,
                    x <= n,
                    field@.len() == y * n + x,
                    forall|i: int| 0 <= i < field@.len() ==> field@[i] == self@.swapped().cells[i],
                    forall|i: int| 0 <= i < field@.len() ==> #[trigger] field@[i] <= SECOND,
                decreases n - x,
            {
                proof {
                    lemma_place(n as int, x as int, y as int);
                    lemma_place(n as int, y as int, x as int);
                        }
                let mark = self.field[x * n + y];
                let turned: u8 = if mark == FIRST {
                    SECOND
                } else if mark == SECOND {
                    FIRST
                } else {
                    mark
                };
                field.push(turned);
                x = x + 1;
            }
            assert((y + 1) * n == y * n + n) by (nonlinear_arith);
            y = y + 1;
        }
        let r = Board { size: n, field };
        assert(r@.cells =~= self@.swapped().cells);
        r
    }
}

} // verus!
