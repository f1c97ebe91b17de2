//! Who has won: whether a chain of a player's stones joins that player's two
//! sides of the board.

use vstd::prelude::*;
use crate::board::{filled, lemma_filled_bound, lemma_filled_update, lemma_place, Board, Grid, FIRST, SECOND};
use crate::cell::Cell;

verus! {

/// Whether two positions are neighbours on the hexagonal grid: each position
/// has six, two in its row, two in its column, and two on one diagonal.
pub open spec fn adjacent(x: int, y: int, x2: int, y2: int) -> bool {
    ||| (x2 == x + 1 && y2 == y)
    ||| (x2 == x - 1 && y2 == y)
    ||| (x2 == x && y2 == y + 1)
    ||| (x2 == x && y2 == y - 1)
    ||| (x2 == x + 1 && y2 == y - 1)
    ||| (x2 == x - 1 && y2 == y + 1)
}

impl Grid {
    /// Whether the position lies on the board and carries `mark`.
    pub open spec fn owns(self, mark: u8, x: int, y: int) -> bool {
        self.contains(x, y) && self.at(x, y) == mark
    }

    /// The side a chain starts from: the first row for the first player, the
    /// first column for the second.
    pub open spec fn on_start(self, mark: u8, x: int, y: int) -> bool {
        if mark == FIRST {
            y == 0
        } else {
            x == 0
        }
    }

    /// The side a chain has to reach: the last row for the first player, the
    /// last column for the second.
    pub open spec fn on_goal(self, mark: u8, x: int, y: int) -> bool {
        if mark == FIRST {
            y == self.size - 1
        } else {
            x == self.size - 1
        }
    }

    /// A chain: stones of one player, the first on the starting side, each
    /// next to the one before.
    pub open spec fn chain(self, mark: u8, path: Seq<(int, int)>) -> bool {
        &&& path.len() > 0
        &&& self.on_start(mark, path[0].0, path[0].1)
        &&& forall|i: int| 0 <= i < path.len() ==> self.owns(mark, (#[trigger] path[i]).0, path[i].1)
        &&& forall|i: int|
            0 <= i < path.len() - 1 ==> adjacent(
                (#[trigger] path[i]).0,
                path[i].1,
                path[i + 1].0,
                path[i + 1].1,
            )
    }

    /// Whether a chain ends at the position.
    pub open spec fn reached(self, mark: u8, x: int, y: int) -> bool {
        exists|path: Seq<(int, int)>| #[trigger] self.chain(mark, path) && path.last() == (x, y)
    }

    /// Whether a chain of `mark` joins its two sides.
    pub open spec fn wins(self, mark: u8) -> bool {
        exists|x: int, y: int| self.on_goal(mark, x, y) && #[trigger] self.reached(mark, x, y)
    }
}

/// A stone on the starting side is a chain by itself.
proof fn lemma_seed(grid: Grid, mark: u8, x: int, y: int)
    requires
        grid.owns(mark, x, y),
        grid.on_start(mark, x, y),
    ensures
        grid.reached(mark, x, y),
{
    let path = seq![(x, y)];
    assert(grid.chain(mark, path));
    assert(path.last() == (x, y));
}

/// A chain goes on to a neighbouring stone of the same player.
proof fn lemma_extend(grid: Grid, mark: u8, x: int, y: int, x2: int, y2: int)
    requires
        grid.reached(mark, x, y),
        grid.owns(mark, x2, y2),
        adjacent(x, y, x2, y2),
    ensures
        grid.reached(mark, x2, y2),
{
    let path = choose|path: Seq<(int, int)>| #[trigger] grid.chain(mark, path) && path.last() == (x, y);
    let longer = path.push((x2, y2));
    assert forall|i: int| 0 <= i < longer.len() implies grid.owns(
        mark,
        (#[trigger] longer[i]).0,
        longer[i].1,
    ) by {
        if i < path.len() {
            assert(longer[i] == path[i]);
        }
    }
    assert forall|i: int| 0 <= i < longer.len() - 1 implies adjacent(
        (#[trigger] longer[i]).0,
        longer[i].1,
        longer[i + 1].0,
        longer[i + 1].1,
    ) by {
        assert(longer[i] == path[i]);
        if i < path.len() - 1 {
            assert(longer[i + 1] == path[i + 1]);
        }
    }
    assert(longer[0] == path[0]);
    assert(grid.chain(mark, longer));
    assert(longer.last() == (x2, y2));
}

/// Whether the search has reached the position.
spec fn marked(marks: Seq<u8>, size: int, x: int, y: int) -> bool {
    marks[y * size + x] != 0
}

/// Whether the position still waits for its neighbours to be looked at.
spec fn pending(stack: Seq<Cell>, x: int, y: int) -> bool {
    exists|j: int| 0 <= j < stack.len() && (#[trigger] stack[j]).x == x && stack[j].y == y
}

/// What the search keeps true: what it has reached is joined to the starting
/// side, and what it has reached and is done with has no neighbour left out.
spec fn flood(
    grid: Grid,
    mark: u8,
    marks: Seq<u8>,
    stack: Seq<Cell>,
    at_hand: bool,
    cx: int,
    cy: int,
) -> bool {
    &&& marks.len() == grid.cells.len()
    &&& forall|j: int|
        0 <= j < stack.len() ==> grid.contains((#[trigger] stack[j]).x as int, stack[j].y as int)
            && marked(marks, grid.size, stack[j].x as int, stack[j].y as int)
    &&& forall|x: int, y: int|
        grid.contains(x, y) && #[trigger] marked(marks, grid.size, x, y) ==> grid.reached(mark, x, y)
    &&& forall|x: int, y: int, x2: int, y2: int|
        grid.contains(x, y) && #[trigger] marked(marks, grid.size, x, y) && #[trigger] grid.owns(
            mark,
            x2,
            y2,
        ) && adjacent(x, y, x2, y2) ==> marked(marks, grid.size, x2, y2) || pending(stack, x, y) || (
        at_hand && x == cx && y == cy)
}

/// Where nothing waits any more, every chain lies within what was reached.
proof fn lemma_flood_complete(grid: Grid, mark: u8, marks: Seq<u8>, path: Seq<(int, int)>, i: int)
    requires
        flood(grid, mark, marks, Seq::<Cell>::empty(), false, 0, 0),
        forall|x: int, y: int|
            grid.owns(mark, x, y) && grid.on_start(mark, x, y) ==> #[trigger] marked(
                marks,
                grid.size,
                x,
                y,
            ),
        grid.chain(mark, path),
        0 <= i < path.len(),
    ensures
        marked(marks, grid.size, path[i].0, path[i].1),
    decreases i,
{
    if i > 0 {
        lemma_flood_complete(grid, mark, marks, path, i - 1);
        let p = path[i - 1];
        let q = path[i];
        assert(grid.owns(mark, p.0, p.1));
        assert(grid.owns(mark, q.0, q.1));
        assert(adjacent(p.0, p.1, q.0, q.1));
        assert(!pending(Seq::<Cell>::empty(), p.0, p.1));
    } else {
        assert(grid.owns(mark, path[0].0, path[0].1));
    }
}

impl Board {
    /// Takes one position into the search, where the player owns it and the
    /// search has not been there.
    fn visit(
        &self,
        mark: u8,
        marks: &mut Vec<u8>,
        stack: &mut Vec<Cell>,
        x: usize,
        y: usize,
        Ghost(at_hand): Ghost<bool>,
        Ghost(cx): Ghost<int>,
        Ghost(cy): Ghost<int>,
    )
        requires
            self.wf(),
            mark != 0,
            flood(self@, mark, old(marks)@, old(stack)@, at_hand, cx, cy),
            self@.contains(x as int, y as int),
            self@.owns(mark, x as int, y as int) ==> self@.reached(mark, x as int, y as int),
        ensures
            flood(self@, mark, final(marks)@, final(stack)@, at_hand, cx, cy),
            forall|a: int, b: int|
                self@.contains(a, b) && marked(old(marks)@, self.size as int, a, b) ==> #[trigger] marked(
                    final(marks)@,
                    self.size as int,
                    a,
                    b,
                ),
            self@.owns(mark, x as int, y as int) ==> marked(
                final(marks)@,
                self.size as int,
                x as int,
                y as int,
            ),
            (final(marks)@ == old(marks)@ && final(stack)@ == old(stack)@) || (filled(final(marks)@)
                == filled(old(marks)@) + 1 && final(stack)@.len() == old(stack)@.len() + 1),
    {
        let n = self.size;
        proof {
            lemma_place(n as int, x as int, y as int);
        }
        let i: usize = y * n + x;
        if self.field[i] == mark && marks[i] == 0 {
            marks.set(i, 1);
            stack.push(Cell { x, y });
            proof {
                let before = old(marks)@;
                let waiting = old(stack)@;
                lemma_filled_update(before, i as int, 1);
                assert forall|a: int, b: int| self@.contains(a, b) implies (#[trigger] marked(
                    marks@,
                    n as int,
                    a,
                    b,
                ) == (marked(before, n as int, a, b) || (a == x && b == y))) by {
                    lemma_place(n as int, a, b);
                }
                assert forall|a: int, b: int| pending(waiting, a, b) implies pending(stack@, a, b) by {
                    let j = choose|j: int|
                        0 <= j < waiting.len() && (#[trigger] waiting[j]).x == a && waiting[j].y == b;
                    assert(stack@[j] == waiting[j]);
                }
                assert(stack@[stack@.len() - 1] == Cell { x, y });
                assert(pending(stack@, x as int, y as int));
                assert forall|j: int| 0 <= j < stack@.len() implies self@.contains(
                    (#[trigger] stack@[j]).x as int,
                    stack@[j].y as int,
                ) && marked(marks@, n as int, stack@[j].x as int, stack@[j].y as int) by {
                    if j < waiting.len() {
                        assert(stack@[j] == waiting[j]);
                    }
                }
                assert forall|a: int, b: int, a2: int, b2: int|
                    self@.contains(a, b) && #[trigger] marked(marks@, n as int, a, b)
                        && #[trigger] self@.owns(mark, a2, b2) && adjacent(
                        a,
                        b,
                        a2,
                        b2,
                    ) implies marked(marks@, n as int, a2, b2) || pending(stack@, a, b) || (at_hand
                    && a == cx && b == cy) by {
                    if a == x && b == y {
                    } else {
                        assert(marked(before, n as int, a, b));
                        if marked(before, n as int, a2, b2) {
                            assert(marked(marks@, n as int, a2, b2));
                        } else if pending(waiting, a, b) {
                            assert(pending(stack@, a, b));
                        }
                    }
                }
            }
        }
    }

    /// Whether the stones of `mark` join that player's two sides.
    pub fn has_won(&self, mark: u8) -> (r: bool)
        requires
            self.wf(),
            mark == FIRST || mark == SECOND,
        ensures
            r == self@.wins(mark),
    {
        let n = self.size;
        let ghost grid = self@;
        let total: usize = n * n;
        let mut marks: Vec<u8> = Vec::new();
        let mut i: usize = 0;
        while i < total
            invariant
                i <= total,
                marks@.len() == i,
                forall|j: int| 0 <= j < i ==> marks@[j] == 0,
            decreases total - i,
        {
            marks.push(0);
            i = i + 1;
        }
        let mut stack: Vec<Cell> = Vec::new();
        proof {
            assert forall|x: int, y: int| grid.contains(x, y) implies !#[trigger] marked(
                marks@,
                grid.size,
                x,
                y,
            ) by {
                lemma_place(grid.size, x, y);
            }
        }
        let mut k: usize = 0;
        while k < n
            invariant
                self.wf(),
                grid == self@,
                n == self.size,
                mark == FIRST || mark == SECOND,
                k <= n,
                flood(grid, mark, marks@, stack@, false, 0, 0),
                forall|x: int, y: int|
                    grid.owns(mark, x, y) && grid.on_start(mark, x, y) && (if mark == FIRST {
                        x < k
                    } else {
                        y < k
                    }) ==> #[trigger] marked(marks@, grid.size, x, y),
            decreases n - k,
        {
            let x: usize = if mark == FIRST { k } else { 0 };
            let y: usize = if mark == FIRST { 0 } else { k };
            proof {
                if grid.owns(mark, x as int, y as int) {
                    lemma_seed(grid, mark, x as int, y as int);
                }
            }
            self.visit(mark, &mut marks, &mut stack, x, y, Ghost(false), Ghost(0), Ghost(0));
            k = k + 1;
        }
        while stack.len() > 0
            invariant
                self.wf(),
                grid == self@,
                n == self.size,
                mark == FIRST || mark == SECOND,
                flood(grid, mark, marks@, stack@, false, 0, 0),
                forall|x: int, y: int|
                    grid.owns(mark, x, y) && grid.on_start(mark, x, y) ==> #[trigger] marked(
                        marks@,
                        grid.size,
                        x,
                        y,
                    ),
            decreases 2 * (marks@.len() - filled(marks@)) + stack@.len(),
        {
            proof {
                lemma_filled_bound(marks@);
            }
            let ghost waiting = stack@;
            let c = stack.pop().unwrap();
            let ghost cx = c.x as int;
            let ghost cy = c.y as int;
            proof {
                assert(waiting[waiting.len() - 1] == c);
                assert forall|a: int, b: int| pending(waiting, a, b) implies pending(stack@, a, b) || (a
                    == cx && b == cy) by {
                    let j = choose|j: int|
                        0 <= j < waiting.len() && (#[trigger] waiting[j]).x == a && waiting[j].y == b;
                    if j < stack@.len() {
                        assert(stack@[j] == waiting[j]);
                    }
                }
                assert forall|j: int| 0 <= j < stack@.len() implies grid.contains(
                    (#[trigger] stack@[j]).x as int,
                    stack@[j].y as int,
                ) && marked(marks@, grid.size, stack@[j].x as int, stack@[j].y as int) by {
                    assert(stack@[j] == waiting[j]);
                }
                assert(flood(grid, mark, marks@, stack@, true, cx, cy));
            }
            assert(marked(marks@, grid.size, cx, cy));
            if c.x + 1 < n {
                proof {
                    if grid.owns(mark, cx + 1, cy) {
                        lemma_extend(grid, mark, cx, cy, cx + 1, cy);
                    }
                }
                self.visit(mark, &mut marks, &mut stack, c.x + 1, c.y, Ghost(true), Ghost(cx), Ghost(cy));
            }
            assert(grid.owns(mark, cx + 1, cy) ==> marked(marks@, grid.size, cx + 1, cy));
            if c.x >= 1 {
                proof {
                    if grid.owns(mark, cx - 1, cy) {
                        lemma_extend(grid, mark, cx, cy, cx - 1, cy);
                    }
                }
                self.visit(mark, &mut marks, &mut stack, c.x - 1, c.y, Ghost(true), Ghost(cx), Ghost(cy));
            }
            assert(grid.owns(mark, cx + 1, cy) ==> marked(marks@, grid.size, cx + 1, cy));
            assert(grid.owns(mark, cx - 1, cy) ==> marked(marks@, grid.size, cx - 1, cy));
            if c.y + 1 < n {
                proof {
                    if grid.owns(mark, cx, cy + 1) {
                        lemma_extend(grid, mark, cx, cy, cx, cy + 1);
                    }
                }
                self.visit(mark, &mut marks, &mut stack, c.x, c.y + 1, Ghost(true), Ghost(cx), Ghost(cy));
            }
            assert(grid.owns(mark, cx + 1, cy) ==> marked(marks@, grid.size, cx + 1, cy));
            assert(grid.owns(mark, cx - 1, cy) ==> marked(marks@, grid.size, cx - 1, cy));
            assert(grid.owns(mark, cx, cy + 1) ==> marked(marks@, grid.size, cx, cy + 1));
            if c.y >= 1 {
                proof {
                    if grid.owns(mark, cx, cy - 1) {
                        lemma_extend(grid, mark, cx, cy, cx, cy - 1);
                    }
                }
                self.visit(mark, &mut marks, &mut stack, c.x, c.y - 1, Ghost(true), Ghost(cx), Ghost(cy));
            }
            assert(grid.owns(mark, cx + 1, cy) ==> marked(marks@, grid.size, cx + 1, cy));
            assert(grid.owns(mark, cx - 1, cy) ==> marked(marks@, grid.size, cx - 1, cy));
            assert(grid.owns(mark, cx, cy + 1) ==> marked(marks@, grid.size, cx, cy + 1));
            assert(grid.owns(mark, cx, cy - 1) ==> marked(marks@, grid.size, cx, cy - 1));
            if c.x + 1 < n && c.y >= 1 {
                proof {
                    if grid.owns(mark, cx + 1, cy - 1) {
                        lemma_extend(grid, mark, cx, cy, cx + 1, cy - 1);
                    }
                }
                self.visit(mark, &mut marks, &mut stack, c.x + 1, c.y - 1, Ghost(true), Ghost(cx), Ghost(cy));
            }
            assert(grid.owns(mark, cx + 1, cy) ==> marked(marks@, grid.size, cx + 1, cy));
            assert(grid.owns(mark, cx - 1, cy) ==> marked(marks@, grid.size, cx - 1, cy));
            assert(grid.owns(mark, cx, cy + 1) ==> marked(marks@, grid.size, cx, cy + 1));
            assert(grid.owns(mark, cx, cy - 1) ==> marked(marks@, grid.size, cx, cy - 1));
            assert(grid.owns(mark, cx + 1, cy - 1) ==> marked(marks@, grid.size, cx + 1, cy - 1));
            if c.x >= 1 && c.y + 1 < n {
                proof {
                    if grid.owns(mark, cx - 1, cy + 1) {
                        lemma_extend(grid, mark, cx, cy, cx - 1, cy + 1);
                    }
                }
                self.visit(mark, &mut marks, &mut stack, c.x - 1, c.y + 1, Ghost(true), Ghost(cx), Ghost(cy));
            }
            assert(grid.owns(mark, cx + 1, cy) ==> marked(marks@, grid.size, cx + 1, cy));
            assert(grid.owns(mark, cx - 1, cy) ==> marked(marks@, grid.size, cx - 1, cy));
            assert(grid.owns(mark, cx, cy + 1) ==> marked(marks@, grid.size, cx, cy + 1));
            assert(grid.owns(mark, cx, cy - 1) ==> marked(marks@, grid.size, cx, cy - 1));
            assert(grid.owns(mark, cx + 1, cy - 1) ==> marked(marks@, grid.size, cx + 1, cy - 1));
            assert(grid.owns(mark, cx - 1, cy + 1) ==> marked(marks@, grid.size, cx - 1, cy + 1));
            proof {
                lemma_filled_bound(marks@);
                assert forall|x2: int, y2: int| #[trigger]
                    grid.owns(mark, x2, y2) && adjacent(cx, cy, x2, y2) implies marked(
                    marks@,
                    grid.size,
                    x2,
                    y2,
                ) by {}
            }
        }
        proof {
            assert(stack@ =~= Seq::<Cell>::empty());
        }
        let mut k: usize = 0;
        while k < n
            invariant
                self.wf(),
                grid == self@,
                n == self.size,
                mark == FIRST || mark == SECOND,
                k <= n,
                marks@.len() == grid.cells.len(),
                flood(grid, mark, marks@, Seq::<Cell>::empty(), false, 0, 0),
                forall|x: int, y: int|
                    grid.owns(mark, x, y) && grid.on_start(mark, x, y) ==> #[trigger] marked(
                        marks@,
                        grid.size,
                        x,
                        y,
                    ),
                forall|x: int, y: int|
                    grid.contains(x, y) && grid.on_goal(mark, x, y) && (if mark == FIRST {
                        x < k
                    } else {
                        y < k
                    }) ==> !#[trigger] marked(marks@, grid.size, x, y),
            decreases n - k,
        {
            let x: usize = if mark == FIRST { k } else { n - 1 };
            let y: usize = if mark == FIRST { n - 1 } else { k };
            proof {
                lemma_place(n as int, x as int, y as int);
            }
            if marks[y * n + x] != 0 {
                proof {
                    assert(marked(marks@, grid.size, x as int, y as int));
                    assert(grid.reached(mark, x as int, y as int));
                    assert(grid.on_goal(mark, x as int, y as int));
                }
                return true;
            }
            k = k + 1;
        }
        proof {
            assert forall|x: int, y: int| grid.on_goal(mark, x, y) implies !#[trigger] grid.reached(
                mark,
                x,
                y,
            ) by {
                if grid.reached(mark, x, y) {
                    let path = choose|path: Seq<(int, int)>| #[trigger]
                        grid.chain(mark, path) && path.last() == (x, y);
                    lemma_flood_complete(grid, mark, marks@, path, path.len() - 1);
                    assert(grid.owns(mark, path[path.len() - 1].0, path[path.len() - 1].1));
                }
            }
        }
        false
    }
}

} // verus!
