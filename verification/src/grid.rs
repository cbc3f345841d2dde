//! The executable grid: a dense matrix of cells kept row by row in one buffer.

use crate::model::{tally, GridModel};
use crate::random::random_state;
use vstd::arithmetic::div_mod::lemma_fundamental_div_mod_converse;
use vstd::prelude::*;

verus! {

/// Why a grid operation was refused.
#[derive(Clone, Copy, Debug, PartialEq, Eq, Structural)]
pub enum GridError {
    /// The coordinates do not name a cell of the grid.
    OutOfBounds,
}

/// A grid of cells whose extent is fixed when it is made. The cell `(x, y)`
/// is kept at position `y * width + x` of the buffer.
#[derive(Debug)]
pub struct Grid {
    width: usize,
    height: usize,
    cells: Vec<bool>,
}

/// The position of `(x, y)` in a row-major buffer of rows `width` long.
spec fn flat_index(width: int, x: int, y: int) -> int {
    y * width + x
}

/// Whether `a` comes before `b` when the cells are read row by row, and each
/// row from its first column.
pub open spec fn row_major_before(a: (usize, usize), b: (usize, usize)) -> bool {
    a.1 < b.1 || (a.1 == b.1 && a.0 < b.0)
}

/// A cell of the grid has a position inside the buffer, and column and row
/// can be read back from that position.
proof fn lemma_flat_index(width: int, height: int, x: int, y: int)
    requires
        0 <= x < width,
        0 <= y < height,
    ensures
        0 <= flat_index(width, x, y) < width * height,
        flat_index(width, x, y) % width == x,
        flat_index(width, x, y) / width == y,
{
    assert(y * width + x < width * height) by (nonlinear_arith)
        requires
            0 <= x < width,
            0 <= y < height,
    ;
    assert(0 <= y * width) by (nonlinear_arith)
        requires
            0 <= y,
            0 < width,
    ;
    lemma_fundamental_div_mod_converse(y * width + x, width, y, x);
}

impl View for Grid {
    type V = GridModel;

    closed spec fn view(&self) -> GridModel {
        GridModel {
            width: self.width as nat,
            height: self.height as nat,
            alive: Set::new(
                |p: (int, int)|
                    0 <= p.0 < self.width && 0 <= p.1 < self.height && self.cells@[flat_index(
                        self.width as int,
                        p.0,
                        p.1,
                    )],
            ),
        }
    }
}

impl Grid {
    /// The buffer holds exactly one state for every cell of the grid.
    pub closed spec fn wf(&self) -> bool {
        self.cells@.len() == self.width * self.height
    }

    /// The view of a valid grid is a valid model, of extents that fit the
    /// machine's word.
    pub proof fn lemma_view_wf(&self)
        ensures
            self@.wf(),
            self@.width <= usize::MAX,
            self@.height <= usize::MAX,
    {
    }

    /// A grid of `width` by `height` cells, all dead.
    pub fn new(width: usize, height: usize) -> (grid: Grid)
        requires
            0 < width,
            0 < height,
            width * height <= usize::MAX,
        ensures
            grid.wf(),
            grid@.width == width,
            grid@.height == height,
            grid@.alive =~= Set::<(int, int)>::empty(),
    {
        let cells: Vec<bool> = vec![false; width * height];
        let grid = Grid { width, height, cells };
        proof {
            assert forall|p: (int, int)| !grid@.alive.contains(p) by {
                if 0 <= p.0 < width && 0 <= p.1 < height {
                    lemma_flat_index(width as int, height as int, p.0, p.1);
                }
            }
        }
        grid
    }

    /// The number of columns.
    pub fn width(&self) -> (w: usize)
        ensures
            w == self@.width,
    {
        self.width
    }

    /// The number of rows.
    pub fn height(&self) -> (h: usize)
        ensures
            h == self@.height,
    {
        self.height
    }

    fn position(&self, x: usize, y: usize) -> (i: usize)
        requires
            self.wf(),
            x < self.width,
            y < self.height,
        ensures
            i == flat_index(self.width as int, x as int, y as int),
            i < self.cells@.len(),
    {
        proof {
            lemma_flat_index(self.width as int, self.height as int, x as int, y as int);
            assert(0 <= y * self.width) by (nonlinear_arith)
                requires
                    0 <= y,
                    0 <= self.width,
            ;
            assert(self.cells@.len() == self.cells.len());
        }
        y * self.width + x
    }

    /// Whether the cell at `(x, y)` lives; `OutOfBounds` where the grid has no
    /// such cell.
    pub fn is_alive(&self, x: usize, y: usize) -> (r: Result<bool, GridError>)
        requires
            self.wf(),
        ensures
            r == if self@.in_bounds(x as int, y as int) {
                Ok::<bool, GridError>(self@.is_alive(x as int, y as int))
            } else {
                Err::<bool, GridError>(GridError::OutOfBounds)
            },
    {
        if x >= self.width || y >= self.height {
            return Err(GridError::OutOfBounds);
        }
        let i = self.position(x, y);
        Ok(self.cells[i])
    }

    /// Gives the cell at `(x, y)` the state `alive`; `OutOfBounds` where the
    /// grid has no such cell, and the grid is then left as it was.
    pub fn set(&mut self, x: usize, y: usize, alive: bool) -> (r: Result<(), GridError>)
        requires
            old(self).wf(),
        ensures
            final(self).wf(),
            old(self)@.in_bounds(x as int, y as int) ==> r.is_ok() && final(self)@ == old(
                self
            )@.with_state(x as int, y as int, alive),
            !old(self)@.in_bounds(x as int, y as int) ==> r == Err::<(), GridError>(
                GridError::OutOfBounds,
            ) && final(self)@ == old(self)@,
    {
        if x >= self.width || y >= self.height {
            return Err(GridError::OutOfBounds);
        }
        let i = self.position(x, y);
        self.cells.set(i, alive);
        proof {
            let w = self.width as int;
            let h = self.height as int;
            assert forall|p: (int, int)|
                final(self)@.alive.contains(p) == old(self)@.with_state(
                    x as int,
                    y as int,
                    alive,
                ).alive.contains(p) by {
                if 0 <= p.0 < w && 0 <= p.1 < h {
                    lemma_flat_index(w, h, p.0, p.1);
                    lemma_flat_index(w, h, x as int, y as int);
                }
            }
            assert(final(self)@.alive =~= old(self)@.with_state(x as int, y as int, alive).alive);
        }
        Ok(())
    }

    /// Flips the cell at `(x, y)`; `OutOfBounds` where the grid has no such
    /// cell, and the grid is then left as it was.
    pub fn toggle(&mut self, x: usize, y: usize) -> (r: Result<(), GridError>)
        requires
            old(self).wf(),
        ensures
            final(self).wf(),
            old(self)@.in_bounds(x as int, y as int) ==> r.is_ok() && final(self)@ == old(
                self
            )@.toggle(x as int, y as int),
            !old(self)@.in_bounds(x as int, y as int) ==> r == Err::<(), GridError>(
                GridError::OutOfBounds,
            ) && final(self)@ == old(self)@,
    {
        match self.is_alive(x, y) {
            Ok(alive) => {
                proof {
                    old(self)@.lemma_toggle_is_with_state(x as int, y as int);
                }
                self.set(x, y, !alive)
            },
            Err(e) => Err(e),
        }
    }

    /// Makes every cell dead.
    pub fn clear(&mut self)
        requires
            old(self).wf(),
        ensures
            final(self).wf(),
            final(self)@ == old(self)@.cleared(),
    {
        let n = self.cells.len();
        let mut i: usize = 0;
        while i < n
            invariant
                i <= n,
                n == self.cells@.len(),
                self.wf(),
                self.width == old(self).width,
                self.height == old(self).height,
                forall|k: int| 0 <= k < i ==> !self.cells@[k],
            decreases n - i,
        {
            self.cells.set(i, false);
            i += 1;
        }
        proof {
            assert forall|p: (int, int)| !final(self)@.alive.contains(p) by {
                if 0 <= p.0 < self.width && 0 <= p.1 < self.height {
                    lemma_flat_index(self.width as int, self.height as int, p.0, p.1);
                }
            }
            assert(final(self)@.alive =~= old(self)@.cleared().alive);
        }
    }

    /// Replaces the contents of the grid by `states`, which holds one state
    /// for each cell, row by row: the cell at `(x, y)` gets
    /// `states[y * width + x]`.
    pub fn fill(&mut self, states: &Vec<bool>)
        requires
            old(self).wf(),
            states@.len() == old(self)@.width * old(self)@.height,
        ensures
            final(self).wf(),
            final(self)@ == old(self)@.filled(states@),
    {
        let n = self.cells.len();
        let mut i: usize = 0;
        while i < n
            invariant
                i <= n,
                n == self.cells@.len(),
                n == states@.len(),
                self.wf(),
                self.width == old(self).width,
                self.height == old(self).height,
                forall|k: int| 0 <= k < i ==> self.cells@[k] == states@[k],
            decreases n - i,
        {
            self.cells.set(i, states[i]);
            i += 1;
        }
        proof {
            assert forall|p: (int, int)|
                final(self)@.alive.contains(p) == old(self)@.filled(states@).alive.contains(
                    p,
                ) by {
                if 0 <= p.0 < self.width && 0 <= p.1 < self.height {
                    lemma_flat_index(self.width as int, self.height as int, p.0, p.1);
                }
            }
            assert(final(self)@.alive =~= old(self)@.filled(states@).alive);
        }
    }

    /// Gives every cell a state drawn from `rng`, and hands back the states
    /// in the order drawn: one draw for each cell, row by row and within a row
    /// from the first column to the last, so that the cell at `(x, y)` holds
    /// the draw `y * width + x`. Which states are drawn is up to the
    /// generator.
    pub fn randomize(&mut self, rng: &mut rand::rngs::StdRng) -> (drawn: Vec<bool>)
        requires
            old(self).wf(),
        ensures
            final(self).wf(),
            drawn@.len() == old(self)@.width * old(self)@.height,
            final(self)@ == old(self)@.filled(drawn@),
    {
        let n = self.cells.len();
        let mut drawn: Vec<bool> = Vec::with_capacity(n);
        let mut i: usize = 0;
        while i < n
            invariant
                i <= n,
                drawn@.len() == i,
            decreases n - i,
        {
            let alive = random_state(rng);
            drawn.push(alive);
            i += 1;
        }
        self.fill(&drawn);
        drawn
    }

    /// The column next to `v` in direction `d`, if it lies below `limit`.
    fn shifted(v: usize, d: i8, limit: usize) -> (r: Option<usize>)
        requires
            v < limit,
            -1 <= d <= 1,
        ensures
            r == if 0 <= v + d < limit {
                Some((v + d) as usize)
            } else {
                None::<usize>
            },
    {
        if d < 0 {
            if v == 0 {
                None
            } else {
                Some(v - 1)
            }
        } else if d > 0 {
            if v + 1 < limit {
                Some(v + 1)
            } else {
                None
            }
        } else {
            Some(v)
        }
    }

    /// One if the cell at `(x + dx, y + dy)` lies on the grid and lives, else
    /// zero.
    fn neighbor(&self, x: usize, y: usize, dx: i8, dy: i8) -> (n: u8)
        requires
            self.wf(),
            x < self.width,
            y < self.height,
            -1 <= dx <= 1,
            -1 <= dy <= 1,
        ensures
            n == tally(self@.is_alive(x + dx, y + dy)),
    {
        match (Self::shifted(x, dx, self.width), Self::shifted(y, dy, self.height)) {
            (Some(nx), Some(ny)) => {
                let i = self.position(nx, ny);
                if self.cells[i] {
                    1
                } else {
                    0
                }
            },
            _ => 0,
        }
    }

    /// The number of living cells among the eight around `(x, y)`.
    fn live_neighbors(&self, x: usize, y: usize) -> (n: u8)
        requires
            self.wf(),
            x < self.width,
            y < self.height,
        ensures
            n == self@.live_neighbors(x as int, y as int),
    {
        let a: u8 = self.neighbor(x, y, -1, -1);
        let b: u8 = self.neighbor(x, y, -1, 0);
        let c: u8 = self.neighbor(x, y, -1, 1);
        let d: u8 = self.neighbor(x, y, 0, -1);
        let e: u8 = self.neighbor(x, y, 0, 1);
        let f: u8 = self.neighbor(x, y, 1, -1);
        let g: u8 = self.neighbor(x, y, 1, 0);
        let h: u8 = self.neighbor(x, y, 1, 1);
        a + b + c + d + e + f + g + h
    }

    /// Replaces the grid by its next generation. Every cell is decided from
    /// the generation before the call: the new states are written to a buffer
    /// of their own, which then takes the place of the old one.
    pub fn advance(&mut self)
        requires
            old(self).wf(),
        ensures
            final(self).wf(),
            final(self)@ == old(self)@.step(),
    {
        let n = self.cells.len();
        let mut next: Vec<bool> = Vec::with_capacity(n);
        let mut y: usize = 0;
        while y < self.height
            invariant
                self.wf(),
                *self == *old(self),
                y <= self.height,
                next@.len() == y * self.width,
                forall|i: int|
                    0 <= i < next@.len() ==> #[trigger] next@[i] == self@.next_alive(
                        i % (self.width as int),
                        i / (self.width as int),
                    ),
            decreases self.height - y,
        {
            let mut x: usize = 0;
            while x < self.width
                invariant
                    self.wf(),
                    *self == *old(self),
                    y < self.height,
                    x <= self.width,
                    next@.len() == y * self.width + x,
                    forall|i: int|
                        0 <= i < next@.len() ==> #[trigger] next@[i] == self@.next_alive(
                            i % (self.width as int),
                            i / (self.width as int),
                        ),
                decreases self.width - x,
            {
                let i = self.position(x, y);
                let count = self.live_neighbors(x, y);
                let alive = if self.cells[i] {
                    count == 2 || count == 3
                } else {
                    count == 3
                };
                proof {
                    lemma_flat_index(self.width as int, self.height as int, x as int, y as int);
                }
                next.push(alive);
                x += 1;
            }
            proof {
                assert(y * self.width + self.width == (y + 1) * self.width) by (nonlinear_arith);
            }
            y += 1;
        }
        proof {
            assert(y * self.width == self.width * self.height) by (nonlinear_arith)
                requires
                    y == self.height,
            ;
        }
        self.cells = next;
        proof {
            let w = self.width as int;
            let h = self.height as int;
            assert forall|p: (int, int)|
                final(self)@.alive.contains(p) == old(self)@.step().alive.contains(p) by {
                if 0 <= p.0 < w && 0 <= p.1 < h {
                    lemma_flat_index(w, h, p.0, p.1);
                }
            }
            assert(final(self)@.alive =~= old(self)@.step().alive);
        }
    }

    /// The coordinates of the living cells, row by row from the first row, and
    /// within a row from the first column to the last. Each living cell occurs
    /// once, and no dead cell occurs.
    pub fn iter_alive(&self) -> (cells: Vec<(usize, usize)>)
        requires
            self.wf(),
        ensures
            forall|x: usize, y: usize|
                #![trigger cells@.contains((x, y))]
                #![trigger self@.is_alive(x as int, y as int)]
                cells@.contains((x, y)) <==> self@.is_alive(x as int, y as int),
            forall|j: int, k: int|
                0 <= j < k < cells@.len() ==> row_major_before(
                    #[trigger] cells@[j],
                    #[trigger] cells@[k],
                ),
    {
        let mut cells: Vec<(usize, usize)> = Vec::new();
        let mut y: usize = 0;
        while y < self.height
            invariant
                self.wf(),
                y <= self.height,
                forall|a: usize, b: usize|
                    #![trigger cells@.contains((a, b))]
                    cells@.contains((a, b)) <==> self@.is_alive(a as int, b as int) && b < y,
                forall|j: int, k: int|
                    0 <= j < k < cells@.len() ==> row_major_before(
                        #[trigger] cells@[j],
                        #[trigger] cells@[k],
                    ),
            decreases self.height - y,
        {
            let mut x: usize = 0;
            while x < self.width
                invariant
                    self.wf(),
                    y < self.height,
                    x <= self.width,
                    forall|a: usize, b: usize|
                        #![trigger cells@.contains((a, b))]
                        cells@.contains((a, b)) <==> self@.is_alive(a as int, b as int) && (b < y
                            || (b == y && a < x)),
                    forall|j: int, k: int|
                        0 <= j < k < cells@.len() ==> row_major_before(
                            #[trigger] cells@[j],
                            #[trigger] cells@[k],
                        ),
                decreases self.width - x,
            {
                let i = self.position(x, y);
                if self.cells[i] {
                    let ghost before = cells@;
                    cells.push((x, y));
                    proof {
                        let last = before.len() as int;
                        assert(cells@[last] == (x, y));
                        assert(self@.is_alive(x as int, y as int));
                        assert forall|a: usize, b: usize|
                            #![trigger cells@.contains((a, b))]
                            cells@.contains((a, b)) <==> self@.is_alive(a as int, b as int) && (b
                                < y || (b == y && a < x + 1)) by {
                            if cells@.contains((a, b)) {
                                let k = choose|k: int| 0 <= k < cells@.len() && cells@[k] == (a, b);
                                if k < last {
                                    assert(before[k] == (a, b));
                                    assert(before.contains((a, b)));
                                }
                            }
                            if before.contains((a, b)) {
                                let k = choose|k: int| 0 <= k < before.len() && before[k] == (a, b);
                                assert(cells@[k] == (a, b));
                            }
                        }
                        assert forall|j: int, k: int|
                            0 <= j < k < cells@.len() implies row_major_before(
                            #[trigger] cells@[j],
                            #[trigger] cells@[k],
                        ) by {
                            if k == last {
                                let (a, b) = before[j];
                                assert(before[j] == (a, b));
                                assert(before.contains((a, b)));
                            } else {
                                assert(cells@[j] == before[j]);
                                assert(cells@[k] == before[k]);
                            }
                        }
                    }
                }
                x += 1;
            }
            y += 1;
        }
        cells
    }
}

} // verus!
