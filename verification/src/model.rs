//! The mathematical model of a grid: its extent, the set of living cells, the
//! neighbour count and the rule that maps one generation to the next.

use vstd::prelude::*;

verus! {

/// A grid as a mathematical object: an extent and the set of living cells.
pub struct GridModel {
    pub width: nat,
    pub height: nat,
    pub alive: Set<(int, int)>,
}

/// One for a living cell, zero for a dead one.
pub open spec fn tally(alive: bool) -> nat {
    if alive {
        1
    } else {
        0
    }
}

/// The rule of the game: a living cell survives with two or three living
/// neighbours, a dead cell is born with exactly three.
pub open spec fn next_state(alive: bool, neighbors: nat) -> bool {
    if alive {
        neighbors == 2 || neighbors == 3
    } else {
        neighbors == 3
    }
}

impl GridModel {
    /// Whether `(x, y)` lies on the grid.
    pub open spec fn in_bounds(self, x: int, y: int) -> bool {
        0 <= x < self.width && 0 <= y < self.height
    }

    /// Every living cell lies on the grid.
    pub open spec fn wf(self) -> bool {
        forall|p: (int, int)| #[trigger] self.alive.contains(p) ==> self.in_bounds(p.0, p.1)
    }

    /// Whether the cell at `(x, y)` lives. A position off the grid is dead.
    pub open spec fn is_alive(self, x: int, y: int) -> bool {
        self.in_bounds(x, y) && self.alive.contains((x, y))
    }

    /// The number of living cells among the eight around `(x, y)`. Positions
    /// off the grid count as dead: the grid does not wrap around.
    pub open spec fn live_neighbors(self, x: int, y: int) -> nat {
        tally(self.is_alive(x - 1, y - 1)) + tally(self.is_alive(x - 1, y)) + tally(
            self.is_alive(x - 1, y + 1),
        ) + tally(self.is_alive(x, y - 1)) + tally(self.is_alive(x, y + 1)) + tally(
            self.is_alive(x + 1, y - 1),
        ) + tally(self.is_alive(x + 1, y)) + tally(self.is_alive(x + 1, y + 1))
    }

    /// The number of positions among the eight around `(x, y)` that lie on the
    /// grid.
    pub open spec fn candidate_neighbors(self, x: int, y: int) -> nat {
        tally(self.in_bounds(x - 1, y - 1)) + tally(self.in_bounds(x - 1, y)) + tally(
            self.in_bounds(x - 1, y + 1),
        ) + tally(self.in_bounds(x, y - 1)) + tally(self.in_bounds(x, y + 1)) + tally(
            self.in_bounds(x + 1, y - 1),
        ) + tally(self.in_bounds(x + 1, y)) + tally(self.in_bounds(x + 1, y + 1))
    }

    /// The state of `(x, y)` in the next generation.
    pub open spec fn next_alive(self, x: int, y: int) -> bool {
        self.in_bounds(x, y) && next_state(self.is_alive(x, y), self.live_neighbors(x, y))
    }

    /// The next generation: every cell decided from this generation alone.
    pub open spec fn step(self) -> GridModel {
        GridModel {
            width: self.width,
            height: self.height,
            alive: Set::new(|p: (int, int)| self.next_alive(p.0, p.1)),
        }
    }

    /// The grid with the cell at `(x, y)` flipped.
    pub open spec fn toggle(self, x: int, y: int) -> GridModel {
        GridModel {
            width: self.width,
            height: self.height,
            alive: if self.alive.contains((x, y)) {
                self.alive.remove((x, y))
            } else {
                self.alive.insert((x, y))
            },
        }
    }

    /// The grid with the cell at `(x, y)` in the state `alive`.
    pub open spec fn with_state(self, x: int, y: int, alive: bool) -> GridModel {
        GridModel {
            width: self.width,
            height: self.height,
            alive: if alive {
                self.alive.insert((x, y))
            } else {
                self.alive.remove((x, y))
            },
        }
    }

    /// To flip a cell is to give it the state it does not have.
    pub proof fn lemma_toggle_is_with_state(self, x: int, y: int)
        ensures
            self.toggle(x, y) == self.with_state(x, y, !self.alive.contains((x, y))),
    {
    }

    /// The grid of the same extent whose cells are given by `states`, row by
    /// row: the cell at `(x, y)` lives exactly if `states[y * width + x]` is
    /// true. Nothing of what the grid held before is left.
    pub open spec fn filled(self, states: Seq<bool>) -> GridModel {
        GridModel {
            width: self.width,
            height: self.height,
            alive: Set::new(
                |p: (int, int)| self.in_bounds(p.0, p.1) && states[p.1 * self.width + p.0],
            ),
        }
    }

    /// The grid of the same extent with no living cell.
    pub open spec fn cleared(self) -> GridModel {
        GridModel { width: self.width, height: self.height, alive: Set::empty() }
    }
}

impl GridModel {
    /// Whether `(x, y)` is one of the four corner cells of the grid.
    pub open spec fn is_corner(self, x: int, y: int) -> bool {
        self.in_bounds(x, y) && (x == 0 || x == self.width - 1) && (y == 0 || y == self.height
            - 1)
    }

    /// Whether `(x, y)` is a cell of the grid's first or last column or row.
    pub open spec fn is_edge(self, x: int, y: int) -> bool {
        self.in_bounds(x, y) && (x == 0 || x == self.width - 1 || y == 0 || y == self.height
            - 1)
    }

    /// Whether no cell of the grid lives.
    pub open spec fn all_dead(self) -> bool {
        forall|x: int, y: int| !self.is_alive(x, y)
    }

    /// A generation keeps the extent of the grid, and its living cells lie on
    /// the grid.
    pub proof fn lemma_step_keeps_extent(self)
        ensures
            self.step().width == self.width,
            self.step().height == self.height,
            self.step().wf(),
            forall|x: int, y: int| #[trigger]
                self.step().is_alive(x, y) == self.next_alive(x, y),
    {
    }

    /// Nothing is born on a grid without living cells: its next generation
    /// has none either.
    pub proof fn lemma_dead_stays_dead(self)
        requires
            self.all_dead(),
        ensures
            self.step().all_dead(),
            self.step().alive =~= Set::<(int, int)>::empty(),
    {
        assert forall|x: int, y: int| !self.step().is_alive(x, y) by {
            assert(!self.is_alive(x, y));
            assert(!self.is_alive(x - 1, y - 1));
            assert(!self.is_alive(x - 1, y));
            assert(!self.is_alive(x - 1, y + 1));
            assert(!self.is_alive(x, y - 1));
            assert(!self.is_alive(x, y + 1));
            assert(!self.is_alive(x + 1, y - 1));
            assert(!self.is_alive(x + 1, y));
            assert(!self.is_alive(x + 1, y + 1));
        }
        assert forall|p: (int, int)| !self.step().alive.contains(p) by {
            assert(!self.step().is_alive(p.0, p.1));
        }
    }

    /// A living cell lives on in the next generation exactly if two or three
    /// of its neighbours live: with fewer than two or more than three it dies.
    pub proof fn lemma_survival(self, x: int, y: int)
        requires
            self.is_alive(x, y),
        ensures
            self.step().is_alive(x, y) <==> (self.live_neighbors(x, y) == 2
                || self.live_neighbors(x, y) == 3),
            self.live_neighbors(x, y) <= 1 ==> !self.step().is_alive(x, y),
            self.live_neighbors(x, y) >= 4 ==> !self.step().is_alive(x, y),
    {
    }

    /// A dead cell of the grid lives in the next generation exactly if three
    /// of its neighbours live.
    pub proof fn lemma_birth(self, x: int, y: int)
        requires
            self.in_bounds(x, y),
            !self.is_alive(x, y),
        ensures
            self.step().is_alive(x, y) <==> self.live_neighbors(x, y) == 3,
    {
    }

    /// Only cells of the grid are counted as neighbours: the count of living
    /// neighbours never exceeds the number of neighbouring positions on the
    /// grid, which is at most three for a corner cell, at most five for a cell
    /// of an edge, and at most eight anywhere.
    pub proof fn lemma_neighbors_on_grid(self, x: int, y: int)
        ensures
            self.live_neighbors(x, y) <= self.candidate_neighbors(x, y) <= 8,
            self.is_corner(x, y) ==> self.candidate_neighbors(x, y) <= 3,
            self.is_edge(x, y) ==> self.candidate_neighbors(x, y) <= 5,
    {
    }

    /// The count of living neighbours depends on the cells of the grid alone:
    /// two grids of one extent that agree on every cell of the grid agree on
    /// every count, whatever either holds beyond the edges.
    pub proof fn lemma_neighbors_ignore_outside(self, other: GridModel, x: int, y: int)
        requires
            self.width == other.width,
            self.height == other.height,
            forall|p: (int, int)|
                self.in_bounds(p.0, p.1) ==> (#[trigger] self.alive.contains(p)
                    == other.alive.contains(p)),
        ensures
            self.live_neighbors(x, y) == other.live_neighbors(x, y),
    {
        assert(self.is_alive(x - 1, y - 1) == other.is_alive(x - 1, y - 1));
        assert(self.is_alive(x - 1, y) == other.is_alive(x - 1, y));
        assert(self.is_alive(x - 1, y + 1) == other.is_alive(x - 1, y + 1));
        assert(self.is_alive(x, y - 1) == other.is_alive(x, y - 1));
        assert(self.is_alive(x, y + 1) == other.is_alive(x, y + 1));
        assert(self.is_alive(x + 1, y - 1) == other.is_alive(x + 1, y - 1));
        assert(self.is_alive(x + 1, y) == other.is_alive(x + 1, y));
        assert(self.is_alive(x + 1, y + 1) == other.is_alive(x + 1, y + 1));
    }

    /// To flip a cell twice is to leave the grid as it was.
    pub proof fn lemma_toggle_twice(self, x: int, y: int)
        ensures
            self.toggle(x, y).toggle(x, y) == self,
    {
        assert(self.toggle(x, y).toggle(x, y).alive =~= self.alive);
    }

    /// To flip a cell of the grid changes the state of that cell and of no
    /// other.
    pub proof fn lemma_toggle_flips_one(self, x: int, y: int, u: int, v: int)
        requires
            self.in_bounds(x, y),
        ensures
            self.toggle(x, y).is_alive(x, y) == !self.is_alive(x, y),
            (u, v) != (x, y) ==> self.toggle(x, y).is_alive(u, v) == self.is_alive(u, v),
    {
    }

    /// In a filled grid every cell holds its own state of the sequence, and
    /// positions off the grid are dead.
    pub proof fn lemma_filled_cells(self, states: Seq<bool>, x: int, y: int)
        ensures
            self.filled(states).wf(),
            self.in_bounds(x, y) ==> self.filled(states).is_alive(x, y) == states[y * self.width
                + x],
            !self.in_bounds(x, y) ==> !self.filled(states).is_alive(x, y),
    {
    }

    /// A filled grid depends on its extent and the states alone: two grids
    /// of one extent, whatever they held, are equal once filled with the same
    /// states.
    pub proof fn lemma_filled_forgets(self, other: GridModel, states: Seq<bool>)
        requires
            self.width == other.width,
            self.height == other.height,
        ensures
            self.filled(states) == other.filled(states),
    {
        assert(self.filled(states).alive =~= other.filled(states).alive);
    }

    /// After clearing, no cell lives.
    pub proof fn lemma_cleared_all_dead(self)
        ensures
            self.cleared().all_dead(),
            forall|x: int, y: int| !#[trigger] self.cleared().is_alive(x, y),
    {
    }
}

} // verus!
