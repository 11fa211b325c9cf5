//! What holds of every board, whatever lives on it.

use crate::board::{adjacent, Board};
use vstd::prelude::*;

verus! {

impl Board {
    /// Bringing a live cell to life again changes nothing.
    pub proof fn lemma_insert_live_unchanged(self, x: int, y: int)
        requires
            self.alive(x, y),
        ensures
            self.insert(x, y) == self,
    {
        assert(self.live.insert((x, y)) =~= self.live);
    }

    /// Clearing a position at which nothing lives changes nothing.
    pub proof fn lemma_remove_absent_unchanged(self, x: int, y: int)
        requires
            !self.alive(x, y),
        ensures
            self.remove(x, y) == self,
    {
        assert(self.live.remove((x, y)) =~= self.live);
    }

    /// An insertion or a removal made twice does what it did the first time.
    pub proof fn lemma_edit_twice(self, x: int, y: int)
        ensures
            self.insert(x, y).insert(x, y) == self.insert(x, y),
            self.remove(x, y).remove(x, y) == self.remove(x, y),
    {
        assert(self.live.insert((x, y)).insert((x, y)) =~= self.live.insert((x, y)));
        assert(self.live.remove((x, y)).remove((x, y)) =~= self.live.remove((x, y)));
    }

    /// Editing a cell keeps the board in order, and touches no other cell.
    pub proof fn lemma_edit_wf(self, x: int, y: int)
        requires
            self.wf(),
        ensures
            self.insert(x, y).wf(),
            self.remove(x, y).wf(),
            self.valid(x, y) ==> self.insert(x, y).alive(x, y),
            !self.remove(x, y).alive(x, y),
            forall|u: int, v: int|
                (u, v) != (x, y) ==> #[trigger] self.insert(x, y).alive(u, v) == self.alive(u, v),
            forall|u: int, v: int|
                (u, v) != (x, y) ==> #[trigger] self.remove(x, y).alive(u, v) == self.alive(u, v),
    {
        assert(!self.valid(x, y) ==> !self.live.contains((x, y)));
    }

    /// The corner cell `(0, 0)` of a board of at least two rows and two
    /// columns has exactly three neighbours: below, diagonal and right of it,
    /// in this order.
    pub proof fn lemma_corner_neighbors(self)
        requires
            self.wf(),
            self.rows >= 2,
            self.cols >= 2,
        ensures
            self.neighbors_of(0, 0).len() == 3,
            self.neighbors_of(0, 0)[0]@ == (0int, 1int),
            self.neighbors_of(0, 0)[1]@ == (1int, 1int),
            self.neighbors_of(0, 0)[2]@ == (1int, 0int),
    {
        reveal_with_fuel(Board::neighbors_upto, 9);
    }

    /// A cell has at most eight neighbours; each lies on the board and
    /// touches the cell, and is reported as a block exactly when it is alive.
    pub proof fn lemma_neighbors_on_board(self, x: int, y: int)
        requires
            self.wf(),
        ensures
            self.neighbors_of(x, y).len() <= 8,
            forall|i: int|
                0 <= i < self.neighbors_of(x, y).len() ==> {
                    let n = #[trigger] self.neighbors_of(x, y)[i];
                    &&& self.valid(n@.0, n@.1)
                    &&& adjacent(n@, (x, y))
                    &&& n is Block <==> self.live.contains(n@)
                },
    {
        if self.valid(x, y) {
            self.lemma_neighbors_upto_len(x, y, 8);
            assert forall|i: int| 0 <= i < self.neighbors_of(x, y).len() implies {
                let n = #[trigger] self.neighbors_of(x, y)[i];
                &&& self.valid(n@.0, n@.1)
                &&& adjacent(n@, (x, y))
                &&& n is Block <==> self.live.contains(n@)
            } by {
                self.lemma_neighbors_upto_sound(x, y, 8, i);
            }
        }
    }

    /// A live cell with no live neighbour is gone after one generation.
    pub proof fn lemma_lonely_cell_dies(self, x: int, y: int)
        requires
            self.alive(x, y),
            self.live_count(x, y) == 0,
        ensures
            !self.step().alive(x, y),
    {
    }

    /// The next generation lives on the same board, and within it.
    pub proof fn lemma_step_wf(self)
        requires
            self.wf(),
        ensures
            self.step().wf(),
            self.step().rows == self.rows,
            self.step().cols == self.cols,
    {
    }

    /// Nothing comes to life away from the living: a cell of the next
    /// generation was alive or touched a live cell.
    pub proof fn lemma_step_stays_near(self, x: int, y: int)
        requires
            self.step().alive(x, y),
        ensures
            self.alive(x, y) || self.live_count(x, y) == 3,
            self.live_count(x, y) == 2 || self.live_count(x, y) == 3,
    {
    }

    /// Growing a board moves nothing: every position is alive afterwards
    /// exactly if it was before, every old position is still on the board,
    /// and every position that was added is empty.
    pub proof fn lemma_growth_preserves_state(self, rows: nat, cols: nat)
        requires
            self.wf(),
        ensures
            self.grow(rows, cols).rows >= self.rows,
            self.grow(rows, cols).cols >= self.cols,
            self.grow(rows, cols).rows >= rows,
            self.grow(rows, cols).cols >= cols,
            forall|x: int, y: int| #[trigger]
                self.grow(rows, cols).alive(x, y) == self.alive(x, y),
            forall|x: int, y: int| #[trigger]
                self.valid(x, y) ==> self.grow(rows, cols).valid(x, y),
            forall|x: int, y: int|
                !self.valid(x, y) ==> !#[trigger] self.grow(rows, cols).alive(x, y),
            rows <= usize::MAX && cols <= usize::MAX ==> self.grow(rows, cols).wf(),
    {
    }

    /// Asking twice for the same room is asking once, and asking for room
    /// that is there changes nothing.
    pub proof fn lemma_growth_idempotent(self, rows: nat, cols: nat)
        ensures
            self.grow(rows, cols).grow(rows, cols) == self.grow(rows, cols),
            rows <= self.rows && cols <= self.cols ==> self.grow(rows, cols) == self,
    {
    }
}

} // verus!
