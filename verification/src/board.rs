//! The grid as mathematics: its size, the set of positions that are alive,
//! and the rules of the game stated over them.

use crate::cell::{Block, Location, Neighbor};
use vstd::prelude::*;

verus! {

/// What a grid holds at one moment: `rows` by `cols` positions and the set of
/// those that are alive, each written `(x, y)` with the column first.
pub struct Board {
    pub rows: nat,
    pub cols: nat,
    pub live: Set<(int, int)>,
}

/// The step from a cell to its `k`-th neighbour, in the order in which
/// neighbours are scanned. `k` runs from 0 to 7.
pub open spec fn offset(k: int) -> (int, int) {
    if k == 0 {
        (-1, -1)
    } else if k == 1 {
        (-1, 0)
    } else if k == 2 {
        (-1, 1)
    } else if k == 3 {
        (0, 1)
    } else if k == 4 {
        (0, -1)
    } else if k == 5 {
        (1, 1)
    } else if k == 6 {
        (1, -1)
    } else {
        (1, 0)
    }
}

/// The place in the scan order of the step `(dx, dy)`; the inverse of
/// [`offset`] on the eight steps that lead to a neighbour.
pub open spec fn direction(dx: int, dy: int) -> int {
    if dx == -1 {
        if dy == -1 {
            0
        } else if dy == 0 {
            1
        } else {
            2
        }
    } else if dx == 0 {
        if dy == 1 {
            3
        } else {
            4
        }
    } else {
        if dy == 1 {
            5
        } else if dy == -1 {
            6
        } else {
            7
        }
    }
}

/// Two positions touch: they differ, by at most one column and one row.
pub open spec fn adjacent(a: (int, int), b: (int, int)) -> bool {
    &&& a != b
    &&& -1 <= a.0 - b.0 <= 1
    &&& -1 <= a.1 - b.1 <= 1
}

/// The live blocks among `found`, in order.
pub open spec fn blocks_in(found: Seq<Neighbor>) -> Seq<Block>
    decreases found.len(),
{
    if found.len() == 0 {
        Seq::empty()
    } else {
        let before = blocks_in(found.drop_last());
        match found.last() {
            Neighbor::Block(b) => before.push(b),
            Neighbor::Location(_) => before,
        }
    }
}

/// The empty locations among `found`, in order.
pub open spec fn locations_in(found: Seq<Neighbor>) -> Seq<Location>
    decreases found.len(),
{
    if found.len() == 0 {
        Seq::empty()
    } else {
        let before = locations_in(found.drop_last());
        match found.last() {
            Neighbor::Block(_) => before,
            Neighbor::Location(l) => before.push(l),
        }
    }
}

impl Board {
    /// The board of the given size on which nothing is alive.
    pub open spec fn empty(rows: nat, cols: nat) -> Board {
        Board { rows, cols, live: Set::empty() }
    }

    /// `(x, y)` lies on the board.
    pub open spec fn valid(self, x: int, y: int) -> bool {
        0 <= y < self.rows && 0 <= x < self.cols
    }

    /// `(x, y)` is alive.
    pub open spec fn alive(self, x: int, y: int) -> bool {
        self.live.contains((x, y))
    }

    /// Nothing is alive outside the board, and the board is small enough for
    /// each of its positions to be named by a [`Location`].
    pub open spec fn wf(self) -> bool {
        &&& self.rows <= usize::MAX
        &&& self.cols <= usize::MAX
        &&& forall|x: int, y: int| #[trigger] self.live.contains((x, y)) ==> self.valid(x, y)
    }

    /// The board after `(x, y)` was brought to life. A position outside the
    /// board is ignored.
    pub open spec fn insert(self, x: int, y: int) -> Board {
        if self.valid(x, y) {
            Board { live: self.live.insert((x, y)), ..self }
        } else {
            self
        }
    }

    /// The board after `(x, y)` was cleared. A position outside the board is
    /// ignored.
    pub open spec fn remove(self, x: int, y: int) -> Board {
        if self.valid(x, y) {
            Board { live: self.live.remove((x, y)), ..self }
        } else {
            self
        }
    }

    /// The board once it has room for `rows` by `cols` positions: it never
    /// shrinks, and what is alive stays where it is.
    pub open spec fn grow(self, rows: nat, cols: nat) -> Board {
        Board {
            rows: if rows > self.rows {
                rows
            } else {
                self.rows
            },
            cols: if cols > self.cols {
                cols
            } else {
                self.cols
            },
            live: self.live,
        }
    }

    /// What the scan finds in direction `k` from `(x, y)`: nothing when that
    /// position is off the board, else the block or the empty location.
    pub open spec fn neighbor_at(self, x: int, y: int, k: int) -> Option<Neighbor> {
        let nx = x + offset(k).0;
        let ny = y + offset(k).1;
        let loc = Location { x: nx as usize, y: ny as usize };
        if !self.valid(nx, ny) {
            None
        } else if self.alive(nx, ny) {
            Some(Neighbor::Block(Block { loc }))
        } else {
            Some(Neighbor::Location(loc))
        }
    }

    /// What the scan has found around `(x, y)` after its first `k` directions.
    pub open spec fn neighbors_upto(self, x: int, y: int, k: nat) -> Seq<Neighbor>
        decreases k,
    {
        if k == 0 {
            Seq::empty()
        } else {
            let before = self.neighbors_upto(x, y, (k - 1) as nat);
            match self.neighbor_at(x, y, k - 1) {
                Some(n) => before.push(n),
                None => before,
            }
        }
    }

    /// The neighbours of `(x, y)`: the up to eight positions around it that
    /// lie on the board, in scan order. A position off the board has none.
    pub open spec fn neighbors_of(self, x: int, y: int) -> Seq<Neighbor> {
        if self.valid(x, y) {
            self.neighbors_upto(x, y, 8)
        } else {
            Seq::empty()
        }
    }

    /// 1 if `(x, y)` is alive, else 0.
    pub open spec fn lit(self, x: int, y: int) -> nat {
        if self.alive(x, y) {
            1
        } else {
            0
        }
    }

    /// How many of the first `k` directions from `(x, y)` lead to a live
    /// position.
    pub open spec fn count_upto(self, x: int, y: int, k: nat) -> nat
        decreases k,
    {
        if k == 0 {
            0
        } else {
            self.count_upto(x, y, (k - 1) as nat) + self.lit(
                x + offset(k - 1).0,
                y + offset(k - 1).1,
            )
        }
    }

    /// How many of the eight positions around `(x, y)` are alive.
    pub open spec fn live_count(self, x: int, y: int) -> nat {
        self.lit(x - 1, y - 1) + self.lit(x - 1, y) + self.lit(x - 1, y + 1) + self.lit(x, y + 1)
            + self.lit(x, y - 1) + self.lit(x + 1, y + 1) + self.lit(x + 1, y - 1) + self.lit(
            x + 1,
            y,
        )
    }

    /// `(x, y)` is alive and stays so: it has two or three live neighbours.
    pub open spec fn survives(self, x: int, y: int) -> bool {
        self.alive(x, y) && (self.live_count(x, y) == 2 || self.live_count(x, y) == 3)
    }

    /// `(x, y)` is an empty position of the board that comes to life: it has
    /// exactly three live neighbours.
    pub open spec fn born(self, x: int, y: int) -> bool {
        self.valid(x, y) && !self.alive(x, y) && self.live_count(x, y) == 3
    }

    /// The next generation: the survivors and the newly born, all decided on
    /// this board.
    pub open spec fn step(self) -> Board {
        Board {
            rows: self.rows,
            cols: self.cols,
            live: Set::new(|c: (int, int)| self.survives(c.0, c.1) || self.born(c.0, c.1)),
        }
    }
}

} // verus!
