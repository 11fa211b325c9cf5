//! Facts about the scan of a cell's neighbours.

use crate::board::{adjacent, blocks_in, direction, locations_in, offset, Board};
use crate::cell::Neighbor;
use vstd::prelude::*;

verus! {

/// Taking the blocks out of a scan that found one thing more.
pub proof fn lemma_blocks_in_push(found: Seq<Neighbor>, n: Neighbor)
    ensures
        blocks_in(found.push(n)) == match n {
            Neighbor::Block(b) => blocks_in(found).push(b),
            Neighbor::Location(_) => blocks_in(found),
        },
{
    assert(found.push(n).drop_last() =~= found);
}

/// Taking the empty locations out of a scan that found one thing more.
pub proof fn lemma_locations_in_push(found: Seq<Neighbor>, n: Neighbor)
    ensures
        locations_in(found.push(n)) == match n {
            Neighbor::Block(_) => locations_in(found),
            Neighbor::Location(l) => locations_in(found).push(l),
        },
{
    assert(found.push(n).drop_last() =~= found);
}

/// A step to a neighbour is one of the eight of the scan, and `direction`
/// tells which.
pub proof fn lemma_direction_of_offset(a: (int, int), b: (int, int))
    requires
        adjacent(a, b),
    ensures
        0 <= direction(a.0 - b.0, a.1 - b.1) < 8,
        offset(direction(a.0 - b.0, a.1 - b.1)) == (a.0 - b.0, a.1 - b.1),
{
}

impl Board {
    /// Every neighbour that the scan reports lies on the board, touches the
    /// cell it was asked for, and is a block exactly when its position is
    /// alive.
    pub proof fn lemma_neighbors_upto_sound(self, x: int, y: int, k: nat, i: int)
        requires
            self.wf(),
            k <= 8,
            0 <= i < self.neighbors_upto(x, y, k).len(),
        ensures
            self.valid(self.neighbors_upto(x, y, k)[i]@.0, self.neighbors_upto(x, y, k)[i]@.1),
            adjacent(self.neighbors_upto(x, y, k)[i]@, (x, y)),
            self.neighbors_upto(x, y, k)[i] is Block <==> self.live.contains(
                self.neighbors_upto(x, y, k)[i]@,
            ),
        decreases k,
    {
        if k > 0 {
            let before = self.neighbors_upto(x, y, (k - 1) as nat);
            if i < before.len() {
                self.lemma_neighbors_upto_sound(x, y, (k - 1) as nat, i);
            }
        }
    }

    /// The scan reports at most one neighbour for each direction it has
    /// looked at.
    pub proof fn lemma_neighbors_upto_len(self, x: int, y: int, k: nat)
        ensures
            self.neighbors_upto(x, y, k).len() <= k,
        decreases k,
    {
        if k > 0 {
            self.lemma_neighbors_upto_len(x, y, (k - 1) as nat);
        }
    }

    /// The scan reports as many blocks as there are live positions in the
    /// directions it has looked at.
    pub proof fn lemma_blocks_upto_len(self, x: int, y: int, k: nat)
        requires
            self.wf(),
            k <= 8,
        ensures
            blocks_in(self.neighbors_upto(x, y, k)).len() == self.count_upto(x, y, k),
        decreases k,
    {
        if k > 0 {
            let before = self.neighbors_upto(x, y, (k - 1) as nat);
            self.lemma_blocks_upto_len(x, y, (k - 1) as nat);
            match self.neighbor_at(x, y, k - 1) {
                Some(n) => lemma_blocks_in_push(before, n),
                None => {},
            }
        }
    }

    /// Looking in all eight directions counts the live neighbours.
    pub proof fn lemma_count_all(self, x: int, y: int)
        ensures
            self.count_upto(x, y, 8) == self.live_count(x, y),
    {
        reveal_with_fuel(Board::count_upto, 9);
    }

    /// Every empty location that the scan reports lies on the board, is not
    /// alive, and touches the cell the scan was made for.
    pub proof fn lemma_locations_upto_sound(self, x: int, y: int, k: nat, j: int)
        requires
            self.wf(),
            k <= 8,
            0 <= j < locations_in(self.neighbors_upto(x, y, k)).len(),
        ensures
            self.valid(
                locations_in(self.neighbors_upto(x, y, k))[j]@.0,
                locations_in(self.neighbors_upto(x, y, k))[j]@.1,
            ),
            !self.live.contains(locations_in(self.neighbors_upto(x, y, k))[j]@),
            adjacent(locations_in(self.neighbors_upto(x, y, k))[j]@, (x, y)),
        decreases k,
    {
        if k > 0 {
            let before = self.neighbors_upto(x, y, (k - 1) as nat);
            match self.neighbor_at(x, y, k - 1) {
                Some(n) => lemma_locations_in_push(before, n),
                None => {},
            }
            if j < locations_in(before).len() {
                self.lemma_locations_upto_sound(x, y, (k - 1) as nat, j);
            }
        }
    }

    /// An empty location that the scan meets in direction `d` is among those
    /// it reports; the result is its place among them.
    pub proof fn lemma_locations_upto_complete(self, x: int, y: int, k: nat, d: int) -> (j: int)
        requires
            k <= 8,
            0 <= d < k,
            self.neighbor_at(x, y, d) matches Some(Neighbor::Location(_)),
        ensures
            0 <= j < locations_in(self.neighbors_upto(x, y, k)).len(),
            self.neighbor_at(x, y, d) == Some(
                Neighbor::Location(locations_in(self.neighbors_upto(x, y, k))[j]),
            ),
        decreases k,
    {
        let before = self.neighbors_upto(x, y, (k - 1) as nat);
        match self.neighbor_at(x, y, k - 1) {
            Some(n) => lemma_locations_in_push(before, n),
            None => {},
        }
        if d == k - 1 {
            locations_in(before).len() as int
        } else {
            self.lemma_locations_upto_complete(x, y, (k - 1) as nat, d)
        }
    }

    /// A cell on the board has as many live neighbours in the scan as there
    /// are live positions around it.
    pub proof fn lemma_live_neighbors_len(self, x: int, y: int)
        requires
            self.wf(),
            self.valid(x, y),
        ensures
            blocks_in(self.neighbors_of(x, y)).len() == self.live_count(x, y),
    {
        self.lemma_blocks_upto_len(x, y, 8);
        self.lemma_count_all(x, y);
    }

    /// The `j`-th empty neighbour of `(x, y)` lies on the board, is not
    /// alive, and touches `(x, y)`.
    pub proof fn lemma_dead_neighbor_sound(self, x: int, y: int, j: int)
        requires
            self.wf(),
            0 <= j < locations_in(self.neighbors_of(x, y)).len(),
        ensures
            self.valid(
                locations_in(self.neighbors_of(x, y))[j]@.0,
                locations_in(self.neighbors_of(x, y))[j]@.1,
            ),
            !self.live.contains(locations_in(self.neighbors_of(x, y))[j]@),
            adjacent(locations_in(self.neighbors_of(x, y))[j]@, (x, y)),
    {
        if self.valid(x, y) {
            self.lemma_locations_upto_sound(x, y, 8, j);
        }
    }

    /// Every empty position of the board that touches a cell of the board is
    /// one of that cell's empty neighbours; the result is its place among
    /// them.
    pub proof fn lemma_dead_neighbor_listed(self, x: int, y: int, d: (int, int)) -> (j: int)
        requires
            self.wf(),
            self.valid(x, y),
            self.valid(d.0, d.1),
            !self.live.contains(d),
            adjacent(d, (x, y)),
        ensures
            0 <= j < locations_in(self.neighbors_of(x, y)).len(),
            locations_in(self.neighbors_of(x, y))[j]@ == d,
    {
        lemma_direction_of_offset(d, (x, y));
        self.lemma_locations_upto_complete(x, y, 8, direction(d.0 - x, d.1 - y))
    }
}

} // verus!
