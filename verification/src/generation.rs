//! One generation of the game, computed on the grid.

use crate::board::{adjacent, locations_in, Board};
use crate::cell::{Block, Location};
use crate::grid::Grid;
use vstd::prelude::*;

verus! {

/// The positions that a list of blocks names.
pub open spec fn positions(blocks: Seq<Block>) -> Set<(int, int)>
    decreases blocks.len(),
{
    if blocks.len() == 0 {
        Set::empty()
    } else {
        positions(blocks.drop_last()).insert(blocks.last()@)
    }
}

proof fn lemma_positions_push(blocks: Seq<Block>, b: Block)
    ensures
        positions(blocks.push(b)) == positions(blocks).insert(b@),
{
    assert(blocks.push(b).drop_last() =~= blocks);
}

proof fn lemma_positions_take(blocks: Seq<Block>, k: int)
    requires
        0 <= k < blocks.len(),
    ensures
        positions(blocks.take(k + 1)) == positions(blocks.take(k)).insert(blocks[k]@),
{
    assert(blocks.take(k + 1).drop_last() =~= blocks.take(k));
}

proof fn lemma_positions_has(blocks: Seq<Block>, i: int)
    requires
        0 <= i < blocks.len(),
    ensures
        positions(blocks).contains(blocks[i]@),
    decreases blocks.len(),
{
    if i < blocks.len() - 1 {
        lemma_positions_has(blocks.drop_last(), i);
    }
}

proof fn lemma_positions_from(blocks: Seq<Block>, c: (int, int)) -> (i: int)
    requires
        positions(blocks).contains(c),
    ensures
        0 <= i < blocks.len(),
        blocks[i]@ == c,
    decreases blocks.len(),
{
    if blocks.last()@ == c {
        blocks.len() - 1
    } else {
        lemma_positions_from(blocks.drop_last(), c)
    }
}

/// A list that holds exactly the live blocks names exactly the live
/// positions.
proof fn lemma_positions_of_live(board: Board, cells: Seq<Block>)
    requires
        board.wf(),
        forall|b: Block| cells.contains(b) <==> board.alive(b.loc.x as int, b.loc.y as int),
    ensures
        positions(cells) == board.live,
{
    assert forall|c: (int, int)| positions(cells).contains(c) <==> board.live.contains(c) by {
        if positions(cells).contains(c) {
            let i = lemma_positions_from(cells, c);
            assert(cells.contains(cells[i]));
        }
        if board.live.contains(c) {
            assert(board.live.contains((c.0, c.1)));
            let b = Block { loc: Location { x: c.0 as usize, y: c.1 as usize } };
            assert(board.alive(b.loc.x as int, b.loc.y as int));
            assert(cells.contains(b));
            let i = choose|i: int| 0 <= i < cells.len() && cells[i] == b;
            lemma_positions_has(cells, i);
        }
    }
    assert(positions(cells) =~= board.live);
}

/// A position with a live neighbour touches a live position; the result is
/// one.
proof fn lemma_live_neighbor_exists(board: Board, x: int, y: int) -> (c: (int, int))
    requires
        board.live_count(x, y) > 0,
    ensures
        board.live.contains(c),
        adjacent((x, y), c),
{
    if board.alive(x - 1, y - 1) {
        (x - 1, y - 1)
    } else if board.alive(x - 1, y) {
        (x - 1, y)
    } else if board.alive(x - 1, y + 1) {
        (x - 1, y + 1)
    } else if board.alive(x, y + 1) {
        (x, y + 1)
    } else if board.alive(x, y - 1) {
        (x, y - 1)
    } else if board.alive(x + 1, y + 1) {
        (x + 1, y + 1)
    } else if board.alive(x + 1, y - 1) {
        (x + 1, y - 1)
    } else {
        (x + 1, y)
    }
}

impl Grid {
    /// Replaces the grid's generation by the next one. A live cell stays if
    /// two or three of its neighbours live, an empty position of the grid
    /// comes to life if exactly three do, and every decision is taken on the
    /// generation as it was before the call.
    pub fn advance(&mut self)
        requires
            old(self).wf(),
        ensures
            final(self).wf(),
            final(self)@ == old(self)@.step(),
    {
        let ghost now = self@;
        let cells = self.live_blocks();
        let mut remove: Vec<Block> = Vec::new();
        let mut add: Vec<Block> = Vec::new();
        proof {
            lemma_positions_of_live(now, cells@);
        }

        let mut i: usize = 0;
        while i < cells.len()
            invariant
                self.wf(),
                self@ == now,
                i <= cells@.len(),
                positions(cells@) == now.live,
                forall|c: (int, int)|
                    positions(remove@).contains(c) <==> positions(cells@.take(i as int)).contains(c)
                        && !now.survives(c.0, c.1),
                forall|c: (int, int)| positions(add@).contains(c) ==> now.born(c.0, c.1),
                forall|c: (int, int), d: (int, int)|
                    #![trigger positions(cells@.take(i as int)).contains(c), adjacent(d, c)]
                    positions(cells@.take(i as int)).contains(c) && adjacent(d, c) && now.born(
                        d.0,
                        d.1,
                    ) ==> positions(add@).contains(d),
            decreases cells@.len() - i,
        {
            let block = cells[i];
            let ghost (x, y) = block@;
            proof {
                lemma_positions_has(cells@, i as int);
                lemma_positions_take(cells@, i as int);
                now.lemma_live_neighbors_len(x, y);
            }
            let live = self.live_neighbors(&block).len();
            if live != 2 && live != 3 {
                proof {
                    lemma_positions_push(remove@, block);
                }
                remove.push(block);
            }
            let dead = self.dead_neighbors(&block);
            let ghost added = add@;
            let mut j: usize = 0;
            while j < dead.len()
                invariant
                    self.wf(),
                    self@ == now,
                    now.valid(x, y),
                    dead@ == locations_in(now.neighbors_of(x, y)),
                    j <= dead@.len(),
                    forall|c: (int, int)| positions(add@).contains(c) ==> now.born(c.0, c.1),
                    forall|c: (int, int)|
                        positions(added).contains(c) ==> positions(add@).contains(c),
                    forall|n: int|
                        0 <= n < j && now.born((#[trigger] dead@[n])@.0, dead@[n]@.1) ==> positions(
                            add@,
                        ).contains(dead@[n]@),
                decreases dead@.len() - j,
            {
                let candidate = Block::new(dead[j]);
                proof {
                    now.lemma_dead_neighbor_sound(x, y, j as int);
                    now.lemma_live_neighbors_len(candidate@.0, candidate@.1);
                }
                if self.live_neighbors(&candidate).len() == 3 {
                    proof {
                        lemma_positions_push(add@, candidate);
                    }
                    add.push(candidate);
                }
                j += 1;
            }
            proof {
                assert forall|c: (int, int), d: (int, int)|
                    #![trigger positions(cells@.take(i + 1)).contains(c), adjacent(d, c)]
                    positions(cells@.take(i + 1)).contains(c) && adjacent(d, c) && now.born(
                        d.0,
                        d.1,
                    ) implies positions(add@).contains(d) by {
                    if c == block@ {
                        let n = now.lemma_dead_neighbor_listed(x, y, d);
                        assert(dead@[n]@ == d);
                    } else {
                        assert(positions(cells@.take(i as int)).contains(c));
                        assert(positions(added).contains(d));
                    }
                }
            }
            i += 1;
        }
        proof {
            assert(cells@.take(i as int) =~= cells@);
        }

        let mut k: usize = 0;
        while k < remove.len()
            invariant
                self.wf(),
                self@.rows == now.rows,
                self@.cols == now.cols,
                k <= remove@.len(),
                self@.live == now.live.difference(positions(remove@.take(k as int))),
            decreases remove@.len() - k,
        {
            proof {
                lemma_positions_take(remove@, k as int);
            }
            let block = remove[k];
            self.remove(&block);
            k += 1;
        }
        proof {
            assert(remove@.take(k as int) =~= remove@);
        }

        let ghost thinned = self@.live;
        let mut k: usize = 0;
        while k < add.len()
            invariant
                self.wf(),
                self@.rows == now.rows,
                self@.cols == now.cols,
                k <= add@.len(),
                forall|c: (int, int)| positions(add@).contains(c) ==> now.born(c.0, c.1),
                self@.live == thinned.union(positions(add@.take(k as int))),
            decreases add@.len() - k,
        {
            proof {
                lemma_positions_take(add@, k as int);
                lemma_positions_has(add@, k as int);
            }
            let block = add[k];
            self.insert(block);
            k += 1;
        }
        proof {
            assert(add@.take(k as int) =~= add@);
            assert forall|c: (int, int)| self@.live.contains(c) <==> now.step().live.contains(
                c,
            ) by {
                if now.born(c.0, c.1) {
                    let near = lemma_live_neighbor_exists(now, c.0, c.1);
                    assert(positions(cells@).contains(near));
                    assert(adjacent(c, near));
                }
            }
            assert(self@.live =~= now.step().live);
        }
    }
}

} // verus!
