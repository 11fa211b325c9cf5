//! The grid: a dense table of cells mirrored by the set of the live ones.

use crate::board::{blocks_in, locations_in, offset, Board};
use crate::cell::{Block, Location, Neighbor};
use crate::live_set;
use crate::BLOCK_SIZE;
use fnv::FnvHashSet;
use vstd::prelude::*;

verus! {

/// The playing field. `grid[y][x]` holds the block that lives at `(x, y)`,
/// and `blocks` holds the positions of all of them, so that a position can be
/// looked up in the table and the live cells can be walked through the set.
pub struct Grid {
    cols: usize,
    grid: Vec<Vec<Option<Block>>>,
    blocks: FnvHashSet<(usize, usize)>,
}

impl View for Grid {
    type V = Board;

    /// The size of the table and the positions held by the live set.
    closed spec fn view(&self) -> Board {
        Board {
            rows: self.grid@.len(),
            cols: self.cols as nat,
            live: Set::new(
                |c: (int, int)|
                    0 <= c.0 <= usize::MAX && 0 <= c.1 <= usize::MAX && self.blocks@.contains(
                        (c.0 as usize, c.1 as usize),
                    ),
            ),
        }
    }
}

/// The step `d` of a scan direction applied to the coordinate `v`, unless the
/// result is no `usize`.
fn shifted(v: usize, d: i8) -> (r: Option<usize>)
    requires
        -1 <= d <= 1,
    ensures
        match r {
            Some(u) => u == v + d,
            None => v + d < 0 || v + d > usize::MAX,
        },
{
    if d < 0 {
        if v == 0 {
            None
        } else {
            Some(v - 1)
        }
    } else if d == 0 {
        Some(v)
    } else if v == usize::MAX {
        None
    } else {
        Some(v + 1)
    }
}

/// The `k`-th direction of the scan.
fn step_of(k: usize) -> (d: (i8, i8))
    requires
        k < 8,
    ensures
        (d.0 as int, d.1 as int) == offset(k as int),
        -1 <= d.0 <= 1,
        -1 <= d.1 <= 1,
{
    if k == 0 {
        (-1, -1)
    } else if k == 1 {
        (-1, 0)
    } else if k == 2 {
        (-1, 1)
    } else if k == 3 {
        (0, 1)
    } else if k == 4 {
        (0, -1)
    } else if k == 5 {
        (1, 1)
    } else if k == 6 {
        (1, -1)
    } else {
        (1, 0)
    }
}

impl Grid {
    /// The positions at which the table holds a block.
    pub closed spec fn occupied(&self) -> Set<(int, int)> {
        Set::new(
            |c: (int, int)|
                0 <= c.1 < self.grid@.len() && 0 <= c.0 < self.grid@[c.1]@.len()
                    && self.grid@[c.1]@[c.0] is Some,
        )
    }

    /// The table is a rectangle of `rows` by `cols` entries, and a block in
    /// it stands at the position it names.
    pub closed spec fn table_wf(&self) -> bool {
        &&& forall|y: int| 0 <= y < self.grid@.len() ==> (#[trigger] self.grid@[y])@.len() == self.cols
        &&& forall|x: int, y: int|
            0 <= y < self.grid@.len() && 0 <= x < self.cols ==> match #[trigger] self.grid@[y]@[x] {
                Some(b) => b.loc.x == x && b.loc.y == y,
                None => true,
            }
    }

    /// The grid is in order: the table is well formed, and the live set holds
    /// exactly the positions at which the table holds a block.
    pub open spec fn wf(&self) -> bool {
        &&& self.table_wf()
        &&& self@.live == self.occupied()
        &&& self@.wf()
    }

    /// On a grid that is in order the live set mirrors the table: a position
    /// is in the set exactly when the table holds a block there, and every
    /// such position lies on the grid.
    pub proof fn lemma_live_set_mirrors_table(&self)
        requires
            self.wf(),
        ensures
            self@.live == self.occupied(),
            forall|x: int, y: int|
                self@.alive(x, y) <==> #[trigger] self.occupied().contains((x, y)),
            forall|x: int, y: int|
                #[trigger] self.occupied().contains((x, y)) ==> self@.valid(x, y),
    {
    }

    /// On a grid that is in order, a position of the grid is alive exactly
    /// when the table holds a block there, and that block names the position.
    proof fn lemma_live_iff_taken(&self, x: int, y: int)
        requires
            self.wf(),
            self@.valid(x, y),
        ensures
            self@.alive(x, y) <==> self.grid@[y]@[x] is Some,
            self.grid@[y]@[x] matches Some(b) ==> b.loc.x == x && b.loc.y == y,
    {
        assert(self.occupied().contains((x, y)) <==> self.grid@[y]@[x] is Some);
    }

    /// A grid for a window of `width` by `height` pixels, with nothing alive.
    /// Both must be multiples of [`BLOCK_SIZE`].
    pub fn new(width: usize, height: usize) -> (g: Grid)
        requires
            width % BLOCK_SIZE == 0,
            height % BLOCK_SIZE == 0,
        ensures
            g.wf(),
            g@ == Board::empty((height / BLOCK_SIZE) as nat, (width / BLOCK_SIZE) as nat),
    {
        let cols: usize = width / BLOCK_SIZE;
        let count: usize = height / BLOCK_SIZE;
        let mut rows: Vec<Vec<Option<Block>>> = Vec::new();
        rows.reserve(count);
        let mut y: usize = 0;
        while y < count
            invariant
                y <= count,
                rows@.len() == y,
                forall|r: int| 0 <= r < y ==> (#[trigger] rows@[r])@.len() == cols,
                forall|r: int, c: int|
                    0 <= r < y && 0 <= c < cols ==> (#[trigger] rows@[r]@[c]) is None,
            decreases count - y,
        {
            let row: Vec<Option<Block>> = vec![None; cols];
            rows.push(row);
            y += 1;
        }
        let g = Grid { cols, grid: rows, blocks: FnvHashSet::default() };
        assert(g@.live =~= Set::empty());
        assert(g.occupied() =~= Set::empty());
        g
    }

    /// The number of rows of the table.
    pub fn rows(&self) -> (n: usize)
        ensures
            n == self@.rows,
    {
        self.grid.len()
    }

    /// The number of columns of the table.
    pub fn cols(&self) -> (n: usize)
        ensures
            n == self@.cols,
    {
        self.cols
    }

    /// Whether `(x, y)` lies on the grid as it is now.
    #[inline]
    pub fn valid(&self, x: usize, y: usize) -> (ok: bool)
        ensures
            ok == self@.valid(x as int, y as int),
    {
        y < self.grid.len() && x < self.cols
    }

    /// Whether `block` is alive: its position lies on the grid and is taken.
    #[inline]
    pub fn contains(&self, block: &Block) -> (found: bool)
        requires
            self.wf(),
        ensures
            found == self@.alive(block.loc.x as int, block.loc.y as int),
            found == self.occupied().contains(block@),
    {
        self.valid(block.loc.x, block.loc.y) && self.grid[block.loc.y][block.loc.x].is_some()
    }

    /// Brings `block` to life. Nothing changes if it already lives or if its
    /// position lies off the grid.
    pub fn insert(&mut self, block: Block)
        requires
            old(self).wf(),
        ensures
            final(self).wf(),
            final(self)@ == old(self)@.insert(block.loc.x as int, block.loc.y as int),
    {
        let (x, y) = (block.loc.x, block.loc.y);
        if self.valid(x, y) {
            // A block already found here stands at this very position, so
            // it is equal to `block` and stays.
            if self.grid[y][x].is_none() {
                self.grid[y][x] = Some(block);
                live_set::insert(&mut self.blocks, (x, y));
            }
            proof {
                assert(self@.live =~= old(self)@.live.insert((x as int, y as int)));
                assert(self@.live =~= self.occupied());
            }
        }
    }

    /// Clears the position of `block`. Nothing changes if it is empty or
    /// lies off the grid.
    pub fn remove(&mut self, block: &Block)
        requires
            old(self).wf(),
        ensures
            final(self).wf(),
            final(self)@ == old(self)@.remove(block.loc.x as int, block.loc.y as int),
    {
        let (x, y) = (block.loc.x, block.loc.y);
        if self.valid(x, y) {
            live_set::remove(&mut self.blocks, (x, y));
            self.grid[y][x] = None;
            proof {
                assert(self@.live =~= old(self)@.live.remove((x as int, y as int)));
                assert(self@.live =~= self.occupied());
            }
        }
    }

    /// What lies around `block`: for each of the up to eight positions next
    /// to it that are on the grid, in scan order, the block that lives there
    /// or the empty location. A block off the grid has no neighbours.
    pub fn neighbors(&self, block: &Block) -> (found: Vec<Neighbor>)
        requires
            self.wf(),
        ensures
            found@ == self@.neighbors_of(block.loc.x as int, block.loc.y as int),
    {
        let (x, y) = (block.loc.x, block.loc.y);
        let mut found: Vec<Neighbor> = Vec::new();
        if self.valid(x, y) {
            let mut k: usize = 0;
            while k < 8
                invariant
                    self.wf(),
                    k <= 8,
                    found@ == self@.neighbors_upto(x as int, y as int, k as nat),
                decreases 8 - k,
            {
                let d = step_of(k);
                let ghost before = found@;
                let ghost at = self@.neighbor_at(x as int, y as int, k as int);
                if let (Some(nx), Some(ny)) = (shifted(x, d.0), shifted(y, d.1)) {
                    if self.valid(nx, ny) {
                        proof {
                            self.lemma_live_iff_taken(nx as int, ny as int);
                        }
                        match self.grid[ny][nx] {
                            Some(blk) => {
                                found.push(Neighbor::Block(blk));
                                assert(at == Some(Neighbor::Block(blk)));
                            },
                            None => {
                                found.push(Neighbor::Location(Location::new(nx, ny)));
                                assert(at == Some(Neighbor::Location(Location { x: nx, y: ny })));
                            },
                        }
                    } else {
                        assert(at is None);
                    }
                } else {
                    assert(at is None) by {
                        assert(self.grid.len() == self@.rows);
                    }
                }
                assert(self@.neighbors_upto(x as int, y as int, (k + 1) as nat) == match at {
                    Some(n) => before.push(n),
                    None => before,
                });
                k += 1;
            }
        }
        found
    }

    /// The live blocks around `block`, in scan order.
    #[inline]
    pub fn live_neighbors(&self, block: &Block) -> (live: Vec<Block>)
        requires
            self.wf(),
        ensures
            live@ == blocks_in(self@.neighbors_of(block.loc.x as int, block.loc.y as int)),
    {
        let found = self.neighbors(block);
        let mut live: Vec<Block> = Vec::new();
        let mut i: usize = 0;
        while i < found.len()
            invariant
                i <= found@.len(),
                live@ == blocks_in(found@.take(i as int)),
            decreases found@.len() - i,
        {
            proof {
                assert(found@.take(i + 1).drop_last() =~= found@.take(i as int));
            }
            match found[i] {
                Neighbor::Block(blk) => live.push(blk),
                Neighbor::Location(_) => {},
            }
            i += 1;
        }
        proof {
            assert(found@.take(i as int) =~= found@);
        }
        live
    }

    /// The empty locations around `block`, in scan order.
    #[inline]
    pub fn dead_neighbors(&self, block: &Block) -> (dead: Vec<Location>)
        requires
            self.wf(),
        ensures
            dead@ == locations_in(self@.neighbors_of(block.loc.x as int, block.loc.y as int)),
    {
        let found = self.neighbors(block);
        let mut dead: Vec<Location> = Vec::new();
        let mut i: usize = 0;
        while i < found.len()
            invariant
                i <= found@.len(),
                dead@ == locations_in(found@.take(i as int)),
            decreases found@.len() - i,
        {
            proof {
                assert(found@.take(i + 1).drop_last() =~= found@.take(i as int));
            }
            match found[i] {
                Neighbor::Block(_) => {},
                Neighbor::Location(loc) => dead.push(loc),
            }
            i += 1;
        }
        proof {
            assert(found@.take(i as int) =~= found@);
        }
        dead
    }

    /// Makes room for at least `rows` by `cols` positions. Rows and columns
    /// are only ever added, at the high end and empty, so every cell keeps
    /// its position and its state.
    pub fn ensure_capacity(&mut self, rows: usize, cols: usize)
        requires
            old(self).wf(),
        ensures
            final(self).wf(),
            final(self)@ == old(self)@.grow(rows as nat, cols as nat),
    {
        let ghost start = self.grid@;
        while self.grid.len() < rows
            invariant
                self.cols == old(self).cols,
                self.blocks@ == old(self).blocks@,
                start.len() <= self.grid@.len(),
                start.len() < rows ==> self.grid@.len() <= rows,
                start.len() >= rows ==> self.grid@.len() == start.len(),
                forall|y: int| 0 <= y < start.len() ==> #[trigger] self.grid@[y] == start[y],
                forall|y: int|
                    start.len() <= y < self.grid@.len() ==> (#[trigger] self.grid@[y])@.len()
                        == self.cols,
                forall|x: int, y: int|
                    start.len() <= y < self.grid@.len() && 0 <= x < self.cols
                        ==> (#[trigger] self.grid@[y]@[x]) is None,
            decreases rows - self.grid@.len(),
        {
            let row: Vec<Option<Block>> = vec![None; self.cols];
            self.grid.push(row);
        }
        let ghost tall = self.grid@;
        let narrow = self.cols;
        if cols > narrow {
            let mut y: usize = 0;
            while y < self.grid.len()
                invariant
                    narrow < cols,
                    self.cols == narrow,
                    self.blocks@ == old(self).blocks@,
                    self.grid@.len() == tall.len(),
                    y <= tall.len(),
                    forall|r: int| 0 <= r < tall.len() ==> (#[trigger] tall[r])@.len() == narrow,
                    forall|r: int| y <= r < tall.len() ==> #[trigger] self.grid@[r] == tall[r],
                    forall|r: int| 0 <= r < y ==> (#[trigger] self.grid@[r])@.len() == cols,
                    forall|x: int, r: int|
                        0 <= r < y && 0 <= x < narrow ==> #[trigger] self.grid@[r]@[x]
                            == tall[r]@[x],
                    forall|x: int, r: int|
                        0 <= r < y && narrow <= x < cols ==> (#[trigger] self.grid@[r]@[x]) is None,
                decreases tall.len() - y,
            {
                self.grid[y].resize(cols, None);
                proof {
                    let wide = self.grid@[y as int]@;
                    let was = tall[y as int]@;
                    assert forall|x: int| 0 <= x < narrow implies #[trigger] wide[x] == was[x] by {
                        assert(wide.subrange(0, narrow as int)[x] == wide[x]);
                    }
                }
                y += 1;
            }
            self.cols = cols;
        }
        proof {
            assert(self@.live =~= old(self)@.live);
            assert(self.occupied() =~= old(self).occupied());
        }
    }

    /// The live blocks, each exactly once, in no particular order.
    pub fn live_blocks(&self) -> (live: Vec<Block>)
        requires
            self.wf(),
        ensures
            live@.no_duplicates(),
            forall|b: Block| live@.contains(b) <==> self@.alive(b.loc.x as int, b.loc.y as int),
    {
        let cells = live_set::cells(&self.blocks);
        let mut live: Vec<Block> = Vec::new();
        let mut i: usize = 0;
        while i < cells.len()
            invariant
                i <= cells@.len(),
                live@.len() == i,
                forall|j: int|
                    0 <= j < i ==> (#[trigger] live@[j]).loc.x == cells@[j].0 && live@[j].loc.y
                        == cells@[j].1,
            decreases cells@.len() - i,
        {
            live.push(Block::new(Location::new(cells[i].0, cells[i].1)));
            i += 1;
        }
        proof {
            assert forall|b: Block| live@.contains(b) <==> self@.alive(
                b.loc.x as int,
                b.loc.y as int,
            ) by {
                let c = (b.loc.x, b.loc.y);
                if live@.contains(b) {
                    let j = choose|j: int| 0 <= j < live@.len() && live@[j] == b;
                    assert(cells@[j] == c);
                    assert(cells@.contains(c));
                }
                if self@.alive(b.loc.x as int, b.loc.y as int) {
                    assert(cells@.contains(c));
                    let j = choose|j: int| 0 <= j < cells@.len() && cells@[j] == c;
                    assert(live@[j] == b);
                }
            }
            assert forall|i: int, j: int|
                0 <= i < live@.len() && 0 <= j < live@.len() && i != j implies live@[i]
                != live@[j] by {
                assert(cells@[i] != cells@[j]);
            }
        }
        live
    }
}

} // verus!
