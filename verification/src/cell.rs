use vstd::prelude::*;

verus! {

/// A position on the grid: column `x`, row `y`.
#[derive(Clone, Copy, Debug, PartialEq, Eq, Hash, Structural)]
pub struct Location {
    pub x: usize,
    pub y: usize,
}

/// A live cell. A block is nothing but the location it stands on.
#[derive(Clone, Copy, Debug, PartialEq, Eq, Hash, Structural)]
pub struct Block {
    pub loc: Location,
}

/// What is found at a position next to a cell: the live block that stands
/// there, or the location itself when nothing does.
#[derive(Clone, Copy, Debug, PartialEq, Eq, Structural)]
pub enum Neighbor {
    Block(Block),
    Location(Location),
}

impl View for Location {
    type V = (int, int);

    /// The position as a pair of mathematical integers, column first.
    open spec fn view(&self) -> (int, int) {
        (self.x as int, self.y as int)
    }
}

impl View for Block {
    type V = (int, int);

    /// The position the block stands on.
    open spec fn view(&self) -> (int, int) {
        self.loc@
    }
}

impl View for Neighbor {
    type V = (int, int);

    /// The position that was looked at, whatever was found there.
    open spec fn view(&self) -> (int, int) {
        match *self {
            Neighbor::Block(b) => b@,
            Neighbor::Location(l) => l@,
        }
    }
}

impl Location {
    #[inline]
    pub fn new(x: usize, y: usize) -> (loc: Location)
        ensures
            loc == (Location { x, y }),
    {
        Location { x, y }
    }
}

impl Block {
    #[inline]
    pub fn new(loc: Location) -> (block: Block)
        ensures
            block == (Block { loc }),
    {
        Block { loc }
    }
}

} // verus!
