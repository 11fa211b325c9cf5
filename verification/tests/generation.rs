use game_of_life::cell::{Block, Location};
use game_of_life::grid::Grid;

fn cell(x: usize, y: usize) -> Block {
    Block::new(Location::new(x, y))
}

fn grid_with(width: usize, height: usize, cells: &[(usize, usize)]) -> Grid {
    let mut grid = Grid::new(width, height);
    for &(x, y) in cells {
        grid.insert(cell(x, y));
    }
    grid
}

fn live_of(grid: &Grid) -> Vec<(usize, usize)> {
    let mut cells: Vec<(usize, usize)> =
        grid.live_blocks().iter().map(|b| (b.loc.x, b.loc.y)).collect();
    cells.sort();
    cells
}

fn table_of(grid: &Grid) -> Vec<(usize, usize)> {
    let mut cells = Vec::new();
    for x in 0..grid.cols() {
        for y in 0..grid.rows() {
            if grid.contains(&cell(x, y)) {
                cells.push((x, y));
            }
        }
    }
    cells.sort();
    cells
}

#[test]
fn blinker_oscillates() {
    let mut grid = grid_with(100, 100, &[(1, 2), (2, 2), (3, 2)]);
    grid.advance();
    assert_eq!(live_of(&grid), vec![(2, 1), (2, 2), (2, 3)]);
    grid.advance();
    assert_eq!(live_of(&grid), vec![(1, 2), (2, 2), (3, 2)]);
    grid.advance();
    assert_eq!(live_of(&grid), vec![(2, 1), (2, 2), (2, 3)]);
}

#[test]
fn block_is_stable() {
    let square = vec![(1, 1), (1, 2), (2, 1), (2, 2)];
    let mut grid = grid_with(100, 100, &square);
    for _ in 0..10 {
        grid.advance();
        assert_eq!(live_of(&grid), square);
    }
}

#[test]
fn lonely_cell_dies() {
    let mut grid = grid_with(100, 100, &[(4, 4)]);
    grid.advance();
    assert!(!grid.contains(&cell(4, 4)));
    assert!(grid.live_blocks().is_empty());
}

#[test]
fn pair_dies() {
    let mut grid = grid_with(100, 100, &[(4, 4), (5, 4)]);
    grid.advance();
    assert!(grid.live_blocks().is_empty());
}

#[test]
fn crowded_cell_dies() {
    let mut grid = grid_with(100, 100, &[(2, 2), (1, 1), (3, 1), (1, 3), (3, 3)]);
    grid.advance();
    assert!(!grid.contains(&cell(2, 2)));
    assert_eq!(live_of(&grid), vec![(1, 2), (2, 1), (2, 3), (3, 2)]);
}

#[test]
fn three_neighbors_give_birth() {
    let mut grid = grid_with(100, 100, &[(1, 1), (2, 1), (1, 2)]);
    grid.advance();
    assert_eq!(live_of(&grid), vec![(1, 1), (1, 2), (2, 1), (2, 2)]);
}

#[test]
fn empty_grid_stays_empty() {
    let mut grid = Grid::new(100, 100);
    grid.advance();
    assert!(grid.live_blocks().is_empty());
    assert_eq!((grid.rows(), grid.cols()), (10, 10));
}

#[test]
fn glider_moves_diagonally() {
    let mut grid = grid_with(100, 100, &[(1, 0), (2, 1), (0, 2), (1, 2), (2, 2)]);
    for _ in 0..4 {
        grid.advance();
    }
    assert_eq!(live_of(&grid), vec![(1, 3), (2, 1), (2, 3), (3, 2), (3, 3)]);
}

#[test]
fn nothing_is_born_off_the_grid() {
    // A blinker along the top edge: the cell above its middle is off the grid.
    let mut grid = grid_with(50, 50, &[(1, 0), (2, 0), (3, 0)]);
    grid.advance();
    assert_eq!(live_of(&grid), vec![(2, 0), (2, 1)]);
    grid.advance();
    assert!(grid.live_blocks().is_empty());
}

#[test]
fn edges_do_not_wrap() {
    // Three cells in the leftmost column and nothing in the rightmost.
    let mut grid = grid_with(50, 50, &[(0, 1), (0, 2), (0, 3)]);
    grid.advance();
    assert_eq!(live_of(&grid), vec![(0, 2), (1, 2)]);
    assert!(!grid.contains(&cell(4, 2)));
}

#[test]
fn corner_square_is_stable() {
    let square = vec![(0, 0), (0, 1), (1, 0), (1, 1)];
    let mut grid = grid_with(20, 20, &square);
    grid.advance();
    assert_eq!(live_of(&grid), square);
}

#[test]
fn advance_keeps_the_size() {
    let mut grid = grid_with(70, 30, &[(1, 1), (2, 1), (3, 1)]);
    grid.advance();
    assert_eq!((grid.rows(), grid.cols()), (3, 7));
}

#[test]
fn live_set_mirrors_table_through_generations() {
    let mut grid = grid_with(
        80,
        80,
        &[(1, 0), (2, 1), (0, 2), (1, 2), (2, 2), (5, 5), (6, 5), (7, 5), (6, 6)],
    );
    for _ in 0..12 {
        grid.advance();
        assert_eq!(live_of(&grid), table_of(&grid));
    }
}

#[test]
fn advance_after_growth_uses_the_new_room() {
    let mut grid = grid_with(30, 30, &[(1, 2), (2, 2)]);
    grid.ensure_capacity(4, 4);
    grid.insert(cell(3, 2));
    grid.advance();
    assert_eq!(live_of(&grid), vec![(2, 1), (2, 2), (2, 3)]);
    assert_eq!(live_of(&grid), table_of(&grid));
}

/// Deciding and editing cell by cell, on a grid that is already half
/// changed, gives another result than a generation decided as a whole.
#[test]
fn editing_while_scanning_goes_wrong() {
    let start = [(1, 2), (2, 2), (3, 2)];
    let mut staged = grid_with(50, 50, &start);
    staged.advance();

    let mut hasty = grid_with(50, 50, &start);
    for x in 0..5 {
        for y in 0..5 {
            let cell = cell(x, y);
            let live = hasty.live_neighbors(&cell).len();
            if hasty.contains(&cell) {
                if live != 2 && live != 3 {
                    hasty.remove(&cell);
                }
            } else if live == 3 {
                hasty.insert(cell);
            }
        }
    }
    assert_eq!(live_of(&staged), vec![(2, 1), (2, 2), (2, 3)]);
    assert_ne!(live_of(&hasty), live_of(&staged));
}
