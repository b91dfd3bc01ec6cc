//! Moore-neighborhood counting. Of the eight offsets around a cell, a
//! candidate that falls off the grid on either axis is excluded from
//! consideration entirely (no wraparound, no dead-by-default), so edge cells
//! have five candidates and corner cells three.

use vstd::prelude::*;
use crate::coords::pos_to_index;
use crate::grid::OutOfRange;
use crate::grid::cell_index;
use crate::grid::grid_wf;
use crate::grid::in_grid;

verus! {

/// 1 for a true condition, 0 for a false one.
pub open spec fn indicator(b: bool) -> int {
    if b {
        1
    } else {
        0
    }
}

/// The neighbor candidate at offset `(dx, dy)` from `(x, y)` lies on the grid.
pub open spec fn offset_on_grid(x: int, y: int, size: int, dx: int, dy: int) -> bool {
    in_grid(x + dx, y + dy, size)
}

/// The neighbor candidate at offset `(dx, dy)` from `(x, y)` lies on the grid
/// and is alive.
pub open spec fn neighbor_live(g: Seq<bool>, x: int, y: int, size: int, dx: int, dy: int) -> bool {
    offset_on_grid(x, y, size, dx, dy) && g[cell_index(x + dx, y + dy, size)]
}

/// How many of the eight candidate offsets around `(x, y)` stay on the grid:
/// 8 in the interior, 5 on an edge, 3 in a corner.
pub open spec fn candidate_count(x: int, y: int, size: int) -> int {
    indicator(offset_on_grid(x, y, size, -1, -1)) + indicator(offset_on_grid(x, y, size, 0, -1))
        + indicator(offset_on_grid(x, y, size, 1, -1)) + indicator(
        offset_on_grid(x, y, size, -1, 0),
    ) + indicator(offset_on_grid(x, y, size, 1, 0)) + indicator(
        offset_on_grid(x, y, size, -1, 1),
    ) + indicator(offset_on_grid(x, y, size, 0, 1)) + indicator(offset_on_grid(x, y, size, 1, 1))
}

/// How many of the cell's on-grid neighbors are alive.
pub open spec fn neighbor_count(g: Seq<bool>, x: int, y: int, size: int) -> int {
    indicator(neighbor_live(g, x, y, size, -1, -1)) + indicator(neighbor_live(g, x, y, size, 0, -1))
        + indicator(neighbor_live(g, x, y, size, 1, -1)) + indicator(
        neighbor_live(g, x, y, size, -1, 0),
    ) + indicator(neighbor_live(g, x, y, size, 1, 0)) + indicator(
        neighbor_live(g, x, y, size, -1, 1),
    ) + indicator(neighbor_live(g, x, y, size, 0, 1)) + indicator(
        neighbor_live(g, x, y, size, 1, 1),
    )
}

/// The live-neighbor count never leaves `[0, 8]`, and never exceeds the
/// number of candidates that lie on the grid.
pub proof fn lemma_neighbor_count_bounds(g: Seq<bool>, x: int, y: int, size: int)
    ensures
        0 <= neighbor_count(g, x, y, size),
        neighbor_count(g, x, y, size) <= candidate_count(x, y, size),
        candidate_count(x, y, size) <= 8,
{
}

/// When every on-grid neighbor of `(x, y)` is alive, the count is exactly the
/// number of candidates on the grid: 8 minus the number of off-grid offsets.
pub proof fn lemma_full_neighborhood(g: Seq<bool>, x: int, y: int, size: int)
    requires
        forall|dx: int, dy: int|
            #[trigger] offset_on_grid(x, y, size, dx, dy) ==> g[cell_index(x + dx, y + dy, size)],
    ensures
        neighbor_count(g, x, y, size) == candidate_count(x, y, size),
{
}

/// A corner cell has exactly three candidate neighbors.
pub proof fn lemma_corner_candidates(size: int)
    requires
        2 <= size,
    ensures
        candidate_count(0, 0, size) == 3,
{
}

/// A non-corner cell on the top edge has exactly five candidate neighbors.
pub proof fn lemma_edge_candidates(x: int, size: int)
    requires
        1 <= x,
        x + 1 < size,
    ensures
        candidate_count(x, 0, size) == 5,
{
}

/// Counts how many of the up-to-8 Moore neighbors of the on-grid cell
/// `(x, y)` are alive, skipping candidates that fall off the grid. Reads the
/// grid only; never writes it.
pub fn count_alive_neighbors(grid: &Vec<bool>, x: usize, y: usize, size: usize) -> (count: usize)
    requires
        grid_wf(grid@, size as int),
        x < size,
        y < size,
    ensures
        count == neighbor_count(grid@, x as int, y as int, size as int),
        count <= 8,
{
    let area: usize = grid.len();
    proof {
        assert(size * size == area);
    }
    let mut count: usize = 0;
    if x > 0 && y > 0 && grid[pos_to_index(x - 1, y - 1, size)] {
        count += 1;
    }
    if y > 0 && grid[pos_to_index(x, y - 1, size)] {
        count += 1;
    }
    if x + 1 < size && y > 0 && grid[pos_to_index(x + 1, y - 1, size)] {
        count += 1;
    }
    if x > 0 && grid[pos_to_index(x - 1, y, size)] {
        count += 1;
    }
    if x + 1 < size && grid[pos_to_index(x + 1, y, size)] {
        count += 1;
    }
    if x > 0 && y + 1 < size && grid[pos_to_index(x - 1, y + 1, size)] {
        count += 1;
    }
    if y + 1 < size && grid[pos_to_index(x, y + 1, size)] {
        count += 1;
    }
    if x + 1 < size && y + 1 < size && grid[pos_to_index(x + 1, y + 1, size)] {
        count += 1;
    }
    count
}

/// As `count_alive_neighbors`, but an off-grid center coordinate is answered
/// with `OutOfRange` rather than excluded up front.
pub fn try_count_alive_neighbors(grid: &Vec<bool>, x: usize, y: usize, size: usize) -> (r: Result<usize, OutOfRange>)
    requires
        grid_wf(grid@, size as int),
    ensures
        r is Ok <==> in_grid(x as int, y as int, size as int),
        r is Ok ==> r->Ok_0 == neighbor_count(grid@, x as int, y as int, size as int),
{
    if x < size && y < size {
        Ok(count_alive_neighbors(grid, x, y, size))
    } else {
        Err(OutOfRange)
    }
}

} // verus!
