//! The generation step: every cell is updated simultaneously from the same
//! pre-step snapshot. A live cell survives with two or three live neighbors,
//! a dead cell comes alive with exactly three, and every other cell is dead
//! in the next generation. The step writes a fresh vector and never touches
//! the input grid.

use vstd::prelude::*;
use crate::coords::index_to_pos;
use crate::coords::lemma_coord_round_trip;
use crate::grid::cell_index;
use crate::grid::grid_wf;
use crate::grid::in_grid;
use crate::neighbors::count_alive_neighbors;
use crate::neighbors::neighbor_count;
use crate::neighbors::neighbor_live;

verus! {

/// The transition rule for one cell, from its current state and its
/// live-neighbor count.
pub open spec fn next_cell(alive: bool, neighbors: int) -> bool {
    if alive {
        neighbors == 2 || neighbors == 3
    } else {
        neighbors == 3
    }
}

/// The whole next generation, cell by cell, read entirely from the
/// pre-step grid.
pub open spec fn step_spec(g: Seq<bool>, size: int) -> Seq<bool> {
    Seq::new(
        g.len(),
        |i: int| next_cell(g[i], neighbor_count(g, i % size, i / size, size)),
    )
}

/// The grid after `n` generation steps.
pub open spec fn step_n(g: Seq<bool>, size: int, n: nat) -> Seq<bool>
    decreases n,
{
    if n == 0 {
        g
    } else {
        step_spec(step_n(g, size, (n - 1) as nat), size)
    }
}

/// No cell of the grid is alive.
pub open spec fn all_dead(g: Seq<bool>) -> bool {
    forall|i: int| 0 <= i < g.len() ==> !g[i]
}

/// Computes the next generation as a fresh grid of the same size; the input
/// grid is left untouched, so every cell is judged on the pre-step snapshot.
pub fn step(grid: &Vec<bool>, size: usize) -> (next: Vec<bool>)
    requires
        grid_wf(grid@, size as int),
    ensures
        next@ == step_spec(grid@, size as int),
        grid_wf(next@, size as int),
{
    let area: usize = grid.len();
    let mut next: Vec<bool> = Vec::new();
    let mut i: usize = 0;
    while i < area
        invariant
            grid_wf(grid@, size as int),
            area == grid@.len(),
            i <= area,
            next@.len() == i,
            forall|j: int| 0 <= j < i ==> next@[j] == step_spec(grid@, size as int)[j],
        decreases area - i,
    {
        proof {
            assert(0 < size) by (nonlinear_arith)
                requires
                    0 <= i < size * size,
            ;
        }
        let (x, y) = index_to_pos(i, size);
        let neighbors = count_alive_neighbors(grid, x, y, size);
        let alive = grid[i];
        let cell = if alive {
            neighbors == 2 || neighbors == 3
        } else {
            neighbors == 3
        };
        next.push(cell);
        i += 1;
    }
    proof {
        assert(next@ =~= step_spec(grid@, size as int));
    }
    next
}

/// Replaces the grid with its next generation, computed into a separate
/// buffer first so that later cells still see the pre-step values.
pub fn process_ruleset(grid: &mut Vec<bool>, size: usize)
    requires
        grid_wf(old(grid)@, size as int),
    ensures
        final(grid)@ == step_spec(old(grid)@, size as int),
        grid_wf(final(grid)@, size as int),
{
    let next = step(grid, size);
    *grid = next;
}

/// The step is a pure function of the grid value: identical grids step to
/// identical grids.
pub proof fn lemma_step_deterministic(g1: Seq<bool>, g2: Seq<bool>, size: int)
    requires
        g1 == g2,
    ensures
        step_spec(g1, size) == step_spec(g2, size),
{
}

/// A live cell with no live on-grid neighbor dies of underpopulation in the
/// next generation.
pub proof fn lemma_isolated_cell_dies(g: Seq<bool>, x: int, y: int, size: int)
    requires
        grid_wf(g, size),
        in_grid(x, y, size),
        g[cell_index(x, y, size)],
        forall|dx: int, dy: int| !#[trigger] neighbor_live(g, x, y, size, dx, dy),
    ensures
        !step_spec(g, size)[cell_index(x, y, size)],
{
    lemma_coord_round_trip(x, y, size);
}

/// A fully dead grid stays fully dead after any number of steps: the rule
/// never creates a live cell out of nothing.
pub proof fn lemma_dead_grid_stays_dead(g: Seq<bool>, size: int, n: nat)
    requires
        grid_wf(g, size),
        all_dead(g),
    ensures
        grid_wf(step_n(g, size, n), size),
        all_dead(step_n(g, size, n)),
    decreases n,
{
    if n > 0 {
        lemma_dead_grid_stays_dead(g, size, (n - 1) as nat);
        let prev = step_n(g, size, (n - 1) as nat);
        let stepped = step_spec(prev, size);
        assert forall|i: int| 0 <= i < stepped.len() implies !stepped[i] by {
            lemma_dead_cell_count(prev, i % size, i / size, size);
        }
    }
}

/// On an all-dead grid every cell's live-neighbor count is zero.
proof fn lemma_dead_cell_count(g: Seq<bool>, x: int, y: int, size: int)
    requires
        grid_wf(g, size),
        all_dead(g),
    ensures
        neighbor_count(g, x, y, size) == 0,
{
    assert forall|dx: int, dy: int| !#[trigger] neighbor_live(g, x, y, size, dx, dy) by {
        if in_grid(x + dx, y + dy, size) {
            lemma_coord_round_trip(x + dx, y + dy, size);
        }
    }
}

} // verus!
