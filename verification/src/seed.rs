//! Initial grid construction. Each cell is seeded independently from a
//! uniform random draw out of `[0, 10)`: the cell starts alive when the draw
//! falls below a caller-chosen threshold (the visualizer uses 4, about 40%
//! alive). The randomness comes from macroquad's generator behind a single
//! trusted wrapper; everything built on the draws is verified for every
//! value they may take.

use vstd::prelude::*;
use crate::grid::grid_wf;

verus! {

/// Upper bound (exclusive) of the uniform draw each cell is seeded from.
pub const SEED_DRAW_BOUND: u32 = 10;

/// Threshold the visualizer seeds with: alive on draws 0 to 3, about 40%.
pub const DEFAULT_SEED_THRESHOLD: u32 = 4;

/// Relies on macroquad::rand::gen_range (quad_rand's gen_range): with a zero
/// lower bound it returns `(bound as f64 * k / 2^32) as u32` for a fresh
/// generator word `k < 2^32`, which truncates to a value strictly below
/// `bound`. The result also depends on the generator's hidden state, so
/// nothing more than the range is stated.
#[verifier::external_body]
fn random_below(bound: u32) -> (r: u32)
    requires
        0 < bound,
    ensures
        r < bound,
{
    macroquad::rand::gen_range(0u32, bound)
}

/// Builds a grid from one already-taken draw per cell: cell `i` is alive
/// exactly when `draws[i]` falls below `threshold`.
pub fn new_grid_from_draws(draws: &Vec<u32>, threshold: u32) -> (g: Vec<bool>)
    ensures
        g@.len() == draws@.len(),
        forall|i: int| 0 <= i < g@.len() ==> g@[i] == (draws@[i] < threshold),
{
    let count: usize = draws.len();
    let mut g: Vec<bool> = Vec::new();
    let mut i: usize = 0;
    while i < count
        invariant
            count == draws@.len(),
            i <= count,
            g@.len() == i,
            forall|j: int| 0 <= j < i ==> g@[j] == (draws@[j] < threshold),
        decreases count - i,
    {
        g.push(draws[i] < threshold);
        i += 1;
    }
    g
}

/// Constructs a `size` by `size` starting grid, each cell independently
/// alive when its uniform draw from `[0, SEED_DRAW_BOUND)` falls below
/// `threshold`. A zero threshold therefore seeds an all-dead grid, and a
/// threshold at or above the draw bound an all-live one.
pub fn new_grid(size: usize, threshold: u32) -> (g: Vec<bool>)
    requires
        size * size <= usize::MAX,
    ensures
        grid_wf(g@, size as int),
        threshold == 0 ==> forall|i: int| 0 <= i < g@.len() ==> !g@[i],
        threshold >= SEED_DRAW_BOUND ==> forall|i: int| 0 <= i < g@.len() ==> g@[i],
{
    let area: usize = size * size;
    let mut g: Vec<bool> = Vec::new();
    let mut i: usize = 0;
    while i < area
        invariant
            area == size * size,
            i <= area,
            g@.len() == i,
            threshold == 0 ==> forall|j: int| 0 <= j < i ==> !g@[j],
            threshold >= SEED_DRAW_BOUND ==> forall|j: int| 0 <= j < i ==> g@[j],
        decreases area - i,
    {
        let draw = random_below(SEED_DRAW_BOUND);
        g.push(draw < threshold);
        i += 1;
    }
    g
}

} // verus!
