//! The grid model: a `size` by `size` lattice of boolean cells held as a flat
//! sequence in row-major order, so the cell at column `x`, row `y` sits at
//! index `y * size + x`.

use vstd::prelude::*;

verus! {

/// Grid dimension the bundled visualizer runs with; the library itself is
/// parametric in the size.
pub const GRID_SIZE: usize = 50;

/// Error returned when a coordinate or index lies outside the grid.
#[derive(Clone, Copy, Debug, PartialEq, Eq, Structural)]
pub struct OutOfRange;

/// A coordinate pair lies on the grid when both axes are within `[0, size)`.
pub open spec fn in_grid(x: int, y: int, size: int) -> bool {
    0 <= x < size && 0 <= y < size
}

/// Flat row-major index of the cell at `(x, y)`.
pub open spec fn cell_index(x: int, y: int, size: int) -> int {
    y * size + x
}

/// A well-formed grid holds exactly `size * size` cells.
pub open spec fn grid_wf(g: Seq<bool>, size: int) -> bool {
    &&& 0 <= size
    &&& g.len() == size * size
}

} // verus!
