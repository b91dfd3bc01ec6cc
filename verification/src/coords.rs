//! Bidirectional mapping between flat indices and `(x, y)` coordinates.
//! `pos_to_index` and `index_to_pos` are inverse bijections over the grid;
//! the `try_` variants reject out-of-range input with `OutOfRange` instead of
//! requiring it away.

use vstd::prelude::*;
use vstd::arithmetic::div_mod::lemma_div_pos_is_pos;
use vstd::arithmetic::div_mod::lemma_fundamental_div_mod;
use vstd::arithmetic::div_mod::lemma_fundamental_div_mod_converse;
use vstd::arithmetic::div_mod::lemma_mod_division_less_than_divisor;
use vstd::arithmetic::div_mod::lemma_multiply_divide_lt;
use vstd::arithmetic::mul::lemma_mul_is_commutative;
use crate::grid::OutOfRange;
use crate::grid::cell_index;
use crate::grid::in_grid;

verus! {

/// Decomposing a valid flat index into its column and row and recombining
/// them gives the index back: the mapping is a bijection over
/// `[0, size * size)`.
pub proof fn lemma_index_round_trip(i: int, size: int)
    requires
        0 < size,
        0 <= i < size * size,
    ensures
        in_grid(i % size, i / size, size),
        cell_index(i % size, i / size, size) == i,
{
    lemma_fundamental_div_mod(i, size);
    lemma_mod_division_less_than_divisor(i, size);
    lemma_div_pos_is_pos(i, size);
    lemma_multiply_divide_lt(i, size, size);
    lemma_mul_is_commutative(size, i / size);
}

/// Recombining an on-grid coordinate pair into a flat index and decomposing
/// it gives the pair back, and the index lies within `[0, size * size)`.
pub proof fn lemma_coord_round_trip(x: int, y: int, size: int)
    requires
        in_grid(x, y, size),
    ensures
        0 <= cell_index(x, y, size) < size * size,
        cell_index(x, y, size) % size == x,
        cell_index(x, y, size) / size == y,
{
    lemma_fundamental_div_mod_converse(y * size + x, size, y, x);
    assert(0 <= y * size + x < size * size) by (nonlinear_arith)
        requires
            0 <= x < size,
            0 <= y < size,
    ;
}

/// Flat row-major index of the on-grid cell at `(x, y)`.
pub fn pos_to_index(x: usize, y: usize, size: usize) -> (index: usize)
    requires
        x < size,
        y < size,
        size * size <= usize::MAX,
    ensures
        index == cell_index(x as int, y as int, size as int),
        index < size * size,
{
    proof {
        lemma_coord_round_trip(x as int, y as int, size as int);
    }
    y * size + x
}

/// Column and row of the cell at a valid flat index: the column is the
/// remainder and the row the quotient of the index by the grid size.
pub fn index_to_pos(index: usize, size: usize) -> (pos: (usize, usize))
    requires
        0 < size,
        index < size * size,
    ensures
        pos.0 == index as int % size as int,
        pos.1 == index as int / size as int,
        in_grid(pos.0 as int, pos.1 as int, size as int),
        cell_index(pos.0 as int, pos.1 as int, size as int) == index,
{
    proof {
        lemma_index_round_trip(index as int, size as int);
    }
    let x = index % size;
    let y = index / size;
    (x, y)
}

/// As `pos_to_index`, but an off-grid coordinate pair is answered with
/// `OutOfRange` rather than excluded up front.
pub fn try_pos_to_index(x: usize, y: usize, size: usize) -> (r: Result<usize, OutOfRange>)
    requires
        size * size <= usize::MAX,
    ensures
        r is Ok <==> in_grid(x as int, y as int, size as int),
        r is Ok ==> r->Ok_0 == cell_index(x as int, y as int, size as int),
{
    if x < size && y < size {
        Ok(pos_to_index(x, y, size))
    } else {
        Err(OutOfRange)
    }
}

/// As `index_to_pos`, but an index at or beyond `size * size` is answered
/// with `OutOfRange` rather than excluded up front.
pub fn try_index_to_pos(index: usize, size: usize) -> (r: Result<(usize, usize), OutOfRange>)
    ensures
        r is Ok <==> index < size * size,
        r is Ok ==> ({
            let pos = r->Ok_0;
            &&& pos.0 == index as int % size as int
            &&& pos.1 == index as int / size as int
            &&& cell_index(pos.0 as int, pos.1 as int, size as int) == index
        }),
{
    if size == 0 {
        return Err(OutOfRange);
    }
    match size.checked_mul(size) {
        Some(area) => {
            if index < area {
                Ok(index_to_pos(index, size))
            } else {
                Err(OutOfRange)
            }
        },
        None => Ok(index_to_pos(index, size)),
    }
}

} // verus!
