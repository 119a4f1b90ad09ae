//! Row-major indexing of flat buffers.

use vstd::arithmetic::div_mod::{lemma_fundamental_div_mod, lemma_fundamental_div_mod_converse};
use vstd::prelude::*;

verus! {

/// A row of a table with `rows` rows of `width` cells lies inside the flat
/// buffer.
pub proof fn row_in_bounds(row: int, rows: int, width: int)
    requires
        0 <= row < rows,
        0 <= width,
    ensures
        0 <= row * width,
        row * width + width <= rows * width,
        (row + 1) * width == row * width + width,
{
    assert((row + 1) * width == row * width + width) by (nonlinear_arith);
    assert(0 <= row * width) by (nonlinear_arith)
        requires
            0 <= row,
            0 <= width,
    ;
    assert(row * width + width <= rows * width) by (nonlinear_arith)
        requires
            row + 1 <= rows,
            0 <= width,
    ;
}

/// The flat index of a cell gives back its row and its column.
pub proof fn cell_splits(row: int, col: int, width: int)
    requires
        0 <= col < width,
    ensures
        (row * width + col) / width == row,
        (row * width + col) % width == col,
{
    lemma_fundamental_div_mod_converse(row * width + col, width, row, col);
}

/// A flat index below `rows * width` names one cell of the table.
pub proof fn index_splits(i: int, rows: int, width: int)
    requires
        0 <= i < rows * width,
        0 <= rows,
        0 <= width,
    ensures
        0 < width,
        0 <= i / width < rows,
        0 <= i % width < width,
        i == (i / width) * width + i % width,
{
    assert(width != 0) by (nonlinear_arith)
        requires
            0 <= i < rows * width,
    ;
    lemma_fundamental_div_mod(i, width);
    let q = i / width;
    let r = i % width;
    assert(width * q == q * width) by (nonlinear_arith);
    assert(q < rows) by (nonlinear_arith)
        requires
            q * width + r < rows * width,
            0 <= r,
            0 < width,
    ;
    assert(0 <= q) by (nonlinear_arith)
        requires
            0 <= q * width + r,
            r < width,
            0 < width,
    ;
}

} // verus!
