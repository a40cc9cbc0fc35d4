//! Terminal geometry: columns, rows and the number of cells they span.

use vstd::prelude::*;

verus! {

/// The number of cells of a terminal with the given dimensions, as a
/// mathematical integer, saturated at the largest `usize`.
pub open spec fn cell_count(columns: int, rows: int) -> int {
    if columns * rows > usize::MAX as int {
        usize::MAX as int
    } else {
        columns * rows
    }
}

/// Every product of two 16-bit dimensions fits in a `usize`, so the cell
/// count of a terminal never actually saturates.
pub proof fn lemma_cell_count_exact(columns: u16, rows: u16)
    ensures
        cell_count(columns as int, rows as int) == columns as int * rows as int,
        columns as int * rows as int <= usize::MAX as int,
{
    assert(columns as int * rows as int <= 0xFFFF * 0xFFFF) by (nonlinear_arith)
        requires
            0 <= columns as int <= 0xFFFF,
            0 <= rows as int <= 0xFFFF,
    ;
}

/// The area of a terminal of `columns` by `rows` cells.
///
/// The multiplication saturates instead of overflowing; for 16-bit
/// dimensions the result is always the exact product.
pub fn terminal_area_size(columns: u16, rows: u16) -> (area: usize)
    ensures
        area as int == cell_count(columns as int, rows as int),
        area as int == columns as int * rows as int,
{
    proof {
        lemma_cell_count_exact(columns, rows);
    }
    match usize::from(columns).checked_mul(usize::from(rows)) {
        Some(area) => area,
        None => usize::MAX,
    }
}

} // verus!
