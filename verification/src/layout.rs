//! The button grid: how many columns a width holds, and where a button falls.
//! Widths are whole pixels.

use vstd::prelude::*;
use vstd::arithmetic::div_mod::{
    lemma_fundamental_div_mod, lemma_fundamental_div_mod_converse, lemma_mod_bound,
};

verus! {

/// The nominal edge of a button.
pub const BUTTON_SIZE: u32 = 200;

/// The nominal gap between two buttons.
pub const SPACING: u32 = 10;

/// How many buttons go side by side in `width`: as many nominal buttons,
/// with a gap between neighbours, as fit, and one where none fits.
pub open spec fn columns_for(width: int) -> int {
    let fit = (width + SPACING) / (BUTTON_SIZE + SPACING);
    if fit < 1 {
        1
    } else {
        fit
    }
}

/// The width that `columns` nominal buttons take, gaps included.
pub open spec fn nominal_width(columns: int) -> int {
    columns * BUTTON_SIZE + (columns - 1) * SPACING
}

/// The grid for one width: the number of columns, and the width those
/// columns have at nominal size. Buttons and gaps are drawn at nominal size
/// times the available width over the nominal one, so that a row spans the
/// width it was given.
#[derive(Debug, Clone, Copy, PartialEq, Eq, Structural)]
pub struct GridLayout {
    pub columns: usize,
    pub nominal_width: u32,
}

/// Lays the grid out for `available_width`.
pub fn layout_for(available_width: u32) -> (layout: GridLayout)
    ensures
        layout.columns == columns_for(available_width as int),
        layout.nominal_width == nominal_width(layout.columns as int),
        layout.columns >= 1,
        layout.nominal_width >= BUTTON_SIZE,
        available_width >= BUTTON_SIZE ==> layout.nominal_width <= available_width,
{
    let fit: u64 = (available_width as u64 + SPACING as u64) / (BUTTON_SIZE as u64 + SPACING as u64);
    let columns: u64 = if fit < 1 {
        1
    } else {
        fit
    };
    let width: u64 = columns * (BUTTON_SIZE as u64) + (columns - 1) * (SPACING as u64);
    GridLayout { columns: columns as usize, nominal_width: width as u32 }
}

/// The row of the button at `index`, counted from zero.
pub open spec fn row_of(index: int, columns: int) -> int
    recommends
        columns >= 1,
{
    index / columns
}

/// The column of the button at `index`, counted from zero.
pub open spec fn column_of(index: int, columns: int) -> int
    recommends
        columns >= 1,
{
    index % columns
}

/// Whether the button at `index` is the last of its row: the count of
/// buttons drawn so far, this one included, is a multiple of the columns.
pub open spec fn ends_row(index: int, columns: int) -> bool
    recommends
        columns >= 1,
{
    (index + 1) % columns == 0
}

/// A row ends with the button in the last column.
pub proof fn lemma_row_ends_in_last_column(index: int, columns: int)
    requires
        index >= 0,
        columns >= 1,
    ensures
        ends_row(index, columns) <==> column_of(index, columns) == columns - 1,
{
    let c = columns;
    let i = index;
    lemma_fundamental_div_mod(i, c);
    lemma_fundamental_div_mod(i + 1, c);
    lemma_mod_bound(i, c);
    lemma_mod_bound(i + 1, c);
    let q = i / c;
    let r = i % c;
    if r == c - 1 {
        assert(i + 1 == c * (q + 1)) by (nonlinear_arith)
            requires
                i == c * q + r,
                r == c - 1,
        ;
        assert((i + 1) % c == 0) by (nonlinear_arith)
            requires
                i + 1 == c * (q + 1),
                c >= 1,
        ;
    } else {
        lemma_fundamental_div_mod_converse(i + 1, c, q, r + 1);
    }
}

/// Where the button at `index` falls in a grid of `columns`: its row, its
/// column, and whether the row ends with it.
pub fn place(index: usize, columns: usize) -> (cell: (usize, usize, bool))
    requires
        columns >= 1,
    ensures
        cell.0 == row_of(index as int, columns as int),
        cell.1 == column_of(index as int, columns as int),
        cell.2 == ends_row(index as int, columns as int),
{
    proof {
        lemma_row_ends_in_last_column(index as int, columns as int);
    }
    let column = index % columns;
    (index / columns, column, column == columns - 1)
}

/// For every width of at least one nominal button there is at least one
/// column, the columns counted for it fit in it at nominal size, and one more
/// column would not.
pub proof fn lemma_columns_fill_width(width: int)
    requires
        width >= BUTTON_SIZE,
    ensures
        columns_for(width) >= 1,
        BUTTON_SIZE <= nominal_width(columns_for(width)) <= width,
        nominal_width(columns_for(width) + 1) > width,
{
    let fit = (width + 10) / 210;
    assert(fit == (width + SPACING) / (BUTTON_SIZE + SPACING));
    assert(210 * fit <= width + 10 < 210 * fit + 210);
}

/// Drawn at nominal size times the available width over the nominal one,
/// the buttons of a row and the gaps between them add up to the available
/// width. Both sides are multiplied by the nominal width, so that the
/// statement is one of whole numbers.
pub proof fn lemma_scaled_row_spans_width(width: int, columns: int)
    ensures
        columns * (BUTTON_SIZE * width) + (columns - 1) * (SPACING * width) == width
            * nominal_width(columns),
{
    assert(columns * (200 * width) + (columns - 1) * (10 * width) == width * (columns * 200 + (
    columns - 1) * 10)) by (nonlinear_arith);
}

} // verus!
