//! The 5x5 address space and its mapping to grid indices.
//!
//! Columns are numbered 1..5 and read right-to-left in display order, so
//! column 1 maps to the last grid index and column 5 to the first. Rows are
//! numbered top-to-bottom from the first mover's perspective and map in
//! order.

use vstd::prelude::*;

verus! {

/// A column, 1..5, right-to-left in display order.
#[derive(Copy, Clone, Debug, PartialEq, Eq, Structural)]
pub enum Column {
    _1,
    _2,
    _3,
    _4,
    _5,
}

/// A row, top-to-bottom from the first mover's perspective.
#[derive(Copy, Clone, Debug, PartialEq, Eq, Structural)]
pub enum Row {
    Yi,
    Er,
    San,
    Si,
    Wu,
}

/// A board square: (column, row).
pub type Coord = (Column, Row);

/// The grid column index of a column: column 1 is the last index.
pub open spec fn col_idx(c: Column) -> int {
    match c {
        Column::_1 => 4,
        Column::_2 => 3,
        Column::_3 => 2,
        Column::_4 => 1,
        Column::_5 => 0,
    }
}

/// The grid row index of a row: row one is the first index.
pub open spec fn row_idx(r: Row) -> int {
    match r {
        Row::Yi => 0,
        Row::Er => 1,
        Row::San => 2,
        Row::Si => 3,
        Row::Wu => 4,
    }
}

/// The index of a square in the flattened 25-cell grid, row-major.
pub open spec fn coord_index(c: Coord) -> int {
    row_idx(c.1) * 5 + col_idx(c.0)
}

/// Translates a square to its (column index, row index) pair in the grid.
pub fn foo(c: Coord) -> (r: (usize, usize))
    ensures
        r.0 == col_idx(c.0),
        r.1 == row_idx(c.1),
{
    let (col, row) = c;
    let col: usize = match col {
        Column::_1 => 4,
        Column::_2 => 3,
        Column::_3 => 2,
        Column::_4 => 1,
        Column::_5 => 0,
    };
    let row: usize = match row {
        Row::Yi => 0,
        Row::Er => 1,
        Row::San => 2,
        Row::Si => 3,
        Row::Wu => 4,
    };
    (col, row)
}

/// The square whose flattened index is `i`.
pub open spec fn coord_from_index_spec(i: int) -> Coord {
    (col_from_idx(i % 5), row_from_idx(i / 5))
}

/// The column whose grid index is `i`.
pub open spec fn col_from_idx(i: int) -> Column {
    if i == 4 {
        Column::_1
    } else if i == 3 {
        Column::_2
    } else if i == 2 {
        Column::_3
    } else if i == 1 {
        Column::_4
    } else {
        Column::_5
    }
}

/// The row whose grid index is `i`.
pub open spec fn row_from_idx(i: int) -> Row {
    if i == 0 {
        Row::Yi
    } else if i == 1 {
        Row::Er
    } else if i == 2 {
        Row::San
    } else if i == 3 {
        Row::Si
    } else {
        Row::Wu
    }
}

/// The flattened index is a bijection between squares and 0..25.
pub proof fn lemma_coord_index_bijective(c: Coord, i: int)
    ensures
        0 <= coord_index(c) < 25,
        coord_from_index_spec(coord_index(c)) == c,
        0 <= i < 25 ==> coord_index(coord_from_index_spec(i)) == i,
{
    vstd::arithmetic::div_mod::lemma_fundamental_div_mod_converse(
        coord_index(c),
        5,
        row_idx(c.1),
        col_idx(c.0),
    );
    if 0 <= i < 25 {
        vstd::arithmetic::div_mod::lemma_fundamental_div_mod(i, 5);
        vstd::arithmetic::div_mod::lemma_mod_bound(i, 5);
    }
}

/// The square whose flattened index is `i`.
pub fn coord_from_index(i: usize) -> (r: Coord)
    requires
        i < 25,
    ensures
        r == coord_from_index_spec(i as int),
        coord_index(r) == i,
{
    proof {
        lemma_coord_index_bijective(coord_from_index_spec(i as int), i as int);
    }
    let col: Column = match i % 5 {
        0 => Column::_5,
        1 => Column::_4,
        2 => Column::_3,
        3 => Column::_2,
        _ => Column::_1,
    };
    let row: Row = match i / 5 {
        0 => Row::Yi,
        1 => Row::Er,
        2 => Row::San,
        3 => Row::Si,
        _ => Row::Wu,
    };
    (col, row)
}

} // verus!
