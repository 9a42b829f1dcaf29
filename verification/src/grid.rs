//! The two pixel grids and their row-major numbering.

use vstd::prelude::*;
use crate::cast::to_usize;

verus! {

/// Columns of the depth sensor.
pub const DEPTH_WIDTH: u32 = 512;

/// Rows of the depth sensor.
pub const DEPTH_HEIGHT: u32 = 424;

/// Samples in one depth frame.
pub const DEPTH_LEN: usize = 217_088;

/// Columns of the color sensor.
pub const COLOR_WIDTH: u32 = 1920;

/// Rows of the color sensor.
pub const COLOR_HEIGHT: u32 = 1080;

/// Cells in one aligned output buffer.
pub const COLOR_LEN: usize = 2_073_600;

/// The depth pixel `(column, row)` that stands at `position` of a row-major
/// depth frame.
pub open spec fn spec_depth_pixel(position: int) -> (int, int) {
    (position % (DEPTH_WIDTH as int), position / (DEPTH_WIDTH as int))
}

/// The place of the color cell `(column, row)` in a row-major output buffer.
pub open spec fn spec_color_cell(column: int, row: int) -> int {
    row * COLOR_WIDTH + column
}

/// The column of the color cell at `cell` of a row-major output buffer.
pub open spec fn spec_cell_column(cell: int) -> int {
    cell % (COLOR_WIDTH as int)
}

/// The row of the color cell at `cell` of a row-major output buffer.
pub open spec fn spec_cell_row(cell: int) -> int {
    cell / (COLOR_WIDTH as int)
}

/// The depth pixel `(column, row)` that stands at `position` of a row-major
/// depth frame.
pub fn depth_pixel(position: usize) -> (pixel: (u16, u16))
    requires
        position < DEPTH_LEN,
    ensures
        pixel.0 == spec_depth_pixel(position as int).0,
        pixel.1 == spec_depth_pixel(position as int).1,
        pixel.0 < DEPTH_WIDTH,
        pixel.1 < DEPTH_HEIGHT,
{
    let column: usize = position % (DEPTH_WIDTH as usize);
    let row: usize = position / (DEPTH_WIDTH as usize);
    assert(row < DEPTH_HEIGHT) by {
        assert(position / 512 < 424);
    }
    (column as u16, row as u16)
}

/// The place of the color cell `(column, row)` in a row-major output buffer.
pub fn color_cell(column: u32, row: u32) -> (cell: usize)
    requires
        column < COLOR_WIDTH,
        row < COLOR_HEIGHT,
    ensures
        cell == spec_color_cell(column as int, row as int),
        cell < COLOR_LEN,
        spec_cell_column(cell as int) == column,
        spec_cell_row(cell as int) == row,
{
    to_usize(row * COLOR_WIDTH + column)
}

} // verus!
