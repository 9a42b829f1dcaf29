//! Remapping a depth frame onto the color grid.
//!
//! Each table entry reads one sample of the frame. A sample above zero is
//! written to the color cell that the caller projected it to and to the cells
//! around it; entries are taken in row-major order, and a later write
//! replaces an earlier one.

use vstd::prelude::*;
use crate::cast::{to_u32, to_usize};
use crate::depth::{at_most_zero, spec_at_most_zero, NO_DEPTH};
use crate::grid::{
    color_cell, spec_cell_column, spec_cell_row, COLOR_HEIGHT, COLOR_LEN, COLOR_WIDTH, DEPTH_LEN,
};
use crate::transformer::{MapEntry, Transformer};

verus! {

/// How many columns to each side of a projected pixel a sample is written.
pub const FILTER_WIDTH_HALF: u32 = 2;

/// How many rows above and below a projected pixel a sample is written.
pub const FILTER_HEIGHT_HALF: u32 = 1;

/// The sample that entry `i` carries to the color grid: the one at the
/// entry's index, if the entry has an index and the sample is above zero.
pub open spec fn spec_sample(table: Seq<MapEntry>, raw_depth: Seq<u32>, i: int) -> Option<u32> {
    match table[i].distort_index {
        Some(k) => if spec_at_most_zero(raw_depth[k as int]) {
            None
        } else {
            Some(raw_depth[k as int])
        },
        None => None,
    }
}

/// Whether a projected pixel exists and lies on the color grid.
pub open spec fn on_screen(pixel: Option<(i32, i32)>) -> bool {
    match pixel {
        Some((column, row)) => 0 <= column < COLOR_WIDTH && 0 <= row < COLOR_HEIGHT,
        None => false,
    }
}

/// Whether entry `i` writes anything: it carries a sample, and its pixel
/// lies on the color grid.
pub open spec fn lands(
    table: Seq<MapEntry>,
    raw_depth: Seq<u32>,
    pixels: Seq<Option<(i32, i32)>>,
    i: int,
) -> bool {
    spec_sample(table, raw_depth, i) is Some && on_screen(pixels[i])
}

/// Whether the output cell `cell` lies in the window around the pixel
/// `(column, row)`: at most two columns and one row away, and on the grid.
pub open spec fn in_window(column: int, row: int, cell: int) -> bool {
    &&& 0 <= cell < COLOR_LEN
    &&& column - FILTER_WIDTH_HALF <= spec_cell_column(cell) <= column + FILTER_WIDTH_HALF
    &&& row - FILTER_HEIGHT_HALF <= spec_cell_row(cell) <= row + FILTER_HEIGHT_HALF
}

/// Whether entry `i` writes to the output cell `cell`.
pub open spec fn writes(
    table: Seq<MapEntry>,
    raw_depth: Seq<u32>,
    pixels: Seq<Option<(i32, i32)>>,
    i: int,
    cell: int,
) -> bool {
    lands(table, raw_depth, pixels, i) && in_window(
        pixels[i].unwrap().0 as int,
        pixels[i].unwrap().1 as int,
        cell,
    )
}

/// The last of the first `n` entries that writes to `cell`, if any does.
pub open spec fn last_writer(
    table: Seq<MapEntry>,
    raw_depth: Seq<u32>,
    pixels: Seq<Option<(i32, i32)>>,
    n: nat,
    cell: int,
) -> Option<int>
    decreases n,
{
    if n == 0 {
        None
    } else if writes(table, raw_depth, pixels, n - 1, cell) {
        Some(n - 1)
    } else {
        last_writer(table, raw_depth, pixels, (n - 1) as nat, cell)
    }
}

/// What `cell` holds after the first `n` entries were taken: the sample of
/// the last entry that wrote to it, or `NO_DEPTH` where none did.
pub open spec fn remapped_cell(
    table: Seq<MapEntry>,
    raw_depth: Seq<u32>,
    pixels: Seq<Option<(i32, i32)>>,
    n: nat,
    cell: int,
) -> u32 {
    match last_writer(table, raw_depth, pixels, n, cell) {
        Some(i) => spec_sample(table, raw_depth, i).unwrap(),
        None => NO_DEPTH,
    }
}

/// The output after the first `n` entries were taken.
pub open spec fn remapped_prefix(
    table: Seq<MapEntry>,
    raw_depth: Seq<u32>,
    pixels: Seq<Option<(i32, i32)>>,
    n: nat,
) -> Seq<u32> {
    Seq::new(COLOR_LEN as nat, |cell: int| remapped_cell(table, raw_depth, pixels, n, cell))
}

/// The aligned depth image of a frame: every entry of the table was taken.
pub open spec fn remapped(
    table: Seq<MapEntry>,
    raw_depth: Seq<u32>,
    pixels: Seq<Option<(i32, i32)>>,
) -> Seq<u32> {
    remapped_prefix(table, raw_depth, pixels, table.len())
}

/// A buffer after `depth` was written to the window around `(column, row)`.
spec fn splat(buffer: Seq<u32>, column: int, row: int, depth: u32) -> Seq<u32> {
    Seq::new(
        buffer.len(),
        |cell: int|
            if in_window(column, row, cell) {
                depth
            } else {
                buffer[cell]
            },
    )
}

/// Sets every cell to `NO_DEPTH`.
fn clear(output: &mut [u32])
    ensures
        final(output)@ == Seq::new(old(output)@.len(), |cell: int| NO_DEPTH),
{
    let len: usize = output.len();
    let mut cell: usize = 0;
    while cell < len
        invariant
            cell <= len,
            output@.len() == len,
            forall|c: int| 0 <= c < cell ==> #[trigger] output@[c] == NO_DEPTH,
        decreases len - cell,
    {
        output[cell] = NO_DEPTH;
        cell += 1;
    }
    assert(output@ =~= Seq::new(len as nat, |cell: int| NO_DEPTH));
}

/// Writes `depth` to the window around the pixel `(column, row)`.
#[verifier::loop_isolation(false)]
fn dilate(output: &mut [u32], column: u32, row: u32, depth: u32)
    requires
        old(output)@.len() == COLOR_LEN,
        column < COLOR_WIDTH,
        row < COLOR_HEIGHT,
    ensures
        final(output)@ == splat(old(output)@, column as int, row as int, depth),
{
    let ghost before = output@;
    let first_row: u32 = row.saturating_sub(FILTER_HEIGHT_HALF);
    let end_row: u32 = if row + FILTER_HEIGHT_HALF < COLOR_HEIGHT {
        row + FILTER_HEIGHT_HALF + 1
    } else {
        COLOR_HEIGHT
    };
    let first_column: u32 = column.saturating_sub(FILTER_WIDTH_HALF);
    let end_column: u32 = if column + FILTER_WIDTH_HALF < COLOR_WIDTH {
        column + FILTER_WIDTH_HALF + 1
    } else {
        COLOR_WIDTH
    };
    let mut r: u32 = first_row;
    while r < end_row
        invariant
            first_row <= r <= end_row,
            output@.len() == COLOR_LEN,
            forall|c: int|
                0 <= c < COLOR_LEN ==> #[trigger] output@[c] == if in_window(
                    column as int,
                    row as int,
                    c,
                ) && spec_cell_row(c) < r {
                    depth
                } else {
                    before[c]
                },
        decreases end_row - r,
    {
        let mut col: u32 = first_column;
        while col < end_column
            invariant
                first_column <= col <= end_column,
                output@.len() == COLOR_LEN,
                forall|c: int|
                    0 <= c < COLOR_LEN ==> #[trigger] output@[c] == if in_window(
                        column as int,
                        row as int,
                        c,
                    ) && (spec_cell_row(c) < r || (spec_cell_row(c) == r && spec_cell_column(c)
                        < col)) {
                        depth
                    } else {
                        before[c]
                    },
            decreases end_column - col,
        {
            let cell = color_cell(col, r);
            output[cell] = depth;
            col += 1;
        }
        r += 1;
    }
    assert(output@ =~= splat(before, column as int, row as int, depth));
}

impl Transformer {
    /// The sample that the entry at `position` carries to the color grid, if
    /// it carries one.
    pub fn sample(&self, raw_depth: &[u32], position: usize) -> (out: Option<u32>)
        requires
            raw_depth@.len() == DEPTH_LEN,
            position < DEPTH_LEN,
        ensures
            out == spec_sample(self@, raw_depth@, position as int),
    {
        match self.entry(position).distort_index {
            Some(k) => {
                let depth = raw_depth[to_usize(k)];
                if at_most_zero(depth) {
                    None
                } else {
                    Some(depth)
                }
            },
            None => None,
        }
    }

    /// Asks `project` for the color pixel of every sample that an entry
    /// carries, handing it the entry and the sample, and collects the
    /// answers entry by entry. An entry without a sample gets `None`.
    pub fn project<F: Fn(MapEntry, u32) -> Option<(i32, i32)>>(
        &self,
        raw_depth: &[u32],
        project: F,
    ) -> (pixels: Vec<Option<(i32, i32)>>)
        requires
            raw_depth@.len() == DEPTH_LEN,
            forall|entry: MapEntry, depth: u32| call_requires(project, (entry, depth)),
        ensures
            pixels@.len() == DEPTH_LEN,
            forall|i: int|
                0 <= i < DEPTH_LEN ==> match spec_sample(self@, raw_depth@, i) {
                    Some(depth) => call_ensures(project, (self@[i], depth), #[trigger] pixels@[i]),
                    None => pixels@[i] is None,
                },
    {
        let mut pixels: Vec<Option<(i32, i32)>> = Vec::with_capacity(DEPTH_LEN);
        let mut i: usize = 0;
        while i < DEPTH_LEN
            invariant
                i <= DEPTH_LEN,
                raw_depth@.len() == DEPTH_LEN,
                pixels@.len() == i,
                forall|entry: MapEntry, depth: u32| call_requires(project, (entry, depth)),
                forall|j: int|
                    0 <= j < i ==> match spec_sample(self@, raw_depth@, j) {
                        Some(depth) => call_ensures(
                            project,
                            (self@[j], depth),
                            #[trigger] pixels@[j],
                        ),
                        None => pixels@[j] is None,
                    },
            decreases DEPTH_LEN - i,
        {
            let pixel = match self.sample(raw_depth, i) {
                Some(depth) => project(self.entry(i), depth),
                None => None,
            };
            pixels.push(pixel);
            i += 1;
        }
        pixels
    }

    /// Projects a depth frame onto the color grid.
    ///
    /// `raw_depth` is a 512x424 frame. `pixels` holds, for each table entry,
    /// the color pixel `(column, row)` that the entry's sample projects to,
    /// or `None` where the projection is no 32-bit integer; what it holds
    /// for an entry that carries no sample is not read. `output` is a
    /// 1920x1080 buffer; what it held before is overwritten.
    pub fn depth_to_color(
        &self,
        raw_depth: &[u32],
        pixels: &[Option<(i32, i32)>],
        output: &mut [u32],
    )
        requires
            raw_depth@.len() == DEPTH_LEN,
            pixels@.len() == DEPTH_LEN,
            old(output)@.len() == COLOR_LEN,
        ensures
            final(output)@ == remapped(self@, raw_depth@, pixels@),
    {
        proof {
            use_type_invariant(self);
        }
        clear(output);
        let mut i: usize = 0;
        while i < DEPTH_LEN
            invariant
                i <= DEPTH_LEN,
                raw_depth@.len() == DEPTH_LEN,
                pixels@.len() == DEPTH_LEN,
                output@.len() == COLOR_LEN,
                output@ == remapped_prefix(self@, raw_depth@, pixels@, i as nat),
            decreases DEPTH_LEN - i,
        {
            if let Some(depth) = self.sample(raw_depth, i) {
                if let Some((column, row)) = pixels[i] {
                    if 0 <= column && column < COLOR_WIDTH as i32 && 0 <= row && row
                        < COLOR_HEIGHT as i32 {
                        dilate(output, to_u32(column), to_u32(row), depth);
                    }
                }
            }
            i += 1;
            assert(output@ =~= remapped_prefix(self@, raw_depth@, pixels@, i as nat));
        }
    }
}

} // verus!
