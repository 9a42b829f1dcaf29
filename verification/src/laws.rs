//! What holds of every table and every remap.

use vstd::prelude::*;
use crate::depth::{spec_at_most_zero, spec_is_zero, NO_DEPTH};
use crate::grid::{spec_depth_pixel, COLOR_LEN, DEPTH_LEN};
use crate::remap::{lands, last_writer, remapped, remapped_cell, spec_sample, writes};
use crate::transformer::{spec_table, table_wf, MapEntry, PixelModel};

verus! {

/// `last_writer` names an entry that writes to the cell, and no entry after
/// it does; it names none only where no entry writes to the cell.
pub proof fn lemma_last_writer(
    table: Seq<MapEntry>,
    raw_depth: Seq<u32>,
    pixels: Seq<Option<(i32, i32)>>,
    n: nat,
    cell: int,
)
    ensures
        match last_writer(table, raw_depth, pixels, n, cell) {
            Some(i) => {
                &&& 0 <= i < n
                &&& writes(table, raw_depth, pixels, i, cell)
                &&& forall|j: int| i < j < n ==> !writes(table, raw_depth, pixels, j, cell)
            },
            None => forall|j: int| 0 <= j < n ==> !writes(table, raw_depth, pixels, j, cell),
        },
    decreases n,
{
    if n > 0 {
        lemma_last_writer(table, raw_depth, pixels, (n - 1) as nat, cell);
    }
}

/// The aligned image has one cell for each color pixel.
pub proof fn lemma_remapped_len(
    table: Seq<MapEntry>,
    raw_depth: Seq<u32>,
    pixels: Seq<Option<(i32, i32)>>,
)
    ensures
        remapped(table, raw_depth, pixels).len() == COLOR_LEN,
{
}

/// Last write wins: a cell holds the sample of the entry that writes to it
/// and is followed by no other entry that does.
pub proof fn lemma_last_write_wins(
    table: Seq<MapEntry>,
    raw_depth: Seq<u32>,
    pixels: Seq<Option<(i32, i32)>>,
    i: int,
    cell: int,
)
    requires
        0 <= cell < COLOR_LEN,
        0 <= i < table.len(),
        writes(table, raw_depth, pixels, i, cell),
        forall|j: int| i < j < table.len() ==> !writes(table, raw_depth, pixels, j, cell),
    ensures
        remapped(table, raw_depth, pixels)[cell] == spec_sample(table, raw_depth, i).unwrap(),
{
    lemma_last_writer(table, raw_depth, pixels, table.len(), cell);
}

/// A cell that no entry writes to holds `NO_DEPTH`.
pub proof fn lemma_unwritten_cell(
    table: Seq<MapEntry>,
    raw_depth: Seq<u32>,
    pixels: Seq<Option<(i32, i32)>>,
    cell: int,
)
    requires
        0 <= cell < COLOR_LEN,
        forall|j: int| 0 <= j < table.len() ==> !writes(table, raw_depth, pixels, j, cell),
    ensures
        remapped(table, raw_depth, pixels)[cell] == NO_DEPTH,
{
    lemma_last_writer(table, raw_depth, pixels, table.len(), cell);
}

/// Nothing is made up: a cell holds `NO_DEPTH`, or a sample of the frame
/// that is above zero, bit for bit.
pub proof fn lemma_cell_comes_from_frame(
    table: Seq<MapEntry>,
    raw_depth: Seq<u32>,
    pixels: Seq<Option<(i32, i32)>>,
    cell: int,
)
    requires
        table_wf(table),
        raw_depth.len() == DEPTH_LEN,
        0 <= cell < COLOR_LEN,
    ensures
        remapped(table, raw_depth, pixels)[cell] == NO_DEPTH || exists|k: int|
            0 <= k < raw_depth.len() && #[trigger] raw_depth[k] == remapped(
                table,
                raw_depth,
                pixels,
            )[cell] && !spec_at_most_zero(raw_depth[k]),
{
    lemma_last_writer(table, raw_depth, pixels, table.len(), cell);
    match last_writer(table, raw_depth, pixels, table.len(), cell) {
        Some(i) => {
            let k = table[i].distort_index.unwrap() as int;
            assert(raw_depth[k] == remapped(table, raw_depth, pixels)[cell]);
        },
        None => {},
    }
}

/// Of a frame that holds one depth everywhere, every cell holds that depth
/// or `NO_DEPTH`.
pub proof fn lemma_constant_frame(
    table: Seq<MapEntry>,
    raw_depth: Seq<u32>,
    pixels: Seq<Option<(i32, i32)>>,
    depth: u32,
    cell: int,
)
    requires
        table_wf(table),
        raw_depth.len() == DEPTH_LEN,
        forall|k: int| 0 <= k < raw_depth.len() ==> raw_depth[k] == depth,
        0 <= cell < COLOR_LEN,
    ensures
        remapped(table, raw_depth, pixels)[cell] == NO_DEPTH || remapped(
            table,
            raw_depth,
            pixels,
        )[cell] == depth,
{
    lemma_cell_comes_from_frame(table, raw_depth, pixels, cell);
}

/// Changing the pixel of an entry that carries no sample changes no cell's
/// last writer, however many entries are taken.
pub proof fn lemma_idle_pixel_is_ignored(
    table: Seq<MapEntry>,
    raw_depth: Seq<u32>,
    pixels: Seq<Option<(i32, i32)>>,
    i: int,
    pixel: Option<(i32, i32)>,
    n: nat,
    cell: int,
)
    requires
        0 <= i < pixels.len(),
        n <= pixels.len(),
        spec_sample(table, raw_depth, i) is None,
    ensures
        last_writer(table, raw_depth, pixels.update(i, pixel), n, cell) == last_writer(
            table,
            raw_depth,
            pixels,
            n,
            cell,
        ),
    decreases n,
{
    if n > 0 {
        lemma_idle_pixel_is_ignored(table, raw_depth, pixels, i, pixel, (n - 1) as nat, cell);
        if n - 1 != i {
            assert(pixels.update(i, pixel)[n - 1] == pixels[n - 1]);
        }
    }
}

/// The image is the same for every pixel given for an entry that carries
/// no sample.
pub proof fn lemma_idle_entry_leaves_no_trace(
    table: Seq<MapEntry>,
    raw_depth: Seq<u32>,
    pixels: Seq<Option<(i32, i32)>>,
    i: int,
    pixel: Option<(i32, i32)>,
)
    requires
        0 <= i < table.len(),
        table.len() == pixels.len(),
        spec_sample(table, raw_depth, i) is None,
    ensures
        remapped(table, raw_depth, pixels.update(i, pixel)) == remapped(table, raw_depth, pixels),
{
    assert forall|cell: int| 0 <= cell < COLOR_LEN implies remapped_cell(
        table,
        raw_depth,
        pixels.update(i, pixel),
        table.len(),
        cell,
    ) == remapped_cell(table, raw_depth, pixels, table.len(), cell) by {
        lemma_idle_pixel_is_ignored(table, raw_depth, pixels, i, pixel, table.len(), cell);
    }
    assert(remapped(table, raw_depth, pixels.update(i, pixel)) =~= remapped(
        table,
        raw_depth,
        pixels,
    ));
}

/// An entry without an index never writes, whatever the frame holds and
/// wherever its pixel is said to lie: no cell is written by it, and the
/// image is the same for every pixel given for it.
pub proof fn lemma_sentinel_never_writes(
    table: Seq<MapEntry>,
    raw_depth: Seq<u32>,
    pixels: Seq<Option<(i32, i32)>>,
    i: int,
    pixel: Option<(i32, i32)>,
)
    requires
        0 <= i < table.len(),
        table.len() == pixels.len(),
        table[i].distort_index is None,
    ensures
        !lands(table, raw_depth, pixels, i),
        forall|cell: int| !writes(table, raw_depth, pixels, i, cell),
        remapped(table, raw_depth, pixels.update(i, pixel)) == remapped(table, raw_depth, pixels),
{
    lemma_idle_entry_leaves_no_trace(table, raw_depth, pixels, i, pixel);
}

/// An entry whose index leads to a sample of zero never writes: no cell is
/// written by it, and the image is the same for every pixel given for it.
pub proof fn lemma_zero_sample_never_writes(
    table: Seq<MapEntry>,
    raw_depth: Seq<u32>,
    pixels: Seq<Option<(i32, i32)>>,
    i: int,
    pixel: Option<(i32, i32)>,
)
    requires
        0 <= i < table.len(),
        table.len() == pixels.len(),
        table[i].distort_index is Some,
        spec_is_zero(raw_depth[table[i].distort_index.unwrap() as int]),
    ensures
        !lands(table, raw_depth, pixels, i),
        forall|cell: int| !writes(table, raw_depth, pixels, i, cell),
        remapped(table, raw_depth, pixels.update(i, pixel)) == remapped(table, raw_depth, pixels),
{
    lemma_idle_entry_leaves_no_trace(table, raw_depth, pixels, i, pixel);
}

/// Remapping is repeatable: the image depends on the table, the frame and
/// the pixels alone, so two runs on the same three give the same buffer,
/// whatever the two buffers held before.
pub proof fn lemma_remap_repeatable(
    table: Seq<MapEntry>,
    raw_depth: Seq<u32>,
    pixels: Seq<Option<(i32, i32)>>,
    first: Seq<u32>,
    second: Seq<u32>,
)
    requires
        first == remapped(table, raw_depth, pixels),
        second == remapped(table, raw_depth, pixels),
    ensures
        first == second,
{
}

/// Where the model leaves every depth pixel in its place, every entry
/// reads the sample of its own pixel.
pub proof fn lemma_pixels_in_place_read_themselves(models: Seq<PixelModel>, i: int)
    requires
        models.len() == DEPTH_LEN,
        0 <= i < DEPTH_LEN,
        models[i].rounded == Some((spec_depth_pixel(i).0 as i32, spec_depth_pixel(i).1 as i32)),
    ensures
        spec_table(models)[i].distort_index == Some(i as u32),
{
    assert(i == (i / 512) * 512 + i % 512);
    assert(i / 512 < 424);
}

/// Building is repeatable: two tables built from the same models hold the
/// same entries, and either has the right shape.
pub proof fn lemma_table_repeatable(
    models: Seq<PixelModel>,
    first: Seq<MapEntry>,
    second: Seq<MapEntry>,
)
    requires
        models.len() == DEPTH_LEN,
        first == spec_table(models),
        second == spec_table(models),
    ensures
        first == second,
        table_wf(first),
{
}

} // verus!
