//! The registration table: one entry for each depth pixel.

use vstd::prelude::*;
use crate::cast::to_u32;
use crate::grid::{depth_pixel, spec_depth_pixel, DEPTH_HEIGHT, DEPTH_LEN, DEPTH_WIDTH};

verus! {

/// What the calibration model gives for one depth pixel.
#[derive(Clone, Copy, Debug, PartialEq, Eq)]
pub struct PixelModel {
    /// The undistorted position, rounded to whole pixels as `(column, row)`.
    /// `None` where rounding gives no 32-bit integer: the position is not a
    /// number, or lies beyond the integers' range.
    pub rounded: Option<(i32, i32)>,
    /// Bits of the color-space x coordinate, before the shift that depends
    /// on depth.
    pub color_x: u32,
    /// Bits of the color-space y coordinate.
    pub color_y: u32,
}

/// One entry of the registration table.
#[derive(Clone, Copy, Debug, PartialEq, Eq)]
pub struct MapEntry {
    /// Where in a depth frame this entry reads its sample. `None` where the
    /// undistorted position falls outside the frame.
    pub distort_index: Option<u32>,
    /// Bits of the color-space x coordinate.
    pub x: u32,
    /// Bits of the color-space y coordinate.
    pub y: u32,
}

/// The row-major index of a rounded undistorted position, if the position
/// lies on the depth grid.
pub open spec fn spec_distort_index(rounded: Option<(i32, i32)>) -> Option<u32> {
    match rounded {
        Some((column, row)) => if 0 <= column < DEPTH_WIDTH && 0 <= row < DEPTH_HEIGHT {
            Some((row * DEPTH_WIDTH + column) as u32)
        } else {
            None
        },
        None => None,
    }
}

/// The table entry that a pixel's model gives.
pub open spec fn spec_entry(model: PixelModel) -> MapEntry {
    MapEntry {
        distort_index: spec_distort_index(model.rounded),
        x: model.color_x,
        y: model.color_y,
    }
}

/// The table that a grid of models gives: entry by entry, in the same order.
pub open spec fn spec_table(models: Seq<PixelModel>) -> Seq<MapEntry> {
    Seq::new(models.len(), |i: int| spec_entry(models[i]))
}

/// A table of the right shape: one entry for each depth pixel, each index
/// inside a depth frame.
pub open spec fn table_wf(table: Seq<MapEntry>) -> bool {
    &&& table.len() == DEPTH_LEN
    &&& forall|i: int|
        0 <= i < table.len() ==> match (#[trigger] table[i]).distort_index {
            Some(k) => k < DEPTH_LEN,
            None => true,
        }
}

/// The row-major index of a rounded undistorted position, if the position
/// lies on the depth grid.
pub fn distort_index(rounded: Option<(i32, i32)>) -> (out: Option<u32>)
    ensures
        out == spec_distort_index(rounded),
{
    match rounded {
        Some((column, row)) => {
            if 0 <= column && column < DEPTH_WIDTH as i32 && 0 <= row && row < DEPTH_HEIGHT as i32 {
                Some(to_u32(row * DEPTH_WIDTH as i32 + column))
            } else {
                None
            }
        },
        None => None,
    }
}

/// Asks `model` about every depth pixel `(column, row)`, row by row, and
/// collects the answers in that order.
pub fn grid_models<F: Fn(u16, u16) -> PixelModel>(model: F) -> (models: Vec<PixelModel>)
    requires
        forall|column: u16, row: u16|
            column < DEPTH_WIDTH && row < DEPTH_HEIGHT ==> call_requires(model, (column, row)),
    ensures
        models@.len() == DEPTH_LEN,
        forall|i: int|
            0 <= i < DEPTH_LEN ==> call_ensures(
                model,
                (spec_depth_pixel(i).0 as u16, spec_depth_pixel(i).1 as u16),
                #[trigger] models@[i],
            ),
{
    let mut models: Vec<PixelModel> = Vec::with_capacity(DEPTH_LEN);
    let mut i: usize = 0;
    while i < DEPTH_LEN
        invariant
            i <= DEPTH_LEN,
            models@.len() == i,
            forall|column: u16, row: u16|
                column < DEPTH_WIDTH && row < DEPTH_HEIGHT ==> call_requires(model, (column, row)),
            forall|j: int|
                0 <= j < i ==> call_ensures(
                    model,
                    (spec_depth_pixel(j).0 as u16, spec_depth_pixel(j).1 as u16),
                    #[trigger] models@[j],
                ),
        decreases DEPTH_LEN - i,
    {
        let (column, row) = depth_pixel(i);
        models.push(model(column, row));
        i += 1;
    }
    models
}

/// The registration table, built once for a set of calibration parameters
/// and read by every remap after that.
pub struct Transformer {
    map: Vec<MapEntry>,
}

impl View for Transformer {
    type V = Seq<MapEntry>;

    closed spec fn view(&self) -> Seq<MapEntry> {
        self.map@
    }
}

impl Transformer {
    /// Every table has the right shape.
    #[verifier::type_invariant]
    pub open spec fn inv(&self) -> bool {
        table_wf(self@)
    }

    /// Builds the table from the models of all depth pixels, in row-major
    /// order.
    pub fn new(models: &[PixelModel]) -> (table: Transformer)
        requires
            models@.len() == DEPTH_LEN,
        ensures
            table@ == spec_table(models@),
            table_wf(table@),
    {
        let mut map: Vec<MapEntry> = Vec::with_capacity(DEPTH_LEN);
        let mut i: usize = 0;
        while i < DEPTH_LEN
            invariant
                i <= DEPTH_LEN,
                models@.len() == DEPTH_LEN,
                map@.len() == i,
                forall|j: int| 0 <= j < i ==> map@[j] == spec_entry(#[trigger] models@[j]),
            decreases DEPTH_LEN - i,
        {
            let model = models[i];
            map.push(
                MapEntry {
                    distort_index: distort_index(model.rounded),
                    x: model.color_x,
                    y: model.color_y,
                },
            );
            i += 1;
        }
        assert(map@ =~= spec_table(models@));
        Transformer { map }
    }

    /// The entry of the depth pixel at `position` in row-major order.
    pub fn entry(&self, position: usize) -> (entry: MapEntry)
        requires
            position < DEPTH_LEN,
        ensures
            entry == self@[position as int],
            table_wf(self@),
    {
        proof {
            use_type_invariant(self);
        }
        self.map[position]
    }
}

} // verus!
