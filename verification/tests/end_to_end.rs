use depth_registration::depth::NO_DEPTH;
use depth_registration::grid::{color_cell, COLOR_LEN, DEPTH_LEN};
use depth_registration::transformer::{grid_models, MapEntry, PixelModel, Transformer};

const DEPTH_Q: f32 = 0.01;
const COLOR_Q: f32 = 0.002_199;

#[derive(Clone, Copy)]
struct Ir {
    fx: f32,
    fy: f32,
    cx: f32,
    cy: f32,
    k1: f32,
    k2: f32,
    k3: f32,
    p1: f32,
    p2: f32,
}

#[derive(Clone, Copy)]
struct Color {
    fx: f32,
    cx: f32,
    cy: f32,
    shift_d: f32,
    shift_m: f32,
    mx: [f32; 10],
    my: [f32; 10],
}

fn undistort(ir: &Ir, x: f32, y: f32) -> (f32, f32) {
    let nx: f32 = (x - ir.cx) / ir.fx;
    let ny: f32 = (y - ir.cy) / ir.fy;
    let nx2: f32 = nx * nx;
    let ny2: f32 = ny * ny;
    let r2: f32 = nx2 + ny2;
    let cross: f32 = 2.0 * nx * ny;
    let kr: f32 = 1.0 + ((ir.k3 * r2 + ir.k2) * r2 + ir.k1) * r2;
    (
        ir.fx * (nx * kr + ir.p2 * (r2 + 2.0 * nx2) + ir.p1 * cross) + ir.cx,
        ir.fy * (ny * kr + ir.p1 * (r2 + 2.0 * ny2) + ir.p2 * cross) + ir.cy,
    )
}

fn cubic(c: &[f32; 10], x: f32, y: f32) -> f32 {
    (x * x * x * c[0])
        + (y * y * y * c[1])
        + (x * x * y * c[2])
        + (y * y * x * c[3])
        + (x * x * c[4])
        + (y * y * c[5])
        + (x * y * c[6])
        + (x * c[7])
        + (y * c[8])
        + c[9]
}

fn warp(ir: &Ir, color: &Color, x: f32, y: f32) -> (f32, f32) {
    let nx: f32 = (x - ir.cx) * DEPTH_Q;
    let ny: f32 = (y - ir.cy) * DEPTH_Q;
    (
        cubic(&color.mx, nx, ny) / (color.fx * COLOR_Q) + -color.shift_m / color.shift_d,
        cubic(&color.my, nx, ny) / COLOR_Q + color.cy,
    )
}

fn model(ir: &Ir, color: &Color, column: u16, row: u16) -> PixelModel {
    let (ux, uy) = undistort(ir, f32::from(column), f32::from(row));
    let rounded: Option<(i32, i32)> =
        match (az::checked_cast::<f32, i32>(ux + 0.5), az::checked_cast::<f32, i32>(uy + 0.5)) {
            (Some(c), Some(r)) => Some((c, r)),
            _ => None,
        };
    let (wx, wy) = warp(ir, color, f32::from(column), f32::from(row));
    PixelModel { rounded, color_x: wx.to_bits(), color_y: wy.to_bits() }
}

fn project(color: &Color, entry: MapEntry, depth: u32) -> Option<(i32, i32)> {
    let x: f32 = (f32::from_bits(entry.x) + color.shift_m / f32::from_bits(depth)) * color.fx
        + (color.cx + 0.5);
    let y: f32 = f32::from_bits(entry.y) + 0.5;
    match (az::checked_cast::<f32, i32>(x), az::checked_cast::<f32, i32>(y)) {
        (Some(c), Some(r)) => Some((c, r)),
        _ => None,
    }
}

fn centered_ir() -> Ir {
    Ir { fx: 365.0, fy: 365.0, cx: 256.0, cy: 212.0, k1: 0.0, k2: 0.0, k3: 0.0, p1: 0.0, p2: 0.0 }
}

fn scaling_color() -> Color {
    let mut mx: [f32; 10] = [0.0; 10];
    let mut my: [f32; 10] = [0.0; 10];
    mx[7] = 1.0;
    my[8] = 1.0;
    Color { fx: 1081.0, cx: 960.0, cy: 540.0, shift_d: 863.0, shift_m: 0.0, mx, my }
}

fn build(ir: &Ir, color: &Color) -> Transformer {
    let models: Vec<PixelModel> = grid_models(|column: u16, row: u16| model(ir, color, column, row));
    Transformer::new(&models)
}

fn remap(table: &Transformer, color: &Color, raw_depth: &[f32]) -> Vec<f32> {
    let bits: Vec<u32> = raw_depth.iter().map(|sample| sample.to_bits()).collect();
    let pixels: Vec<Option<(i32, i32)>> =
        table.project(&bits, |entry: MapEntry, depth: u32| project(color, entry, depth));
    let mut output: Vec<u32> = vec![0; COLOR_LEN];
    table.depth_to_color(&bits, &pixels, &mut output);
    output.into_iter().map(f32::from_bits).collect()
}

#[test]
fn without_distortion_every_pixel_reads_its_own_sample() {
    let ir = centered_ir();
    let table = build(&ir, &scaling_color());
    for i in 0..DEPTH_LEN {
        assert_eq!(table.entry(i).distort_index, Some(i as u32));
    }
    for (x, y) in [(0.0f32, 0.0f32), (256.0, 212.0), (511.0, 423.0), (100.0, 300.0)] {
        let (ux, uy) = undistort(&ir, x, y);
        assert!((ux - x).abs() < 1e-3);
        assert!((uy - y).abs() < 1e-3);
    }
}

#[test]
fn strong_distortion_pushes_the_corners_off_the_grid() {
    let mut ir = centered_ir();
    ir.k1 = 2.0;
    let table = build(&ir, &scaling_color());
    assert_eq!(table.entry(0).distort_index, None);
    assert_eq!(table.entry(511).distort_index, None);
    assert_eq!(table.entry(DEPTH_LEN - 1).distort_index, None);
    assert_eq!(table.entry(212 * 512 + 256).distort_index, Some(212 * 512 + 256));
}

#[test]
fn calibration_that_is_not_a_number_gives_an_empty_image() {
    let mut ir = centered_ir();
    ir.fx = f32::NAN;
    ir.fy = f32::NAN;
    let color = scaling_color();
    let table = build(&ir, &color);
    for i in [0usize, 1, 512, 108_800, DEPTH_LEN - 1] {
        assert_eq!(table.entry(i).distort_index, None);
    }
    let output = remap(&table, &color, &vec![1000.0; DEPTH_LEN]);
    assert!(output.iter().all(|&value| value == f32::INFINITY));
}

#[test]
fn a_sample_that_is_not_a_number_is_not_projected() {
    let color = scaling_color();
    let table = build(&centered_ir(), &color);
    let mut raw_depth: Vec<f32> = vec![0.0; DEPTH_LEN];
    raw_depth[212 * 512 + 256] = f32::NAN;
    let output = remap(&table, &color, &raw_depth);
    assert!(output.iter().all(|&value| value == f32::INFINITY));
}

#[test]
fn the_center_sample_lands_at_the_center_of_the_color_image() {
    let color = scaling_color();
    let table = build(&centered_ir(), &color);
    let mut raw_depth: Vec<f32> = vec![0.0; DEPTH_LEN];
    raw_depth[212 * 512 + 256] = 1000.0;
    let output = remap(&table, &color, &raw_depth);
    assert_eq!(output.len(), COLOR_LEN);
    assert_eq!(output[color_cell(960, 540)], 1000.0);
    let mut count: usize = 0;
    for (cell, &value) in output.iter().enumerate() {
        if value != f32::INFINITY {
            assert_eq!(value, 1000.0);
            let column: i64 = (cell % 1920) as i64;
            let row: i64 = (cell / 1920) as i64;
            assert!((column - 960).abs() <= 3, "column {column}");
            assert!((row - 540).abs() <= 3, "row {row}");
            count += 1;
        }
    }
    assert_eq!(count, 15);
}

#[test]
fn the_shift_moves_near_samples_further_than_far_ones() {
    let mut color = scaling_color();
    color.shift_m = 52.0;
    let table = build(&centered_ir(), &color);
    let center: usize = 212 * 512 + 256;
    let expect = |depth: f32| -> i32 {
        let rx: f32 = 0.0 / (color.fx * COLOR_Q) + -color.shift_m / color.shift_d;
        ((rx + color.shift_m / depth) * color.fx + (color.cx + 0.5)) as i32
    };
    assert_eq!(expect(1000.0), 951);
    assert_eq!(expect(500.0), 1007);
    for depth in [500.0f32, 1000.0, 4000.0] {
        let mut raw_depth: Vec<f32> = vec![0.0; DEPTH_LEN];
        raw_depth[center] = depth;
        let output = remap(&table, &color, &raw_depth);
        let column: u32 = expect(depth) as u32;
        assert_eq!(output[color_cell(column, 540)], depth);
        assert_eq!(output[color_cell(column - 2, 539)], depth);
        assert_eq!(output[color_cell(column + 2, 541)], depth);
        assert_eq!(output[color_cell(column - 3, 540)], f32::INFINITY);
        assert_eq!(output[color_cell(column + 3, 540)], f32::INFINITY);
    }
}

#[test]
fn a_full_frame_of_one_depth_gives_that_depth_or_no_depth() {
    let color = scaling_color();
    let table = build(&centered_ir(), &color);
    let output = remap(&table, &color, &vec![2500.0; DEPTH_LEN]);
    assert!(output.iter().all(|&value| value == 2500.0 || value == f32::INFINITY));
    assert_eq!(output[color_cell(960, 540)], 2500.0);
    assert!(output.iter().any(|&value| value == f32::INFINITY));
    assert_eq!(f32::INFINITY.to_bits(), NO_DEPTH);
}
