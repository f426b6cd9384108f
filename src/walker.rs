use vstd::prelude::*;
use crate::geometry::{triangle_ops, triangle_path, PathOp};
use crate::grid::{columns_for, GridParameters};
use vstd::arithmetic::div_mod::lemma_fundamental_div_mod_converse;

verus! {

/// A row-major image of RGB triples, three bytes per pixel.
#[derive(Debug, Clone)]
pub struct PixelBuffer {
    pub width: u32,
    pub height: u32,
    pub data: Vec<u8>,
}

impl PixelBuffer {
    /// The buffer holds exactly `width * height` pixels, and at least one.
    pub open spec fn wf(&self) -> bool {
        &&& self.width > 0
        &&& self.height > 0
        &&& self.data@.len() == (self.width as int) * (self.height as int) * 3
    }

    /// Index of the first byte of pixel `(x, y)`.
    pub open spec fn offset(&self, x: int, y: int) -> int {
        (x + y * self.width) * 3
    }

    /// The RGB triple of pixel `(x, y)`.
    pub open spec fn pixel(&self, x: int, y: int) -> Seq<u8> {
        let i = self.offset(x, y);
        seq![self.data@[i], self.data@[i + 1], self.data@[i + 2]]
    }
}

/// Whether fills carry the sampled colour or only an outline is drawn.
#[derive(Debug, Clone, Copy, PartialEq, Eq, Structural)]
pub enum RenderMode {
    Fill,
    Outline,
}

/// One triangle of the mosaic.
#[derive(Debug, Clone)]
pub struct TriangleRecord {
    pub row: u32,
    pub col: u64,
    pub points_up: bool,
    /// The source pixel the colour is taken from.
    pub img_x: u32,
    pub img_y: u32,
    /// The outline in grid units: half-base widths across, triangle heights down.
    pub path: Vec<PathOp>,
    /// The sampled colour in fill mode; none in outline mode.
    pub color: Option<[u8; 3]>,
}

/// Orientation of cell `(row, col)`: up exactly when the parities of row and column differ.
pub open spec fn points_up_spec(row: int, col: int) -> bool {
    (row % 2 == 0) != (col % 2 == 0)
}

/// The image column sampled for grid column `col`, clamped to the image.
/// A grid without columns samples the first one.
pub open spec fn sample_x_spec(col: int, image_width: int, n_horizontal: int) -> int {
    if n_horizontal == 0 {
        0
    } else {
        let x = (col * image_width) / n_horizontal;
        if x < image_width - 1 { x } else { image_width - 1 }
    }
}

/// The image row sampled for grid row `row`, clamped to the image.
pub open spec fn sample_y_spec(row: int, image_height: int, n_vertical: int) -> int {
    let y = (row * image_height) / n_vertical;
    if y < image_height - 1 { y } else { image_height - 1 }
}

/// What the walker produces for cell `(row, col)`.
pub open spec fn is_cell_record(
    rec: TriangleRecord,
    pixels: PixelBuffer,
    grid: GridParameters,
    mode: RenderMode,
    row: int,
    col: int,
) -> bool {
    let x = sample_x_spec(col, grid.image_width as int, grid.n_horizontal as int);
    let y = sample_y_spec(row, grid.image_height as int, grid.n_vertical as int);
    let up = points_up_spec(row, col);
    &&& rec.row == row
    &&& rec.col == col
    &&& rec.points_up == up
    &&& rec.img_x == x
    &&& rec.img_y == y
    &&& rec.path@.map_values(|op: PathOp| op.as_triple()) == triangle_ops(col, row, 1, 1, up)
    &&& match mode {
        RenderMode::Fill => rec.color matches Some(c) && c@ == pixels.pixel(x, y),
        RenderMode::Outline => rec.color is None,
    }
}

/// `records` is the full walk of the grid: `n_vertical * (n_horizontal + 1)`
/// records, row by row and left to right within a row.
pub open spec fn is_walk(
    records: Seq<TriangleRecord>,
    pixels: PixelBuffer,
    grid: GridParameters,
    mode: RenderMode,
) -> bool {
    &&& records.len() == (grid.n_vertical as int) * (grid.n_horizontal as int + 1)
    &&& forall|i: int|
        0 <= i < records.len() ==> #[trigger] is_cell_record(
            records[i],
            pixels,
            grid,
            mode,
            i / (grid.n_horizontal as int + 1),
            i % (grid.n_horizontal as int + 1),
        )
}

/// Orientation of cell `(row, col)`.
pub fn points_up(row: u32, col: u64) -> (r: bool)
    ensures
        r == points_up_spec(row as int, col as int),
{
    (row % 2 == 0) != (col % 2 == 0)
}

/// The RGB triple of pixel `(img_x, img_y)`.
pub fn sample(pixels: &PixelBuffer, img_x: u32, img_y: u32) -> (r: [u8; 3])
    requires
        pixels.wf(),
        img_x < pixels.width,
        img_y < pixels.height,
    ensures
        r@ == pixels.pixel(img_x as int, img_y as int),
{
    let w = pixels.width;
    let h = pixels.height;
    let n: usize = pixels.data.len();
    proof {
        assert((img_x as int) + (img_y as int) * (w as int) < (w as int) * (h as int)
            && (img_y as int) * (w as int) <= (w as int) * (h as int)) by (nonlinear_arith)
            requires
                img_x < w,
                img_y < h,
        ;
    }
    let i: usize = (img_x as usize + img_y as usize * w as usize) * 3;
    let r = [pixels.data[i], pixels.data[i + 1], pixels.data[i + 2]];
    assert(r@ =~= pixels.pixel(img_x as int, img_y as int));
    r
}

/// The sampled column and row of every cell lie inside the image, the last
/// row and the extra trailing column included.
pub proof fn lemma_sample_in_bounds(grid: GridParameters, row: int, col: int)
    requires
        grid.wf(),
        0 <= row < grid.n_vertical,
        0 <= col <= grid.n_horizontal,
    ensures
        0 <= sample_x_spec(col, grid.image_width as int, grid.n_horizontal as int) < grid.image_width,
        0 <= sample_y_spec(row, grid.image_height as int, grid.n_vertical as int) < grid.image_height,
{
    let w = grid.image_width as int;
    let nh = grid.n_horizontal as int;
    if nh != 0 {
        assert(0 <= (col * w) / nh) by (nonlinear_arith)
            requires
                col >= 0,
                w > 0,
                nh > 0,
        ;
    }
    let h = grid.image_height as int;
    let nv = grid.n_vertical as int;
    assert(0 <= (row * h) / nv) by (nonlinear_arith)
        requires
            row >= 0,
            h > 0,
            nv > 0,
    ;
}

/// Every cell's sample reads three bytes inside the buffer, on the last row
/// and the trailing column too.
pub proof fn lemma_sample_offset_in_buffer(pixels: PixelBuffer, grid: GridParameters, row: int, col: int)
    requires
        pixels.wf(),
        grid.wf(),
        grid.image_width == pixels.width,
        grid.image_height == pixels.height,
        0 <= row < grid.n_vertical,
        0 <= col <= grid.n_horizontal,
    ensures
        ({
            let x = sample_x_spec(col, grid.image_width as int, grid.n_horizontal as int);
            let y = sample_y_spec(row, grid.image_height as int, grid.n_vertical as int);
            0 <= pixels.offset(x, y) && pixels.offset(x, y) + 2 < pixels.data@.len()
        }),
{
    lemma_sample_in_bounds(grid, row, col);
    let x = sample_x_spec(col, grid.image_width as int, grid.n_horizontal as int);
    let y = sample_y_spec(row, grid.image_height as int, grid.n_vertical as int);
    let w = pixels.width as int;
    let h = pixels.height as int;
    assert(0 <= (x + y * w) * 3 && (x + y * w) * 3 + 2 < w * h * 3) by (nonlinear_arith)
        requires
            0 <= x < w,
            0 <= y < h,
    ;
}

/// Orientation alternates between neighbours: along a row and down a column.
pub proof fn lemma_orientation_alternates(row: int, col: int)
    requires
        row >= 0,
        col >= 0,
    ensures
        points_up_spec(row, col) != points_up_spec(row, col + 1),
        points_up_spec(row, col) != points_up_spec(row + 1, col),
{
}

/// A grid column count is at most twice the quotient it is derived from.
proof fn lemma_columns_bound(w: int, h: int, nv: int, n: int)
    requires
        h > 0,
        w >= 0,
        nv >= 0,
        columns_for(w, h, nv, n),
    ensures
        n <= 2 * ((w * nv) / h),
{
    let k = (w * nv) / h;
    if n > 2 * k {
        assert(n * n >= (2 * k + 1) * (2 * k + 1)) by (nonlinear_arith)
            requires
                n >= 2 * k + 1,
                k >= 0,
        ;
        assert((2 * k + 1) * (2 * k + 1) > 3 * k * k) by (nonlinear_arith)
            requires
                k >= 0,
        ;
    }
}

/// The image column sampled for grid column `col`.
pub fn sample_x(col: u64, grid: &GridParameters) -> (r: u32)
    requires
        grid.wf(),
        col <= grid.n_horizontal,
    ensures
        r == sample_x_spec(col as int, grid.image_width as int, grid.n_horizontal as int),
{
    proof {
        lemma_sample_in_bounds(*grid, 0, col as int);
    }
    if grid.n_horizontal == 0 {
        return 0;
    }
    let w = grid.image_width;
    assert((col as int) * (w as int) <= (u64::MAX as int) * (u32::MAX as int)) by (nonlinear_arith)
        requires
            col <= u64::MAX,
            w <= u32::MAX,
    ;
    let x: u128 = ((col as u128) * (w as u128)) / (grid.n_horizontal as u128);
    if x < (w - 1) as u128 {
        x as u32
    } else {
        w - 1
    }
}

/// The image row sampled for grid row `row`.
pub fn sample_y(row: u32, grid: &GridParameters) -> (r: u32)
    requires
        grid.wf(),
        row < grid.n_vertical,
    ensures
        r == sample_y_spec(row as int, grid.image_height as int, grid.n_vertical as int),
{
    proof {
        lemma_sample_in_bounds(*grid, row as int, 0);
    }
    let h = grid.image_height;
    assert((row as int) * (h as int) <= (u32::MAX as int) * (u32::MAX as int)) by (nonlinear_arith)
        requires
            row <= u32::MAX,
            h <= u32::MAX,
    ;
    let y: u64 = ((row as u64) * (h as u64)) / (grid.n_vertical as u64);
    if y < (h - 1) as u64 {
        y as u32
    } else {
        h - 1
    }
}

/// Walks the grid row by row, left to right, and emits one record per cell:
/// `n_vertical` rows of `n_horizontal + 1` cells, the last column covering the
/// partial strip at the right edge.
pub fn generate(pixels: &PixelBuffer, grid: &GridParameters, mode: RenderMode) -> (r: Vec<
    TriangleRecord,
>)
    requires
        pixels.wf(),
        grid.wf(),
        grid.image_width == pixels.width,
        grid.image_height == pixels.height,
    ensures
        is_walk(r@, *pixels, *grid, mode),
{
    let ghost cols: int = grid.n_horizontal as int + 1;
    proof {
        lemma_columns_bound(
            grid.image_width as int,
            grid.image_height as int,
            grid.n_vertical as int,
            grid.n_horizontal as int,
        );
    }
    let mut out: Vec<TriangleRecord> = Vec::new();
    let mut row: u32 = 0;
    while row < grid.n_vertical
        invariant
            pixels.wf(),
            grid.wf(),
            grid.image_width == pixels.width,
            grid.image_height == pixels.height,
            cols == grid.n_horizontal as int + 1,
            grid.n_horizontal <= 2 * (u32::MAX as int),
            row <= grid.n_vertical,
            out@.len() == (row as int) * cols,
            forall|i: int|
                0 <= i < out@.len() ==> #[trigger] is_cell_record(
                    out@[i],
                    *pixels,
                    *grid,
                    mode,
                    i / cols,
                    i % cols,
                ),
        decreases grid.n_vertical - row,
    {
        let img_y = sample_y(row, grid);
        let mut col: u64 = 0;
        while col <= grid.n_horizontal
            invariant
                pixels.wf(),
                grid.wf(),
                grid.image_width == pixels.width,
                grid.image_height == pixels.height,
                cols == grid.n_horizontal as int + 1,
                grid.n_horizontal <= 2 * (u32::MAX as int),
                row < grid.n_vertical,
                img_y == sample_y_spec(row as int, grid.image_height as int, grid.n_vertical as int),
                col <= grid.n_horizontal + 1,
                out@.len() == (row as int) * cols + col,
                forall|i: int|
                    0 <= i < out@.len() ==> #[trigger] is_cell_record(
                        out@[i],
                        *pixels,
                        *grid,
                        mode,
                        i / cols,
                        i % cols,
                    ),
            decreases grid.n_horizontal + 1 - col,
        {
            proof {
                lemma_sample_in_bounds(*grid, row as int, col as int);
            }
            let img_x = sample_x(col, grid);
            let up = points_up(row, col);
            let path = triangle_path(col as i64, row as i64, 1, 1, up);
            let color = match mode {
                RenderMode::Fill => Some(sample(pixels, img_x, img_y)),
                RenderMode::Outline => None,
            };
            let rec = TriangleRecord { row, col, points_up: up, img_x, img_y, path, color };
            proof {
                lemma_fundamental_div_mod_converse(
                    out@.len() as int,
                    cols,
                    row as int,
                    col as int,
                );
                assert(is_cell_record(rec, *pixels, *grid, mode, row as int, col as int));
            }
            let ghost prev = out@;
            out.push(rec);
            assert forall|i: int| 0 <= i < out@.len() implies #[trigger] is_cell_record(
                out@[i],
                *pixels,
                *grid,
                mode,
                i / cols,
                i % cols,
            ) by {
                if i < prev.len() {
                    assert(out@[i] == prev[i]);
                }
            }
            col = col + 1;
        }
        assert(out@.len() == (row as int + 1) * cols) by (nonlinear_arith)
            requires
                out@.len() == (row as int) * cols + cols,
        ;
        row = row + 1;
    }
    out
}

} // verus!
