use vstd::prelude::*;
use crate::grid::{compute_grid, GridError, GridParameters};
use crate::walker::{generate, is_walk, PixelBuffer, RenderMode, TriangleRecord};

verus! {

/// The finished mosaic: the grid it was laid out on and one record per cell.
/// The canvas measures `n_horizontal` half-base widths by `n_vertical`
/// triangle heights.
#[derive(Debug, Clone)]
pub struct MosaicDocument {
    pub grid: GridParameters,
    pub records: Vec<TriangleRecord>,
}

/// Lays out a grid of `n_vertical` rows over the image and walks it.
pub fn build_mosaic(pixels: &PixelBuffer, n_vertical: u32, mode: RenderMode) -> (r: Result<
    MosaicDocument,
    GridError,
>)
    requires
        pixels.wf(),
    ensures
        n_vertical == 0 <==> r == Err::<MosaicDocument, GridError>(GridError::InvalidInput),
        r == Err::<MosaicDocument, GridError>(GridError::TooLarge) <==> (n_vertical > 0 && (
        pixels.width as int) * (n_vertical as int) / (pixels.height as int) > u32::MAX),
        r is Ok <==> (n_vertical > 0 && (pixels.width as int) * (n_vertical as int) / (
        pixels.height as int) <= u32::MAX),
        r matches Ok(d) ==> {
            &&& d.grid.wf()
            &&& d.grid.image_width == pixels.width
            &&& d.grid.image_height == pixels.height
            &&& d.grid.n_vertical == n_vertical
            &&& is_walk(d.records@, *pixels, d.grid, mode)
        },
{
    match compute_grid(pixels.width, pixels.height, n_vertical) {
        Ok(grid) => {
            let records = generate(pixels, &grid, mode);
            Ok(MosaicDocument { grid, records })
        },
        Err(e) => Err(e),
    }
}

} // verus!
