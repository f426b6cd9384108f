use vstd::prelude::*;

verus! {

/// `n` is the floor of `k * sqrt(3)`: the largest natural number whose
/// square is at most `3 * k * k`.
pub open spec fn is_floor_sqrt3_times(k: int, n: int) -> bool {
    0 <= n && n * n <= 3 * k * k && 3 * k * k < (n + 1) * (n + 1)
}

/// The column count that keeps the grid's aspect ratio close to the image's:
/// `floor(floor(width * n_vertical / height) * sqrt(3))`.
pub open spec fn columns_for(image_width: int, image_height: int, n_vertical: int, n: int) -> bool {
    is_floor_sqrt3_times((image_width * n_vertical) / image_height, n)
}

/// Why grid parameters could not be computed.
#[derive(Debug, Clone, Copy, PartialEq, Eq, Structural)]
pub enum GridError {
    /// A width, height or row count of zero.
    InvalidInput,
    /// More than `u32::MAX` triangle pairs would be needed across.
    TooLarge,
}

/// The dimensions of the triangle grid. Coordinates on the canvas are measured
/// in half-base widths horizontally and in triangle heights vertically, so
/// column `c` starts at `c` and row `r` at `r`.
#[derive(Debug, Clone, Copy, PartialEq, Eq, Structural)]
pub struct GridParameters {
    pub image_width: u32,
    pub image_height: u32,
    pub n_vertical: u32,
    pub n_horizontal: u64,
}

impl GridParameters {
    /// The parameters describe a non-empty image and a grid sized for it.
    pub open spec fn wf(&self) -> bool {
        &&& self.image_width > 0
        &&& self.image_height > 0
        &&& self.n_vertical > 0
        &&& (self.image_width as int) * (self.n_vertical as int) / (self.image_height as int)
            <= u32::MAX
        &&& columns_for(
            self.image_width as int,
            self.image_height as int,
            self.n_vertical as int,
            self.n_horizontal as int,
        )
    }

    /// Canvas width in half-base widths.
    pub fn canvas_width(&self) -> (r: u64)
        ensures
            r == self.n_horizontal,
    {
        self.n_horizontal
    }

    /// Canvas height in triangle heights.
    pub fn canvas_height(&self) -> (r: u32)
        ensures
            r == self.n_vertical,
    {
        self.n_vertical
    }
}

/// At most one natural number is the floor of `k * sqrt(3)`, so the column
/// count of a grid is fixed by the image and the row count.
pub proof fn lemma_floor_sqrt3_unique(k: int, n: int, m: int)
    requires
        is_floor_sqrt3_times(k, n),
        is_floor_sqrt3_times(k, m),
    ensures
        n == m,
{
    if n < m {
        assert((n + 1) * (n + 1) <= m * m) by (nonlinear_arith)
            requires
                0 <= n + 1 <= m,
        ;
    } else if m < n {
        assert((m + 1) * (m + 1) <= n * n) by (nonlinear_arith)
            requires
                0 <= m + 1 <= n,
        ;
    }
}

/// The floor of `k * sqrt(3)`, by bisection on the square.
pub fn floor_sqrt3_times(k: u64) -> (n: u64)
    requires
        k <= u32::MAX,
    ensures
        is_floor_sqrt3_times(k as int, n as int),
{
    let kk: u128 = k as u128;
    assert(3 * kk * kk <= 3 * (u32::MAX as int) * (u32::MAX as int)) by (nonlinear_arith)
        requires
            kk <= u32::MAX,
    ;
    let target: u128 = 3 * kk * kk;
    let mut lo: u64 = 0;
    let mut hi: u64 = 2 * k + 1;
    assert((hi as int) * (hi as int) > target) by (nonlinear_arith)
        requires
            hi == 2 * k + 1,
            target == 3 * k * k,
    ;
    while hi - lo > 1
        invariant
            lo < hi,
            hi <= 2 * k + 1,
            k <= u32::MAX,
            target == 3 * (k as int) * (k as int),
            (lo as int) * (lo as int) <= target,
            (hi as int) * (hi as int) > target,
        decreases hi - lo,
    {
        let mid: u64 = lo + (hi - lo) / 2;
        assert((mid as int) * (mid as int) <= 4 * (u32::MAX as int + 1) * (u32::MAX as int + 1))
            by (nonlinear_arith)
            requires
                mid < hi,
                hi <= 2 * k + 1,
                k <= u32::MAX,
        ;
        if (mid as u128) * (mid as u128) <= target {
            lo = mid;
        } else {
            hi = mid;
        }
    }
    assert(hi == lo + 1);
    lo
}

/// Sizes the grid for an image: `n_vertical` rows and as many columns as keep
/// the image's aspect ratio with near-equilateral triangles.
pub fn compute_grid(image_width: u32, image_height: u32, n_vertical: u32) -> (r: Result<
    GridParameters,
    GridError,
>)
    ensures
        (image_width == 0 || image_height == 0 || n_vertical == 0) <==> r == Err::<
            GridParameters,
            GridError,
        >(GridError::InvalidInput),
        r == Err::<GridParameters, GridError>(GridError::TooLarge) <==> (image_width > 0
            && image_height > 0 && n_vertical > 0 && (image_width as int) * (n_vertical as int)
            / (image_height as int) > u32::MAX),
        r is Ok <==> (image_width > 0 && image_height > 0 && n_vertical > 0 && (
        image_width as int) * (n_vertical as int) / (image_height as int) <= u32::MAX),
        r matches Ok(g) ==> {
            &&& g.wf()
            &&& g.image_width == image_width
            &&& g.image_height == image_height
            &&& g.n_vertical == n_vertical
        },
{
    if image_width == 0 || image_height == 0 || n_vertical == 0 {
        return Err(GridError::InvalidInput);
    }
    assert((image_width as int) * (n_vertical as int) <= (u32::MAX as int) * (u32::MAX as int))
        by (nonlinear_arith)
        requires
            image_width <= u32::MAX,
            n_vertical <= u32::MAX,
    ;
    let product: u64 = (image_width as u64) * (n_vertical as u64);
    let k: u64 = product / (image_height as u64);
    if k > u32::MAX as u64 {
        return Err(GridError::TooLarge);
    }
    let n_horizontal = floor_sqrt3_times(k);
    Ok(GridParameters { image_width, image_height, n_vertical, n_horizontal })
}

} // verus!
