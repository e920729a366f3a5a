//! Layout of the pixel buffer and of the work over it.
//!
//! The buffer holds `width * height` accumulators, row after row, the top row
//! of the image first. Each row is a band that one task owns while it renders;
//! the bands are disjoint and together cover the buffer, so tasks never write
//! the same cell. Film coordinates count rows from the bottom of the image.

use vstd::prelude::*;

verus! {

/// Each pixel is split into this many sub-pixels along each axis.
pub const STRATA: u32 = 2;

/// The half-open range of buffer indices that row `row` owns.
pub open spec fn band_of(width: int, row: int) -> (int, int) {
    (row * width, (row + 1) * width)
}

/// Returns the half-open range of buffer indices owned by row `row`.
pub fn band(width: usize, height: usize, row: usize) -> (r: (usize, usize))
    requires
        row < height,
        width * height <= usize::MAX,
    ensures
        r.0 as int == band_of(width as int, row as int).0,
        r.1 as int == band_of(width as int, row as int).1,
{
    proof {
        assert((row + 1) * width <= height * width) by (nonlinear_arith)
            requires
                row < height,
        ;
        assert(row * width <= (row + 1) * width) by (nonlinear_arith);
    }
    (row * width, (row + 1) * width)
}

/// Distinct rows own disjoint ranges, each row owns `width` cells, and every
/// cell of the buffer belongs to the row `i / width`.
pub proof fn lemma_bands_partition(width: int, height: int, a: int, b: int, i: int)
    requires
        0 < width,
        0 <= a < b < height,
        0 <= i < width * height,
    ensures
        band_of(width, a).1 <= band_of(width, b).0,
        band_of(width, a).1 - band_of(width, a).0 == width,
        0 <= i / width < height,
        band_of(width, i / width).0 <= i < band_of(width, i / width).1,
{
    assert((a + 1) * width <= b * width) by (nonlinear_arith)
        requires
            a < b,
            0 < width,
    ;
    assert((a + 1) * width - a * width == width) by (nonlinear_arith);
    let q = i / width;
    assert(i == q * width + i % width && 0 <= i % width < width) by (nonlinear_arith)
        requires
            0 < width,
            q == i / width,
    ;
    assert(0 <= q < height) by (nonlinear_arith)
        requires
            0 < width,
            0 <= i < width * height,
            i == q * width + i % width,
            0 <= i % width < width,
    ;
    assert((q + 1) * width == q * width + width) by (nonlinear_arith);
}

/// The film row, counted from the bottom, of buffer row `row`.
pub fn film_row(height: usize, row: usize) -> (r: usize)
    requires
        row < height,
    ensures
        r == height - 1 - row,
{
    height - 1 - row
}

/// The number of camera rays traced per pixel: `samples` in each of the
/// `STRATA * STRATA` sub-pixels.
pub fn samples_per_pixel(samples: u32) -> (r: u64)
    ensures
        r == STRATA * STRATA * samples,
{
    let per_axis: u64 = STRATA as u64;
    assert(per_axis * per_axis * samples <= 4 * u32::MAX) by (nonlinear_arith)
        requires
            per_axis == 2,
            samples <= u32::MAX,
    ;
    per_axis * per_axis * (samples as u64)
}

} // verus!
