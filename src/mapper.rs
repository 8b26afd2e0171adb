//! From a position of the plane to a pixel of the grid.
use num_traits::Float;
use vstd::prelude::*;

use crate::complex::Complex;
use crate::scalar::{count_or_nan, less_eq, minus, one, plus, quot, times, to_index, two, zero};

verus! {

/// The viewport: `scale` tall, as wide as the aspect ratio of the resolution
/// makes it, centred on `offset`. Rows grow downwards, so that larger
/// imaginary parts land nearer the top row.
#[derive(Debug, Clone, Copy)]
pub struct PixelMapper<T> {
    pub offset: Complex<T>,
    /// Height and width of the viewport in the plane.
    pub height: T,
    pub width: T,
    pub half_height: T,
    pub half_width: T,
    /// `rows − 1` and `cols − 1`, as values of `T`.
    pub max_row: T,
    pub max_col: T,
    /// The resolution.
    pub rows: usize,
    pub cols: usize,
}

/// `Some(⌊v⌋)` where `0 ≤ v` and `⌊v⌋ < n`, else `None` (NaN included).
fn axis_index<T: Float>(v: T, n: usize) -> (r: Option<usize>)
    ensures
        r matches Some(i) ==> i < n,
{
    if less_eq(zero(), v) {
        match to_index(v) {
            Some(i) => if i < n {
                Some(i)
            } else {
                None
            },
            None => None,
        }
    } else {
        None
    }
}

impl<T: Float> PixelMapper<T> {
    /// The mapper for a viewport; `resolution` is `[rows, cols]`.
    pub fn new(offset: [T; 2], scale: T, resolution: [usize; 2]) -> (r: Self)
        ensures
            r.rows == resolution[0],
            r.cols == resolution[1],
            r.offset.re == offset[0] && r.offset.im == offset[1],
    {
        let rows_t: T = count_or_nan(resolution[0]);
        let cols_t: T = count_or_nan(resolution[1]);
        let aspect_ratio = quot(cols_t, rows_t);
        let height = scale;
        let width = times(scale, aspect_ratio);
        PixelMapper {
            offset: Complex::new(offset[0], offset[1]),
            height,
            width,
            half_height: quot(height, two()),
            half_width: quot(width, two()),
            max_row: minus(rows_t, one()),
            max_col: minus(cols_t, one()),
            rows: resolution[0],
            cols: resolution[1],
        }
    }

    /// The pixel `[row, col]` that `p` falls on, or `None` outside the
    /// viewport: `row = ⌊(half_height − y) / height · (rows − 1)⌋` and
    /// `col = ⌊(x + half_width) / width · (cols − 1)⌋`, with `(x, y) = p − offset`.
    pub fn map(&self, p: Complex<T>) -> (r: Option<[usize; 2]>)
        ensures
            r matches Some(ix) ==> ix[0] < self.rows && ix[1] < self.cols,
    {
        let shifted_re = minus(p.re, self.offset.re);
        let shifted_im = minus(p.im, self.offset.im);
        let y = times(quot(minus(self.half_height, shifted_im), self.height), self.max_row);
        let x = times(quot(plus(shifted_re, self.half_width), self.width), self.max_col);
        match axis_index(y, self.rows) {
            Some(row) => match axis_index(x, self.cols) {
                Some(col) => Some([row, col]),
                None => None,
            },
            None => None,
        }
    }
}

} // verus!
