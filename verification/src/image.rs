//! Geometry of the frame buffer: a fixed 16:9 raster stored row-major.
//!
//! The buffer itself holds floating-point colors and is filled by the
//! renderer front end; this module fixes its dimensions and the mapping
//! from a flat pixel index to its row and column.

use vstd::prelude::*;

verus! {

/// Rows in the frame buffer.
pub const SCREEN_HEIGHT: usize = 120;

/// Columns in the frame buffer: the height scaled to a 16:9 target,
/// rounded down.
pub const SCREEN_WIDTH: usize = 213;

/// Pixels in the frame buffer.
pub const PIXEL_COUNT: usize = SCREEN_WIDTH * SCREEN_HEIGHT;

/// The row and column of a flat, row-major pixel index.
pub fn pixel_row_col(index: usize) -> (rc: (usize, usize))
    requires
        index < PIXEL_COUNT,
    ensures
        rc.0 == index / SCREEN_WIDTH,
        rc.1 == index % SCREEN_WIDTH,
        rc.0 < SCREEN_HEIGHT,
        rc.1 < SCREEN_WIDTH,
        rc.0 * SCREEN_WIDTH + rc.1 == index,
{
    let row = index / SCREEN_WIDTH;
    let col = index % SCREEN_WIDTH;
    proof {
        assert(row < SCREEN_HEIGHT && row * SCREEN_WIDTH + col == index) by (nonlinear_arith)
            requires
                index < PIXEL_COUNT,
                row == index / SCREEN_WIDTH,
                col == index % SCREEN_WIDTH,
                PIXEL_COUNT == SCREEN_WIDTH * SCREEN_HEIGHT,
                SCREEN_WIDTH == 213,
                SCREEN_HEIGHT == 120,
        ;
    }
    (row, col)
}

} // verus!
