//! The integer decisions inside texture sampling.
//!
//! A checker texture scales the surface coordinates, takes the floor of
//! each, and shows one of its two parts by the parity of the tile index
//! sum.  An image texture clamps the scaled coordinates to the picture's
//! edge and reads the pixel at `row * width + column`.  The floating-point
//! scaling happens at the caller; the decisions on the resulting integers
//! are here.

use vstd::prelude::*;

verus! {

/// Whether the checker tile at indices `(iu, iv)` shows the even texture:
/// true exactly when `iu + iv` is even.
pub fn checker_is_even(iu: i32, iv: i32) -> (r: bool)
    ensures
        r <==> ((iu + iv) % 2 == 0),
{
    (iu % 2 == 0) == (iv % 2 == 0)
}

/// The slot of the picture pixel an image texture reads for scaled
/// coordinates `(i, j)`: each is clamped to the last column or row, and the
/// picture is stored row-major.
pub fn image_pixel_index(width: u32, height: u32, i: u32, j: u32) -> (idx: usize)
    requires
        width > 0,
        height > 0,
        (width as int) * (height as int) <= usize::MAX as int,
    ensures
        idx == vstd::math::min(j as int, height as int - 1) * (width as int)
            + vstd::math::min(i as int, width as int - 1),
        idx < (width as int) * (height as int),
{
    let ci: u32 = if i < width { i } else { width - 1 };
    let cj: u32 = if j < height { j } else { height - 1 };
    proof {
        assert((cj as int) * (width as int) + (ci as int)
            < (width as int) * (height as int)) by (nonlinear_arith)
            requires
                ci < width,
                cj < height,
        ;
    }
    (cj as usize) * (width as usize) + (ci as usize)
}

} // verus!
