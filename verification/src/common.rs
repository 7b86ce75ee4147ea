//! The scalar random facility the core consumes.
//!
//! The tracer needs uniform draws; the unit-interval source and the
//! geometric distributions derived from it are floating-point and live with
//! the drivers.  The integer draw is here.

use rand::Rng;
use vstd::prelude::*;

verus! {

/// Relies on rand::Rng::random_range over `min..max`: a draw from a
/// non-empty half-open range lies within it.
#[verifier::external_body]
fn draw_in_range(min: u32, max: u32) -> (r: u32)
    requires
        min < max,
    ensures
        min <= r < max,
{
    rand::rng().random_range(min..max)
}

/// A uniform draw from the half-open range `min..max`, or `min` itself when
/// the range is empty.
pub fn random_in_range(min: u32, max: u32) -> (r: u32)
    requires
        min <= max,
    ensures
        min <= r <= max,
        min < max ==> r < max,
        min == max ==> r == min,
{
    if min < max {
        draw_in_range(min, max)
    } else {
        min
    }
}

} // verus!
