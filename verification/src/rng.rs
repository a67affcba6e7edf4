//! Random sampling of grid cells, behind a trusted boundary.

use vstd::prelude::*;
use rand::Rng;
use crate::game::{Point, GRID_X_SIZE, GRID_Y_SIZE, in_bounds};

verus! {

/// Relies on `rand::Rng::gen_range` over the half-open range `0..bound`:
/// the sampled value lies in that range. The range is non-empty, so the
/// call does not panic.
#[verifier::external_body]
fn random_below(bound: i32) -> (r: i32)
    requires
        1 <= bound,
    ensures
        0 <= r < bound,
{
    rand::thread_rng().gen_range(0..bound)
}

/// A uniformly random grid cell.
pub(crate) fn random_point() -> (p: Point)
    ensures
        in_bounds(p),
{
    Point(random_below(GRID_X_SIZE), random_below(GRID_Y_SIZE))
}

} // verus!
