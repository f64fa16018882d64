//! The collision detector: a pure, boundary-inclusive overlap test between
//! two centered axis-aligned boxes. Touching edges count as a collision, so
//! an entity exactly aligned with an obstacle edge cannot tunnel through.

use vstd::prelude::*;

verus! {

/// Bound on any coordinate handed to the detector.
pub const COORD_LIMIT: i64 = 1_000_000_000_000_000;

/// Bound on any half-extent handed to the detector.
pub const HALF_LIMIT: i64 = 1_000_000_000;

/// Two closed intervals, given as center and half-extent, overlap.
pub open spec fn intervals_overlap(c1: int, h1: int, c2: int, h2: int) -> bool {
    c1 + h1 >= c2 - h2 && c2 + h2 >= c1 - h1
}

/// Two centered axis-aligned boxes overlap: their projections on both axes
/// overlap, with touching edges included.
pub open spec fn boxes_overlap(
    x1: int,
    y1: int,
    hw1: int,
    hh1: int,
    x2: int,
    y2: int,
    hw2: int,
    hh2: int,
) -> bool {
    intervals_overlap(x1, hw1, x2, hw2) && intervals_overlap(y1, hh1, y2, hh2)
}

/// Boundary-inclusive overlap test between the box centered at (x1, y1)
/// with half-extents (hw1, hh1) and the box centered at (x2, y2) with
/// half-extents (hw2, hh2).
pub fn check_collision(
    x1: i64,
    y1: i64,
    hw1: i64,
    hh1: i64,
    x2: i64,
    y2: i64,
    hw2: i64,
    hh2: i64,
) -> (r: bool)
    requires
        -COORD_LIMIT <= x1 <= COORD_LIMIT,
        -COORD_LIMIT <= y1 <= COORD_LIMIT,
        -COORD_LIMIT <= x2 <= COORD_LIMIT,
        -COORD_LIMIT <= y2 <= COORD_LIMIT,
        0 <= hw1 <= HALF_LIMIT,
        0 <= hh1 <= HALF_LIMIT,
        0 <= hw2 <= HALF_LIMIT,
        0 <= hh2 <= HALF_LIMIT,
    ensures
        r == boxes_overlap(x1 as int, y1 as int, hw1 as int, hh1 as int, x2 as int, y2 as int,
            hw2 as int, hh2 as int),
{
    let x_overlap = x1 + hw1 >= x2 - hw2 && x2 + hw2 >= x1 - hw1;
    let y_overlap = y1 + hh1 >= y2 - hh2 && y2 + hh2 >= y1 - hh1;
    x_overlap && y_overlap
}

/// Two boxes whose vertical edges exactly touch (zero horizontal gap)
/// register as colliding, provided their vertical projections overlap:
/// the overlap test is boundary-inclusive.
pub proof fn lemma_touching_edges_collide(
    x1: int,
    y1: int,
    hw1: int,
    hh1: int,
    x2: int,
    y2: int,
    hw2: int,
    hh2: int,
)
    requires
        x1 + hw1 == x2 - hw2,
        intervals_overlap(y1, hh1, y2, hh2),
        hw1 >= 0,
        hw2 >= 0,
    ensures
        boxes_overlap(x1, y1, hw1, hh1, x2, y2, hw2, hh2),
{
}

} // verus!
