//! The playfield: a rectangle centred at the origin, described by its half
//! extents. Positions are `(x, y)` with `y` increasing upward, so the field
//! spans `[-half_w, half_w]` by `[-half_h, half_h]`.

use vstd::prelude::*;

use crate::config::MAX_HALF_EXTENT;
use crate::config::MIN_HALF_EXTENT;

verus! {

/// Current extents of the playfield, read anew each frame so that a
/// viewport resize is never served from a stale value.
#[derive(Clone, Copy)]
pub struct Field {
    pub half_w: i64,
    pub half_h: i64,
}

impl Field {
    /// Extents large enough for spawn ranges and the player clamp
    /// interval, and small enough that coordinate arithmetic stays in
    /// range.
    pub open spec fn wf(self) -> bool {
        &&& MIN_HALF_EXTENT <= self.half_w <= MAX_HALF_EXTENT
        &&& MIN_HALF_EXTENT <= self.half_h <= MAX_HALF_EXTENT
    }

    pub fn new(half_w: i64, half_h: i64) -> (f: Field)
        requires
            MIN_HALF_EXTENT <= half_w <= MAX_HALF_EXTENT,
            MIN_HALF_EXTENT <= half_h <= MAX_HALF_EXTENT,
        ensures
            f.wf(),
            f.half_w == half_w,
            f.half_h == half_h,
    {
        Field { half_w, half_h }
    }
}

} // verus!
