//! Circle-circle intersection and fixed-point displacement scaling.
//!
//! Two circles overlap when the distance between their centres is strictly
//! less than the sum of their radii; over integer coordinates the test is
//! stated on squared quantities, which is equivalent and needs no root.

use vstd::prelude::*;

use crate::config::MAX_DT_MS;
use crate::config::MAX_HALF_EXTENT;

verus! {

/// The circles at `(x1, y1)` and `(x2, y2)` with radii `r1` and `r2`
/// overlap: the centre distance is strictly below `r1 + r2`.
pub open spec fn spec_collides(x1: int, y1: int, r1: int, x2: int, y2: int, r2: int) -> bool {
    (x1 - x2) * (x1 - x2) + (y1 - y2) * (y1 - y2) < (r1 + r2) * (r1 + r2)
}

/// Circle-circle intersection test.
pub fn circles_collide(x1: i64, y1: i64, r1: i64, x2: i64, y2: i64, r2: i64) -> (hit: bool)
    requires
        -2 * MAX_HALF_EXTENT <= x1 <= 2 * MAX_HALF_EXTENT,
        -2 * MAX_HALF_EXTENT <= y1 <= 2 * MAX_HALF_EXTENT,
        -2 * MAX_HALF_EXTENT <= x2 <= 2 * MAX_HALF_EXTENT,
        -2 * MAX_HALF_EXTENT <= y2 <= 2 * MAX_HALF_EXTENT,
        0 <= r1 <= MAX_HALF_EXTENT,
        0 <= r2 <= MAX_HALF_EXTENT,
    ensures
        hit == spec_collides(x1 as int, y1 as int, r1 as int, x2 as int, y2 as int, r2 as int),
{
    let dx: i64 = x1 - x2;
    let dy: i64 = y1 - y2;
    let rr: i64 = r1 + r2;
    proof {
        assert(dx * dx <= 16_000_000_000_000 && dx * dx >= 0) by (nonlinear_arith)
            requires -4_000_000 <= dx <= 4_000_000;
        assert(dy * dy <= 16_000_000_000_000 && dy * dy >= 0) by (nonlinear_arith)
            requires -4_000_000 <= dy <= 4_000_000;
        assert(rr * rr <= 4_000_000_000_000 && rr * rr >= 0) by (nonlinear_arith)
            requires 0 <= rr <= 2_000_000;
    }
    dx * dx + dy * dy < rr * rr
}

/// Displacement of a body moving at `v` units per second over `dt`
/// milliseconds, rounded toward zero.
pub open spec fn spec_scaled(v: int, dt: int) -> int {
    if v >= 0 {
        (v * dt) / 1000
    } else {
        -(((-v) * dt) / 1000)
    }
}

/// How far `spec_scaled` can reach: it never exceeds `|v| * dt / 1000`
/// in magnitude and keeps the sign of `v`.
pub proof fn lemma_scaled_bounds(v: int, dt: int)
    requires
        -1000 <= v <= 1000,
        0 <= dt <= MAX_DT_MS,
    ensures
        v >= 0 ==> 0 <= spec_scaled(v, dt) <= v * dt / 1000,
        v < 0 ==> -((-v) * dt / 1000) <= spec_scaled(v, dt) <= 0,
        -1_000_000_000_000 <= spec_scaled(v, dt) <= 1_000_000_000_000,
{
    if v >= 0 {
        assert(0 <= v * dt <= 1_000_000_000_000_000) by (nonlinear_arith)
            requires 0 <= v <= 1000 && 0 <= dt <= MAX_DT_MS;
        assert(0 <= (v * dt) / 1000 <= 1_000_000_000_000);
    } else {
        assert(0 <= (-v) * dt <= 1_000_000_000_000_000) by (nonlinear_arith)
            requires 0 < -v <= 1000 && 0 <= dt <= MAX_DT_MS;
        assert(0 <= ((-v) * dt) / 1000 <= 1_000_000_000_000);
    }
}

/// Computes `spec_scaled(v, dt_ms)`.
pub fn scaled(v: i64, dt_ms: u64) -> (d: i64)
    requires
        -1000 <= v <= 1000,
        dt_ms <= MAX_DT_MS,
    ensures
        d == spec_scaled(v as int, dt_ms as int),
{
    let mag: u64 = if v >= 0 {
        v as u64
    } else {
        (-v) as u64
    };
    proof {
        assert(mag * dt_ms <= 1_000_000_000_000_000) by (nonlinear_arith)
            requires 0 <= mag <= 1000 && 0 <= dt_ms <= MAX_DT_MS;
    }
    let q: u64 = (mag * dt_ms) / 1000;
    if v >= 0 {
        q as i64
    } else {
        -(q as i64)
    }
}

} // verus!
