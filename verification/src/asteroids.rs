//! The asteroid pool: spawning, per-frame fall, and the recycling rules.
//!
//! Asteroids are never destroyed. The pool is dealt once at run start; an
//! asteroid that leaves the field is wrapped back in. Two rules apply after
//! each move, in this order:
//! - bottom wrap: an asteroid whose `y` has dropped below `-half_h` is
//!   repositioned to `y == half_h` with a fresh random `x` (falling never
//!   reverses direction);
//! - lateral snap: an asteroid that has drifted past a side wall has its
//!   `x` snapped back to the drift value remembered from its spawn (the
//!   canonical lateral policy of this crate).

use vstd::prelude::*;

use crate::config::ASTEROID_COUNT;
use crate::config::ASTEROID_DRIFT_MAX;
use crate::config::ASTEROID_MAX_SPEED;
use crate::config::ASTEROID_MIN_SPEED;
use crate::config::MAX_DT_MS;
use crate::config::SPAWN_MARGIN;
use crate::geometry::lemma_scaled_bounds;
use crate::geometry::scaled;
use crate::geometry::spec_scaled;
use crate::playfield::Field;
use crate::rng::random_in_range;

verus! {

/// Fall speed and horizontal drift dealt to an asteroid at spawn.
/// `initial_direction` remembers the drift the asteroid was born with; the
/// lateral snap rule reuses it as a position near the centre line.
#[derive(Clone, Copy)]
pub struct Velocity {
    pub initial_direction: i64,
    pub speed: i64,
    pub direction_x: i64,
}

impl Velocity {
    /// Within the ranges dealt at spawn.
    pub open spec fn wf(self) -> bool {
        &&& ASTEROID_MIN_SPEED <= self.speed <= ASTEROID_MAX_SPEED
        &&& -ASTEROID_DRIFT_MAX <= self.direction_x <= ASTEROID_DRIFT_MAX
        &&& -ASTEROID_DRIFT_MAX <= self.initial_direction <= ASTEROID_DRIFT_MAX
    }
}

/// One asteroid of the fixed pool.
#[derive(Clone, Copy)]
pub struct Asteroid {
    pub x: i64,
    pub y: i64,
    pub vel: Velocity,
}

/// `x` lies in the range that random horizontal draws use: inside the
/// field, at least `SPAWN_MARGIN` away from either side wall.
pub open spec fn spawned_x_ok(x: int, field: Field) -> bool {
    -field.half_w + SPAWN_MARGIN <= x < field.half_w - SPAWN_MARGIN
}

impl Asteroid {
    /// Inside the field, with spawn-range velocity.
    pub open spec fn wf(self, field: Field) -> bool {
        &&& self.vel.wf()
        &&& -field.half_w <= self.x <= field.half_w
        &&& -field.half_h <= self.y <= field.half_h
    }
}

/// Every asteroid of the sequence is well formed for `field`.
pub open spec fn asteroids_wf(asts: Seq<Asteroid>, field: Field) -> bool {
    forall|i: int| 0 <= i < asts.len() ==> (#[trigger] asts[i]).wf(field)
}

/// What a freshly dealt asteroid looks like: at the top edge, horizontal
/// position in the spawn range, fall speed and drift in their half-open
/// deal ranges, and the drift remembered as dealt.
pub open spec fn spec_spawned(a: Asteroid, field: Field) -> bool {
    &&& a.vel.wf()
    &&& ASTEROID_MIN_SPEED <= a.vel.speed < ASTEROID_MAX_SPEED
    &&& -ASTEROID_DRIFT_MAX <= a.vel.direction_x < ASTEROID_DRIFT_MAX
    &&& a.vel.initial_direction == a.vel.direction_x
    &&& a.y == field.half_h
    &&& spawned_x_ok(a.x as int, field)
}

/// Deals one asteroid: random horizontal position, fall speed and drift.
pub fn spawn_asteroid(field: Field) -> (a: Asteroid)
    requires
        field.wf(),
    ensures
        spec_spawned(a, field),
        a.wf(field),
{
    let x = random_in_range(-field.half_w + SPAWN_MARGIN, field.half_w - SPAWN_MARGIN);
    let speed = random_in_range(ASTEROID_MIN_SPEED, ASTEROID_MAX_SPEED);
    let drift = random_in_range(-ASTEROID_DRIFT_MAX, ASTEROID_DRIFT_MAX);
    Asteroid {
        x,
        y: field.half_h,
        vel: Velocity { initial_direction: drift, speed, direction_x: drift },
    }
}

/// Deals the whole fixed pool at run start or restart.
pub fn spawn_asteroids(field: Field) -> (asts: Vec<Asteroid>)
    requires
        field.wf(),
    ensures
        asts@.len() == ASTEROID_COUNT,
        forall|i: int| 0 <= i < asts@.len() ==> spec_spawned(#[trigger] asts@[i], field),
        asteroids_wf(asts@, field),
{
    let mut asts: Vec<Asteroid> = Vec::new();
    while asts.len() < ASTEROID_COUNT
        invariant
            field.wf(),
            asts@.len() <= ASTEROID_COUNT,
            forall|i: int| 0 <= i < asts@.len() ==> spec_spawned(#[trigger] asts@[i], field),
            forall|i: int| 0 <= i < asts@.len() ==> (#[trigger] asts@[i]).wf(field),
        decreases ASTEROID_COUNT - asts@.len(),
    {
        let a = spawn_asteroid(field);
        asts.push(a);
    }
    asts
}

/// Advances every asteroid by `dt_ms`: `y` falls with the dealt speed, `x`
/// drifts with the dealt drift. Wrapping is a separate step
/// (`replace_asteroids`), run in the same frame right after this one.
pub fn update_asteroids(asteroids: &mut Vec<Asteroid>, dt_ms: u64, field: Field)
    requires
        field.wf(),
        dt_ms <= MAX_DT_MS,
        asteroids_wf(old(asteroids)@, field),
    ensures
        final(asteroids)@.len() == old(asteroids)@.len(),
        forall|i: int| 0 <= i < old(asteroids)@.len() ==> {
            let o = old(asteroids)@[i];
            let n = #[trigger] final(asteroids)@[i];
            &&& n.vel == o.vel
            &&& n.x as int == o.x + spec_scaled(o.vel.direction_x as int, dt_ms as int)
            &&& n.y as int == o.y - spec_scaled(o.vel.speed as int, dt_ms as int)
            &&& n.y <= o.y
        },
{
    let n = asteroids.len();
    let mut i: usize = 0;
    while i < n
        invariant
            field.wf(),
            dt_ms <= MAX_DT_MS,
            asteroids_wf(old(asteroids)@, field),
            n == old(asteroids)@.len(),
            asteroids@.len() == n,
            i <= n,
            forall|k: int| i <= k < n ==> #[trigger] asteroids@[k] == old(asteroids)@[k],
            forall|k: int| 0 <= k < i ==> {
                let o = old(asteroids)@[k];
                let m = #[trigger] asteroids@[k];
                &&& m.vel == o.vel
                &&& m.x as int == o.x + spec_scaled(o.vel.direction_x as int, dt_ms as int)
                &&& m.y as int == o.y - spec_scaled(o.vel.speed as int, dt_ms as int)
                &&& m.y <= o.y
            },
        decreases n - i,
    {
        let a = asteroids[i];
        proof {
            assert(a.wf(field));
            lemma_scaled_bounds(a.vel.direction_x as int, dt_ms as int);
            lemma_scaled_bounds(a.vel.speed as int, dt_ms as int);
        }
        let dx = scaled(a.vel.direction_x, dt_ms);
        let dy = scaled(a.vel.speed, dt_ms);
        asteroids.set(i, Asteroid { x: a.x + dx, y: a.y - dy, vel: a.vel });
        i = i + 1;
    }
}

/// One whole frame of asteroid kinematics — the move and the recycling
/// rules composed: `pre` is the asteroid at the frame boundary before,
/// `post` at the frame boundary after.
pub open spec fn spec_asteroid_step(pre: Asteroid, post: Asteroid, dt: int, field: Field) -> bool {
    let my = pre.y - spec_scaled(pre.vel.speed as int, dt);
    let mx = pre.x + spec_scaled(pre.vel.direction_x as int, dt);
    &&& post.vel == pre.vel
    &&& if my < -field.half_h {
        &&& post.y == field.half_h
        &&& spawned_x_ok(post.x as int, field)
    } else {
        &&& post.y == my
        &&& if mx > field.half_w || mx < -field.half_w {
            post.x == pre.vel.initial_direction
        } else {
            post.x == mx
        }
    }
}

/// THE LAW OF THE BOTTOM WRAP: across a frame boundary an asteroid never
/// stays below the bottom edge — on the very tick its fall crosses
/// `-half_h` it is wrapped to `half_h`, and otherwise it stays inside the
/// vertical extent of the field.
pub proof fn lemma_asteroid_never_below_field(pre: Asteroid, post: Asteroid, dt: int, field: Field)
    requires
        field.wf(),
        pre.wf(field),
        0 <= dt <= MAX_DT_MS,
        spec_asteroid_step(pre, post, dt, field),
    ensures
        -field.half_h <= post.y <= field.half_h,
        pre.y - spec_scaled(pre.vel.speed as int, dt) < -field.half_h ==> post.y == field.half_h,
{
    lemma_scaled_bounds(pre.vel.speed as int, dt);
}

/// The recycling rule applied to one moved asteroid: `pre` is the asteroid
/// as the move left it, `post` as the frame ends.
pub open spec fn spec_replaced(pre: Asteroid, post: Asteroid, field: Field) -> bool {
    &&& post.vel == pre.vel
    &&& if pre.y < -field.half_h {
        // bottom wrap: back to the top edge with a fresh horizontal draw
        &&& post.y == field.half_h
        &&& spawned_x_ok(post.x as int, field)
    } else {
        &&& post.y == pre.y
        &&& if pre.x > field.half_w || pre.x < -field.half_w {
            post.x == pre.vel.initial_direction
        } else {
            post.x == pre.x
        }
    }
}

/// Recycles asteroids that left the field: bottom wrap and lateral snap.
pub fn replace_asteroids(asteroids: &mut Vec<Asteroid>, field: Field)
    requires
        field.wf(),
        forall|i: int| 0 <= i < old(asteroids)@.len() ==> {
            let a = #[trigger] old(asteroids)@[i];
            a.vel.wf() && a.y <= field.half_h
        },
    ensures
        final(asteroids)@.len() == old(asteroids)@.len(),
        forall|i: int| 0 <= i < old(asteroids)@.len() ==> spec_replaced(
            old(asteroids)@[i],
            #[trigger] final(asteroids)@[i],
            field,
        ),
        asteroids_wf(final(asteroids)@, field),
{
    let n = asteroids.len();
    let mut i: usize = 0;
    while i < n
        invariant
            field.wf(),
            forall|k: int| 0 <= k < n ==> {
                let a = #[trigger] old(asteroids)@[k];
                a.vel.wf() && a.y <= field.half_h
            },
            n == old(asteroids)@.len(),
            asteroids@.len() == n,
            i <= n,
            forall|k: int| i <= k < n ==> #[trigger] asteroids@[k] == old(asteroids)@[k],
            forall|k: int| 0 <= k < i ==> spec_replaced(
                old(asteroids)@[k],
                #[trigger] asteroids@[k],
                field,
            ),
            forall|k: int| 0 <= k < i ==> (#[trigger] asteroids@[k]).wf(field),
        decreases n - i,
    {
        let a = asteroids[i];
        let mut next = a;
        if a.y < -field.half_h {
            next.y = field.half_h;
            next.x = random_in_range(-field.half_w + SPAWN_MARGIN, field.half_w - SPAWN_MARGIN);
        } else if a.x > field.half_w || a.x < -field.half_w {
            next.x = a.vel.initial_direction;
        }
        asteroids.set(i, next);
        i = i + 1;
    }
}

} // verus!
