//! The collision engine: circle tests between the three entity kinds and
//! their consequences.
//!
//! Hit tests of one frame run against the positions as the kinematics step
//! left them; the consequences (repositioning, projectile destruction,
//! score, life loss) are applied afterwards. A projectile is destroyed on
//! its first qualifying hit and does not pierce; when it overlaps several
//! asteroids, the one with the lowest index in the pool wins.

use vstd::prelude::*;

use crate::asteroids::Asteroid;
use crate::asteroids::asteroids_wf;
use crate::asteroids::spawned_x_ok;
use crate::config::ASTEROID_RADIUS;
use crate::config::PLAYER_RADIUS;
use crate::config::PROJECTILE_RADIUS;
use crate::config::SCORE_REWARD;
use crate::config::SPAWN_MARGIN;
use crate::geometry::circles_collide;
use crate::geometry::spec_collides;
use crate::player::Fire;
use crate::player::Player;
use crate::player::projectiles_wf;
use crate::playfield::Field;
use crate::rng::random_in_range;

verus! {

/// The ship and the asteroid overlap.
pub open spec fn spec_player_hit(p: Player, a: Asteroid) -> bool {
    spec_collides(
        p.x as int,
        p.y as int,
        PLAYER_RADIUS as int,
        a.x as int,
        a.y as int,
        ASTEROID_RADIUS as int,
    )
}

/// How many asteroids of the sequence overlap the ship; each one costs a
/// life token independently, so several overlaps in one frame can cost
/// several lives.
pub open spec fn spec_player_hit_count(p: Player, asts: Seq<Asteroid>) -> nat
    decreases asts.len(),
{
    if asts.len() == 0 {
        0
    } else {
        spec_player_hit_count(p, asts.drop_last()) + if spec_player_hit(p, asts.last()) {
            1nat
        } else {
            0nat
        }
    }
}

/// Scans the pool for overlaps with the ship. Every overlapping asteroid
/// is sent back to the top edge (its horizontal position kept) and one
/// life token is removed for it, while any remain.
pub fn detect_player_collision(
    player: &Player,
    asteroids: &mut Vec<Asteroid>,
    lives: &mut u32,
    field: Field,
) -> (hits: usize)
    requires
        field.wf(),
        player.wf(field),
        asteroids_wf(old(asteroids)@, field),
    ensures
        final(asteroids)@.len() == old(asteroids)@.len(),
        hits == spec_player_hit_count(*player, old(asteroids)@),
        forall|i: int| 0 <= i < old(asteroids)@.len() ==> {
            let o = old(asteroids)@[i];
            let n = #[trigger] final(asteroids)@[i];
            if spec_player_hit(*player, o) {
                n.x == o.x && n.y == field.half_h && n.vel == o.vel
            } else {
                n == o
            }
        },
        asteroids_wf(final(asteroids)@, field),
        *final(lives) as int == if spec_player_hit_count(*player, old(asteroids)@) >= *old(lives)
            as int {
            0int
        } else {
            *old(lives) - spec_player_hit_count(*player, old(asteroids)@)
        },
        *final(lives) <= *old(lives),
{
    let n = asteroids.len();
    let mut i: usize = 0;
    let mut hits: usize = 0;
    proof {
        assert(old(asteroids)@.take(0).len() == 0);
    }
    while i < n
        invariant
            field.wf(),
            player.wf(field),
            asteroids_wf(old(asteroids)@, field),
            n == old(asteroids)@.len(),
            asteroids@.len() == n,
            i <= n,
            hits <= i,
            hits == spec_player_hit_count(*player, old(asteroids)@.take(i as int)),
            forall|k: int| i <= k < n ==> #[trigger] asteroids@[k] == old(asteroids)@[k],
            forall|k: int| 0 <= k < i ==> {
                let o = old(asteroids)@[k];
                let m = #[trigger] asteroids@[k];
                if spec_player_hit(*player, o) {
                    m.x == o.x && m.y == field.half_h && m.vel == o.vel
                } else {
                    m == o
                }
            },
            forall|k: int| 0 <= k < i ==> (#[trigger] asteroids@[k]).wf(field),
            *lives as int == if hits >= *old(lives) as int {
                0int
            } else {
                *old(lives) - hits
            },
        decreases n - i,
    {
        let a = asteroids[i];
        if circles_collide(player.x, player.y, PLAYER_RADIUS, a.x, a.y, ASTEROID_RADIUS) {
            asteroids.set(i, Asteroid { x: a.x, y: field.half_h, vel: a.vel });
            if *lives > 0 {
                *lives = *lives - 1;
            }
            hits = hits + 1;
        }
        proof {
            let pre = old(asteroids)@.take(i as int);
            let cur = old(asteroids)@.take(i as int + 1);
            assert(cur.drop_last() =~= pre);
            assert(cur.last() == old(asteroids)@[i as int]);
        }
        i = i + 1;
    }
    proof {
        assert(old(asteroids)@.take(n as int) =~= old(asteroids)@);
    }
    hits
}

/// The projectile and the asteroid overlap.
pub open spec fn spec_bullet_hits(f: Fire, a: Asteroid) -> bool {
    spec_collides(
        f.x as int,
        f.y as int,
        PROJECTILE_RADIUS as int,
        a.x as int,
        a.y as int,
        ASTEROID_RADIUS as int,
    )
}

/// The projectile overlaps at least one asteroid of the pool.
pub open spec fn spec_hits_some(f: Fire, asts: Seq<Asteroid>) -> bool {
    exists|j: int| 0 <= j < asts.len() && spec_bullet_hits(f, #[trigger] asts[j])
}

/// The lowest pool index of an asteroid the projectile overlaps, or `-1`
/// when it overlaps none.
pub open spec fn spec_first_target(f: Fire, asts: Seq<Asteroid>) -> int
    decreases asts.len(),
{
    if asts.len() == 0 {
        -1
    } else if spec_bullet_hits(f, asts.first()) {
        0
    } else {
        let r = spec_first_target(f, asts.drop_first());
        if r < 0 {
            -1
        } else {
            1 + r
        }
    }
}

/// `spec_first_target` finds an overlapped asteroid exactly when one
/// exists, and what it finds is the lowest-index one.
pub proof fn lemma_first_target_props(f: Fire, asts: Seq<Asteroid>)
    ensures
        spec_hits_some(f, asts) <==> 0 <= spec_first_target(f, asts) < asts.len(),
        !spec_hits_some(f, asts) ==> spec_first_target(f, asts) == -1,
        0 <= spec_first_target(f, asts) ==> spec_bullet_hits(
            f,
            asts[spec_first_target(f, asts)],
        ) && forall|k: int|
            0 <= k < spec_first_target(f, asts) ==> !spec_bullet_hits(f, #[trigger] asts[k]),
    decreases asts.len(),
{
    if asts.len() == 0 {
    } else if spec_bullet_hits(f, asts.first()) {
        assert(spec_bullet_hits(f, asts[0]));
    } else {
        let rest = asts.drop_first();
        lemma_first_target_props(f, rest);
        assert(forall|k: int| 0 <= k < rest.len() ==> #[trigger] rest[k] == asts[k + 1]);
        if spec_hits_some(f, rest) {
            let j = choose|j: int| 0 <= j < rest.len() && spec_bullet_hits(f, #[trigger] rest[j]);
            assert(spec_bullet_hits(f, asts[j + 1]));
        }
        if spec_hits_some(f, asts) {
            let j = choose|j: int| 0 <= j < asts.len() && spec_bullet_hits(f, #[trigger] asts[j]);
            assert(j != 0);
            assert(rest[j - 1] == asts[j]);
            assert(spec_hits_some(f, rest));
        }
        if 0 <= spec_first_target(f, rest) {
            let rt = spec_first_target(f, rest);
            assert(spec_first_target(f, asts) == 1 + rt);
            assert(spec_bullet_hits(f, asts[1 + rt]));
            assert forall|k: int| 0 <= k < 1 + rt implies !spec_bullet_hits(
                f,
                #[trigger] asts[k],
            ) by {
                if k > 0 {
                    assert(rest[k - 1] == asts[k]);
                }
            }
        }
    }
}

/// When `t` is the lowest index of an overlapped asteroid,
/// `spec_first_target` returns exactly `t`.
pub proof fn lemma_first_target_unique(f: Fire, asts: Seq<Asteroid>, t: int)
    requires
        0 <= t < asts.len(),
        spec_bullet_hits(f, asts[t]),
        forall|k: int| 0 <= k < t ==> !spec_bullet_hits(f, #[trigger] asts[k]),
    ensures
        spec_first_target(f, asts) == t,
    decreases asts.len(),
{
    if t == 0 {
        assert(spec_bullet_hits(f, asts.first()));
    } else {
        assert(!spec_bullet_hits(f, asts[0]));
        let rest = asts.drop_first();
        assert(forall|k: int| 0 <= k < rest.len() ==> #[trigger] rest[k] == asts[k + 1]);
        lemma_first_target_unique(f, rest, t - 1);
    }
}

/// How many projectiles of the sequence overlap some asteroid; each is
/// destroyed and scores once.
pub open spec fn spec_destroyed_count(projs: Seq<Fire>, asts: Seq<Asteroid>) -> nat
    decreases projs.len(),
{
    if projs.len() == 0 {
        0
    } else {
        spec_destroyed_count(projs.drop_last(), asts) + if spec_hits_some(projs.last(), asts) {
            1nat
        } else {
            0nat
        }
    }
}

/// The projectiles that survive the collision phase: those that overlap no
/// asteroid, in their original order.
pub open spec fn spec_surviving(projs: Seq<Fire>, asts: Seq<Asteroid>) -> Seq<Fire>
    decreases projs.len(),
{
    if projs.len() == 0 {
        Seq::empty()
    } else {
        let rest = spec_surviving(projs.drop_last(), asts);
        if spec_hits_some(projs.last(), asts) {
            rest
        } else {
            rest.push(projs.last())
        }
    }
}

/// Destroyed and surviving projectiles partition the sequence, and no
/// survivor overlaps any asteroid.
pub proof fn lemma_surviving_props(projs: Seq<Fire>, asts: Seq<Asteroid>)
    ensures
        spec_surviving(projs, asts).len() + spec_destroyed_count(projs, asts) == projs.len(),
        forall|s: int| 0 <= s < spec_surviving(projs, asts).len() ==> !spec_hits_some(
            #[trigger] spec_surviving(projs, asts)[s],
            asts,
        ),
    decreases projs.len(),
{
    if projs.len() > 0 {
        lemma_surviving_props(projs.drop_last(), asts);
    }
}

/// Asteroid `j` is the first target of one of the first `bound`
/// projectiles.
pub open spec fn spec_targeted_upto(
    projs: Seq<Fire>,
    asts: Seq<Asteroid>,
    bound: int,
    j: int,
) -> bool {
    exists|i: int| 0 <= i < bound && spec_first_target(#[trigger] projs[i], asts) == j
}

/// Asteroid `j` is the first target of some projectile of the sequence,
/// and is therefore repositioned this frame.
pub open spec fn spec_targeted(projs: Seq<Fire>, asts: Seq<Asteroid>, j: int) -> bool {
    spec_targeted_upto(projs, asts, projs.len() as int, j)
}

/// The score after awarding `k` rewards, each one skipped only where it
/// would overflow the counter.
pub open spec fn spec_score_after(s: int, k: nat) -> int
    decreases k,
{
    if k == 0 {
        s
    } else {
        let prev = spec_score_after(s, (k - 1) as nat);
        if prev + SCORE_REWARD <= u64::MAX {
            prev + SCORE_REWARD
        } else {
            prev
        }
    }
}

/// Away from the overflow bound, `k` awards add exactly `k * SCORE_REWARD`;
/// and an award never lowers the score.
pub proof fn lemma_score_after(s: int, k: nat)
    requires
        0 <= s,
    ensures
        spec_score_after(s, k) >= s,
        s + k * SCORE_REWARD <= u64::MAX ==> spec_score_after(s, k) == s + k * SCORE_REWARD,
    decreases k,
{
    if k > 0 {
        lemma_score_after(s, (k - 1) as nat);
        assert((k - 1) * SCORE_REWARD == k * SCORE_REWARD - SCORE_REWARD) by (nonlinear_arith);
    }
}

/// Finds the lowest-index asteroid the projectile overlaps, if any.
fn first_hit(f: Fire, asteroids: &Vec<Asteroid>, field: Field) -> (r: Option<usize>)
    requires
        field.wf(),
        f.wf(field),
        asteroids_wf(asteroids@, field),
    ensures
        match r {
            Some(t) => 0 <= t < asteroids@.len() && spec_first_target(f, asteroids@) == t,
            None => !spec_hits_some(f, asteroids@) && spec_first_target(f, asteroids@) == -1,
        },
        r is Some <==> spec_hits_some(f, asteroids@),
{
    let n = asteroids.len();
    let mut j: usize = 0;
    while j < n
        invariant
            field.wf(),
            f.wf(field),
            asteroids_wf(asteroids@, field),
            n == asteroids@.len(),
            j <= n,
            forall|k: int| 0 <= k < j ==> !spec_bullet_hits(f, #[trigger] asteroids@[k]),
        decreases n - j,
    {
        let a = asteroids[j];
        if circles_collide(f.x, f.y, PROJECTILE_RADIUS, a.x, a.y, ASTEROID_RADIUS) {
            proof {
                lemma_first_target_unique(f, asteroids@, j as int);
            }
            return Some(j);
        }
        j = j + 1;
    }
    proof {
        lemma_first_target_props(f, asteroids@);
        if spec_hits_some(f, asteroids@) {
            let k = choose|k: int|
                0 <= k < asteroids@.len() && spec_bullet_hits(f, #[trigger] asteroids@[k]);
            assert(!spec_bullet_hits(f, asteroids@[k]));
        }
    }
    None
}

/// Resolves projectile-asteroid collisions for one frame. Hit tests run
/// against the asteroid positions at entry; every projectile that overlaps
/// some asteroid is destroyed and awards one score reward, and every
/// asteroid that is the first target of some projectile is sent back to
/// the top edge with a fresh random horizontal position.
pub fn detect_bullet_collision(
    projectiles: &mut Vec<Fire>,
    asteroids: &mut Vec<Asteroid>,
    score: &mut u64,
    field: Field,
) -> (destroyed: usize)
    requires
        field.wf(),
        projectiles_wf(old(projectiles)@, field),
        asteroids_wf(old(asteroids)@, field),
    ensures
        final(projectiles)@ == spec_surviving(old(projectiles)@, old(asteroids)@),
        projectiles_wf(final(projectiles)@, field),
        destroyed == spec_destroyed_count(old(projectiles)@, old(asteroids)@),
        final(projectiles)@.len() + destroyed == old(projectiles)@.len(),
        final(asteroids)@.len() == old(asteroids)@.len(),
        forall|j: int| 0 <= j < old(asteroids)@.len() ==> {
            let o = old(asteroids)@[j];
            let n = #[trigger] final(asteroids)@[j];
            if spec_targeted(old(projectiles)@, old(asteroids)@, j) {
                n.vel == o.vel && n.y == field.half_h && spawned_x_ok(n.x as int, field)
            } else {
                n == o
            }
        },
        asteroids_wf(final(asteroids)@, field),
        *final(score) as int == spec_score_after(
            *old(score) as int,
            spec_destroyed_count(old(projectiles)@, old(asteroids)@),
        ),
        *final(score) >= *old(score),
{
    let pn = projectiles.len();
    let an = asteroids.len();

    let mut marks: Vec<bool> = Vec::new();
    while marks.len() < an
        invariant
            marks@.len() <= an,
            forall|k: int| 0 <= k < marks@.len() ==> !(#[trigger] marks@[k]),
        decreases an - marks@.len(),
    {
        marks.push(false);
    }

    let mut survivors: Vec<Fire> = Vec::new();
    let mut destroyed: usize = 0;
    let mut i: usize = 0;
    proof {
        assert(old(projectiles)@.take(0).len() == 0);
        assert(survivors@ =~= spec_surviving(old(projectiles)@.take(0), old(asteroids)@));
    }
    while i < pn
        invariant
            field.wf(),
            projectiles_wf(old(projectiles)@, field),
            asteroids_wf(old(asteroids)@, field),
            projectiles@ == old(projectiles)@,
            asteroids@ == old(asteroids)@,
            pn == old(projectiles)@.len(),
            an == old(asteroids)@.len(),
            i <= pn,
            destroyed <= i,
            marks@.len() == an,
            destroyed == spec_destroyed_count(old(projectiles)@.take(i as int), old(asteroids)@),
            survivors@ == spec_surviving(old(projectiles)@.take(i as int), old(asteroids)@),
            survivors@.len() + destroyed == i,
            projectiles_wf(survivors@, field),
            forall|j: int| 0 <= j < an ==> ((#[trigger] marks@[j]) <==> spec_targeted_upto(
                old(projectiles)@,
                old(asteroids)@,
                i as int,
                j,
            )),
            *score as int == spec_score_after(*old(score) as int, destroyed as nat),
            *score >= *old(score),
        decreases pn - i,
    {
        let f = projectiles[i];
        let ghost prev_marks = marks@;
        let r = first_hit(f, asteroids, field);
        match r {
            Some(t) => {
                marks.set(t, true);
                destroyed = destroyed + 1;
                if *score <= u64::MAX - SCORE_REWARD {
                    *score = *score + SCORE_REWARD;
                }
            },
            None => {
                survivors.push(f);
            },
        }
        proof {
            let projs = old(projectiles)@;
            let asts = old(asteroids)@;
            let pre = projs.take(i as int);
            let cur = projs.take(i as int + 1);
            assert(cur.drop_last() =~= pre);
            assert(cur.last() == projs[i as int]);
            assert forall|j: int| 0 <= j < an implies ((#[trigger] marks@[j])
                <==> spec_targeted_upto(projs, asts, i as int + 1, j)) by {
                match r {
                    Some(t) => {
                        if j == t {
                            assert(spec_first_target(projs[i as int], asts) == j);
                            assert(spec_targeted_upto(projs, asts, i as int + 1, j));
                        } else {
                            assert(marks@[j] == prev_marks[j]);
                            if marks@[j] {
                                let w = choose|w: int|
                                    0 <= w < i && #[trigger] spec_first_target(projs[w], asts)
                                        == j;
                                assert(spec_targeted_upto(projs, asts, i as int + 1, j));
                            }
                            if spec_targeted_upto(projs, asts, i as int + 1, j) {
                                let w = choose|w: int|
                                    0 <= w < i + 1 && #[trigger] spec_first_target(projs[w], asts)
                                        == j;
                                assert(w < i);
                                assert(spec_targeted_upto(projs, asts, i as int, j));
                            }
                        }
                    },
                    None => {
                        if marks@[j] {
                            let w = choose|w: int|
                                0 <= w < i && #[trigger] spec_first_target(projs[w], asts) == j;
                            assert(spec_targeted_upto(projs, asts, i as int + 1, j));
                        }
                        if spec_targeted_upto(projs, asts, i as int + 1, j) {
                            let w = choose|w: int|
                                0 <= w < i + 1 && #[trigger] spec_first_target(projs[w], asts)
                                    == j;
                            assert(w < i);
                            assert(spec_targeted_upto(projs, asts, i as int, j));
                        }
                    },
                }
            }
        }
        i = i + 1;
    }
    proof {
        assert(old(projectiles)@.take(pn as int) =~= old(projectiles)@);
    }

    let mut j: usize = 0;
    while j < an
        invariant
            field.wf(),
            asteroids_wf(old(asteroids)@, field),
            an == old(asteroids)@.len(),
            asteroids@.len() == an,
            marks@.len() == an,
            j <= an,
            forall|k: int| 0 <= k < an ==> ((#[trigger] marks@[k]) <==> spec_targeted(
                old(projectiles)@,
                old(asteroids)@,
                k,
            )),
            forall|k: int| j <= k < an ==> #[trigger] asteroids@[k] == old(asteroids)@[k],
            forall|k: int| 0 <= k < j ==> {
                let o = old(asteroids)@[k];
                let n = #[trigger] asteroids@[k];
                if spec_targeted(old(projectiles)@, old(asteroids)@, k) {
                    n.vel == o.vel && n.y == field.half_h && spawned_x_ok(n.x as int, field)
                } else {
                    n == o
                }
            },
            forall|k: int| 0 <= k < j ==> (#[trigger] asteroids@[k]).wf(field),
        decreases an - j,
    {
        if marks[j] {
            let a = asteroids[j];
            let nx = random_in_range(-field.half_w + SPAWN_MARGIN, field.half_w - SPAWN_MARGIN);
            asteroids.set(j, Asteroid { x: nx, y: field.half_h, vel: a.vel });
        }
        j = j + 1;
    }

    *projectiles = survivors;
    destroyed
}

/// THE LAW OF COLLISION RESOLUTION: a projectile that overlaps an asteroid
/// in the collision phase is always resolved within that phase — the
/// projectile is destroyed (no survivor overlaps any asteroid), the
/// lowest-index asteroid it overlaps is repositioned, and its destruction
/// is counted toward the score awards.
pub proof fn lemma_projectile_hit_resolves(projs: Seq<Fire>, asts: Seq<Asteroid>, i: int, j: int)
    requires
        0 <= i < projs.len(),
        0 <= j < asts.len(),
        spec_bullet_hits(projs[i], asts[j]),
    ensures
        spec_hits_some(projs[i], asts),
        spec_destroyed_count(projs, asts) >= 1,
        0 <= spec_first_target(projs[i], asts) <= j,
        spec_targeted(projs, asts, spec_first_target(projs[i], asts)),
        spec_surviving(projs, asts).len() + spec_destroyed_count(projs, asts) == projs.len(),
        forall|s: int| 0 <= s < spec_surviving(projs, asts).len() ==> !spec_hits_some(
            #[trigger] spec_surviving(projs, asts)[s],
            asts,
        ),
    decreases projs.len(),
{
    assert(spec_hits_some(projs[i], asts));
    lemma_first_target_props(projs[i], asts);
    let t = spec_first_target(projs[i], asts);
    assert(t <= j) by {
        if t > j {
            assert(!spec_bullet_hits(projs[i], asts[j]));
        }
    }
    assert(spec_targeted_upto(projs, asts, projs.len() as int, t));
    lemma_surviving_props(projs, asts);
    lemma_destroyed_count_pos(projs, asts, i);
}

/// A projectile that overlaps some asteroid makes the destroyed count
/// positive.
proof fn lemma_destroyed_count_pos(projs: Seq<Fire>, asts: Seq<Asteroid>, i: int)
    requires
        0 <= i < projs.len(),
        spec_hits_some(projs[i], asts),
    ensures
        spec_destroyed_count(projs, asts) >= 1,
    decreases projs.len(),
{
    if i + 1 == projs.len() {
    } else {
        assert(projs.drop_last()[i] == projs[i]);
        lemma_destroyed_count_pos(projs.drop_last(), asts, i);
    }
}

} // verus!
