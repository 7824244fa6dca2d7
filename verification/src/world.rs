//! The whole simulation state and the per-frame pipeline.
//!
//! Each frame runs, in this order: weapon system (movement, firing, the
//! reload machine), kinematics (asteroid fall and recycling, projectile
//! flight and culling), collision resolution (ship against asteroids,
//! then projectiles against asteroids), and the game-state check. The
//! pipeline is gated by `alive`: with no life tokens left nothing runs,
//! and the world is frozen until `restart`. On the frame lives reach
//! zero, all in-flight projectiles are cleared; asteroids freeze in
//! place.

use vstd::prelude::*;

use crate::asteroids::Asteroid;
use crate::asteroids::asteroids_wf;
use crate::asteroids::replace_asteroids;
use crate::asteroids::spawn_asteroids;
use crate::asteroids::spawned_x_ok;
use crate::asteroids::spec_asteroid_step;
use crate::asteroids::spec_spawned;
use crate::asteroids::update_asteroids;
use crate::collision::detect_bullet_collision;
use crate::collision::detect_player_collision;
use crate::collision::spec_destroyed_count;
use crate::collision::spec_player_hit;
use crate::collision::spec_player_hit_count;
use crate::collision::spec_score_after;
use crate::collision::spec_surviving;
use crate::collision::spec_targeted;
use crate::config::ASTEROID_COUNT;
use crate::config::CULL_MARGIN;
use crate::config::FIRE_COOLDOWN_MS;
use crate::config::MAX_AMMO;
use crate::config::MAX_DT_MS;
use crate::config::MAX_HALF_EXTENT;
use crate::config::MAX_LIVES;
use crate::config::MAX_NOW_MS;
use crate::config::MIN_HALF_EXTENT;
use crate::config::PLAYER_RADIUS;
use crate::config::PLAYER_SPAWN_OFFSET;
use crate::player::Fire;
use crate::player::Player;
use crate::player::fire_logic;
use crate::player::player_inputs;
use crate::player::projectiles_wf;
use crate::player::spawn_spaceship;
use crate::player::spec_fire_granted;
use crate::player::spec_fire_logic;
use crate::player::spec_moved_x;
use crate::player::spec_update_ammunition;
use crate::playfield::Field;

verus! {

/// Everything the simulation owns: the playfield extents, the singleton
/// player, the fixed asteroid pool, the projectiles in flight, the life
/// tokens and the score.
pub struct World {
    pub field: Field,
    pub player: Player,
    pub asteroids: Vec<Asteroid>,
    pub projectiles: Vec<Fire>,
    pub lives: u32,
    pub score: u64,
}

impl World {
    /// The world invariant: field sound, every entity inside it, the
    /// weapon state sound, the asteroid pool at its fixed size, and the
    /// life count within its budget.
    pub open spec fn wf(self) -> bool {
        &&& self.field.wf()
        &&& self.player.wf(self.field)
        &&& self.asteroids@.len() == ASTEROID_COUNT
        &&& asteroids_wf(self.asteroids@, self.field)
        &&& projectiles_wf(self.projectiles@, self.field)
        &&& self.lives <= MAX_LIVES
    }

    /// At least one life token remains.
    pub open spec fn spec_alive(self) -> bool {
        self.lives > 0
    }

    /// Derived, never stored: the run goes on while a life token remains.
    pub fn alive(&self) -> (a: bool)
        ensures
            a == self.spec_alive(),
    {
        self.lives > 0
    }

    /// Creates a fresh run: full lives and magazine, zero score, the ship
    /// centred on its spawn row, the asteroid pool dealt at random.
    pub fn new(now_ms: u64, half_w: i64, half_h: i64) -> (w: World)
        requires
            MIN_HALF_EXTENT <= half_w <= MAX_HALF_EXTENT,
            MIN_HALF_EXTENT <= half_h <= MAX_HALF_EXTENT,
            now_ms <= MAX_NOW_MS,
        ensures
            w.wf(),
            w.field.half_w == half_w,
            w.field.half_h == half_h,
            w.lives == MAX_LIVES,
            w.score == 0,
            w.player.x == 0,
            w.player.ammunition == MAX_AMMO,
            w.player.last_fire_ms == now_ms,
            w.player.reload_deadline_ms is None,
            w.projectiles@.len() == 0,
            forall|i: int| 0 <= i < w.asteroids@.len() ==> spec_spawned(
                #[trigger] w.asteroids@[i],
                w.field,
            ),
    {
        let field = Field::new(half_w, half_h);
        World {
            field,
            player: spawn_spaceship(now_ms, field),
            asteroids: spawn_asteroids(field),
            projectiles: Vec::new(),
            lives: MAX_LIVES,
            score: 0,
        }
    }
}

/// What one frame consumes: the elapsed time, the monotonic clock
/// reading, and the debounced control states.
#[derive(Clone, Copy)]
pub struct FrameInput {
    pub dt_ms: u64,
    pub now_ms: u64,
    pub move_left: bool,
    pub move_right: bool,
    pub fire: bool,
}

impl FrameInput {
    /// Within the bounds frame arithmetic needs.
    pub open spec fn wf(self) -> bool {
        &&& self.dt_ms <= MAX_DT_MS
        &&& self.now_ms <= MAX_NOW_MS
    }
}

/// The discrete notifications one frame emits, for audio or any other
/// external listener.
#[derive(Clone, Copy)]
pub struct FrameEvents {
    pub fired: bool,
    pub reload_started: bool,
    pub asteroids_destroyed: usize,
    pub player_hits: usize,
}

/// The weapon phase: ship movement with clamping, the fire attempt, and
/// one step of the reload machine. Deterministic.
pub open spec fn spec_weapon_rel(
    pre: World,
    post: World,
    inp: FrameInput,
    fired: bool,
    reload_started: bool,
) -> bool {
    let granted = spec_fire_granted(pre.player, inp.fire, inp.now_ms as int);
    let mx = spec_moved_x(
        pre.player.x as int,
        inp.move_left,
        inp.move_right,
        inp.dt_ms as int,
        pre.field,
    );
    let after_move = Player { x: mx as i64, ..pre.player };
    let after_fire = if granted {
        Player {
            ammunition: (after_move.ammunition - 1) as u32,
            last_fire_ms: inp.now_ms,
            ..after_move
        }
    } else {
        after_move
    };
    &&& fired == granted
    &&& reload_started == (after_fire.reload_deadline_ms is None && after_fire.ammunition == 0)
    &&& post.player == spec_update_ammunition(after_fire, inp.now_ms as int)
    &&& post.projectiles@ == if granted {
        pre.projectiles@.push(Fire { x: mx as i64, y: pre.player.y })
    } else {
        pre.projectiles@
    }
    &&& post.asteroids@ == pre.asteroids@
    &&& post.lives == pre.lives
    &&& post.score == pre.score
    &&& post.field == pre.field
}

/// The kinematics phase: every asteroid falls and is recycled, every
/// projectile climbs and is culled at the top.
pub open spec fn spec_kinematics_rel(pre: World, post: World, dt: int) -> bool {
    &&& post.asteroids@.len() == pre.asteroids@.len()
    &&& forall|i: int| 0 <= i < pre.asteroids@.len() ==> spec_asteroid_step(
        pre.asteroids@[i],
        #[trigger] post.asteroids@[i],
        dt,
        pre.field,
    )
    &&& post.projectiles@ == spec_fire_logic(pre.projectiles@, dt, pre.field)
    &&& post.player == pre.player
    &&& post.lives == pre.lives
    &&& post.score == pre.score
    &&& post.field == pre.field
}

/// The ship-collision phase: each overlapping asteroid is sent back to
/// the top and costs one life token, while any remain.
pub open spec fn spec_player_collision_rel(pre: World, post: World, hits: nat) -> bool {
    &&& hits == spec_player_hit_count(pre.player, pre.asteroids@)
    &&& post.asteroids@.len() == pre.asteroids@.len()
    &&& forall|i: int| 0 <= i < pre.asteroids@.len() ==> {
        let o = pre.asteroids@[i];
        let n = #[trigger] post.asteroids@[i];
        if spec_player_hit(pre.player, o) {
            n.x == o.x && n.y == pre.field.half_h && n.vel == o.vel
        } else {
            n == o
        }
    }
    &&& post.lives as int == if hits >= pre.lives as int {
        0int
    } else {
        pre.lives - hits
    }
    &&& post.player == pre.player
    &&& post.projectiles@ == pre.projectiles@
    &&& post.score == pre.score
    &&& post.field == pre.field
}

/// The projectile-collision phase: hits are judged against the phase's
/// entry positions; destroyed projectiles each award one score reward and
/// first-target asteroids are re-dealt at the top.
pub open spec fn spec_bullet_collision_rel(pre: World, post: World, destroyed: nat) -> bool {
    &&& destroyed == spec_destroyed_count(pre.projectiles@, pre.asteroids@)
    &&& post.projectiles@ == spec_surviving(pre.projectiles@, pre.asteroids@)
    &&& post.asteroids@.len() == pre.asteroids@.len()
    &&& forall|j: int| 0 <= j < pre.asteroids@.len() ==> {
        let o = pre.asteroids@[j];
        let n = #[trigger] post.asteroids@[j];
        if spec_targeted(pre.projectiles@, pre.asteroids@, j) {
            n.vel == o.vel && n.y == pre.field.half_h && spawned_x_ok(n.x as int, pre.field)
        } else {
            n == o
        }
    }
    &&& post.score as int == spec_score_after(pre.score as int, destroyed)
    &&& post.player == pre.player
    &&& post.lives == pre.lives
    &&& post.field == pre.field
}

/// The game-state check at the end of the frame: when this frame's
/// collisions spent the last life token, all in-flight projectiles are
/// cleared; otherwise nothing changes.
pub open spec fn spec_game_over_rel(pre: World, post: World) -> bool {
    &&& post.player == pre.player
    &&& post.asteroids@ == pre.asteroids@
    &&& post.lives == pre.lives
    &&& post.score == pre.score
    &&& post.field == pre.field
    &&& post.projectiles@ == if pre.lives == 0 {
        Seq::<Fire>::empty()
    } else {
        pre.projectiles@
    }
}

/// One whole frame of a live run: the four phases chained in order
/// through intermediate worlds.
pub open spec fn spec_tick_rel(pre: World, post: World, inp: FrameInput, ev: FrameEvents) -> bool {
    exists|w1: World, w2: World, w3: World, w4: World|
        #![trigger spec_weapon_rel(pre, w1, inp, ev.fired, ev.reload_started),
            spec_kinematics_rel(w1, w2, inp.dt_ms as int),
            spec_player_collision_rel(w2, w3, ev.player_hits as nat),
            spec_bullet_collision_rel(w3, w4, ev.asteroids_destroyed as nat)]
        {
            &&& spec_weapon_rel(pre, w1, inp, ev.fired, ev.reload_started)
            &&& spec_kinematics_rel(w1, w2, inp.dt_ms as int)
            &&& spec_player_collision_rel(w2, w3, ev.player_hits as nat)
            &&& spec_bullet_collision_rel(w3, w4, ev.asteroids_destroyed as nat)
            &&& spec_game_over_rel(w4, post)
        }
}

/// No notification.
pub open spec fn spec_no_events(ev: FrameEvents) -> bool {
    ev == (FrameEvents { fired: false, reload_started: false, asteroids_destroyed: 0, player_hits: 0 })
}

/// Advances the simulation by one frame. While no life token remains the
/// frame is a no-op; otherwise the four phases run in order and the
/// returned events report what happened.
pub fn tick(world: &mut World, input: FrameInput) -> (ev: FrameEvents)
    requires
        old(world).wf(),
        input.wf(),
    ensures
        final(world).wf(),
        final(world).field == old(world).field,
        !old(world).spec_alive() ==> *final(world) == *old(world) && spec_no_events(ev),
        old(world).spec_alive() ==> spec_tick_rel(*old(world), *final(world), input, ev),
        final(world).lives <= old(world).lives,
        final(world).score >= old(world).score,
        old(world).spec_alive() ==> (final(world).player.reload_deadline_ms is Some
            <==> final(world).player.ammunition == 0),
{
    if world.lives == 0 {
        return FrameEvents {
            fired: false,
            reload_started: false,
            asteroids_destroyed: 0,
            player_hits: 0,
        };
    }

    // weapon phase
    let fired = player_inputs(
        &mut world.player,
        &mut world.projectiles,
        input.move_left,
        input.move_right,
        input.fire,
        input.now_ms,
        input.dt_ms,
        world.field,
    );
    let reload_started = update_ammunition_of(world, input.now_ms);
    let ghost w1 = *world;

    // kinematics phase
    update_asteroids(&mut world.asteroids, input.dt_ms, world.field);
    proof {
        assert forall|i: int| 0 <= i < world.asteroids@.len() implies {
            let a = #[trigger] world.asteroids@[i];
            a.vel.wf() && a.y <= world.field.half_h
        } by {
            assert(w1.asteroids@[i].wf(world.field));
        }
    }
    replace_asteroids(&mut world.asteroids, world.field);
    fire_logic(&mut world.projectiles, input.dt_ms, world.field);
    let ghost w2 = *world;
    proof {
        assert(spec_kinematics_rel(w1, w2, input.dt_ms as int));
    }

    // collision phase: ship against asteroids, then projectiles
    let hits = detect_player_collision(
        &world.player,
        &mut world.asteroids,
        &mut world.lives,
        world.field,
    );
    let ghost w3 = *world;
    let destroyed = detect_bullet_collision(
        &mut world.projectiles,
        &mut world.asteroids,
        &mut world.score,
        world.field,
    );
    let ghost w4 = *world;

    // game-state check: on the frame the last life token goes, clear the sky
    if world.lives == 0 {
        world.projectiles = Vec::new();
    }

    let ev = FrameEvents {
        fired,
        reload_started,
        asteroids_destroyed: destroyed,
        player_hits: hits,
    };
    proof {
        let pre = *old(world);
        let post = *world;
        assert(spec_weapon_rel(pre, w1, input, ev.fired, ev.reload_started));
        assert(spec_player_collision_rel(w2, w3, ev.player_hits as nat));
        assert(spec_bullet_collision_rel(w3, w4, ev.asteroids_destroyed as nat));
        assert(spec_game_over_rel(w4, post));
        assert(spec_tick_rel(pre, post, input, ev));
    }
    ev
}

/// Runs the reload machine on the world's player; split out so the ghost
/// snapshot after the weapon phase sees one combined step.
fn update_ammunition_of(world: &mut World, now_ms: u64) -> (reload_started: bool)
    requires
        old(world).field.wf(),
        old(world).player.wf(old(world).field),
        now_ms <= MAX_NOW_MS,
    ensures
        final(world).player == spec_update_ammunition(old(world).player, now_ms as int),
        final(world).player.wf(final(world).field),
        reload_started == (old(world).player.reload_deadline_ms is None
            && old(world).player.ammunition == 0),
        final(world).asteroids@ == old(world).asteroids@,
        final(world).projectiles@ == old(world).projectiles@,
        final(world).lives == old(world).lives,
        final(world).score == old(world).score,
        final(world).field == old(world).field,
{
    crate::player::update_ammunition(&mut world.player, now_ms)
}

/// THE LAW OF LIVES: within a frame, lives never increase — only
/// `restart` restores them.
pub proof fn lemma_lives_monotonic(pre: World, post: World, inp: FrameInput, ev: FrameEvents)
    requires
        spec_tick_rel(pre, post, inp, ev),
    ensures
        post.lives <= pre.lives,
{
    let (w1, w2, w3, w4) = choose|w1: World, w2: World, w3: World, w4: World|
        {
            &&& spec_weapon_rel(pre, w1, inp, ev.fired, ev.reload_started)
            &&& spec_kinematics_rel(w1, w2, inp.dt_ms as int)
            &&& spec_player_collision_rel(w2, w3, ev.player_hits as nat)
            &&& spec_bullet_collision_rel(w3, w4, ev.asteroids_destroyed as nat)
            &&& spec_game_over_rel(w4, post)
        };
    assert(w3.lives <= w2.lives);
}

/// THE LAW OF THE EMPTY MAGAZINE: a frame entered with no ammunition
/// never spawns a projectile in its weapon phase.
pub proof fn lemma_empty_magazine_never_fires(
    pre: World,
    post: World,
    inp: FrameInput,
    fired: bool,
    reload_started: bool,
)
    requires
        spec_weapon_rel(pre, post, inp, fired, reload_started),
        pre.player.ammunition == 0,
    ensures
        !fired,
        post.projectiles@ == pre.projectiles@,
{
}

/// THE LAW OF THE FIRE COOLDOWN: two frames whose clock readings lie less
/// than `FIRE_COOLDOWN_MS` apart grant at most one shot between them.
pub proof fn lemma_fire_cooldown(
    w0: World,
    w1: World,
    w2: World,
    inp1: FrameInput,
    inp2: FrameInput,
    f1: bool,
    r1: bool,
    f2: bool,
    r2: bool,
)
    requires
        spec_weapon_rel(w0, w1, inp1, f1, r1),
        spec_weapon_rel(w1, w2, inp2, f2, r2),
        inp1.now_ms <= inp2.now_ms,
        inp2.now_ms - inp1.now_ms < FIRE_COOLDOWN_MS,
    ensures
        !(f1 && f2),
        w2.projectiles@.len() <= w0.projectiles@.len() + 1,
{
    if f1 {
        assert(w1.player.last_fire_ms == inp1.now_ms);
    }
}

/// Resets the run in one atomic step: full lives and magazine, zero
/// score, the ship back at the centre of its spawn row, a freshly dealt
/// asteroid pool, and an empty sky.
pub fn restart(world: &mut World, now_ms: u64)
    requires
        old(world).wf(),
        now_ms <= MAX_NOW_MS,
    ensures
        final(world).wf(),
        final(world).field == old(world).field,
        final(world).lives == MAX_LIVES,
        final(world).score == 0,
        final(world).player.x == 0,
        final(world).player.y == -old(world).field.half_h + PLAYER_SPAWN_OFFSET,
        final(world).player.ammunition == MAX_AMMO,
        final(world).player.last_fire_ms == now_ms,
        final(world).player.reload_deadline_ms is None,
        final(world).projectiles@.len() == 0,
        final(world).asteroids@.len() == ASTEROID_COUNT,
        forall|i: int| 0 <= i < final(world).asteroids@.len() ==> spec_spawned(
            #[trigger] final(world).asteroids@[i],
            final(world).field,
        ),
{
    world.player = spawn_spaceship(now_ms, world.field);
    world.lives = MAX_LIVES;
    world.score = 0;
    world.projectiles = Vec::new();
    world.asteroids = spawn_asteroids(world.field);
}

/// The projectiles that remain inside a (possibly shrunken) field.
pub open spec fn spec_cull_projectiles(s: Seq<Fire>, field: Field) -> Seq<Fire>
    decreases s.len(),
{
    if s.len() == 0 {
        Seq::empty()
    } else {
        let rest = spec_cull_projectiles(s.drop_last(), field);
        if s.last().wf(field) {
            rest.push(s.last())
        } else {
            rest
        }
    }
}

/// Adopts new viewport extents, re-establishing the world invariant: the
/// ship is clamped into the new field and reseated on its spawn row,
/// asteroids are clamped into the new extents, and projectiles that fall
/// outside are destroyed. Lives, score and the weapon state are untouched.
pub fn set_field(world: &mut World, half_w: i64, half_h: i64)
    requires
        old(world).wf(),
        MIN_HALF_EXTENT <= half_w <= MAX_HALF_EXTENT,
        MIN_HALF_EXTENT <= half_h <= MAX_HALF_EXTENT,
    ensures
        final(world).wf(),
        final(world).field == (Field { half_w, half_h }),
        final(world).lives == old(world).lives,
        final(world).score == old(world).score,
        final(world).player.ammunition == old(world).player.ammunition,
        final(world).player.last_fire_ms == old(world).player.last_fire_ms,
        final(world).player.reload_deadline_ms == old(world).player.reload_deadline_ms,
        final(world).player.x as int == crate::player::spec_clamp(
            old(world).player.x as int,
            -half_w + PLAYER_RADIUS,
            half_w - PLAYER_RADIUS,
        ),
        final(world).player.y == -half_h + PLAYER_SPAWN_OFFSET,
        final(world).asteroids@.len() == old(world).asteroids@.len(),
        forall|i: int| 0 <= i < old(world).asteroids@.len() ==> {
            let o = old(world).asteroids@[i];
            let n = #[trigger] final(world).asteroids@[i];
            &&& n.vel == o.vel
            &&& n.x as int == crate::player::spec_clamp(o.x as int, -half_w as int, half_w as int)
            &&& n.y as int == crate::player::spec_clamp(o.y as int, -half_h as int, half_h as int)
        },
        final(world).projectiles@ == spec_cull_projectiles(
            old(world).projectiles@,
            (Field { half_w, half_h }),
        ),
{
    let field = Field::new(half_w, half_h);
    world.field = field;

    let lo = -half_w + PLAYER_RADIUS;
    let hi = half_w - PLAYER_RADIUS;
    let px = world.player.x;
    world.player.x = if px < lo {
        lo
    } else if px > hi {
        hi
    } else {
        px
    };
    world.player.y = -half_h + PLAYER_SPAWN_OFFSET;

    let ghost wpre = *world;
    let n = world.asteroids.len();
    let mut i: usize = 0;
    while i < n
        invariant
            field.wf(),
            field.half_w == half_w,
            field.half_h == half_h,
            world.field == wpre.field,
            world.player == wpre.player,
            world.projectiles@ == wpre.projectiles@,
            world.lives == wpre.lives,
            world.score == wpre.score,
            wpre.asteroids@ == old(world).asteroids@,
            wpre.projectiles@ == old(world).projectiles@,
            n == old(world).asteroids@.len(),
            world.asteroids@.len() == n,
            i <= n,
            forall|k: int| i <= k < n ==> #[trigger] world.asteroids@[k] == old(
                world,
            ).asteroids@[k],
            asteroids_wf(old(world).asteroids@, old(world).field),
            old(world).field.wf(),
            forall|k: int| 0 <= k < i ==> {
                let o = old(world).asteroids@[k];
                let m = #[trigger] world.asteroids@[k];
                &&& m.vel == o.vel
                &&& m.x as int == crate::player::spec_clamp(o.x as int, -half_w as int, half_w as int)
                &&& m.y as int == crate::player::spec_clamp(o.y as int, -half_h as int, half_h as int)
            },
            forall|k: int| 0 <= k < i ==> (#[trigger] world.asteroids@[k]).wf(field),
        decreases n - i,
    {
        let a = world.asteroids[i];
        let cx = if a.x < -half_w {
            -half_w
        } else if a.x > half_w {
            half_w
        } else {
            a.x
        };
        let cy = if a.y < -half_h {
            -half_h
        } else if a.y > half_h {
            half_h
        } else {
            a.y
        };
        world.asteroids.set(i, Asteroid { x: cx, y: cy, vel: a.vel });
        i = i + 1;
    }

    let ghost wmid = *world;
    let pn = world.projectiles.len();
    let mut kept: Vec<Fire> = Vec::new();
    let mut j: usize = 0;
    proof {
        assert(kept@ =~= spec_cull_projectiles(old(world).projectiles@.take(0), field));
    }
    while j < pn
        invariant
            field.wf(),
            field.half_w == half_w,
            field.half_h == half_h,
            *world == wmid,
            world.projectiles@ == old(world).projectiles@,
            pn == old(world).projectiles@.len(),
            j <= pn,
            kept@ == spec_cull_projectiles(old(world).projectiles@.take(j as int), field),
            projectiles_wf(kept@, field),
        decreases pn - j,
    {
        let f = world.projectiles[j];
        if -half_w <= f.x && f.x <= half_w && -half_h <= f.y && f.y <= half_h - CULL_MARGIN {
            kept.push(f);
        }
        proof {
            let pre = old(world).projectiles@.take(j as int);
            let cur = old(world).projectiles@.take(j as int + 1);
            assert(cur.drop_last() =~= pre);
            assert(cur.last() == old(world).projectiles@[j as int]);
        }
        j = j + 1;
    }
    proof {
        assert(old(world).projectiles@.take(pn as int) =~= old(world).projectiles@);
    }
    world.projectiles = kept;
}

} // verus!
