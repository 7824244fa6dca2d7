//! The player ship and its weapon system: lateral movement with clamping,
//! rate-limited firing, projectile flight, and the reload state machine.
//!
//! The reload machine has three states, read off the player fields:
//! `Loaded` (`ammunition > 0`), `Empty-Unarmed` (`ammunition == 0`, no
//! deadline) and `Reloading` (`ammunition == 0`, deadline set). An empty
//! magazine arms on the very frame it is seen; once the injected clock
//! reaches the deadline the magazine refills to `MAX_AMMO`.

use vstd::prelude::*;

use crate::config::CULL_MARGIN;
use crate::config::FIRE_COOLDOWN_MS;
use crate::config::MAX_AMMO;
use crate::config::MAX_DT_MS;
use crate::config::MAX_NOW_MS;
use crate::config::PLAYER_RADIUS;
use crate::config::PLAYER_SPAWN_OFFSET;
use crate::config::PLAYER_SPEED;
use crate::config::RELOAD_DURATION_MS;
use crate::config::SHOT_SPEED;
use crate::geometry::lemma_scaled_bounds;
use crate::geometry::scaled;
use crate::geometry::spec_scaled;
use crate::playfield::Field;

verus! {

/// A projectile in flight, moving straight up.
#[derive(Clone, Copy)]
pub struct Fire {
    pub x: i64,
    pub y: i64,
}

impl Fire {
    /// Inside the field and below the cull line.
    pub open spec fn wf(self, field: Field) -> bool {
        &&& -field.half_w <= self.x <= field.half_w
        &&& -field.half_h <= self.y <= field.half_h - CULL_MARGIN
    }
}

/// Every projectile of the sequence is well formed for `field`.
pub open spec fn projectiles_wf(s: Seq<Fire>, field: Field) -> bool {
    forall|i: int| 0 <= i < s.len() ==> (#[trigger] s[i]).wf(field)
}

/// The player ship. `y` is fixed at the spawn height; timers are readings
/// of the injected monotonic clock, in milliseconds.
#[derive(Clone, Copy)]
pub struct Player {
    pub x: i64,
    pub y: i64,
    pub ammunition: u32,
    pub last_fire_ms: u64,
    pub reload_deadline_ms: Option<u64>,
}

impl Player {
    /// The weapon-state invariant: ammunition stays in `[0, MAX_AMMO]`, a
    /// reload deadline is armed only while the magazine is empty, and the
    /// timers stay in the range where deadline arithmetic cannot overflow.
    pub open spec fn ammo_wf(self) -> bool {
        &&& self.ammunition <= MAX_AMMO
        &&& self.last_fire_ms <= MAX_NOW_MS
        &&& match self.reload_deadline_ms {
            Some(d) => self.ammunition == 0 && d <= MAX_NOW_MS + RELOAD_DURATION_MS,
            None => true,
        }
    }

    /// Well formed for `field`: weapon state sound, `x` inside the clamp
    /// interval, `y` at the spawn height.
    pub open spec fn wf(self, field: Field) -> bool {
        &&& self.ammo_wf()
        &&& -field.half_w + PLAYER_RADIUS <= self.x <= field.half_w - PLAYER_RADIUS
        &&& self.y == -field.half_h + PLAYER_SPAWN_OFFSET
    }
}

/// Creates the player at the centre of the spawn row with a full magazine;
/// the cooldown timer starts at creation time.
pub fn spawn_spaceship(now_ms: u64, field: Field) -> (p: Player)
    requires
        field.wf(),
        now_ms <= MAX_NOW_MS,
    ensures
        p.wf(field),
        p.x == 0,
        p.y == -field.half_h + PLAYER_SPAWN_OFFSET,
        p.ammunition == MAX_AMMO,
        p.last_fire_ms == now_ms,
        p.reload_deadline_ms is None,
{
    Player {
        x: 0,
        y: -field.half_h + PLAYER_SPAWN_OFFSET,
        ammunition: MAX_AMMO,
        last_fire_ms: now_ms,
        reload_deadline_ms: None,
    }
}

/// `v` clamped into `[lo, hi]`.
pub open spec fn spec_clamp(v: int, lo: int, hi: int) -> int {
    if v < lo {
        lo
    } else if v > hi {
        hi
    } else {
        v
    }
}

/// Where the ship stands after one frame of input: shifted by the player
/// speed (right takes priority over left), then clamped into the field
/// unconditionally.
pub open spec fn spec_moved_x(
    x: int,
    move_left: bool,
    move_right: bool,
    dt: int,
    field: Field,
) -> int {
    let shifted = if move_right {
        x + spec_scaled(PLAYER_SPEED as int, dt)
    } else if move_left {
        x - spec_scaled(PLAYER_SPEED as int, dt)
    } else {
        x
    };
    spec_clamp(shifted, -field.half_w + PLAYER_RADIUS, field.half_w - PLAYER_RADIUS)
}

/// A fire attempt at `now` succeeds: the control is pressed, strictly more
/// than `FIRE_COOLDOWN_MS` has passed since the last successful shot, and
/// the magazine is not empty.
pub open spec fn spec_fire_granted(p: Player, fire_pressed: bool, now: int) -> bool {
    &&& fire_pressed
    &&& now > p.last_fire_ms + FIRE_COOLDOWN_MS
    &&& p.ammunition > 0
}

/// One frame of player input: lateral movement with unconditional clamping,
/// then the fire attempt. A granted shot spawns one projectile at the
/// ship's (already clamped) position, restarts the cooldown and spends one
/// round; a refused attempt changes nothing and is no error.
pub fn player_inputs(
    player: &mut Player,
    projectiles: &mut Vec<Fire>,
    move_left: bool,
    move_right: bool,
    fire_pressed: bool,
    now_ms: u64,
    dt_ms: u64,
    field: Field,
) -> (fired: bool)
    requires
        field.wf(),
        old(player).wf(field),
        dt_ms <= MAX_DT_MS,
        now_ms <= MAX_NOW_MS,
    ensures
        final(player).wf(field),
        fired == spec_fire_granted(*old(player), fire_pressed, now_ms as int),
        final(player).x as int == spec_moved_x(
            old(player).x as int,
            move_left,
            move_right,
            dt_ms as int,
            field,
        ),
        final(player).y == old(player).y,
        final(player).reload_deadline_ms == old(player).reload_deadline_ms,
        fired ==> {
            &&& final(player).ammunition == old(player).ammunition - 1
            &&& final(player).last_fire_ms == now_ms
            &&& final(projectiles)@ == old(projectiles)@.push(
                Fire { x: final(player).x, y: old(player).y },
            )
        },
        !fired ==> {
            &&& final(player).ammunition == old(player).ammunition
            &&& final(player).last_fire_ms == old(player).last_fire_ms
            &&& final(projectiles)@ == old(projectiles)@
        },
        projectiles_wf(old(projectiles)@, field) ==> projectiles_wf(final(projectiles)@, field),
{
    proof {
        lemma_scaled_bounds(PLAYER_SPEED as int, dt_ms as int);
    }
    let step = scaled(PLAYER_SPEED, dt_ms);
    let shifted: i64 = if move_right {
        player.x + step
    } else if move_left {
        player.x - step
    } else {
        player.x
    };
    let lo = -field.half_w + PLAYER_RADIUS;
    let hi = field.half_w - PLAYER_RADIUS;
    player.x = if shifted < lo {
        lo
    } else if shifted > hi {
        hi
    } else {
        shifted
    };

    let granted = fire_pressed && now_ms > player.last_fire_ms + FIRE_COOLDOWN_MS
        && player.ammunition > 0;
    if granted {
        projectiles.push(Fire { x: player.x, y: player.y });
        player.last_fire_ms = now_ms;
        player.ammunition = player.ammunition - 1;
    }
    granted
}

/// One step of the reload machine at clock reading `now`: an empty,
/// unarmed magazine arms a deadline `RELOAD_DURATION_MS` ahead; an armed
/// deadline that `now` has reached refills the magazine and clears.
/// Arming and refilling cannot happen in the same step, since a fresh
/// deadline lies strictly in the future.
pub open spec fn spec_update_ammunition(p: Player, now: int) -> Player {
    match p.reload_deadline_ms {
        None => if p.ammunition == 0 {
            Player { reload_deadline_ms: Some((now + RELOAD_DURATION_MS) as u64), ..p }
        } else {
            p
        },
        Some(d) => if now >= d {
            Player { ammunition: MAX_AMMO, reload_deadline_ms: None, ..p }
        } else {
            p
        },
    }
}

/// Runs the reload state machine for one frame.
pub fn update_ammunition(player: &mut Player, now_ms: u64) -> (reload_started: bool)
    requires
        old(player).ammo_wf(),
        now_ms <= MAX_NOW_MS,
    ensures
        *final(player) == spec_update_ammunition(*old(player), now_ms as int),
        final(player).ammo_wf(),
        reload_started == (old(player).reload_deadline_ms is None && old(player).ammunition
            == 0),
{
    let mut started = false;
    if player.ammunition == 0 && player.reload_deadline_ms.is_none() {
        player.reload_deadline_ms = Some(now_ms + RELOAD_DURATION_MS);
        started = true;
    }
    let refill = match player.reload_deadline_ms {
        Some(d) => now_ms >= d,
        None => false,
    };
    if refill {
        player.reload_deadline_ms = None;
        player.ammunition = MAX_AMMO;
    }
    started
}

/// Wall time left until the magazine refills, for display: zero when no
/// reload is under way or the deadline has passed.
pub fn reload_remaining_ms(player: &Player, now_ms: u64) -> (r: u64)
    ensures
        r == match player.reload_deadline_ms {
            Some(d) => if now_ms < d {
                (d - now_ms) as u64
            } else {
                0u64
            },
            None => 0u64,
        },
{
    match player.reload_deadline_ms {
        Some(d) => if now_ms < d {
            d - now_ms
        } else {
            0
        },
        None => 0,
    }
}

/// The player after the reload machine has run once per frame, at the
/// given sequence of clock readings.
pub open spec fn spec_reload_run(p: Player, times: Seq<u64>) -> Player
    decreases times.len(),
{
    if times.len() == 0 {
        p
    } else {
        spec_reload_run(spec_update_ammunition(p, times.first() as int), times.drop_first())
    }
}

/// THE LAW OF THE RELOAD DEADLINE, first half: while every frame's clock
/// reading stays strictly below the armed deadline, the magazine stays
/// empty and the deadline stands — refilling happens no sooner.
pub proof fn lemma_reload_no_sooner(p: Player, times: Seq<u64>, d: u64)
    requires
        p.reload_deadline_ms == Some(d),
        p.ammunition == 0,
        forall|i: int| 0 <= i < times.len() ==> (#[trigger] times[i]) < d,
    ensures
        spec_reload_run(p, times).ammunition == 0,
        spec_reload_run(p, times).reload_deadline_ms == Some(d),
    decreases times.len(),
{
    if times.len() > 0 {
        let q = spec_update_ammunition(p, times.first() as int);
        assert(times[0] < d);
        assert(q == p);
        let rest = times.drop_first();
        assert(forall|i: int| 0 <= i < rest.len() ==> #[trigger] rest[i] == times[i + 1]);
        lemma_reload_no_sooner(q, rest, d);
    }
}

/// THE LAW OF THE RELOAD DEADLINE, second half: the first frame whose
/// clock reading reaches the deadline refills the magazine to `MAX_AMMO`
/// and clears the deadline.
pub proof fn lemma_reload_refills(p: Player, now: u64, d: u64)
    requires
        p.reload_deadline_ms == Some(d),
        now >= d,
    ensures
        spec_update_ammunition(p, now as int).ammunition == MAX_AMMO,
        spec_update_ammunition(p, now as int).reload_deadline_ms is None,
{
}

/// THE LAW OF THE RELOAD DURATION, whole: a magazine that runs dry at
/// clock reading `t0` arms a deadline `RELOAD_DURATION_MS` ahead; across
/// any number of frames strictly inside that span it stays empty, and the
/// first frame at or past `t0 + RELOAD_DURATION_MS` restores `MAX_AMMO`.
pub proof fn lemma_reload_exact(p: Player, t0: u64, times: Seq<u64>, t_end: u64)
    requires
        p.ammunition == 0,
        p.reload_deadline_ms is None,
        t0 + RELOAD_DURATION_MS <= u64::MAX,
        forall|i: int| 0 <= i < times.len() ==> (#[trigger] times[i]) < t0 + RELOAD_DURATION_MS,
        t_end >= t0 + RELOAD_DURATION_MS,
    ensures
        spec_update_ammunition(p, t0 as int).reload_deadline_ms == Some(
            (t0 + RELOAD_DURATION_MS) as u64,
        ),
        spec_reload_run(spec_update_ammunition(p, t0 as int), times).ammunition == 0,
        spec_update_ammunition(
            spec_reload_run(spec_update_ammunition(p, t0 as int), times),
            t_end as int,
        ).ammunition == MAX_AMMO,
{
    let armed = spec_update_ammunition(p, t0 as int);
    let d = (t0 + RELOAD_DURATION_MS) as u64;
    lemma_reload_no_sooner(armed, times, d);
    lemma_reload_refills(spec_reload_run(armed, times), t_end, d);
}

/// The projectile as one frame of flight leaves it.
pub open spec fn spec_shot_moved(f: Fire, dt: int) -> Fire {
    Fire { x: f.x, y: (f.y + spec_scaled(SHOT_SPEED as int, dt)) as i64 }
}

/// The projectiles still in flight after one frame: each climbs by the
/// shot speed, and any that passes the cull line near the top edge is
/// destroyed at once. Order is kept.
pub open spec fn spec_fire_logic(s: Seq<Fire>, dt: int, field: Field) -> Seq<Fire>
    decreases s.len(),
{
    if s.len() == 0 {
        Seq::empty()
    } else {
        let rest = spec_fire_logic(s.drop_last(), dt, field);
        let m = spec_shot_moved(s.last(), dt);
        if m.y <= field.half_h - CULL_MARGIN {
            rest.push(m)
        } else {
            rest
        }
    }
}

/// Advances every projectile by `dt_ms` and destroys those that left the
/// top of the field.
pub fn fire_logic(projectiles: &mut Vec<Fire>, dt_ms: u64, field: Field)
    requires
        field.wf(),
        dt_ms <= MAX_DT_MS,
        projectiles_wf(old(projectiles)@, field),
    ensures
        final(projectiles)@ == spec_fire_logic(old(projectiles)@, dt_ms as int, field),
        projectiles_wf(final(projectiles)@, field),
{
    proof {
        lemma_scaled_bounds(SHOT_SPEED as int, dt_ms as int);
    }
    let step = scaled(SHOT_SPEED, dt_ms);
    let n = projectiles.len();
    let mut kept: Vec<Fire> = Vec::new();
    let mut i: usize = 0;
    proof {
        assert(kept@ =~= spec_fire_logic(old(projectiles)@.take(0), dt_ms as int, field));
    }
    while i < n
        invariant
            field.wf(),
            dt_ms <= MAX_DT_MS,
            projectiles_wf(old(projectiles)@, field),
            projectiles@ == old(projectiles)@,
            n == old(projectiles)@.len(),
            0 <= step == spec_scaled(SHOT_SPEED as int, dt_ms as int),
            i <= n,
            kept@ == spec_fire_logic(old(projectiles)@.take(i as int), dt_ms as int, field),
            projectiles_wf(kept@, field),
        decreases n - i,
    {
        let f = projectiles[i];
        let ny = f.y + step;
        if ny <= field.half_h - CULL_MARGIN {
            kept.push(Fire { x: f.x, y: ny });
        }
        proof {
            let pre = old(projectiles)@.take(i as int);
            let cur = old(projectiles)@.take(i as int + 1);
            assert(cur.drop_last() =~= pre);
            assert(cur.last() == old(projectiles)@[i as int]);
        }
        i = i + 1;
    }
    proof {
        assert(old(projectiles)@.take(n as int) =~= old(projectiles)@);
    }
    *projectiles = kept;
}

} // verus!
