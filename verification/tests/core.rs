//! End-to-end tests of the simulation core on concrete values.

use asteroids::asteroids::{replace_asteroids, spawn_asteroids, update_asteroids, Asteroid, Velocity};
use asteroids::collision::{detect_bullet_collision, detect_player_collision};
use asteroids::config::{ASTEROID_COUNT, MAX_AMMO, MAX_LIVES};
use asteroids::player::{fire_logic, spawn_spaceship, Fire};
use asteroids::playfield::Field;
use asteroids::world::{restart, set_field, tick, FrameInput, World};

fn quiet_input(dt_ms: u64, now_ms: u64) -> FrameInput {
    FrameInput { dt_ms, now_ms, move_left: false, move_right: false, fire: false }
}

fn fire_input(dt_ms: u64, now_ms: u64) -> FrameInput {
    FrameInput { dt_ms, now_ms, move_left: false, move_right: false, fire: true }
}

/// A world whose asteroid pool sits parked on the top edge with no drift,
/// far from the player, so that weapon-focused tests see no collisions.
fn parked_world() -> World {
    let mut w = World::new(0, 640, 400);
    for i in 0..w.asteroids.len() {
        w.asteroids[i] = Asteroid {
            x: 0,
            y: 400,
            vel: Velocity { initial_direction: 0, speed: 150, direction_x: 0 },
        };
    }
    w
}

#[test]
fn movement_exact_step() {
    let mut w = parked_world();
    let inp = FrameInput { dt_ms: 16, now_ms: 16, move_left: false, move_right: true, fire: false };
    tick(&mut w, inp);
    // 600 units/s over 16 ms: 9 units, rounded toward zero
    assert_eq!(w.player.x, 9);
    assert_eq!(w.player.y, -320);
}

#[test]
fn movement_right_takes_priority() {
    let mut w = parked_world();
    let inp = FrameInput { dt_ms: 100, now_ms: 16, move_left: true, move_right: true, fire: false };
    tick(&mut w, inp);
    assert_eq!(w.player.x, 60);
}

#[test]
fn movement_clamped_at_wall() {
    let mut w = parked_world();
    w.player.x = 595;
    let inp = FrameInput { dt_ms: 16, now_ms: 16, move_left: false, move_right: true, fire: false };
    tick(&mut w, inp);
    // 595 + 9 = 604 leaves the field; the clamp wall is 640 - 40
    assert_eq!(w.player.x, 600);
}

#[test]
fn zero_dt_frame_is_a_no_op_for_motion() {
    let mut w = parked_world();
    w.player.x = 77;
    let before: Vec<Asteroid> = w.asteroids.clone();
    tick(&mut w, quiet_input(0, 50));
    assert_eq!(w.player.x, 77);
    for (a, b) in w.asteroids.iter().zip(before.iter()) {
        assert_eq!(a.x, b.x);
        assert_eq!(a.y, b.y);
    }
}

#[test]
fn fire_spawns_one_projectile() {
    let mut w = parked_world();
    let ev = tick(&mut w, fire_input(1, 200));
    assert!(ev.fired);
    assert_eq!(w.projectiles.len(), 1);
    assert_eq!(w.player.ammunition, MAX_AMMO - 1);
    assert_eq!(w.projectiles[0].x, w.player.x);
    assert_eq!(w.projectiles[0].y, w.player.y);
}

#[test]
fn fire_during_cooldown_is_refused() {
    let mut w = parked_world();
    let ev1 = tick(&mut w, fire_input(1, 200));
    // 250 - 200 < 100: within the cooldown, at most one shot between the two
    let ev2 = tick(&mut w, fire_input(1, 250));
    assert!(ev1.fired);
    assert!(!ev2.fired);
    assert_eq!(w.projectiles.len(), 1);
    assert_eq!(w.player.ammunition, MAX_AMMO - 1);
}

#[test]
fn fire_at_exactly_cooldown_is_refused() {
    let mut w = parked_world();
    let ev1 = tick(&mut w, fire_input(1, 200));
    // the limiter is strict: exactly FIRE_COOLDOWN_MS later is still too soon
    let ev2 = tick(&mut w, fire_input(1, 300));
    let ev3 = tick(&mut w, fire_input(1, 301));
    assert!(ev1.fired);
    assert!(!ev2.fired);
    assert!(ev3.fired);
}

#[test]
fn empty_magazine_never_spawns() {
    let mut w = parked_world();
    w.player.ammunition = 0;
    let ev = tick(&mut w, fire_input(1, 500));
    assert!(!ev.fired);
    assert!(ev.reload_started);
    assert_eq!(w.projectiles.len(), 0);
}

#[test]
fn sixty_shots_then_reload() {
    let mut w = parked_world();
    let mut fired = 0;
    let mut reload_started_at_last_shot = false;
    for i in 1..=60u64 {
        let ev = tick(&mut w, fire_input(1, i * 200));
        if ev.fired {
            fired += 1;
        }
        if i == 60 {
            reload_started_at_last_shot = ev.reload_started;
        }
    }
    assert_eq!(fired, 60);
    assert_eq!(w.player.ammunition, 0);
    assert_eq!(w.projectiles.len(), 60);
    // the magazine emptied at 12000 ms and armed the same frame, so the
    // deadline stands at 14000 ms
    assert!(reload_started_at_last_shot);
    tick(&mut w, quiet_input(1, 13999));
    assert_eq!(w.player.ammunition, 0);
    tick(&mut w, quiet_input(1, 14000));
    assert_eq!(w.player.ammunition, MAX_AMMO);
}

#[test]
fn reload_refills_no_sooner() {
    let mut w = parked_world();
    w.player.ammunition = 0;
    tick(&mut w, quiet_input(1, 1000));
    // armed at 1000 ms: deadline 3000 ms
    for now in [1500u64, 2000, 2500, 2999] {
        tick(&mut w, quiet_input(1, now));
        assert_eq!(w.player.ammunition, 0);
    }
    tick(&mut w, quiet_input(1, 3000));
    assert_eq!(w.player.ammunition, MAX_AMMO);
}

#[test]
fn player_collision_costs_a_life_and_wraps_asteroid() {
    let field = Field::new(640, 400);
    let player = spawn_spaceship(0, field);
    // one asteroid 10 units above the ship: 10 < 40 + 25
    let mut asteroids = vec![Asteroid {
        x: player.x,
        y: player.y + 10,
        vel: Velocity { initial_direction: 0, speed: 150, direction_x: 0 },
    }];
    let mut lives = MAX_LIVES;
    let hits = detect_player_collision(&player, &mut asteroids, &mut lives, field);
    assert_eq!(hits, 1);
    assert_eq!(lives, MAX_LIVES - 1);
    assert_eq!(asteroids[0].y, 400);
    assert_eq!(asteroids[0].x, player.x);
}

#[test]
fn touching_circles_do_not_collide() {
    let field = Field::new(640, 400);
    let player = spawn_spaceship(0, field);
    // centre distance exactly 65 == 40 + 25: the test is strict
    let mut asteroids = vec![Asteroid {
        x: player.x,
        y: player.y + 65,
        vel: Velocity { initial_direction: 0, speed: 150, direction_x: 0 },
    }];
    let mut lives = MAX_LIVES;
    let hits = detect_player_collision(&player, &mut asteroids, &mut lives, field);
    assert_eq!(hits, 0);
    assert_eq!(lives, MAX_LIVES);
    assert_eq!(asteroids[0].y, player.y + 65);
}

#[test]
fn two_overlaps_cost_two_lives_in_one_frame() {
    let field = Field::new(640, 400);
    let player = spawn_spaceship(0, field);
    let vel = Velocity { initial_direction: 0, speed: 150, direction_x: 0 };
    let mut asteroids = vec![
        Asteroid { x: player.x, y: player.y + 10, vel },
        Asteroid { x: player.x + 20, y: player.y, vel },
    ];
    let mut lives = MAX_LIVES;
    let hits = detect_player_collision(&player, &mut asteroids, &mut lives, field);
    assert_eq!(hits, 2);
    assert_eq!(lives, MAX_LIVES - 2);
}

#[test]
fn lives_saturate_at_zero() {
    let field = Field::new(640, 400);
    let player = spawn_spaceship(0, field);
    let vel = Velocity { initial_direction: 0, speed: 150, direction_x: 0 };
    let mut asteroids = vec![
        Asteroid { x: player.x, y: player.y + 10, vel },
        Asteroid { x: player.x + 20, y: player.y, vel },
    ];
    let mut lives = 1;
    let hits = detect_player_collision(&player, &mut asteroids, &mut lives, field);
    assert_eq!(hits, 2);
    assert_eq!(lives, 0);
}

#[test]
fn projectile_hit_resolves_in_same_frame() {
    let field = Field::new(640, 400);
    let mut projectiles = vec![Fire { x: 0, y: 0 }];
    // centre distance 30 < 10 + 25
    let mut asteroids = vec![Asteroid {
        x: 0,
        y: 30,
        vel: Velocity { initial_direction: 0, speed: 150, direction_x: 0 },
    }];
    let mut score = 0u64;
    let destroyed = detect_bullet_collision(&mut projectiles, &mut asteroids, &mut score, field);
    assert_eq!(destroyed, 1);
    assert_eq!(projectiles.len(), 0);
    assert_eq!(score, 100);
    assert_eq!(asteroids[0].y, 400);
    assert!(asteroids[0].x >= -590 && asteroids[0].x < 590);
}

#[test]
fn projectile_does_not_pierce_and_lowest_index_wins() {
    let field = Field::new(640, 400);
    let mut projectiles = vec![Fire { x: 0, y: 0 }];
    let vel = Velocity { initial_direction: 0, speed: 150, direction_x: 0 };
    // both asteroids overlap the projectile; only the first is repositioned
    let mut asteroids = vec![Asteroid { x: 0, y: 20, vel }, Asteroid { x: 0, y: -20, vel }];
    let mut score = 0u64;
    let destroyed = detect_bullet_collision(&mut projectiles, &mut asteroids, &mut score, field);
    assert_eq!(destroyed, 1);
    assert_eq!(score, 100);
    assert_eq!(asteroids[0].y, 400);
    assert_eq!(asteroids[1].y, -20);
    assert_eq!(asteroids[1].x, 0);
}

#[test]
fn missing_projectile_survives_and_scores_nothing() {
    let field = Field::new(640, 400);
    let mut projectiles = vec![Fire { x: 0, y: 0 }, Fire { x: 300, y: 300 }];
    let mut asteroids = vec![Asteroid {
        x: 0,
        y: 30,
        vel: Velocity { initial_direction: 0, speed: 150, direction_x: 0 },
    }];
    let mut score = 50u64;
    let destroyed = detect_bullet_collision(&mut projectiles, &mut asteroids, &mut score, field);
    assert_eq!(destroyed, 1);
    assert_eq!(projectiles.len(), 1);
    assert_eq!(projectiles[0].x, 300);
    assert_eq!(projectiles[0].y, 300);
    assert_eq!(score, 150);
}

#[test]
fn two_hits_score_twice() {
    let field = Field::new(640, 400);
    let mut projectiles = vec![Fire { x: 0, y: 0 }, Fire { x: 400, y: 100 }];
    let vel = Velocity { initial_direction: 0, speed: 150, direction_x: 0 };
    let mut asteroids = vec![Asteroid { x: 0, y: 30, vel }, Asteroid { x: 400, y: 110, vel }];
    let mut score = 0u64;
    let destroyed = detect_bullet_collision(&mut projectiles, &mut asteroids, &mut score, field);
    assert_eq!(destroyed, 2);
    assert_eq!(projectiles.len(), 0);
    assert_eq!(score, 200);
}

#[test]
fn asteroid_wraps_to_top_on_crossing_bottom() {
    let field = Field::new(640, 400);
    let mut asteroids = vec![Asteroid {
        x: 100,
        y: -399,
        vel: Velocity { initial_direction: 7, speed: 150, direction_x: 0 },
    }];
    // 150 units/s over 1000 ms drops it to -549, past the bottom edge
    update_asteroids(&mut asteroids, 1000, field);
    assert_eq!(asteroids[0].y, -549);
    replace_asteroids(&mut asteroids, field);
    assert_eq!(asteroids[0].y, 400);
    assert!(asteroids[0].x >= -590 && asteroids[0].x < 590);
}

#[test]
fn asteroid_inside_field_just_falls() {
    let field = Field::new(640, 400);
    let mut asteroids = vec![Asteroid {
        x: 100,
        y: -100,
        vel: Velocity { initial_direction: 7, speed: 150, direction_x: 20 },
    }];
    update_asteroids(&mut asteroids, 1000, field);
    replace_asteroids(&mut asteroids, field);
    assert_eq!(asteroids[0].y, -250);
    assert_eq!(asteroids[0].x, 120);
}

#[test]
fn asteroid_snaps_back_after_lateral_exit() {
    let field = Field::new(640, 400);
    let mut asteroids = vec![Asteroid {
        x: 639,
        y: 0,
        vel: Velocity { initial_direction: 33, speed: 150, direction_x: 40 },
    }];
    // drifts to 679, past the right wall: snapped to the remembered drift
    update_asteroids(&mut asteroids, 1000, field);
    replace_asteroids(&mut asteroids, field);
    assert_eq!(asteroids[0].x, 33);
    assert_eq!(asteroids[0].y, -150);
}

#[test]
fn projectile_culled_at_the_top() {
    let field = Field::new(640, 400);
    let mut projectiles = vec![Fire { x: 0, y: 380 }, Fire { x: 0, y: 0 }];
    // 400 units/s over 100 ms: +40; 420 passes the cull line at 390
    fire_logic(&mut projectiles, 100, field);
    assert_eq!(projectiles.len(), 1);
    assert_eq!(projectiles[0].y, 40);
}

#[test]
fn spawned_pool_is_within_the_dealt_ranges() {
    let field = Field::new(640, 400);
    let asteroids = spawn_asteroids(field);
    assert_eq!(asteroids.len(), ASTEROID_COUNT);
    for a in asteroids.iter() {
        assert!(a.x >= -590 && a.x < 590);
        assert_eq!(a.y, 400);
        assert!(a.vel.speed >= 150 && a.vel.speed < 400);
        assert!(a.vel.direction_x >= -40 && a.vel.direction_x < 40);
        assert_eq!(a.vel.initial_direction, a.vel.direction_x);
    }
}

#[test]
fn losing_the_last_life_freezes_the_world() {
    let mut w = parked_world();
    w.lives = 1;
    // park one asteroid right on the ship
    w.asteroids[0] = Asteroid {
        x: w.player.x,
        y: w.player.y + 10,
        vel: Velocity { initial_direction: 0, speed: 150, direction_x: 0 },
    };
    w.projectiles.push(Fire { x: 200, y: 0 });
    let ev = tick(&mut w, quiet_input(0, 100));
    assert_eq!(ev.player_hits, 1);
    assert_eq!(w.lives, 0);
    assert!(!w.alive());
    // in-flight projectiles are cleared on the game-over frame
    assert_eq!(w.projectiles.len(), 0);

    // the next frame is a no-op, whatever the inputs
    let px = w.player.x;
    let before: Vec<Asteroid> = w.asteroids.clone();
    let ev2 = tick(
        &mut w,
        FrameInput { dt_ms: 500, now_ms: 5000, move_left: false, move_right: true, fire: true },
    );
    assert!(!ev2.fired);
    assert_eq!(w.player.x, px);
    for (a, b) in w.asteroids.iter().zip(before.iter()) {
        assert_eq!(a.x, b.x);
        assert_eq!(a.y, b.y);
    }
}

#[test]
fn restart_resets_everything() {
    let mut w = parked_world();
    w.lives = 0;
    w.score = 450;
    w.player.x = 123;
    w.player.ammunition = 7;
    w.projectiles.push(Fire { x: 0, y: 0 });
    restart(&mut w, 9000);
    assert_eq!(w.lives, MAX_LIVES);
    assert_eq!(w.score, 0);
    assert_eq!(w.player.x, 0);
    assert_eq!(w.player.ammunition, MAX_AMMO);
    assert_eq!(w.projectiles.len(), 0);
    assert_eq!(w.asteroids.len(), ASTEROID_COUNT);
    assert!(w.alive());
}

#[test]
fn lives_never_increase_within_a_run() {
    let mut w = parked_world();
    let mut previous = w.lives;
    for i in 1..=50u64 {
        tick(&mut w, fire_input(20, i * 150));
        assert!(w.lives <= previous);
        previous = w.lives;
    }
}

#[test]
fn resize_reclamps_and_culls() {
    let mut w = parked_world();
    w.player.x = 500;
    w.projectiles.push(Fire { x: 300, y: 0 });
    w.projectiles.push(Fire { x: 0, y: 50 });
    w.asteroids[0] = Asteroid {
        x: 600,
        y: 400,
        vel: Velocity { initial_direction: 0, speed: 150, direction_x: 0 },
    };
    set_field(&mut w, 200, 200);
    assert_eq!(w.field.half_w, 200);
    assert_eq!(w.field.half_h, 200);
    assert_eq!(w.player.x, 160);
    assert_eq!(w.player.y, -120);
    assert_eq!(w.asteroids[0].x, 200);
    assert_eq!(w.asteroids[0].y, 200);
    // the projectile at x == 300 is outside the shrunken field
    assert_eq!(w.projectiles.len(), 1);
    assert_eq!(w.projectiles[0].x, 0);
    assert_eq!(w.projectiles[0].y, 50);
}
