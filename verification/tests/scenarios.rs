//! Scenario tests for the simulation core: the spawner's world, one attack
//! elapse with and without monsters, cancelling inputs, and one tick of
//! monster pursuit.

use arena_core::geom::Vec2;
use arena_core::motion::{player_intent, pursuit_intent, KeyState};
use arena_core::world::World;

fn no_keys() -> KeyState {
    KeyState {
        w: false,
        up_arrow: false,
        s: false,
        down_arrow: false,
        a: false,
        left_arrow: false,
        d: false,
        right_arrow: false,
    }
}

#[test]
fn setup_spawns_the_arena() {
    let w = World::setup();
    assert_eq!(w.gravity, Vec2 { x: 0, y: 0 });
    assert_eq!(w.player.pos, Vec2 { x: 0, y: 0 });
    assert_eq!(w.player.health_tenths, 1000);
    assert_eq!(w.monsters.len(), 2);
    assert_eq!(w.monsters[0].pos, Vec2 { x: 1000, y: 2150 });
    assert_eq!(w.monsters[1].pos, Vec2 { x: -1000, y: 2150 });
    assert_eq!(w.monsters[0].health_tenths, 200);
    assert_eq!(w.monsters[0].surface.restitution, 10);
    assert_eq!(w.monsters[0].surface.friction, 0);
    assert_eq!(w.player.surface.restitution, 0);
    let corners: Vec<Vec2> = w.obstacles.iter().map(|o| o.pos).collect();
    assert_eq!(
        corners,
        vec![
            Vec2 { x: -2500, y: -2500 },
            Vec2 { x: -2500, y: 2500 },
            Vec2 { x: 2500, y: -2500 },
            Vec2 { x: 2500, y: 2500 },
        ]
    );
    assert_eq!(w.projectiles.len(), 0);
    assert_eq!(w.attack_timer.acc_ms, 0);
}

#[test]
fn one_elapse_spawns_one_projectile_at_the_monster() {
    // Player at the origin, one monster at (100, 215): after one elapse,
    // exactly one projectile, aimed by the displacement (100, 215), sitting
    // one clearance (28.0) out from the player along it.
    let mut w = World::setup();
    w.monsters.truncate(1);
    w.player_attack(500);
    assert_eq!(w.projectiles.len(), 1);
    let p = &w.projectiles[0];
    assert_eq!(p.origin, Vec2 { x: 0, y: 0 });
    assert_eq!(p.heading, Vec2 { x: 1000, y: 2150 });
    assert_eq!(p.dist_tenths, 280);
    assert_eq!(p.lives, 1);
    assert_eq!(w.attack_timer.acc_ms, 0);
}

#[test]
fn elapse_with_no_monsters_spawns_nothing_but_resets() {
    let mut w = World::setup();
    w.monsters.clear();
    w.player_attack(500);
    assert_eq!(w.projectiles.len(), 0);
    assert_eq!(w.attack_timer.acc_ms, 0);
}

#[test]
fn short_tick_spawns_nothing_and_accumulates() {
    let mut w = World::setup();
    w.player_attack(300);
    assert_eq!(w.projectiles.len(), 0);
    assert_eq!(w.attack_timer.acc_ms, 300);
    w.player_attack(300);
    assert_eq!(w.projectiles.len(), 1);
    assert_eq!(w.attack_timer.acc_ms, 100);
}

#[test]
fn long_tick_spawns_one_projectile_per_period() {
    let mut w = World::setup();
    w.player_attack(1250);
    assert_eq!(w.projectiles.len(), 2);
    assert_eq!(w.attack_timer.acc_ms, 250);
    for p in &w.projectiles {
        // Each is aimed at one of the two monsters present.
        assert!(
            p.heading == Vec2 { x: 1000, y: 2150 } || p.heading == Vec2 { x: -1000, y: 2150 }
        );
        assert_eq!(p.origin, Vec2 { x: 0, y: 0 });
        assert_eq!(p.dist_tenths, 280);
    }
}

#[test]
fn opposing_keys_cancel() {
    // Holding left and right together resolves the x axis to zero.
    let keys = KeyState { a: true, d: true, ..no_keys() };
    let v = player_intent(keys);
    assert_eq!(v.heading, Vec2 { x: 0, y: 0 });
    // With up also held, only the y axis moves.
    let keys = KeyState { a: true, d: true, w: true, ..no_keys() };
    let v = player_intent(keys);
    assert_eq!(v.heading, Vec2 { x: 0, y: 1 });
    assert_eq!(v.speed_tenths, 1500);
}

#[test]
fn either_key_of_a_pair_counts() {
    let v1 = player_intent(KeyState { w: true, ..no_keys() });
    let v2 = player_intent(KeyState { up_arrow: true, ..no_keys() });
    assert_eq!(v1, v2);
    assert_eq!(v1.heading, Vec2 { x: 0, y: 1 });
    let v3 = player_intent(KeyState { s: true, a: true, ..no_keys() });
    assert_eq!(v3.heading, Vec2 { x: -1, y: -1 });
    assert_eq!(v3.speed_tenths, 1500);
}

#[test]
fn monsters_pursue_the_player() {
    // Two monsters at (100, 215) and (-100, 215), player at the origin:
    // each is commanded toward the origin at monster speed (52.5), so the
    // bridge will move each by the unit vector of its heading times 52.5
    // times the step time.
    let mut w = World::setup();
    w.monster_movement();
    assert_eq!(w.monsters[0].vel.heading, Vec2 { x: -1000, y: -2150 });
    assert_eq!(w.monsters[1].vel.heading, Vec2 { x: 1000, y: -2150 });
    assert_eq!(w.monsters[0].vel.speed_tenths, 525);
    assert_eq!(w.monsters[1].vel.speed_tenths, 525);
}

#[test]
fn coincident_monster_gets_zero_heading() {
    // A monster standing exactly on the player is commanded the zero
    // vector, and a projectile fired at it keeps the zero heading: no
    // undefined normalization anywhere.
    let mut w = World::setup();
    w.sync_monster_position(0, Vec2 { x: 0, y: 0 });
    let v = pursuit_intent(w.player.pos, w.monsters[0].pos);
    assert_eq!(v.heading, Vec2 { x: 0, y: 0 });
    w.attack_with_target(0);
    assert_eq!(w.projectiles[0].heading, Vec2 { x: 0, y: 0 });
    assert_eq!(w.projectiles[0].origin, Vec2 { x: 0, y: 0 });
}

#[test]
fn projectiles_advance_one_step_per_tick() {
    let mut w = World::setup();
    w.attack_with_target(0);
    w.attack_with_target(1);
    w.projectile_movement();
    assert_eq!(w.projectiles[0].dist_tenths, 320);
    assert_eq!(w.projectiles[1].dist_tenths, 320);
    w.projectile_movement();
    assert_eq!(w.projectiles[0].dist_tenths, 360);
    // Heading and origin never change in flight.
    assert_eq!(w.projectiles[0].heading, Vec2 { x: 1000, y: 2150 });
    assert_eq!(w.projectiles[0].origin, Vec2 { x: 0, y: 0 });
    assert_eq!(w.projectiles[0].lives, 1);
}

#[test]
fn full_tick_runs_systems_in_order() {
    let mut w = World::setup();
    w.pre_physics_update(KeyState { d: true, ..no_keys() });
    assert_eq!(w.player.vel.heading, Vec2 { x: 1, y: 0 });
    assert_eq!(w.player.vel.speed_tenths, 1500);
    assert_eq!(w.monsters[0].vel.speed_tenths, 525);
    // The bridge would integrate here; positions come back via the sync
    // methods.
    w.sync_player_position(Vec2 { x: 24, y: 0 });
    w.sync_monster_position(0, Vec2 { x: 995, y: 2140 });
    w.sync_monster_position(1, Vec2 { x: -995, y: 2140 });
    w.post_physics_update(500);
    // One period elapsed: one projectile, spawned and already advanced by
    // its first step.
    assert_eq!(w.projectiles.len(), 1);
    assert_eq!(w.projectiles[0].dist_tenths, 320);
    assert_eq!(w.projectiles[0].origin, Vec2 { x: 24, y: 0 });
}
