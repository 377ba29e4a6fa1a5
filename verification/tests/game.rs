//! Input handling, projectile lifecycle and whole-tick tests.

use asteroids::affine::Vec3;
use asteroids::config::SimConfig;
use asteroids::entity::Entity;
use asteroids::fp::FP;
use asteroids::input::{handle_event, GameKey, InputEvent};
use asteroids::shot::{add_shot, age_shots, Shot};
use asteroids::sim::{resolve_collisions, ship_hit, tick};

fn still_entity(x: i64, y: i64, radius: i64) -> Entity {
    Entity {
        position: Vec3 { x, y, w: FP },
        velocity: Vec3 { x: 0, y: 0, w: 0 },
        acceleration: 0,
        angle: 0,
        angle_speed: 0,
        collision_radius: radius,
    }
}

#[test]
fn standard_config_holds_the_expected_tuning() {
    let cfg = SimConfig::standard();
    assert_eq!(cfg.world_x, 800 * FP);
    assert_eq!(cfg.world_y, 600 * FP);
    assert_eq!(cfg.shot_ttl, 60);
    assert_eq!(cfg.shot_speed, 10 * FP);
    assert_eq!(cfg.split_threshold, 9 * FP);
    assert_eq!(cfg.asteroid_radius, 20 * FP);
}

#[test]
fn fired_shot_spawns_ahead_with_inherited_momentum() {
    // world 800x600, ship at (400, 300), heading zero, fire once
    let cfg = SimConfig::standard();
    let ship = still_entity(409600, 307200, 15360);
    let mut shots: Vec<Shot> = Vec::new();
    add_shot(&ship, &mut shots, &cfg);
    assert_eq!(shots.len(), 1);
    let s = &shots[0];
    // offset by radius + gap straight up the local frame
    assert_eq!(s.entity.position.x, 409600);
    assert_eq!(s.entity.position.y, 307200 + 15360 + 5120);
    // velocity is the ship's plus the launch speed along the heading
    assert_eq!(s.entity.velocity.x, 0);
    assert_eq!(s.entity.velocity.y, 10240);
    assert_eq!(s.entity.angle, 0);
    assert_eq!(s.entity.collision_radius, 5120);
    assert_eq!(s.time_to_live, 60);
    // homogeneous components hold the constant one
    assert_eq!(s.entity.position.w, FP);
    assert_eq!(s.entity.velocity.w, FP);
}

#[test]
fn fired_shot_adds_ship_velocity() {
    let cfg = SimConfig::standard();
    let mut ship = still_entity(409600, 307200, 15360);
    ship.velocity = Vec3 { x: 300, y: -200, w: 0 };
    let mut shots: Vec<Shot> = Vec::new();
    add_shot(&ship, &mut shots, &cfg);
    assert_eq!(shots[0].entity.velocity.x, 300);
    assert_eq!(shots[0].entity.velocity.y, -200 + 10240);
}

#[test]
fn shot_expires_after_exactly_its_ttl_in_ticks() {
    let cfg = SimConfig::standard();
    let ship = still_entity(409600, 307200, 15360);
    let mut shots: Vec<Shot> = Vec::new();
    add_shot(&ship, &mut shots, &cfg);
    for _ in 0..59 {
        age_shots(&mut shots);
    }
    assert_eq!(shots.len(), 1);
    assert_eq!(shots[0].time_to_live, 1);
    age_shots(&mut shots);
    assert_eq!(shots.len(), 0);
}

#[test]
fn aging_leaves_an_empty_collection_empty() {
    let mut shots: Vec<Shot> = Vec::new();
    age_shots(&mut shots);
    assert_eq!(shots.len(), 0);
}

#[test]
fn key_down_turns_and_thrusts_once() {
    let cfg = SimConfig::standard();
    let mut ship = still_entity(409600, 307200, 15360);
    let mut shots: Vec<Shot> = Vec::new();
    let quit = handle_event(
        &InputEvent::KeyDown { key: GameKey::Left, repeat: false },
        &mut ship,
        &mut shots,
        &cfg,
    );
    assert!(!quit);
    assert_eq!(ship.angle_speed, 1043);
    handle_event(
        &InputEvent::KeyDown { key: GameKey::Up, repeat: false },
        &mut ship,
        &mut shots,
        &cfg,
    );
    assert_eq!(ship.acceleration, 102);
    handle_event(
        &InputEvent::KeyDown { key: GameKey::Right, repeat: false },
        &mut ship,
        &mut shots,
        &cfg,
    );
    assert_eq!(ship.angle_speed, 0);
    handle_event(
        &InputEvent::KeyDown { key: GameKey::Down, repeat: false },
        &mut ship,
        &mut shots,
        &cfg,
    );
    assert_eq!(ship.acceleration, 0);
}

#[test]
fn repeated_key_down_is_ignored() {
    let cfg = SimConfig::standard();
    let mut ship = still_entity(409600, 307200, 15360);
    let mut shots: Vec<Shot> = Vec::new();
    handle_event(
        &InputEvent::KeyDown { key: GameKey::Left, repeat: true },
        &mut ship,
        &mut shots,
        &cfg,
    );
    assert_eq!(ship.angle_speed, 0);
    handle_event(
        &InputEvent::KeyDown { key: GameKey::Space, repeat: true },
        &mut ship,
        &mut shots,
        &cfg,
    );
    assert_eq!(shots.len(), 0);
}

#[test]
fn key_up_resets_the_control_to_neutral() {
    let cfg = SimConfig::standard();
    let mut ship = still_entity(409600, 307200, 15360);
    ship.angle_speed = 1043;
    ship.acceleration = 204;
    let mut shots: Vec<Shot> = Vec::new();
    handle_event(&InputEvent::KeyUp { key: GameKey::Left }, &mut ship, &mut shots, &cfg);
    assert_eq!(ship.angle_speed, 0);
    handle_event(&InputEvent::KeyUp { key: GameKey::Down }, &mut ship, &mut shots, &cfg);
    assert_eq!(ship.acceleration, 0);
}

#[test]
fn quit_and_escape_signal_the_end() {
    let cfg = SimConfig::standard();
    let mut ship = still_entity(409600, 307200, 15360);
    let mut shots: Vec<Shot> = Vec::new();
    assert!(handle_event(&InputEvent::Quit, &mut ship, &mut shots, &cfg));
    assert!(handle_event(
        &InputEvent::KeyDown { key: GameKey::Escape, repeat: true },
        &mut ship,
        &mut shots,
        &cfg,
    ));
}

#[test]
fn space_fires_exactly_one_shot() {
    let cfg = SimConfig::standard();
    let mut ship = still_entity(409600, 307200, 15360);
    let mut shots: Vec<Shot> = Vec::new();
    handle_event(
        &InputEvent::KeyDown { key: GameKey::Space, repeat: false },
        &mut ship,
        &mut shots,
        &cfg,
    );
    assert_eq!(shots.len(), 1);
    assert_eq!(shots[0].time_to_live, 60);
}

#[test]
fn ship_hit_detects_an_overlapping_asteroid() {
    let ship = still_entity(409600, 307200, 15360);
    let near = vec![still_entity(409600 + 1024, 307200, 20480)];
    let far = vec![still_entity(102400, 102400, 20480)];
    assert!(ship_hit(&ship, &near, 819200, 614400));
    assert!(!ship_hit(&ship, &far, 819200, 614400));
}

#[test]
fn resolve_consumes_the_shot_and_splits_the_asteroid() {
    let cfg = SimConfig::standard();
    let mut asteroids = vec![still_entity(102400, 102400, 20480)];
    let mut shots = vec![Shot { entity: still_entity(102400, 102400, 5120), time_to_live: 10 }];
    resolve_collisions(&mut asteroids, &mut shots, 819200, 614400, &cfg);
    assert_eq!(shots.len(), 0);
    assert_eq!(asteroids.len(), 4);
    for c in &asteroids {
        assert_eq!(c.collision_radius, 10240);
        assert_eq!(c.position.x, 102400);
    }
}

#[test]
fn resolve_removes_a_small_asteroid_without_children() {
    let cfg = SimConfig::standard();
    let mut asteroids = vec![still_entity(102400, 102400, 5120)];
    let mut shots = vec![Shot { entity: still_entity(102400, 102400, 5120), time_to_live: 10 }];
    resolve_collisions(&mut asteroids, &mut shots, 819200, 614400, &cfg);
    assert_eq!(shots.len(), 0);
    assert_eq!(asteroids.len(), 0);
}

#[test]
fn tick_splits_a_hit_asteroid_and_keeps_the_ship_alive() {
    let cfg = SimConfig::standard();
    let mut ship = still_entity(716800, 512000, 15360);
    let mut asteroids = vec![still_entity(102400, 102400, 20480)];
    let mut shots = vec![Shot { entity: still_entity(102400, 102400, 5120), time_to_live: 5 }];
    let over = tick(&mut ship, &mut asteroids, &mut shots, &cfg);
    assert!(!over);
    assert_eq!(shots.len(), 0);
    assert_eq!(asteroids.len(), 4);
    assert_eq!(asteroids[0].collision_radius, 10240);
}

#[test]
fn tick_ends_the_game_on_a_ship_collision() {
    let cfg = SimConfig::standard();
    let mut ship = still_entity(409600, 307200, 15360);
    let mut asteroids = vec![still_entity(409600, 307200, 20480)];
    let mut shots: Vec<Shot> = Vec::new();
    let over = tick(&mut ship, &mut asteroids, &mut shots, &cfg);
    assert!(over);
    // the terminal tick stops before collision resolution
    assert_eq!(asteroids.len(), 1);
    assert_eq!(asteroids[0].collision_radius, 20480);
}

#[test]
fn tick_ages_surviving_shots() {
    let cfg = SimConfig::standard();
    let mut ship = still_entity(716800, 512000, 15360);
    let mut asteroids: Vec<Entity> = Vec::new();
    let mut shots = vec![Shot { entity: still_entity(102400, 102400, 5120), time_to_live: 5 }];
    let over = tick(&mut ship, &mut asteroids, &mut shots, &cfg);
    assert!(!over);
    assert_eq!(shots.len(), 1);
    assert_eq!(shots[0].time_to_live, 4);
}
