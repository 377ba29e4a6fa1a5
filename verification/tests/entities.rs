//! Integrator, wrap, collision, spawn and split tests.

use asteroids::affine::Vec3;
use asteroids::collision::is_collided;
use asteroids::config::SimConfig;
use asteroids::entity::{move_entities, move_entity, Entity};
use asteroids::fp::FP;
use asteroids::spawn::{new_asteroid, split_asteroid, starting_asteroids};

fn still_entity(x: i64, y: i64, radius: i64) -> Entity {
    Entity {
        position: Vec3 { x, y, w: FP },
        velocity: Vec3 { x: 0, y: 0, w: 0 },
        acceleration: 0,
        angle: 0,
        angle_speed: 0,
        collision_radius: radius,
    }
}

#[test]
fn thrust_builds_velocity_along_heading() {
    let mut e = still_entity(409600, 307200, 15360);
    e.acceleration = 102;
    move_entity(&mut e, 819200, 614400);
    // heading zero: thrust rotates (0, acceleration) onto (0, acceleration)
    assert_eq!(e.velocity.x, 0);
    assert_eq!(e.velocity.y, 102);
    assert_eq!(e.position.x, 409600);
    assert_eq!(e.position.y, 307302);
    // the homogeneous components are carried through unchanged
    assert_eq!(e.velocity.w, 0);
    assert_eq!(e.position.w, FP);
}

#[test]
fn velocity_accumulates_without_drag() {
    let mut e = still_entity(1024, 1024, 5120);
    e.acceleration = 102;
    move_entity(&mut e, 819200, 614400);
    move_entity(&mut e, 819200, 614400);
    assert_eq!(e.velocity.y, 204);
    assert_eq!(e.position.y, 1024 + 102 + 204);
}

#[test]
fn wrap_subtracts_one_world_width_past_the_far_edge() {
    let mut e = still_entity(819000, 1024, 5120);
    e.velocity = Vec3 { x: 500, y: 0, w: 0 };
    move_entity(&mut e, 819200, 614400);
    assert_eq!(e.position.x, 300);
    assert!(0 <= e.position.x && e.position.x < 819200);
}

#[test]
fn wrap_adds_one_world_width_below_zero() {
    let mut e = still_entity(100, 614000, 5120);
    e.velocity = Vec3 { x: -500, y: 500, w: 0 };
    move_entity(&mut e, 819200, 614400);
    assert_eq!(e.position.x, 100 - 500 + 819200);
    assert_eq!(e.position.y, 614000 + 500 - 614400);
}

#[test]
fn turning_changes_heading_each_tick() {
    let mut e = still_entity(1024, 1024, 5120);
    e.angle_speed = 1043;
    move_entity(&mut e, 819200, 614400);
    assert_eq!(e.angle, 1043);
    move_entity(&mut e, 819200, 614400);
    assert_eq!(e.angle, 2086);
}

#[test]
fn move_entities_shifts_every_member() {
    let mut v = vec![still_entity(819000, 1024, 5120), still_entity(100, 100, 5120)];
    v[0].velocity = Vec3 { x: 500, y: 0, w: 0 };
    move_entities(&mut v, 819200, 614400);
    assert_eq!(v.len(), 2);
    assert_eq!(v[0].position.x, 300);
    assert_eq!(v[1].position.x, 100);
}

#[test]
fn collision_compares_against_sum_of_squared_radii() {
    // radii 3 and 4: the boundary is 9 + 16 = 25, one step inside collides
    let a = still_entity(0, 0, 3);
    let b = still_entity(4, 0, 4);
    assert!(is_collided(&a, &b, 819200, 614400));
    let c = still_entity(5, 0, 4);
    assert!(!is_collided(&a, &c, 819200, 614400)); // 25 < 25 is false
}

#[test]
fn collision_is_symmetric_in_its_arguments() {
    let a = still_entity(1000, 2000, 3000);
    let b = still_entity(3500, 2500, 1000);
    let c = still_entity(700000, 13000, 5120);
    for (x, y) in [(&a, &b), (&a, &c), (&b, &c)] {
        assert_eq!(
            is_collided(x, y, 819200, 614400),
            is_collided(y, x, 819200, 614400)
        );
    }
}

#[test]
fn collision_wrap_correction_adjusts_x_even_for_the_y_axis() {
    // e1 sits past the bottom edge: the correction fires on the y test but
    // deliberately adjusts the x coordinate.
    let e1 = still_entity(700000, 625000, 5120);
    let e2 = still_entity(700000 - 614400, 620000, 10240);
    assert!(is_collided(&e1, &e2, 819200, 614400));
}

#[test]
fn new_asteroid_draws_heading_and_spin_from_the_ranges() {
    let mut cfg = SimConfig::standard();
    cfg.heading_lo = 7;
    cfg.heading_hi = 8;
    cfg.spin_lo = -3;
    cfg.spin_hi = -2;
    let p = Vec3 { x: 1024, y: 2048, w: FP };
    let v = Vec3 { x: 5, y: 6, w: FP };
    let a = new_asteroid(&p, &v, 20480, &cfg);
    assert_eq!(a.position.x, 1024);
    assert_eq!(a.velocity.y, 6);
    assert_eq!(a.acceleration, 0);
    assert_eq!(a.collision_radius, 20480);
    // one-value ranges make the draws deterministic
    assert_eq!(a.angle, 7);
    assert_eq!(a.angle_speed, -3);
}

#[test]
fn split_at_threshold_gives_four_half_radius_children() {
    let cfg = SimConfig::standard();
    let parent = still_entity(102400, 51200, 20480);
    let children = split_asteroid(&parent, &cfg);
    assert_eq!(children.len(), 4);
    for c in &children {
        assert_eq!(c.position.x, 102400);
        assert_eq!(c.position.y, 51200);
        assert_eq!(c.collision_radius, 10240);
        assert_eq!(c.acceleration, 0);
        assert!(cfg.heading_lo <= c.angle && c.angle < cfg.heading_hi);
        assert!(cfg.spin_lo <= c.angle_speed && c.angle_speed < cfg.spin_hi);
    }
    // the fan: full turn over one, two, three and four
    assert_eq!((children[0].velocity.x, children[0].velocity.y), (0, 205));
    assert_eq!((children[1].velocity.x, children[1].velocity.y), (0, -205));
    assert_eq!((children[2].velocity.x, children[2].velocity.y), (180, -96));
    assert_eq!((children[3].velocity.x, children[3].velocity.y), (205, 0));
    for i in 0..4 {
        for j in 0..4 {
            if i != j {
                let vi = (children[i].velocity.x, children[i].velocity.y);
                let vj = (children[j].velocity.x, children[j].velocity.y);
                assert_ne!(vi, vj);
            }
        }
    }
}

#[test]
fn split_below_threshold_gives_nothing() {
    let cfg = SimConfig::standard();
    let parent = still_entity(102400, 51200, 9215);
    let children = split_asteroid(&parent, &cfg);
    assert_eq!(children.len(), 0);
}

#[test]
fn split_exactly_at_threshold_still_splits() {
    let cfg = SimConfig::standard();
    let parent = still_entity(102400, 51200, 9216);
    let children = split_asteroid(&parent, &cfg);
    assert_eq!(children.len(), 4);
    assert_eq!(children[0].collision_radius, 4608);
}

#[test]
fn starting_population_has_exact_count_clear_of_the_zone() {
    let cfg = SimConfig::standard();
    let zone = still_entity(409600, 307200, 51200);
    let asteroids = starting_asteroids(10, &zone, 819200, 614400, &cfg);
    assert_eq!(asteroids.len(), 10);
    for a in &asteroids {
        assert!(!is_collided(&zone, a, 819200, 614400));
        assert!(0 <= a.position.x && a.position.x < 819200);
        assert!(0 <= a.position.y && a.position.y < 614400);
        assert!(0 <= a.velocity.x && a.velocity.x < 1024);
        assert!(0 <= a.velocity.y && a.velocity.y < 1024);
        assert_eq!(a.collision_radius, 20480);
    }
}

#[test]
fn starting_population_of_zero_is_empty() {
    let cfg = SimConfig::standard();
    let zone = still_entity(409600, 307200, 51200);
    let asteroids = starting_asteroids(0, &zone, 819200, 614400, &cfg);
    assert_eq!(asteroids.len(), 0);
}
