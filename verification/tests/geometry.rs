//! Fixed-point scalar, trigonometry, transform and shape tests.

use asteroids::affine::{apply, rotator, translator, Vec3};
use asteroids::entity::Entity;
use asteroids::fp::{fpmul, FP};
use asteroids::shape::{points_asteroid, points_ship, points_shot};
use asteroids::shot::Shot;
use asteroids::trig::{cos_fp, sin_fp};

fn entity_at(x: i64, y: i64, angle: i64, radius: i64) -> Entity {
    Entity {
        position: Vec3 { x, y, w: FP },
        velocity: Vec3 { x: 0, y: 0, w: 0 },
        acceleration: 0,
        angle,
        angle_speed: 0,
        collision_radius: radius,
    }
}

#[test]
fn fpmul_scales_products() {
    assert_eq!(fpmul(3000, 2048), 6000);
    assert_eq!(fpmul(-3000, 2048), -6000);
    // truncation is toward zero on both sides
    assert_eq!(fpmul(1025, 1), 1);
    assert_eq!(fpmul(-1025, 1), -1);
    assert_eq!(fpmul(1023, 1), 0);
    assert_eq!(fpmul(-1023, 1), 0);
}

#[test]
fn sine_table_quarter_points() {
    assert_eq!(sin_fp(0), 0);
    assert_eq!(cos_fp(0), 1024);
    assert_eq!(sin_fp(16384), 1024); // quarter turn
    assert_eq!(cos_fp(16384), 0);
    assert_eq!(sin_fp(32768), 0); // half turn
    assert_eq!(cos_fp(32768), -1024);
    assert_eq!(sin_fp(65536), 0); // full turn
    assert_eq!(cos_fp(65536), 1024);
    assert_eq!(sin_fp(1024), 100); // one step
}

#[test]
fn sine_is_odd_cosine_even() {
    for a in [1024i64, 5000, 16384, 30000, 65000] {
        assert_eq!(sin_fp(-a), -sin_fp(a));
        assert_eq!(cos_fp(-a), cos_fp(a));
    }
}

#[test]
fn translator_adds_offsets() {
    let t = translator(3072, -2048);
    let v = Vec3 { x: 1024, y: 512, w: FP };
    let r = apply(&v, &t);
    assert_eq!(r.x, 1024 + 3072);
    assert_eq!(r.y, 512 - 2048);
    assert_eq!(r.w, FP);
}

#[test]
fn rotator_zero_is_identity_matrix() {
    let m = rotator(0);
    assert_eq!(m.m00, FP);
    assert_eq!(m.m01, 0);
    assert_eq!(m.m10, 0);
    assert_eq!(m.m11, FP);
    assert_eq!(m.m22, FP);
    let v = Vec3 { x: 777, y: -555, w: FP };
    let r = apply(&v, &m);
    assert_eq!(r.x, 777);
    assert_eq!(r.y, -555);
}

#[test]
fn rotate_then_unrotate_is_near_identity() {
    let v = Vec3 { x: 10240, y: 0, w: FP };
    let once = apply(&v, &rotator(5000));
    assert_eq!(once.x, 9460);
    assert_eq!(once.y, -3920);
    let back = apply(&once, &rotator(-5000));
    assert!((back.x - 10240i64).abs() <= 1); // within one unit of rounding
    assert_eq!(back.x, 10240);
    assert_eq!(back.y, 0);
    assert_eq!(back.w, FP);
}

#[test]
fn ship_polygon_at_rest_is_translated_base() {
    let ship = entity_at(102400, 51200, 0, 15360);
    let pts = points_ship(&ship);
    assert_eq!(pts.len(), 3);
    assert_eq!((pts[0].x, pts[0].y), (102400, 51200 + 10240));
    assert_eq!((pts[1].x, pts[1].y), (102400 - 7168, 51200 - 10240));
    assert_eq!((pts[2].x, pts[2].y), (102400 + 7168, 51200 - 10240));
}

#[test]
fn asteroid_polygon_scales_with_radius() {
    // half the base radius halves every base coordinate
    let a = entity_at(102400, 51200, 0, 10240);
    let pts = points_asteroid(&a, 20480);
    assert_eq!(pts.len(), 9);
    assert_eq!((pts[0].x, pts[0].y), (102400, 51200 + 10240));
    assert_eq!((pts[2].x, pts[2].y), (102400 + 10240, 51200));
}

#[test]
fn shot_polygon_is_a_segment_along_heading() {
    let shot = Shot { entity: entity_at(1024, 2048, 0, 5120), time_to_live: 60 };
    let pts = points_shot(&shot);
    assert_eq!(pts.len(), 2);
    assert_eq!((pts[0].x, pts[0].y), (1024, 2048 + 5120));
    assert_eq!((pts[1].x, pts[1].y), (1024, 2048 - 5120));
}

#[test]
fn rotated_ship_polygon_turns_about_its_origin() {
    // quarter turn: (x, y) -> (y, -x) under the row-vector convention
    let ship = entity_at(0, 0, 16384, 15360);
    let pts = points_ship(&ship);
    assert_eq!((pts[0].x, pts[0].y), (10240, 0));
    assert_eq!((pts[1].x, pts[1].y), (-10240, 7168));
}
