//! Shape generation: each entity kind owns a constant base polygon in local
//! space, which is mapped into world space by rotating through the entity's
//! heading and then translating to its position — always in that order, so
//! the shape turns about its own origin before being placed.
//!
//! Asteroid polygons are additionally scaled by the entity's radius over the
//! base radius *before* the rotation, with the homogeneous column re-added
//! after scaling so the scale never leaks into the translation.

use vstd::prelude::*;
use crate::affine::Vec3;
use crate::affine::Mat3;
use crate::affine::apply;
use crate::affine::rotator;
use crate::affine::translator;
use crate::affine::vec3_in;
use crate::config::CONFIG_BOUND;
use crate::entity::Entity;
use crate::fp::FP;
use crate::fp::fp_scale;
use crate::fp::fpmul_spec;
use crate::fp::fpmul;
use crate::fp::lemma_tdiv_le;
use crate::shot::Shot;
use crate::trig::sin_spec;
use crate::trig::cos_spec;
use crate::trig::lemma_trig_bounds;

verus! {

/// Bound on the points and positions the placement routine accepts.
pub const SHAPE_BOUND: i64 = 0x2000_0000;

/// Components of a base point after rotation through angle `a`.
pub open spec fn rot_x(p: Vec3, a: int) -> int {
    fp_scale(p.x * cos_spec(a) + p.y * sin_spec(a))
}

pub open spec fn rot_y(p: Vec3, a: int) -> int {
    fp_scale(p.x * (-sin_spec(a)) + p.y * cos_spec(a))
}

pub open spec fn rot_w(p: Vec3) -> int {
    fp_scale(p.w * FP)
}

/// Components of a base point rotated through `a` and then translated to
/// `pos`: the fixed-point form of `p . R(a) . T(pos)`.
pub open spec fn placed_x(p: Vec3, a: int, pos: Vec3) -> int {
    fp_scale(rot_x(p, a) * FP + rot_w(p) * pos.x)
}

pub open spec fn placed_y(p: Vec3, a: int, pos: Vec3) -> int {
    fp_scale(rot_y(p, a) * FP + rot_w(p) * pos.y)
}

pub open spec fn placed_w(p: Vec3, a: int, pos: Vec3) -> int {
    fp_scale(rot_w(p) * FP)
}

/// A rotated component of a point below `SHAPE_BOUND` stays within twice
/// that bound.
proof fn lemma_rot_bound(px: int, py: int, c: int, s: int)
    requires
        -0x2000_0000 <= px <= 0x2000_0000,
        -0x2000_0000 <= py <= 0x2000_0000,
        -1024 <= c <= 1024,
        -1024 <= s <= 1024,
    ensures
        -0x4000_0000 <= fp_scale(px * c + py * s) <= 0x4000_0000,
{
    assert(-0x80_0000_0000 <= px * c <= 0x80_0000_0000) by (nonlinear_arith)
        requires
            -0x2000_0000 <= px <= 0x2000_0000,
            -1024 <= c <= 1024,
    ;
    assert(-0x80_0000_0000 <= py * s <= 0x80_0000_0000) by (nonlinear_arith)
        requires
            -0x2000_0000 <= py <= 0x2000_0000,
            -1024 <= s <= 1024,
    ;
    lemma_tdiv_le(px * c + py * s, 1024, 0x4000_0000);
}

/// Rotate a point through `a` and then translate it to `pos`.
fn place_point(p: &Vec3, angle: i64, rot: &Mat3, tr: &Mat3, pos: &Vec3) -> (o: Vec3)
    requires
        vec3_in(*p, SHAPE_BOUND as int),
        vec3_in(*pos, SHAPE_BOUND as int),
        *rot == crate::affine::rotator_spec(angle as int),
        *tr == crate::affine::translator_spec(pos.x, pos.y),
    ensures
        o.x == placed_x(*p, angle as int, *pos),
        o.y == placed_y(*p, angle as int, *pos),
        o.w == placed_w(*p, angle as int, *pos),
{
    proof {
        lemma_trig_bounds(angle as int);
        lemma_rot_bound(
            p.x as int,
            p.y as int,
            cos_spec(angle as int),
            sin_spec(angle as int),
        );
        lemma_rot_bound(
            p.x as int,
            p.y as int,
            -sin_spec(angle as int),
            cos_spec(angle as int),
        );
        lemma_rot_bound(p.w as int, 0, 1024, 0);
    }
    let q = apply(p, rot);
    apply(&q, tr)
}

/// Place a whole polygon: each base point rotated through the angle, then
/// translated to the position.
pub fn place_points(points: &Vec<Vec3>, angle: i64, position: &Vec3) -> (out: Vec<Vec3>)
    requires
        forall|i: int| 0 <= i < points@.len() ==> vec3_in(#[trigger] points@[i], SHAPE_BOUND as int),
        vec3_in(*position, SHAPE_BOUND as int),
    ensures
        out@.len() == points@.len(),
        forall|i: int|
            0 <= i < points@.len() ==> {
                &&& (#[trigger] out@[i]).x == placed_x(points@[i], angle as int, *position)
                &&& out@[i].y == placed_y(points@[i], angle as int, *position)
                &&& out@[i].w == placed_w(points@[i], angle as int, *position)
            },
{
    let rot = rotator(angle);
    let tr = translator(position.x, position.y);
    let mut out: Vec<Vec3> = Vec::new();
    let mut i: usize = 0;
    while i < points.len()
        invariant
            0 <= i <= points@.len(),
            out@.len() == i,
            forall|j: int|
                0 <= j < points@.len() ==> vec3_in(#[trigger] points@[j], SHAPE_BOUND as int),
            vec3_in(*position, SHAPE_BOUND as int),
            rot == crate::affine::rotator_spec(angle as int),
            tr == crate::affine::translator_spec(position.x, position.y),
            forall|j: int|
                0 <= j < i ==> {
                    &&& (#[trigger] out@[j]).x == placed_x(points@[j], angle as int, *position)
                    &&& out@[j].y == placed_y(points@[j], angle as int, *position)
                    &&& out@[j].w == placed_w(points@[j], angle as int, *position)
                },
        decreases points@.len() - i,
    {
        let p = points[i];
        let o = place_point(&p, angle, &rot, &tr, position);
        out.push(o);
        i = i + 1;
    }
    out
}

/// The three-point ship silhouette, in fixed-point local space.
pub open spec fn ship_base() -> Seq<Vec3> {
    seq![
        Vec3 { x: 0, y: 10240, w: 1024 },
        Vec3 { x: -7168i64, y: -10240i64, w: 1024 },
        Vec3 { x: 7168, y: -10240i64, w: 1024 },
    ]
}

/// World-space ship polygon: the base silhouette through the ship's heading
/// and position.
pub fn points_ship(ship: &Entity) -> (out: Vec<Vec3>)
    requires
        vec3_in(ship.position, SHAPE_BOUND as int),
    ensures
        out@.len() == 3,
        forall|i: int|
            0 <= i < 3 ==> {
                &&& (#[trigger] out@[i]).x == placed_x(ship_base()[i], ship.angle as int, ship.position)
                &&& out@[i].y == placed_y(ship_base()[i], ship.angle as int, ship.position)
                &&& out@[i].w == FP
            },
{
    let mut base: Vec<Vec3> = Vec::new();
    base.push(Vec3 { x: 0, y: 10240, w: 1024 });
    base.push(Vec3 { x: -7168, y: -10240, w: 1024 });
    base.push(Vec3 { x: 7168, y: -10240, w: 1024 });
    proof {
        assert(base@ =~= ship_base());
    }
    let out = place_points(&base, ship.angle, &ship.position);
    proof {
        assert(fp_scale(1024int * 1024) == 1024);
        assert forall|i: int| 0 <= i < 3 implies (#[trigger] out@[i]).w == FP by {
            assert(ship_base()[i].w == 1024);
        }
    }
    out
}

/// The nine-point irregular asteroid silhouette, radius 20 world units,
/// with the homogeneous column zeroed so scaling cannot touch it.
pub open spec fn asteroid_base() -> Seq<Vec3> {
    seq![
        Vec3 { x: 0, y: 20480, w: 0 },
        Vec3 { x: 3072, y: 18432, w: 0 },
        Vec3 { x: 20480, y: 0, w: 0 },
        Vec3 { x: 10240, y: -20480i64, w: 0 },
        Vec3 { x: 1024, y: -10240i64, w: 0 },
        Vec3 { x: 3072, y: -20480i64, w: 0 },
        Vec3 { x: -15360i64, y: -15360i64, w: 0 },
        Vec3 { x: -10240i64, y: 0, w: 0 },
        Vec3 { x: -14336i64, y: 11264, w: 0 },
    ]
}

/// Uniform scale factor from the entity's radius over the base radius.
pub open spec fn scale_of(radius: int, original_radius: int) -> int {
    (radius * FP) / original_radius
}

/// A base point scaled, with the homogeneous "1" re-added afterwards.
pub open spec fn scaled_base(i: int, s: int) -> Vec3 {
    Vec3 {
        x: fpmul_spec(asteroid_base()[i].x as int, s) as i64,
        y: fpmul_spec(asteroid_base()[i].y as int, s) as i64,
        w: FP,
    }
}

/// World-space asteroid polygon: the base silhouette scaled by the radius
/// ratio, then rotated and translated.
pub fn points_asteroid(asteroid: &Entity, original_radius: i64) -> (out: Vec<Vec3>)
    requires
        vec3_in(asteroid.position, SHAPE_BOUND as int),
        0 <= asteroid.collision_radius <= CONFIG_BOUND,
        FP <= original_radius <= CONFIG_BOUND,
    ensures
        out@.len() == 9,
        forall|i: int|
            0 <= i < 9 ==> {
                let sp = scaled_base(i, scale_of(asteroid.collision_radius as int, original_radius as int));
                &&& (#[trigger] out@[i]).x == placed_x(sp, asteroid.angle as int, asteroid.position)
                &&& out@[i].y == placed_y(sp, asteroid.angle as int, asteroid.position)
                &&& out@[i].w == FP
            },
{
    let radius = asteroid.collision_radius;
    proof {
        assert(radius as int * 1024 <= radius as int * original_radius) by (nonlinear_arith)
            requires
                0 <= radius,
                1024 <= original_radius,
        ;
        lemma_tdiv_le(radius as int * 1024, original_radius as int, radius as int);
        vstd::arithmetic::div_mod::lemma_div_basics_4(radius as int * 1024, original_radius as int);
    }
    let s: i64 = (radius * FP) / original_radius;
    let mut base: Vec<Vec3> = Vec::new();
    base.push(Vec3 { x: 0, y: 20480, w: 0 });
    base.push(Vec3 { x: 3072, y: 18432, w: 0 });
    base.push(Vec3 { x: 20480, y: 0, w: 0 });
    base.push(Vec3 { x: 10240, y: -20480, w: 0 });
    base.push(Vec3 { x: 1024, y: -10240, w: 0 });
    base.push(Vec3 { x: 3072, y: -20480, w: 0 });
    base.push(Vec3 { x: -15360, y: -15360, w: 0 });
    base.push(Vec3 { x: -10240, y: 0, w: 0 });
    base.push(Vec3 { x: -14336, y: 11264, w: 0 });
    proof {
        assert(base@ =~= asteroid_base());
        assert forall|j: int| 0 <= j < 9 implies vec3_in(#[trigger] asteroid_base()[j], 0x8000) by {
        }
    }
    let mut scaled: Vec<Vec3> = Vec::new();
    let mut i: usize = 0;
    while i < base.len()
        invariant
            0 <= i <= base@.len(),
            base@ == asteroid_base(),
            scaled@.len() == i,
            0 <= s <= CONFIG_BOUND,
            s == scale_of(asteroid.collision_radius as int, original_radius as int),
            forall|j: int| 0 <= j < i ==> #[trigger] scaled@[j] == scaled_base(j, s as int),
            forall|j: int| 0 <= j < i ==> vec3_in(#[trigger] scaled@[j], SHAPE_BOUND as int),
        decreases base@.len() - i,
    {
        let p = base[i];
        proof {
            assert(vec3_in(base@[i as int], 0x8000));
            assert(-0x80_0000_0000 <= p.x as int * s <= 0x80_0000_0000) by (nonlinear_arith)
                requires
                    -0x8000 <= p.x <= 0x8000,
                    0 <= s <= 0x100_0000,
            ;
            assert(-0x80_0000_0000 <= p.y as int * s <= 0x80_0000_0000) by (nonlinear_arith)
                requires
                    -0x8000 <= p.y <= 0x8000,
                    0 <= s <= 0x100_0000,
            ;
            lemma_tdiv_le(p.x as int * s, 1024, 0x2000_0000);
            lemma_tdiv_le(p.y as int * s, 1024, 0x2000_0000);
        }
        let sp = Vec3 { x: fpmul(p.x, s), y: fpmul(p.y, s), w: FP };
        scaled.push(sp);
        i = i + 1;
    }
    let out = place_points(&scaled, asteroid.angle, &asteroid.position);
    proof {
        assert(fp_scale(1024int * 1024) == 1024);
        assert forall|i: int| 0 <= i < 9 implies (#[trigger] out@[i]).w == FP by {
            assert(scaled@[i].w == 1024);
        }
    }
    out
}

/// The two-point shot segment along its heading, half its length the shot's
/// collision radius.
pub fn points_shot(shot: &Shot) -> (out: Vec<Vec3>)
    requires
        vec3_in(shot.entity.position, SHAPE_BOUND as int),
        0 <= shot.entity.collision_radius <= CONFIG_BOUND,
    ensures
        out@.len() == 2,
        ({
            let l = shot.entity.collision_radius;
            let top = Vec3 { x: 0, y: l, w: FP };
            let bottom = Vec3 { x: 0, y: (-(l as int)) as i64, w: FP };
            &&& out@[0].x == placed_x(top, shot.entity.angle as int, shot.entity.position)
            &&& out@[0].y == placed_y(top, shot.entity.angle as int, shot.entity.position)
            &&& out@[1].x == placed_x(bottom, shot.entity.angle as int, shot.entity.position)
            &&& out@[1].y == placed_y(bottom, shot.entity.angle as int, shot.entity.position)
            &&& out@[0].w == FP
            &&& out@[1].w == FP
        }),
{
    let l = shot.entity.collision_radius;
    let mut base: Vec<Vec3> = Vec::new();
    base.push(Vec3 { x: 0, y: l, w: FP });
    base.push(Vec3 { x: 0, y: -l, w: FP });
    let out = place_points(&base, shot.entity.angle, &shot.entity.position);
    proof {
        assert(fp_scale(1024int * 1024) == 1024);
        assert(base@[0].w == 1024 && base@[1].w == 1024);
    }
    out
}

} // verus!
