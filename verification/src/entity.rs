//! The kinematic and collision state shared by the ship, asteroids and shots,
//! and the per-tick movement integrator.
//!
//! Each tick an entity turns by its angular speed, gains velocity along its
//! new heading from its scalar thrust, moves by its velocity, and is wrapped
//! back into the toroidal world one world-dimension step at a time.

use vstd::prelude::*;
use crate::fp::FP;
use crate::fp::fp_scale;
use crate::fp::lemma_tdiv_bounds;
use crate::affine::Vec3;
use crate::affine::apply;
use crate::affine::rotator;
use crate::affine::vec3_in;
use crate::trig::sin_spec;
use crate::trig::cos_spec;
use crate::trig::lemma_trig_bounds;

verus! {

/// The one core record: a homogeneous position and velocity, a scalar thrust
/// along the heading, the heading and its per-tick delta, and the radius used
/// by the circle-approximation collision predicate and by shape scaling.
#[derive(Clone, Copy, Debug, PartialEq, Eq, Structural)]
pub struct Entity {
    pub position: Vec3,
    pub velocity: Vec3,
    pub acceleration: i64,
    pub angle: i64,
    pub angle_speed: i64,
    pub collision_radius: i64,
}

/// Magnitude bound on entity fields accepted by the integrator; far beyond
/// any reachable game state, it only keeps the fixed-point arithmetic inside
/// `i64`.
pub const ENTITY_BOUND: i64 = 0x4000_0000;

pub open spec fn entity_in(e: Entity, b: int) -> bool {
    &&& vec3_in(e.position, b)
    &&& vec3_in(e.velocity, b)
    &&& -b <= e.acceleration <= b
    &&& -b <= e.angle <= b
    &&& -b <= e.angle_speed <= b
    &&& -b <= e.collision_radius <= b
}

/// Heading after one tick of turning.
pub open spec fn new_angle_spec(e: Entity) -> int {
    e.angle + e.angle_speed
}

/// Thrust gained in one tick: the local vector `(0, acceleration, 1)`
/// rotated through the new heading.
pub open spec fn thrust_x_spec(e: Entity) -> int {
    fp_scale(e.acceleration * sin_spec(new_angle_spec(e)))
}

pub open spec fn thrust_y_spec(e: Entity) -> int {
    fp_scale(e.acceleration * cos_spec(new_angle_spec(e)))
}

pub open spec fn moved_velocity_x(e: Entity) -> int {
    e.velocity.x + thrust_x_spec(e)
}

pub open spec fn moved_velocity_y(e: Entity) -> int {
    e.velocity.y + thrust_y_spec(e)
}

/// Position reached before wrapping.
pub open spec fn raw_position_x(e: Entity) -> int {
    e.position.x + moved_velocity_x(e)
}

pub open spec fn raw_position_y(e: Entity) -> int {
    e.position.y + moved_velocity_y(e)
}

/// Single-step toroidal wrap of one axis: one world dimension is subtracted
/// past the far edge, then one is added below zero. It is not a modulo; it
/// assumes at most one dimension of overshoot. Both comparisons are strict,
/// so a move landing exactly on the far edge, or exactly one world
/// dimension past it, is left at the closed-edge value `w`.
pub open spec fn wrap_axis(p: int, w: int) -> int {
    let p1 = if p > w {
        p - w
    } else {
        p
    };
    if p1 < 0 {
        p1 + w
    } else {
        p1
    }
}

pub open spec fn moved_position_x(e: Entity, wx: int) -> int {
    wrap_axis(raw_position_x(e), wx)
}

pub open spec fn moved_position_y(e: Entity, wy: int) -> int {
    wrap_axis(raw_position_y(e), wy)
}

/// Full effect of one integration tick on one entity. The homogeneous
/// third components stand for the constant "1" of a homogeneous point and
/// are carried through unchanged.
pub open spec fn moved_rel(o: Entity, n: Entity, wx: int, wy: int) -> bool {
    &&& n.angle == new_angle_spec(o)
    &&& n.angle_speed == o.angle_speed
    &&& n.acceleration == o.acceleration
    &&& n.collision_radius == o.collision_radius
    &&& n.velocity.x == moved_velocity_x(o)
    &&& n.velocity.y == moved_velocity_y(o)
    &&& n.velocity.w == o.velocity.w
    &&& n.position.x == moved_position_x(o, wx)
    &&& n.position.y == moved_position_y(o, wy)
    &&& n.position.w == o.position.w
}

/// The moved entity as a value: the same tick effect that `moved_rel`
/// relates, gathered into one record.
pub open spec fn moved_entity_spec(e: Entity, wx: int, wy: int) -> Entity {
    Entity {
        position: Vec3 {
            x: moved_position_x(e, wx) as i64,
            y: moved_position_y(e, wy) as i64,
            w: e.position.w,
        },
        velocity: Vec3 {
            x: moved_velocity_x(e) as i64,
            y: moved_velocity_y(e) as i64,
            w: e.velocity.w,
        },
        acceleration: e.acceleration,
        angle: new_angle_spec(e) as i64,
        angle_speed: e.angle_speed,
        collision_radius: e.collision_radius,
    }
}

/// An entity standing in the `moved_rel` relation is exactly the moved
/// value.
pub proof fn lemma_moved_rel_value(o: Entity, n: Entity, wx: int, wy: int)
    requires
        moved_rel(o, n, wx, wy),
    ensures
        n == moved_entity_spec(o, wx, wy),
{
}

/// A modestly bounded entity stays modestly bounded through one tick.
pub proof fn lemma_moved_bounds(e: Entity, wx: int, wy: int)
    requires
        entity_in(e, 0x100_0000),
        0 < wx <= 0x100_0000,
        0 < wy <= 0x100_0000,
    ensures
        entity_in(moved_entity_spec(e, wx, wy), 0x800_0000),
{
    crate::trig::lemma_trig_bounds(new_angle_spec(e));
    assert(-0x4_0000_0000 <= e.acceleration as int * sin_spec(new_angle_spec(e))
        <= 0x4_0000_0000) by (nonlinear_arith)
        requires
            -0x100_0000 <= e.acceleration <= 0x100_0000,
            -1024 <= sin_spec(new_angle_spec(e)) <= 1024,
    ;
    assert(-0x4_0000_0000 <= e.acceleration as int * cos_spec(new_angle_spec(e))
        <= 0x4_0000_0000) by (nonlinear_arith)
        requires
            -0x100_0000 <= e.acceleration <= 0x100_0000,
            -1024 <= cos_spec(new_angle_spec(e)) <= 1024,
    ;
    crate::fp::lemma_tdiv_le(e.acceleration as int * sin_spec(new_angle_spec(e)), 1024, 0x100_0000);
    crate::fp::lemma_tdiv_le(e.acceleration as int * cos_spec(new_angle_spec(e)), 1024, 0x100_0000);
}

/// Advance one entity by one tick: turn, thrust, move, wrap. The wrap's
/// comparisons are strict, so the closed-edge coordinate `w` is a fixed
/// point of the wrap; `moved_rel` carries that choice exactly.
pub fn move_entity(entity: &mut Entity, world_x: i64, world_y: i64)
    requires
        entity_in(*old(entity), ENTITY_BOUND as int),
        0 < world_x <= ENTITY_BOUND,
        0 < world_y <= ENTITY_BOUND,
    ensures
        moved_rel(*old(entity), *final(entity), world_x as int, world_y as int),
{
    entity.angle = entity.angle + entity.angle_speed;
    proof {
        lemma_trig_bounds(entity.angle as int);
    }
    let rot = rotator(entity.angle);
    let acc_vec = Vec3 { x: 0, y: entity.acceleration, w: FP };
    proof {
        assert(-0x1000_0000_0000_0000 <= entity.acceleration as int * sin_spec(entity.angle as int)
            <= 0x1000_0000_0000_0000) by (nonlinear_arith)
            requires
                -0x4000_0000 <= entity.acceleration <= 0x4000_0000,
                -1024 <= sin_spec(entity.angle as int) <= 1024,
        ;
        assert(-0x1000_0000_0000_0000 <= entity.acceleration as int * cos_spec(entity.angle as int)
            <= 0x1000_0000_0000_0000) by (nonlinear_arith)
            requires
                -0x4000_0000 <= entity.acceleration <= 0x4000_0000,
                -1024 <= cos_spec(entity.angle as int) <= 1024,
        ;
        lemma_tdiv_bounds(entity.acceleration as int * sin_spec(entity.angle as int), FP as int);
        lemma_tdiv_bounds(entity.acceleration as int * cos_spec(entity.angle as int), FP as int);
    }
    let thrust = apply(&acc_vec, &rot);
    entity.velocity = Vec3 {
        x: entity.velocity.x + thrust.x,
        y: entity.velocity.y + thrust.y,
        w: entity.velocity.w,
    };
    entity.position = Vec3 {
        x: entity.position.x + entity.velocity.x,
        y: entity.position.y + entity.velocity.y,
        w: entity.position.w,
    };
    if entity.position.x > world_x {
        entity.position = Vec3 { x: entity.position.x - world_x, ..entity.position };
    }
    if entity.position.x < 0 {
        entity.position = Vec3 { x: entity.position.x + world_x, ..entity.position };
    }
    if entity.position.y > world_y {
        entity.position = Vec3 { y: entity.position.y - world_y, ..entity.position };
    }
    if entity.position.y < 0 {
        entity.position = Vec3 { y: entity.position.y + world_y, ..entity.position };
    }
}

impl Entity {
    /// One tick of movement, as the game loop invokes it.
    pub fn shift(&mut self, world_x: i64, world_y: i64)
        requires
            entity_in(*old(self), ENTITY_BOUND as int),
            0 < world_x <= ENTITY_BOUND,
            0 < world_y <= ENTITY_BOUND,
        ensures
            moved_rel(*old(self), *final(self), world_x as int, world_y as int),
    {
        move_entity(self, world_x, world_y);
    }
}

/// Advance every entity of a collection by one tick.
pub fn move_entities(objects: &mut Vec<Entity>, world_x: i64, world_y: i64)
    requires
        forall|i: int|
            0 <= i < old(objects)@.len() ==> entity_in(#[trigger] old(objects)@[i], ENTITY_BOUND as int),
        0 < world_x <= ENTITY_BOUND,
        0 < world_y <= ENTITY_BOUND,
    ensures
        final(objects)@.len() == old(objects)@.len(),
        forall|i: int|
            0 <= i < old(objects)@.len() ==> moved_rel(
                old(objects)@[i],
                #[trigger] final(objects)@[i],
                world_x as int,
                world_y as int,
            ),
{
    let ghost orig = objects@;
    let mut moved: Vec<Entity> = Vec::new();
    let mut i: usize = 0;
    while i < objects.len()
        invariant
            objects@ == orig,
            0 <= i <= orig.len(),
            moved@.len() == i,
            forall|j: int|
                0 <= j < orig.len() ==> entity_in(#[trigger] orig[j], ENTITY_BOUND as int),
            0 < world_x <= ENTITY_BOUND,
            0 < world_y <= ENTITY_BOUND,
            forall|j: int|
                0 <= j < i ==> moved_rel(orig[j], #[trigger] moved@[j], world_x as int, world_y as int),
        decreases orig.len() - i,
    {
        let mut e = objects[i];
        move_entity(&mut e, world_x, world_y);
        moved.push(e);
        i = i + 1;
    }
    *objects = moved;
}

/// The wrap invariant: one integration tick leaves each coordinate inside
/// the half-open world interval, provided the raw move overshoots by at
/// most one world dimension and does not land exactly on a wrap boundary.
/// The boundary exclusions are forced by the wrap's strict comparisons,
/// which this crate keeps: a move landing exactly on `w` or `2w` stays at
/// the closed-edge value `w` (see `lemma_wrap_closed` for the boundary-free
/// closed form).
pub proof fn lemma_tick_wrap_invariant(e: Entity, wx: int, wy: int)
    requires
        0 < wx,
        0 < wy,
        -wx <= raw_position_x(e) <= 2 * wx,
        raw_position_x(e) != wx,
        raw_position_x(e) != 2 * wx,
        -wy <= raw_position_y(e) <= 2 * wy,
        raw_position_y(e) != wy,
        raw_position_y(e) != 2 * wy,
    ensures
        0 <= moved_position_x(e, wx) < wx,
        0 <= moved_position_y(e, wy) < wy,
{
}

/// The closed form of the wrap invariant, with no excluded inputs: a raw
/// move that overshoots by at most one world dimension always lands in the
/// closed interval `[0, w]`.
pub proof fn lemma_wrap_closed(p: int, w: int)
    requires
        0 < w,
        -w <= p <= 2 * w,
    ensures
        0 <= wrap_axis(p, w) <= w,
{
}

/// Across frames: an entity inside the closed world box whose one-tick
/// velocity does not exceed one world dimension per axis lands inside the
/// closed world box again, so the wrap is never left violated from one
/// frame to the next.
pub proof fn lemma_move_stays_in_world(e: Entity, wx: int, wy: int)
    requires
        0 < wx,
        0 < wy,
        0 <= e.position.x <= wx,
        0 <= e.position.y <= wy,
        -wx <= moved_velocity_x(e) <= wx,
        -wy <= moved_velocity_y(e) <= wy,
    ensures
        0 <= moved_position_x(e, wx) <= wx,
        0 <= moved_position_y(e, wy) <= wy,
{
    lemma_wrap_closed(raw_position_x(e), wx);
    lemma_wrap_closed(raw_position_y(e), wy);
}

} // verus!
