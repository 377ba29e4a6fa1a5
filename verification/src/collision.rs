//! Circle-approximation collision between two entities.
//!
//! Each entity's position first gets a partial wrap correction, then the
//! squared distance is compared against the sum of the squared radii — the
//! sum of squares, not the square of the sum, exactly as the game's
//! behaviour has it. The wrap correction patches only near-boundary cases:
//! both of its branches adjust the x coordinate (the y-axis branch included),
//! a deliberate asymmetry this crate treats as part of the game's rules.

use vstd::prelude::*;
use crate::entity::Entity;
use crate::fp::FP_BOUND;
use crate::trig::lemma_square_neg;

verus! {

pub open spec fn abs_spec(a: int) -> int {
    if a >= 0 {
        a
    } else {
        -a
    }
}

pub open spec fn sq(a: int) -> int {
    a * a
}

/// The wrap-corrected x coordinate used by the collision predicate. Both
/// correction branches touch x; the second tests the y axis but still
/// adjusts x; the asymmetry is deliberate.
pub open spec fn wrapped_x(e: Entity, wx: int, wy: int) -> int {
    let x1 = if e.position.x - e.collision_radius > wx {
        e.position.x - wx
    } else {
        e.position.x as int
    };
    if e.position.y - e.collision_radius > wy {
        x1 - wy
    } else {
        x1
    }
}

/// The y coordinate is never corrected.
pub open spec fn wrapped_y(e: Entity) -> int {
    e.position.y as int
}

/// Whether either correction branch fires for this entity.
pub open spec fn wrap_correction_triggered(e: Entity, wx: int, wy: int) -> bool {
    e.position.x - e.collision_radius > wx || e.position.y - e.collision_radius > wy
}

pub open spec fn is_collided_spec(e1: Entity, e2: Entity, wx: int, wy: int) -> bool {
    let dx = abs_spec(wrapped_x(e1, wx, wy) - wrapped_x(e2, wx, wy));
    let dy = abs_spec(wrapped_y(e1) - wrapped_y(e2));
    sq(dx) + sq(dy) < sq(e1.collision_radius as int) + sq(e2.collision_radius as int)
}

/// Squares of values below `0x4000_0000` in magnitude stay inside `i64`.
proof fn lemma_sq_bound(a: int)
    requires
        -0x4000_0000 <= a <= 0x4000_0000,
    ensures
        0 <= a * a <= 0x1000_0000_0000_0000,
{
    assert(0 <= a * a <= 0x1000_0000_0000_0000) by (nonlinear_arith)
        requires
            -0x4000_0000 <= a <= 0x4000_0000,
    ;
}

/// Wrap-corrected x coordinate.
fn wrapped_position_x(e: &Entity, world_x: i64, world_y: i64) -> (r: i64)
    requires
        -FP_BOUND <= e.position.x <= FP_BOUND,
        -FP_BOUND <= e.position.y <= FP_BOUND,
        -FP_BOUND <= e.collision_radius <= FP_BOUND,
        0 < world_x <= FP_BOUND,
        0 < world_y <= FP_BOUND,
    ensures
        r == wrapped_x(*e, world_x as int, world_y as int),
        -3 * (FP_BOUND as int) <= r <= FP_BOUND,
{
    let mut res = e.position.x;
    if e.position.x - e.collision_radius > world_x {
        res = res - world_x;
    }
    if e.position.y - e.collision_radius > world_y {
        res = res - world_y;
    }
    res
}

/// The collision predicate: wrap-correct both positions, then compare the
/// squared distance with the sum of the squared radii.
pub fn is_collided(e1: &Entity, e2: &Entity, world_x: i64, world_y: i64) -> (r: bool)
    requires
        -FP_BOUND <= e1.position.x <= FP_BOUND,
        -FP_BOUND <= e1.position.y <= FP_BOUND,
        -FP_BOUND <= e1.collision_radius <= FP_BOUND,
        -FP_BOUND <= e2.position.x <= FP_BOUND,
        -FP_BOUND <= e2.position.y <= FP_BOUND,
        -FP_BOUND <= e2.collision_radius <= FP_BOUND,
        0 < world_x <= FP_BOUND,
        0 < world_y <= FP_BOUND,
    ensures
        r == is_collided_spec(*e1, *e2, world_x as int, world_y as int),
{
    let x1 = wrapped_position_x(e1, world_x, world_y);
    let x2 = wrapped_position_x(e2, world_x, world_y);
    let delta_x: i64 = if x1 >= x2 {
        x1 - x2
    } else {
        x2 - x1
    };
    let delta_y: i64 = if e1.position.y >= e2.position.y {
        e1.position.y - e2.position.y
    } else {
        e2.position.y - e1.position.y
    };
    proof {
        lemma_sq_bound(delta_x as int);
        lemma_sq_bound(delta_y as int);
        lemma_sq_bound(e1.collision_radius as int);
        lemma_sq_bound(e2.collision_radius as int);
    }
    let dist_pow: i64 = delta_x * delta_x + delta_y * delta_y;
    let radii_pow: i64 = e1.collision_radius * e1.collision_radius + e2.collision_radius
        * e2.collision_radius;
    dist_pow < radii_pow
}

/// Collision is symmetric in its two entities.
pub proof fn lemma_collision_symmetric(e1: Entity, e2: Entity, wx: int, wy: int)
    ensures
        is_collided_spec(e1, e2, wx, wy) == is_collided_spec(e2, e1, wx, wy),
{
}

/// With no wrap correction triggered, the predicate is exactly the squared
/// centre distance compared against the sum of the squared radii.
pub proof fn lemma_collision_plain(e1: Entity, e2: Entity, wx: int, wy: int)
    requires
        !wrap_correction_triggered(e1, wx, wy),
        !wrap_correction_triggered(e2, wx, wy),
    ensures
        is_collided_spec(e1, e2, wx, wy) == (sq(e1.position.x - e2.position.x) + sq(
            e1.position.y - e2.position.y,
        ) < sq(e1.collision_radius as int) + sq(e2.collision_radius as int)),
{
    lemma_square_neg(e1.position.x - e2.position.x);
    lemma_square_neg(e1.position.y - e2.position.y);
}

} // verus!
