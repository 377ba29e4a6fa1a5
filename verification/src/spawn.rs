//! Spawning and splitting of asteroids.
//!
//! Initial population: uniform rejection sampling over the world, throwing
//! away any candidate that collides with the exclusion zone, until the
//! requested count stands. Splitting: a hit asteroid at or above the split
//! threshold is replaced by exactly four children at its position with half
//! its radius, their velocities fanned by rotating the child speed through a
//! full turn divided by one, two, three and four — the fan divisor counts
//! from one, a fixed convention that keeps every fan angle well defined;
//! below the threshold a hit asteroid leaves nothing.

use vstd::prelude::*;
use crate::affine::Vec3;
use crate::affine::apply;
use crate::affine::rotator;
use crate::collision::is_collided;
use crate::collision::is_collided_spec;
use crate::collision::sq;
use crate::collision::abs_spec;
use crate::collision::wrapped_x;
use crate::collision::wrapped_y;
use crate::collision::wrap_correction_triggered;
use crate::config::SimConfig;
use crate::config::cfg_valid;
use crate::config::CONFIG_BOUND;
use crate::entity::Entity;
use crate::fp::FP;
use crate::fp::FP_BOUND;
use crate::fp::fp_scale;
use crate::fp::tdiv;
use crate::fp::lemma_tdiv_bounds;
use crate::rng::fresh_rng;
use crate::rng::gen_range_i64;
use crate::trig::FULL_TURN;
use crate::trig::sin_spec;
use crate::trig::cos_spec;
use crate::trig::lemma_trig_bounds;
use vstd::arithmetic::div_mod::lemma_div_multiples_vanish;
use vstd::arithmetic::div_mod::lemma_div_basics_4;
use vstd::arithmetic::div_mod::lemma_multiply_divide_lt;

verus! {

/// What a freshly built asteroid looks like: the given position, velocity
/// and radius, no thrust, and a random heading and spin inside the
/// configured ranges.
pub open spec fn asteroid_like(
    a: Entity,
    position: Vec3,
    velocity: Vec3,
    collision_radius: i64,
    cfg: SimConfig,
) -> bool {
    &&& a.position == position
    &&& a.velocity == velocity
    &&& a.acceleration == 0
    &&& cfg.heading_lo <= a.angle < cfg.heading_hi
    &&& cfg.spin_lo <= a.angle_speed < cfg.spin_hi
    &&& a.collision_radius == collision_radius
}

/// Build an asteroid at a given position and velocity, with a heading and a
/// spin drawn fresh from the configured ranges.
pub fn new_asteroid(position: &Vec3, velocity: &Vec3, collision_radius: i64, cfg: &SimConfig) -> (a:
    Entity)
    requires
        cfg_valid(*cfg),
    ensures
        asteroid_like(a, *position, *velocity, collision_radius, *cfg),
{
    let mut rng = fresh_rng();
    let new_angle = gen_range_i64(&mut rng, cfg.heading_lo, cfg.heading_hi);
    let new_angle_speed = gen_range_i64(&mut rng, cfg.spin_lo, cfg.spin_hi);
    Entity {
        position: *position,
        velocity: *velocity,
        acceleration: 0,
        angle: new_angle,
        angle_speed: new_angle_speed,
        collision_radius,
    }
}

/// Fan angle of split child `k`: a full turn divided by `k + 1`.
pub open spec fn split_angle(k: int) -> int {
    tdiv(FULL_TURN as int, k + 1)
}

/// Velocity components of split child `k`: the child speed rotated through
/// the fan angle.
pub open spec fn child_vel_x(cfg: SimConfig, k: int) -> int {
    fp_scale(cfg.split_child_speed * sin_spec(split_angle(k)))
}

pub open spec fn child_vel_y(cfg: SimConfig, k: int) -> int {
    fp_scale(cfg.split_child_speed * cos_spec(split_angle(k)))
}

/// What child `k` of a split looks like: the parent's position, half its
/// radius, the fanned velocity, and a fresh random heading and spin.
pub open spec fn split_child_ok(c: Entity, parent: Entity, cfg: SimConfig, k: int) -> bool {
    &&& c.position == parent.position
    &&& c.velocity.x == child_vel_x(cfg, k)
    &&& c.velocity.y == child_vel_y(cfg, k)
    &&& c.velocity.w == FP
    &&& c.acceleration == 0
    &&& c.collision_radius == parent.collision_radius as int / 2
    &&& cfg.heading_lo <= c.angle < cfg.heading_hi
    &&& cfg.spin_lo <= c.angle_speed < cfg.spin_hi
}

/// Fragment a hit asteroid: exactly four children at or above the split
/// threshold, none below it.
pub fn split_asteroid(asteroid: &Entity, cfg: &SimConfig) -> (children: Vec<Entity>)
    requires
        cfg_valid(*cfg),
        0 <= asteroid.collision_radius <= FP_BOUND,
    ensures
        asteroid.collision_radius >= cfg.split_threshold ==> {
            &&& children@.len() == 4
            &&& forall|k: int|
                0 <= k < 4 ==> split_child_ok(#[trigger] children@[k], *asteroid, *cfg, k)
        },
        asteroid.collision_radius < cfg.split_threshold ==> children@.len() == 0,
{
    let mut children: Vec<Entity> = Vec::new();
    if asteroid.collision_radius >= cfg.split_threshold {
        let new_radius = asteroid.collision_radius / 2;
        let mut k: i64 = 0;
        while k < 4
            invariant
                0 <= k <= 4,
                children@.len() == k,
                cfg_valid(*cfg),
                0 <= asteroid.collision_radius <= FP_BOUND,
                new_radius == asteroid.collision_radius as int / 2,
                forall|j: int|
                    0 <= j < k ==> split_child_ok(#[trigger] children@[j], *asteroid, *cfg, j),
            decreases 4 - k,
        {
            let fan_angle = FULL_TURN / (k + 1);
            proof {
                lemma_trig_bounds(split_angle(k as int));
                lemma_tdiv_bounds(FULL_TURN as int, k as int + 1);
                assert(-0x1000_0000_0000_0000 <= cfg.split_child_speed as int * sin_spec(
                    split_angle(k as int),
                ) <= 0x1000_0000_0000_0000) by (nonlinear_arith)
                    requires
                        0 <= cfg.split_child_speed <= 0x100_0000,
                        -1024 <= sin_spec(split_angle(k as int)) <= 1024,
                ;
                assert(-0x1000_0000_0000_0000 <= cfg.split_child_speed as int * cos_spec(
                    split_angle(k as int),
                ) <= 0x1000_0000_0000_0000) by (nonlinear_arith)
                    requires
                        0 <= cfg.split_child_speed <= 0x100_0000,
                        -1024 <= cos_spec(split_angle(k as int)) <= 1024,
                ;
            }
            let vel = apply(
                &Vec3 { x: 0, y: cfg.split_child_speed, w: FP },
                &rotator(fan_angle),
            );
            let child = new_asteroid(&asteroid.position, &vel, new_radius, cfg);
            children.push(child);
            k = k + 1;
        }
    }
    children
}

/// What a sampled starting asteroid looks like: a position inside the world,
/// a small non-negative velocity, the configured radius, and no collision
/// with the exclusion zone.
pub open spec fn spawn_ok(
    a: Entity,
    zone: Entity,
    wx: int,
    wy: int,
    cfg: SimConfig,
) -> bool {
    &&& 0 <= a.position.x < wx
    &&& 0 <= a.position.y < wy
    &&& a.position.w == FP
    &&& 0 <= a.velocity.x < cfg.spawn_speed_hi
    &&& 0 <= a.velocity.y < cfg.spawn_speed_hi
    &&& a.velocity.w == FP
    &&& a.acceleration == 0
    &&& cfg.heading_lo <= a.angle < cfg.heading_hi
    &&& cfg.spin_lo <= a.angle_speed < cfg.spin_hi
    &&& a.collision_radius == cfg.asteroid_radius
    &&& !is_collided_spec(zone, a, wx, wy)
}

/// Resampling budget per accepted asteroid; after this many rejected draws
/// a slot falls back to a deterministic safe placement.
pub const SPAWN_TRIES: u64 = 10000;

/// Conditions under which the sampler can always place an asteroid: the
/// exclusion zone sits inside the world and the point half a world
/// dimension away on each axis clears it — the weakest fact the
/// deterministic fallback placement rests on.
pub open spec fn spawn_feasible(zone: Entity, wx: int, wy: int, cfg: SimConfig) -> bool {
    &&& 2 <= wx
    &&& 2 <= wy
    &&& 0 <= zone.position.x <= wx
    &&& 0 <= zone.position.y <= wy
    &&& 0 <= zone.collision_radius
    &&& sq(zone.collision_radius as int) + sq(cfg.asteroid_radius as int) <= sq(wx / 2) + sq(
        wy / 2,
    )
}

/// Draw one candidate: a uniform position in the world and a small uniform
/// velocity per axis.
fn sample_candidate(
    rng: &mut rand::rngs::ThreadRng,
    world_x: i64,
    world_y: i64,
    cfg: &SimConfig,
) -> (a: Entity)
    requires
        cfg_valid(*cfg),
        0 < world_x,
        0 < world_y,
    ensures
        0 <= a.position.x < world_x,
        0 <= a.position.y < world_y,
        a.position.w == FP,
        0 <= a.velocity.x < cfg.spawn_speed_hi,
        0 <= a.velocity.y < cfg.spawn_speed_hi,
        a.velocity.w == FP,
        asteroid_like(a, a.position, a.velocity, cfg.asteroid_radius, *cfg),
{
    let new_x = gen_range_i64(rng, 0, world_x);
    let new_y = gen_range_i64(rng, 0, world_y);
    let new_velocity_x = gen_range_i64(rng, 0, cfg.spawn_speed_hi);
    let new_velocity_y = gen_range_i64(rng, 0, cfg.spawn_speed_hi);
    let position = Vec3 { x: new_x, y: new_y, w: FP };
    let velocity = Vec3 { x: new_velocity_x, y: new_velocity_y, w: FP };
    new_asteroid(&position, &velocity, cfg.asteroid_radius, cfg)
}

/// Sample exactly `n` starting asteroids, rejecting and resampling any
/// candidate that collides with the exclusion zone. Should a slot exhaust
/// its resampling budget — which a feasible zone makes astronomically
/// unlikely — it is placed half a world dimension from the zone's centre on
/// each axis, which the feasibility precondition proves collision-free.
pub fn starting_asteroids(
    n: usize,
    starting_zone: &Entity,
    world_x: i64,
    world_y: i64,
    cfg: &SimConfig,
) -> (asteroids: Vec<Entity>)
    requires
        cfg_valid(*cfg),
        0 < world_x <= CONFIG_BOUND,
        0 < world_y <= CONFIG_BOUND,
        -FP_BOUND <= starting_zone.position.x <= FP_BOUND,
        -FP_BOUND <= starting_zone.position.y <= FP_BOUND,
        -FP_BOUND <= starting_zone.collision_radius <= FP_BOUND,
        spawn_feasible(*starting_zone, world_x as int, world_y as int, *cfg),
    ensures
        asteroids@.len() == n,
        forall|i: int|
            0 <= i < n ==> spawn_ok(
                #[trigger] asteroids@[i],
                *starting_zone,
                world_x as int,
                world_y as int,
                *cfg,
            ),
{
    let mut rng = fresh_rng();
    let mut asteroids: Vec<Entity> = Vec::new();
    let mut i: usize = 0;
    while i < n
        invariant
            asteroids@.len() == i,
            i <= n,
            cfg_valid(*cfg),
            0 < world_x <= CONFIG_BOUND,
            0 < world_y <= CONFIG_BOUND,
            -FP_BOUND <= starting_zone.position.x <= FP_BOUND,
            -FP_BOUND <= starting_zone.position.y <= FP_BOUND,
            -FP_BOUND <= starting_zone.collision_radius <= FP_BOUND,
            spawn_feasible(*starting_zone, world_x as int, world_y as int, *cfg),
            forall|j: int|
                0 <= j < i ==> spawn_ok(
                    #[trigger] asteroids@[j],
                    *starting_zone,
                    world_x as int,
                    world_y as int,
                    *cfg,
                ),
        decreases n - i,
    {
        let mut asteroid = sample_candidate(&mut rng, world_x, world_y, cfg);
        let mut tries: u64 = SPAWN_TRIES;
        while tries > 0 && is_collided(starting_zone, &asteroid, world_x, world_y)
            invariant
                cfg_valid(*cfg),
                0 < world_x <= CONFIG_BOUND,
                0 < world_y <= CONFIG_BOUND,
                -FP_BOUND <= starting_zone.position.x <= FP_BOUND,
                -FP_BOUND <= starting_zone.position.y <= FP_BOUND,
                -FP_BOUND <= starting_zone.collision_radius <= FP_BOUND,
                0 <= asteroid.position.x < world_x,
                0 <= asteroid.position.y < world_y,
                asteroid.position.w == FP,
                0 <= asteroid.velocity.x < cfg.spawn_speed_hi,
                0 <= asteroid.velocity.y < cfg.spawn_speed_hi,
                asteroid.velocity.w == FP,
                asteroid_like(asteroid, asteroid.position, asteroid.velocity, cfg.asteroid_radius, *cfg),
            decreases tries,
        {
            asteroid = sample_candidate(&mut rng, world_x, world_y, cfg);
            tries = tries - 1;
        }
        if is_collided(starting_zone, &asteroid, world_x, world_y) {
            let half_x: i64 = world_x / 2;
            let half_y: i64 = world_y / 2;
            let far_x: i64 = if starting_zone.position.x < half_x {
                starting_zone.position.x + half_x
            } else {
                starting_zone.position.x - half_x
            };
            let far_y: i64 = if starting_zone.position.y < half_y {
                starting_zone.position.y + half_y
            } else {
                starting_zone.position.y - half_y
            };
            let position = Vec3 { x: far_x, y: far_y, w: FP };
            let velocity = Vec3 { x: asteroid.velocity.x, y: asteroid.velocity.y, w: FP };
            asteroid = new_asteroid(&position, &velocity, cfg.asteroid_radius, cfg);
            proof {
                lemma_fallback_clear(
                    *starting_zone,
                    asteroid,
                    world_x as int,
                    world_y as int,
                    *cfg,
                );
            }
        }
        asteroids.push(asteroid);
        i = i + 1;
    }
    asteroids
}

/// The fallback placement half a world dimension from a feasible zone's
/// centre on each axis never collides with the zone.
proof fn lemma_fallback_clear(zone: Entity, a: Entity, wx: int, wy: int, cfg: SimConfig)
    requires
        cfg_valid(cfg),
        0 < wx <= CONFIG_BOUND,
        0 < wy <= CONFIG_BOUND,
        spawn_feasible(zone, wx, wy, cfg),
        a.collision_radius == cfg.asteroid_radius,
        zone.position.x < wx / 2 ==> a.position.x == zone.position.x + wx / 2,
        zone.position.x >= wx / 2 ==> a.position.x == zone.position.x - wx / 2,
        zone.position.y < wy / 2 ==> a.position.y == zone.position.y + wy / 2,
        zone.position.y >= wy / 2 ==> a.position.y == zone.position.y - wy / 2,
    ensures
        !is_collided_spec(zone, a, wx, wy),
        0 <= a.position.x < wx,
        0 <= a.position.y < wy,
{
    assert(0 < wx / 2 < wx);
    assert(0 < wy / 2 < wy);
    assert(!wrap_correction_triggered(zone, wx, wy));
    assert(0 <= a.position.x < wx);
    assert(0 <= a.position.y < wy);
    assert(!wrap_correction_triggered(a, wx, wy));
    let dx = abs_spec(wrapped_x(zone, wx, wy) - wrapped_x(a, wx, wy));
    assert(dx == wx / 2);
    let dy = abs_spec(wrapped_y(zone) - wrapped_y(a));
    assert(dy == wy / 2);
}

/// The four fanned child velocities of a split are pairwise distinct
/// whenever the child speed is positive.
pub proof fn lemma_split_children_distinct(cfg: SimConfig)
    requires
        cfg_valid(cfg),
        cfg.split_child_speed >= 1,
    ensures
        forall|k1: int, k2: int|
            0 <= k1 < 4 && 0 <= k2 < 4 && k1 != k2 ==> !(#[trigger] child_vel_x(cfg, k1)
                == #[trigger] child_vel_x(cfg, k2) && child_vel_y(cfg, k1) == child_vel_y(cfg, k2)),
{
    let v = cfg.split_child_speed as int;
    assert(split_angle(0) == 65536 && split_angle(1) == 32768 && split_angle(2) == 21845
        && split_angle(3) == 16384);
    assert(sin_spec(65536) == 0 && cos_spec(65536) == 1024);
    assert(sin_spec(32768) == 0 && cos_spec(32768) == -1024);
    assert(sin_spec(21845) == 903 && cos_spec(21845) == -483);
    assert(sin_spec(16384) == 1024 && cos_spec(16384) == 0);
    lemma_div_multiples_vanish(v, 1024);
    assert(child_vel_x(cfg, 0) == 0 && child_vel_y(cfg, 0) == v);
    assert(child_vel_x(cfg, 1) == 0 && child_vel_y(cfg, 1) == -v);
    assert(child_vel_x(cfg, 3) == v && child_vel_y(cfg, 3) == 0);
    lemma_div_basics_4(903 * v, 1024);
    lemma_div_basics_4(483 * v, 1024);
    lemma_multiply_divide_lt(903 * v, 1024, v);
    lemma_multiply_divide_lt(483 * v, 1024, v);
    assert(0 <= child_vel_x(cfg, 2) < v);
    assert(-v < child_vel_y(cfg, 2) <= 0);
}

} // verus!
