//! The tuning constants of the simulation, lifted into one explicit
//! structure so that tests and hosts can vary them deterministically.
//!
//! All lengths and speeds are fixed-point world units ([`crate::fp::FP`] per
//! unit); angles and angular speeds are fixed-point turn steps
//! ([`crate::trig::TURN_STEPS`] steps per turn).

use vstd::prelude::*;

verus! {

/// Magnitude bound on configuration values; far beyond any sensible tuning,
/// it keeps every per-tick computation inside `i64`.
pub const CONFIG_BOUND: i64 = 0x100_0000;

#[derive(Clone, Copy, Debug, PartialEq, Eq, Structural)]
pub struct SimConfig {
    /// World width in fixed-point units; positions wrap at this bound.
    pub world_x: i64,
    /// World height in fixed-point units.
    pub world_y: i64,
    /// Angular speed a turn key adds, fixed-point turn steps per tick.
    pub turn_speed: i64,
    /// Thrust a thrust key adds, fixed-point units per tick squared.
    pub thrust_step: i64,
    /// Launch speed of a shot along the ship's heading.
    pub shot_speed: i64,
    /// Collision radius of a shot; also half the drawn segment length.
    pub shot_radius: i64,
    /// Gap between the ship's collision circle and a new shot.
    pub shot_gap: i64,
    /// Ticks a shot lives when it never collides.
    pub shot_ttl: u64,
    /// Minimum radius at which a hit asteroid fragments instead of dying.
    pub split_threshold: i64,
    /// Speed of the four fragments of a split.
    pub split_child_speed: i64,
    /// Radius of a freshly spawned asteroid.
    pub asteroid_radius: i64,
    /// New asteroids head somewhere in `[heading_lo, heading_hi)`.
    pub heading_lo: i64,
    pub heading_hi: i64,
    /// New asteroids spin at a rate in `[spin_lo, spin_hi)`.
    pub spin_lo: i64,
    pub spin_hi: i64,
    /// Spawn velocity per axis is uniform in `[0, spawn_speed_hi)`.
    pub spawn_speed_hi: i64,
}

pub open spec fn cfg_valid(c: SimConfig) -> bool {
    &&& 0 < c.world_x <= CONFIG_BOUND
    &&& 0 < c.world_y <= CONFIG_BOUND
    &&& 0 <= c.turn_speed <= CONFIG_BOUND
    &&& 0 <= c.thrust_step <= CONFIG_BOUND
    &&& 0 <= c.shot_speed <= CONFIG_BOUND
    &&& 0 <= c.shot_radius <= CONFIG_BOUND
    &&& 0 <= c.shot_gap <= CONFIG_BOUND
    &&& 1 <= c.shot_ttl
    &&& 0 <= c.split_threshold <= CONFIG_BOUND
    &&& 0 <= c.split_child_speed <= CONFIG_BOUND
    &&& 0 <= c.asteroid_radius <= CONFIG_BOUND
    &&& -CONFIG_BOUND <= c.heading_lo < c.heading_hi <= CONFIG_BOUND
    &&& -CONFIG_BOUND <= c.spin_lo < c.spin_hi <= CONFIG_BOUND
    &&& 0 < c.spawn_speed_hi <= CONFIG_BOUND
}

/// The standard tuning: an 800 x 600 world, a tenth of a radian of turn per
/// tick and of thrust per tick, shots of speed 10 living 60 ticks, asteroids
/// of radius 20 splitting down to 9, headings drawn from a sub-range of the
/// circle and spins from a small signed range.
pub open spec fn standard_config() -> SimConfig {
    SimConfig {
        world_x: 819200,
        world_y: 614400,
        turn_speed: 1043,
        thrust_step: 102,
        shot_speed: 10240,
        shot_radius: 5120,
        shot_gap: 5120,
        shot_ttl: 60,
        split_threshold: 9216,
        split_child_speed: 205,
        asteroid_radius: 20480,
        heading_lo: 104,
        heading_hi: 10430,
        spin_lo: -2086i64,
        spin_hi: 2086,
        spawn_speed_hi: 1024,
    }
}

impl SimConfig {
    /// The standard tuning as a value.
    pub fn standard() -> (c: SimConfig)
        ensures
            c == standard_config(),
            cfg_valid(c),
    {
        SimConfig {
            world_x: 819200,
            world_y: 614400,
            turn_speed: 1043,
            thrust_step: 102,
            shot_speed: 10240,
            shot_radius: 5120,
            shot_gap: 5120,
            shot_ttl: 60,
            split_threshold: 9216,
            split_child_speed: 205,
            asteroid_radius: 20480,
            heading_lo: 104,
            heading_hi: 10430,
            spin_lo: -2086,
            spin_hi: 2086,
            spawn_speed_hi: 1024,
        }
    }
}

} // verus!
