//! Simulation core of an arcade-style space shooter.
//!
//! All world geometry is carried in signed 64-bit fixed-point numbers with a
//! scale of 1024 units per world unit, so that the kinematics, the collision
//! predicate, the spawn and split rules and the projectile lifecycle can be
//! stated and proved exactly. Angles use the same fixed-point scale over a
//! 64-step turn, with a quarter-wave sine table providing the rotation
//! coefficients. The host (window, keyboard, line drawing, frame pacing) is a
//! separate unverified shell that feeds input events in and takes polygon
//! point lists out.

pub mod affine;
pub mod collision;
pub mod config;
pub mod entity;
pub mod fp;
pub mod input;
pub mod rng;
pub mod shape;
pub mod shot;
pub mod sim;
pub mod spawn;
pub mod trig;
