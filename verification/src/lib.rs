//! Bullet-pattern and collision-resolution engine for a bullet-hell boss
//! encounter: bullet kinematics, emitter pattern geometry, spellcard
//! scheduling over a shared encounter clock, and deferred hit resolution.
//!
//! All geometry is carried out on integers. Lengths and coordinates are in
//! milli-pixels, times in milliseconds, and angles in units of 1/6144 of a
//! full turn, so that every rule of the engine is an exact statement about
//! integer arithmetic.

pub mod angle;
pub mod bullet;
pub mod encounter;
pub mod enemy;
pub mod fixed;
pub mod geom;
pub mod hits;
pub mod mission;
pub mod rng;
pub mod timer;
pub mod weapon;
