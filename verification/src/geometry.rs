//! Value types for positions and velocities. The coordinates themselves
//! live in the physics engine's vector type and stay opaque here: the
//! verified logic only moves them around, it never computes with them.

use vstd::prelude::*;
use crate::rapier::Vect;

verus! {

/// A world-space coordinate.
#[derive(Clone, Copy, Debug)]
pub struct Position {
    pub vector: Vect,
}

/// A per-entity velocity, fixed at creation time: a direction scaled by
/// a speed. Expressed in world units per second.
#[derive(Clone, Copy, Debug)]
pub struct Velocity {
    pub vector: Vect,
}

/// Relies on nalgebra's componentwise scalar multiplication and division
/// for fixed-size vectors: computes `v * (num / den)`. The ratio form
/// keeps the library's own constants in verified code.
#[verifier::external_body]
pub fn scaled(v: &Vect, num: u64, den: u64) -> Vect
    requires
        den > 0,
{
    v * ((num as rapier3d::math::Real) / (den as rapier3d::math::Real))
}

/// Relies on nalgebra's `try_normalize` and componentwise scalar
/// arithmetic for fixed-size vectors: the unit vector along `v`,
/// scaled to `num / den`. The zero vector carries no direction and
/// stays zero.
#[verifier::external_body]
fn unit_scaled(v: &Vect, num: u64, den: u64) -> Vect
    requires
        den > 0,
{
    match v.try_normalize(0 as rapier3d::math::Real) {
        Some(unit) => unit * ((num as rapier3d::math::Real) / (den as rapier3d::math::Real)),
        None => rapier3d::na::Vector3::zeros(),
    }
}

/// Relies on the engine vector constructor: a vector whose three
/// coordinates are the given integer values.
#[verifier::external_body]
pub fn vector_of_units(x: u32, y: u32, z: u32) -> Vect {
    rapier3d::na::Vector3::new(
        x as rapier3d::math::Real,
        y as rapier3d::math::Real,
        z as rapier3d::math::Real,
    )
}

impl Velocity {
    /// A velocity of `speed_num / speed_den` world units per second
    /// along the normalized `direction` (zero when `direction` carries
    /// none), fixed for the entity's lifetime.
    pub fn new(direction: &Vect, speed_num: u64, speed_den: u64) -> Velocity
        requires
            speed_den > 0,
    {
        Velocity { vector: unit_scaled(direction, speed_num, speed_den) }
    }

    /// The displacement this velocity covers in `delta` milliseconds:
    /// `vector * (delta / 1000)`.
    pub fn displacement_in(&self, delta: u64) -> Vect {
        scaled(&self.vector, delta, 1000)
    }
}

} // verus!
