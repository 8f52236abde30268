//! Per-tick snapshots of a controlled body and the force accumulators that
//! the subsystems fill.

use crate::fixed::Fixed;
use crate::vec3::Vec3;
use vstd::prelude::*;

verus! {

/// Movement and jump intent, sampled once per tick.
#[derive(Clone, Copy, Debug)]
pub struct ControllerInput {
    /// Desired direction of travel; anything longer than one is shortened.
    pub movement: Vec3,
    /// Whether the jump control is held.
    pub jumping: bool,
}

/// Velocity of the controlled body.
#[derive(Clone, Copy, Debug)]
pub struct ControllerVelocity {
    pub linear: Vec3,
    pub angular: Vec3,
}

/// Mass properties of the controlled body.
#[derive(Clone, Copy, Debug)]
pub struct ControllerMass {
    pub mass: Fixed,
    /// Resistance to rotation, used where a torque is scaled.
    pub inertia: Fixed,
}

/// Direction that counts as up; gravity pulls the other way.
#[derive(Clone, Copy, Debug)]
pub struct Gravity {
    /// Unit direction; callers normalize.
    pub up_vector: Vec3,
    /// Downward acceleration of free fall.
    pub acceleration: Fixed,
}

/// Force that keeps the body hovering above the ground.
#[derive(Clone, Copy, Debug)]
pub struct FloatForce {
    pub linear: Vec3,
}

/// Force of gravity on the body.
#[derive(Clone, Copy, Debug)]
pub struct GravityForce {
    pub linear: Vec3,
}

/// Torque that turns the body upright.
#[derive(Clone, Copy, Debug)]
pub struct UprightForce {
    pub angular: Vec3,
}

impl Gravity {
    /// The pull of gravity on a body of the given mass.
    pub open spec fn force_spec(self, mass: Fixed) -> Vec3 {
        self.up_vector.scale_spec(self.acceleration.mul_spec(mass)).neg_spec()
    }
}

/// Overwrites the gravity accumulator with this tick's pull on the body.
pub fn gravity_force(force: &mut GravityForce, gravity: &Gravity, mass: &ControllerMass)
    ensures
        final(force).linear == gravity.force_spec(mass.mass),
{
    force.linear = gravity.up_vector.scale(gravity.acceleration.saturating_mul(mass.mass)).saturating_neg();
}

/// Velocity after a force has acted on a mass for one step.
pub open spec fn integrate_spec(velocity: Fixed, force: Fixed, mass: Fixed, dt: Fixed) -> Fixed {
    velocity.add_spec(force.mul_spec(dt).div_spec(mass))
}

/// Velocity after `force` has acted on a body of mass `mass` for `dt` seconds.
pub open spec fn integrate_velocity_spec(velocity: Vec3, force: Vec3, mass: Fixed, dt: Fixed) -> Vec3 {
    Vec3 {
        x: integrate_spec(velocity.x, force.x, mass, dt),
        y: integrate_spec(velocity.y, force.y, mass, dt),
        z: integrate_spec(velocity.z, force.z, mass, dt),
    }
}

/// Applies a force to a velocity for one step: the change in velocity is
/// `force * dt / mass`.
pub fn integrate_velocity(velocity: Vec3, force: Vec3, mass: Fixed, dt: Fixed) -> (r: Vec3)
    requires
        mass.raw != 0,
    ensures
        r == integrate_velocity_spec(velocity, force, mass, dt),
{
    velocity.saturating_add(force.scale(dt).unscale(mass))
}

} // verus!
