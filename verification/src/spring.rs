//! The damped spring that holds the body above the ground and upright.

use crate::components::{ControllerMass, ControllerVelocity, FloatForce, Gravity, UprightForce};
use crate::fixed::Fixed;
use crate::ground::GroundCast;
use crate::jump::Jump;
use crate::vec3::Vec3;
use vstd::prelude::*;

verus! {

/// A damped harmonic oscillator.
#[derive(Clone, Copy, Debug)]
pub struct Spring {
    /// Acceleration toward rest per unit of displacement.
    pub strength: Fixed,
    /// Share of critical damping; at one the spring settles without
    /// swinging past its rest position.
    pub damping: Fixed,
}

/// How strongly something is driven.
#[derive(Clone, Copy, Debug)]
pub enum Strength {
    /// The value as it stands.
    Flat(Fixed),
    /// The value scaled by the mass of the body and the rate of ticks, so
    /// that bodies of any mass respond alike at any step length.
    Scaled(Fixed),
}

impl Strength {
    /// The configured value, before any scaling.
    pub open spec fn value_spec(self) -> Fixed {
        match self {
            Strength::Flat(value) => value,
            Strength::Scaled(value) => value,
        }
    }

    pub open spec fn get_spec(self, mass: Fixed, dt: Fixed) -> Fixed {
        match self {
            Strength::Flat(value) => value,
            Strength::Scaled(value) => value.mul_spec(mass).div_spec(dt),
        }
    }

    /// A strength that is not negative stays so for any mass and step.
    pub proof fn lemma_nonnegative(self, mass: Fixed, dt: Fixed)
        requires
            self.value_spec().raw >= 0,
            mass.raw >= 0,
            dt.raw > 0,
        ensures
            self.get_spec(mass, dt).raw >= 0,
    {
        self.value_spec().lemma_mul_same_sign(mass);
        self.value_spec().mul_spec(mass).lemma_div_same_sign(dt);
    }

    /// The strength that applies to a body of the given mass at the given
    /// step length.
    pub fn get(&self, mass: Fixed, dt: Fixed) -> (r: Fixed)
        requires
            dt.raw != 0,
        ensures
            r == self.get_spec(mass, dt),
    {
        match self {
            Strength::Flat(value) => *value,
            Strength::Scaled(value) => value.saturating_mul(mass).saturating_div(dt),
        }
    }
}

impl Spring {
    /// Damping per unit of velocity: the share `damping` of the critical
    /// damping of a unit mass, which is twice the square root of the
    /// strength.
    pub open spec fn damp_coefficient_spec(self) -> Fixed {
        self.damping.mul_spec(Fixed { raw: 2_000_000 }).mul_spec(self.strength.sqrt_spec())
    }

    /// The force on a body of the given mass: a pull back toward rest in
    /// proportion to the displacement, less a drag in proportion to the
    /// velocity.
    pub open spec fn force_spec(self, displacement: Fixed, relative_velocity: Fixed, mass: Fixed) -> Fixed {
        self.strength.mul_spec(displacement).neg_spec().sub_spec(
            self.damp_coefficient_spec().mul_spec(relative_velocity),
        ).mul_spec(mass)
    }

    /// The spring applied to each axis on its own.
    pub open spec fn force3_spec(self, displacement: Vec3, relative_velocity: Vec3, mass: Fixed) -> Vec3 {
        Vec3 {
            x: self.force_spec(displacement.x, relative_velocity.x, mass),
            y: self.force_spec(displacement.y, relative_velocity.y, mass),
            z: self.force_spec(displacement.z, relative_velocity.z, mass),
        }
    }

    /// Damping per unit of velocity.
    pub fn damp_coefficient(&self) -> (r: Fixed)
        ensures
            r == self.damp_coefficient_spec(),
    {
        self.damping.saturating_mul(Fixed::from_int(2)).saturating_mul(self.strength.sqrt())
    }

    /// The force of the spring on a body of the given mass.
    pub fn force(&self, displacement: Fixed, relative_velocity: Fixed, mass: Fixed) -> (r: Fixed)
        ensures
            r == self.force_spec(displacement, relative_velocity, mass),
    {
        self.strength.saturating_mul(displacement).saturating_neg().saturating_sub(
            self.damp_coefficient().saturating_mul(relative_velocity),
        ).saturating_mul(mass)
    }

    /// The spring applied to each axis on its own.
    pub fn force3(&self, displacement: Vec3, relative_velocity: Vec3, mass: Fixed) -> (r: Vec3)
        ensures
            r == self.force3_spec(displacement, relative_velocity, mass),
    {
        Vec3 {
            x: self.force(displacement.x, relative_velocity.x, mass),
            y: self.force(displacement.y, relative_velocity.y, mass),
            z: self.force(displacement.z, relative_velocity.z, mass),
        }
    }

    /// A spring without strength or damping exerts no force.
    pub proof fn lemma_disabled(self, displacement: Fixed, relative_velocity: Fixed, mass: Fixed)
        requires
            self.strength.raw == 0,
            self.damping.raw == 0,
        ensures
            self.force_spec(displacement, relative_velocity, mass).raw == 0,
    {
        self.strength.lemma_mul_zero(displacement);
        self.damping.lemma_mul_zero(Fixed { raw: 2_000_000 });
        self.damping.mul_spec(Fixed { raw: 2_000_000 }).lemma_mul_zero(self.strength.sqrt_spec());
        self.damp_coefficient_spec().lemma_mul_zero(relative_velocity);
        Fixed::zero_spec().lemma_mul_zero(mass);
    }
}

/// Settings of the suspension that keeps the body above the ground.
#[derive(Clone, Copy, Debug)]
pub struct Float {
    /// Height above the ground at which the body comes to rest.
    pub distance: Fixed,
    pub spring: Spring,
}

/// Settings of the spring that keeps the body upright.
#[derive(Clone, Copy, Debug)]
pub struct Upright {
    pub spring: Spring,
}

/// The float force for a tick: none without walkable ground or during a
/// jump; else the spring's answer, along the up vector, to how far the body
/// is from its resting height and how fast it moves away from the ground.
pub open spec fn float_force_spec(
    float: Float,
    cast: GroundCast,
    jump: Jump,
    up_vector: Vec3,
    velocity: Vec3,
    mass: Fixed,
) -> Vec3 {
    match cast.current {
        Some(contact) => if contact.stable && !jump.jumping_spec() {
            up_vector.scale_spec(
                float.spring.force_spec(
                    contact.distance.sub_spec(float.distance),
                    velocity.sub_spec(cast.ground_velocity_spec()).dot_spec(up_vector),
                    mass,
                ),
            )
        } else {
            Vec3::zero_spec()
        },
        None => Vec3::zero_spec(),
    }
}

/// Overwrites the float force with what keeps the body hovering at its
/// resting height above the ground.
pub fn float_force(
    force: &mut FloatForce,
    float: &Float,
    cast: &GroundCast,
    jump: &Jump,
    gravity: &Gravity,
    velocity: &ControllerVelocity,
    mass: &ControllerMass,
)
    ensures
        final(force).linear == float_force_spec(
            *float,
            *cast,
            *jump,
            gravity.up_vector,
            velocity.linear,
            mass.mass,
        ),
{
    force.linear = Vec3::zero();
    if let Some(contact) = cast.current {
        if contact.stable && !jump.jumping() {
            let displacement = contact.distance.saturating_sub(float.distance);
            let climb = velocity.linear.saturating_sub(cast.ground_velocity()).dot(
                gravity.up_vector,
            );
            force.linear = gravity.up_vector.scale(float.spring.force(displacement, climb, mass.mass));
        }
    }
}

/// The torque that turns the body's own up axis toward the up vector: the
/// spring's answer, axis by axis, to the cross product of the two (which for
/// small angles is the rotation between them) and to the spin of the body.
pub open spec fn upright_force_spec(
    upright: Upright,
    body_up: Vec3,
    up_vector: Vec3,
    angular_velocity: Vec3,
    inertia: Fixed,
) -> Vec3 {
    upright.spring.force3_spec(up_vector.cross_spec(body_up), angular_velocity, inertia)
}

/// Overwrites the upright torque with what turns the body's own up axis,
/// `body_up`, toward the up vector.
pub fn upright_force(
    force: &mut UprightForce,
    upright: &Upright,
    body_up: Vec3,
    gravity: &Gravity,
    velocity: &ControllerVelocity,
    mass: &ControllerMass,
)
    ensures
        final(force).angular == upright_force_spec(
            *upright,
            body_up,
            gravity.up_vector,
            velocity.angular,
            mass.inertia,
        ),
{
    force.angular = upright.spring.force3(
        gravity.up_vector.cross(body_up),
        velocity.angular,
        mass.inertia,
    );
}

} // verus!
