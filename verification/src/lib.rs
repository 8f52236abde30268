//! Per-tick force computation for a physics-driven character controller,
//! carried out in deterministic fixed-point arithmetic.
//!
//! A controlled body is pushed around by forces alone. Every tick, in this
//! order:
//!
//! 1. [`ground::GroundCaster::update`] turns the result of a downward probe
//!    into a [`ground::GroundCast`]: the contact underfoot, and whether it
//!    can be walked on.
//! 2. [`spring::float_force`] holds the body at its resting height above
//!    the ground.
//! 3. [`movement::movement_force`] drives the body toward the velocity that
//!    the input asks for, with friction against the ground and a correction
//!    on slopes that are too steep.
//! 4. [`jump::jump_force`] runs the jump state machine, with coyote time,
//!    input buffering, multiple jumps and a jump of variable height.
//! 5. [`spring::upright_force`] turns the body upright.
//!
//! The caller sums the forces and hands them to its physics engine;
//! [`components::integrate_velocity`] says what a force does to a velocity
//! within a tick.
//!
//! All numbers are [`fixed::Fixed`]: the same inputs give the same forces on
//! every machine, and the laws that the controller obeys are stated beside
//! the functions and proved of the arithmetic as it is carried out,
//! rounding included.

pub mod components;
pub mod fixed;
pub mod ground;
pub mod jump;
pub mod movement;
pub mod settings;
pub mod spring;
pub mod timer;
pub mod vec3;
