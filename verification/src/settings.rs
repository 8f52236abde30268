//! Tuning data of a controller, with presets.

use crate::fixed::Fixed;
use crate::jump::DecayCurve;
use crate::spring::Spring;
use crate::vec3::Vec3;
use vstd::prelude::*;

verus! {

/// The settings of a character controller.
///
/// The default is not well configured: it is no good reference for any
/// controller, and will not do much. See the presets.
#[derive(Debug)]
pub struct ControllerSettings {
    /// How quickly the body gets from standing to moving at full speed.
    pub acceleration: Fixed,
    /// Speed to reach when the movement input is fully saturated.
    pub max_speed: Fixed,
    /// Largest force that may be spent on acceleration.
    pub max_acceleration_force: Fixed,
    /// Direction to jump in, opposite to gravity.
    pub up_vector: Vec3,
    /// Direction the body faces when at rest.
    pub forward_vector: Vec3,
    /// Strength of gravity along the up vector; negative pulls down.
    pub gravity: Fixed,
    /// Cosine of the steepest slope that can be walked on.
    pub max_ground_angle_cos: Fixed,
    /// How far below the float distance the body still counts as grounded.
    pub min_float_offset: Fixed,
    /// How far above the float distance the body still counts as grounded.
    pub max_float_offset: Fixed,
    /// Force applied on the tick a jump begins.
    pub jump_initial_force: Fixed,
    /// Force applied on every further tick of a jump.
    pub jump_force: Fixed,
    /// Share of the upward velocity taken away when a jump is released early.
    pub jump_stop_force: Fixed,
    /// How long a jump can last.
    pub jump_time: Fixed,
    /// How the jump force fades over the jump.
    pub jump_decay_function: Option<DecayCurve>,
    /// How long ground sensing is suppressed after a jump.
    pub jump_skip_ground_check_duration: Fixed,
    /// Suppresses ground sensing whatever the timer says.
    pub skip_ground_check_override: bool,
    /// Jumps allowed in the air after the first.
    pub extra_jumps: u32,
    /// How long after leaving the ground a jump is still allowed.
    pub coyote_time_duration: Fixed,
    /// How long before landing a jump may be requested.
    pub jump_buffer_duration: Fixed,
    /// Scales movement force axis by axis.
    pub force_scale: Vec3,
    /// How far down the ground probe reaches.
    pub float_cast_length: Fixed,
    /// Where the ground probe starts, relative to the body.
    pub float_cast_origin: Vec3,
    /// Radius of the ball that is cast as the ground probe.
    pub float_cast_radius: Fixed,
    /// Height above the ground at which the body comes to rest.
    pub float_distance: Fixed,
    /// Spring that holds the body at its float distance.
    pub float_spring: Spring,
    /// Spring that keeps the body upright.
    pub upright_spring: Spring,
    /// Bodies that the ground probe ignores.
    pub exclude_from_ground: Vec<u64>,
    /// Share of the float force that is passed on to the ground.
    pub opposing_impulse_scale: Fixed,
    /// Share of the movement force that is passed on to the ground.
    pub opposing_movement_impulse_scale: Fixed,
}

impl ControllerSettings {
    /// The settings are those of the default: nothing moves, springs are
    /// slack, a jump lasts a second and the ground probe is a ball of
    /// radius one.
    pub open spec fn is_default(&self) -> bool {
        &&& self.acceleration == (Fixed { raw: 0 })
        &&& self.max_speed == (Fixed { raw: 0 })
        &&& self.max_acceleration_force == (Fixed { raw: 0 })
        &&& self.up_vector == (Vec3 { x: Fixed { raw: 0 }, y: Fixed { raw: 0 }, z: Fixed { raw: 0 } })
        &&& self.forward_vector == (Vec3 { x: Fixed { raw: 0 }, y: Fixed { raw: 0 }, z: Fixed { raw: 0 } })
        &&& self.gravity == (Fixed { raw: 0 })
        &&& self.max_ground_angle_cos == (Fixed { raw: 1_000_000 })
        &&& self.min_float_offset == (Fixed { raw: 0 })
        &&& self.max_float_offset == (Fixed { raw: 0 })
        &&& self.jump_initial_force == (Fixed { raw: 0 })
        &&& self.jump_force == (Fixed { raw: 0 })
        &&& self.jump_stop_force == (Fixed { raw: 0 })
        &&& self.jump_time == (Fixed { raw: 1_000_000 })
        &&& self.jump_decay_function == None::<DecayCurve>
        &&& self.jump_skip_ground_check_duration == (Fixed { raw: 0 })
        &&& !self.skip_ground_check_override
        &&& self.extra_jumps == (0)
        &&& self.coyote_time_duration == (Fixed { raw: 0 })
        &&& self.jump_buffer_duration == (Fixed { raw: 0 })
        &&& self.force_scale == (Vec3 { x: Fixed { raw: 0 }, y: Fixed { raw: 0 }, z: Fixed { raw: 0 } })
        &&& self.float_cast_length == (Fixed { raw: 0 })
        &&& self.float_cast_origin == (Vec3 { x: Fixed { raw: 0 }, y: Fixed { raw: 0 }, z: Fixed { raw: 0 } })
        &&& self.float_cast_radius == (Fixed { raw: 1_000_000 })
        &&& self.float_distance == (Fixed { raw: 0 })
        &&& self.float_spring == (Spring { strength: Fixed { raw: 0 }, damping: Fixed { raw: 0 } })
        &&& self.upright_spring == (Spring { strength: Fixed { raw: 0 }, damping: Fixed { raw: 0 } })
        &&& self.exclude_from_ground@.len() == 0
        &&& self.opposing_impulse_scale == (Fixed { raw: 1_000_000 })
        &&& self.opposing_movement_impulse_scale == (Fixed { raw: 1_000_000 })
    }

    /// The settings are those of the walking character.
    pub open spec fn is_character(&self) -> bool {
        &&& self.acceleration == (Fixed { raw: 50_000_000 })
        &&& self.max_speed == (Fixed { raw: 10_000_000 })
        &&& self.max_acceleration_force == (Fixed { raw: 10_000_000 })
        &&& self.up_vector == (Vec3 { x: Fixed { raw: 0 }, y: Fixed { raw: 1_000_000 }, z: Fixed { raw: 0 } })
        &&& self.forward_vector == (Vec3 { x: Fixed { raw: 0 }, y: Fixed { raw: 0 }, z: Fixed { raw: 0 } })
        &&& self.gravity == (Fixed { raw: -20_000_000i64 })
        &&& self.max_ground_angle_cos == (Fixed { raw: 707_106 })
        &&& self.min_float_offset == (Fixed { raw: -300_000i64 })
        &&& self.max_float_offset == (Fixed { raw: 50_000 })
        &&& self.jump_initial_force == (Fixed { raw: 15_000_000 })
        &&& self.jump_force == (Fixed { raw: 0 })
        &&& self.jump_stop_force == (Fixed { raw: 300_000 })
        &&& self.jump_time == (Fixed { raw: 500_000 })
        &&& self.jump_decay_function == Some(DecayCurve::Sqrt)
        &&& self.jump_skip_ground_check_duration == (Fixed { raw: 500_000 })
        &&& !self.skip_ground_check_override
        &&& self.extra_jumps == (0)
        &&& self.coyote_time_duration == (Fixed { raw: 160_000 })
        &&& self.jump_buffer_duration == (Fixed { raw: 160_000 })
        &&& self.force_scale == (Vec3 { x: Fixed { raw: 1_000_000 }, y: Fixed { raw: 0 }, z: Fixed { raw: 1_000_000 } })
        &&& self.float_cast_length == (Fixed { raw: 1_000_000 })
        &&& self.float_cast_origin == (Vec3 { x: Fixed { raw: 0 }, y: Fixed { raw: 0 }, z: Fixed { raw: 0 } })
        &&& self.float_cast_radius == (Fixed { raw: 450_000 })
        &&& self.float_distance == (Fixed { raw: 550_000 })
        &&& self.float_spring == (Spring { strength: Fixed { raw: 100_000_000 }, damping: Fixed { raw: 800_000 } })
        &&& self.upright_spring == (Spring { strength: Fixed { raw: 10_000_000 }, damping: Fixed { raw: 500_000 } })
        &&& self.exclude_from_ground@.len() == 0
        &&& self.opposing_impulse_scale == (Fixed { raw: 1_000_000 })
        &&& self.opposing_movement_impulse_scale == (Fixed { raw: 1_000_000 })
    }

    /// The settings are those of the starship.
    pub open spec fn is_starship(&self) -> bool {
        &&& self.acceleration == (Fixed { raw: 300_000 })
        &&& self.max_speed == (Fixed { raw: 100_000_000 })
        &&& self.max_acceleration_force == (Fixed { raw: 10_000_000 })
        &&& self.up_vector == (Vec3 { x: Fixed { raw: 0 }, y: Fixed { raw: 1_000_000 }, z: Fixed { raw: 0 } })
        &&& self.forward_vector == (Vec3 { x: Fixed { raw: 0 }, y: Fixed { raw: 0 }, z: Fixed { raw: 0 } })
        &&& self.gravity == (Fixed { raw: 0 })
        &&& self.max_ground_angle_cos == (Fixed { raw: 1_000_000 })
        &&& self.min_float_offset == (Fixed { raw: 0 })
        &&& self.max_float_offset == (Fixed { raw: 0 })
        &&& self.jump_initial_force == (Fixed { raw: 0 })
        &&& self.jump_force == (Fixed { raw: 0 })
        &&& self.jump_stop_force == (Fixed { raw: 0 })
        &&& self.jump_time == (Fixed { raw: 1_000_000 })
        &&& self.jump_decay_function == None::<DecayCurve>
        &&& self.jump_skip_ground_check_duration == (Fixed { raw: 0 })
        &&& !self.skip_ground_check_override
        &&& self.extra_jumps == (0)
        &&& self.coyote_time_duration == (Fixed { raw: 0 })
        &&& self.jump_buffer_duration == (Fixed { raw: 0 })
        &&& self.force_scale == (Vec3 { x: Fixed { raw: 1_000_000 }, y: Fixed { raw: 1_000_000 }, z: Fixed { raw: 1_000_000 } })
        &&& self.float_cast_length == (Fixed { raw: 0 })
        &&& self.float_cast_origin == (Vec3 { x: Fixed { raw: 0 }, y: Fixed { raw: 0 }, z: Fixed { raw: 0 } })
        &&& self.float_cast_radius == (Fixed { raw: 1_000_000 })
        &&& self.float_distance == (Fixed { raw: 0 })
        &&& self.float_spring == (Spring { strength: Fixed { raw: 0 }, damping: Fixed { raw: 0 } })
        &&& self.upright_spring == (Spring { strength: Fixed { raw: 0 }, damping: Fixed { raw: 0 } })
        &&& self.exclude_from_ground@.len() == 0
        &&& self.opposing_impulse_scale == (Fixed { raw: 1_000_000 })
        &&& self.opposing_movement_impulse_scale == (Fixed { raw: 1_000_000 })
    }

    /// A basic preset for a standard, walking character controller. Works
    /// for most first and third person games.
    pub fn character() -> (r: ControllerSettings)
        ensures
            r.is_character(),
    {
        ControllerSettings {
            acceleration: Fixed::from_raw(50_000_000),
            max_speed: Fixed::from_raw(10_000_000),
            max_acceleration_force: Fixed::from_raw(10_000_000),
            up_vector: Vec3::new(Fixed::from_raw(0), Fixed::from_raw(1_000_000), Fixed::from_raw(0)),
            gravity: Fixed::from_raw(-20_000_000),
            max_ground_angle_cos: Fixed::from_raw(707_106),
            min_float_offset: Fixed::from_raw(-300_000),
            max_float_offset: Fixed::from_raw(50_000),
            jump_initial_force: Fixed::from_raw(15_000_000),
            jump_stop_force: Fixed::from_raw(300_000),
            jump_time: Fixed::from_raw(500_000),
            jump_decay_function: Some(DecayCurve::Sqrt),
            jump_skip_ground_check_duration: Fixed::from_raw(500_000),
            coyote_time_duration: Fixed::from_raw(160_000),
            jump_buffer_duration: Fixed::from_raw(160_000),
            force_scale: Vec3::new(Fixed::from_raw(1_000_000), Fixed::from_raw(0), Fixed::from_raw(1_000_000)),
            float_cast_length: Fixed::from_raw(1_000_000),
            float_cast_radius: Fixed::from_raw(450_000),
            float_distance: Fixed::from_raw(550_000),
            float_spring: Spring { strength: Fixed::from_raw(100_000_000), damping: Fixed::from_raw(800_000) },
            upright_spring: Spring { strength: Fixed::from_raw(10_000_000), damping: Fixed::from_raw(500_000) },
            ..ControllerSettings::default()
        }
    }

    /// A sample controller preset for a spaceship which can fly in any
    /// direction.
    pub fn starship() -> (r: ControllerSettings)
        ensures
            r.is_starship(),
    {
        ControllerSettings {
            acceleration: Fixed::from_raw(300_000),
            max_speed: Fixed::from_raw(100_000_000),
            max_acceleration_force: Fixed::from_raw(10_000_000),
            up_vector: Vec3::new(Fixed::from_raw(0), Fixed::from_raw(1_000_000), Fixed::from_raw(0)),
            force_scale: Vec3::new(Fixed::from_raw(1_000_000), Fixed::from_raw(1_000_000), Fixed::from_raw(1_000_000)),
            upright_spring: Spring { strength: Fixed::from_raw(0), damping: Fixed::from_raw(0) },
            ..ControllerSettings::default()
        }
    }
}

impl Default for ControllerSettings {
    fn default() -> (r: ControllerSettings)
        ensures
            r.is_default(),
    {
        ControllerSettings {
            acceleration: Fixed::from_raw(0),
            max_speed: Fixed::from_raw(0),
            max_acceleration_force: Fixed::from_raw(0),
            up_vector: Vec3::new(Fixed::from_raw(0), Fixed::from_raw(0), Fixed::from_raw(0)),
            forward_vector: Vec3::new(Fixed::from_raw(0), Fixed::from_raw(0), Fixed::from_raw(0)),
            gravity: Fixed::from_raw(0),
            max_ground_angle_cos: Fixed::from_raw(1_000_000),
            min_float_offset: Fixed::from_raw(0),
            max_float_offset: Fixed::from_raw(0),
            jump_initial_force: Fixed::from_raw(0),
            jump_force: Fixed::from_raw(0),
            jump_stop_force: Fixed::from_raw(0),
            jump_time: Fixed::from_raw(1_000_000),
            jump_decay_function: None,
            jump_skip_ground_check_duration: Fixed::from_raw(0),
            skip_ground_check_override: false,
            extra_jumps: 0,
            coyote_time_duration: Fixed::from_raw(0),
            jump_buffer_duration: Fixed::from_raw(0),
            force_scale: Vec3::new(Fixed::from_raw(0), Fixed::from_raw(0), Fixed::from_raw(0)),
            float_cast_length: Fixed::from_raw(0),
            float_cast_origin: Vec3::new(Fixed::from_raw(0), Fixed::from_raw(0), Fixed::from_raw(0)),
            float_cast_radius: Fixed::from_raw(1_000_000),
            float_distance: Fixed::from_raw(0),
            float_spring: Spring { strength: Fixed::from_raw(0), damping: Fixed::from_raw(0) },
            upright_spring: Spring { strength: Fixed::from_raw(0), damping: Fixed::from_raw(0) },
            exclude_from_ground: Vec::new(),
            opposing_impulse_scale: Fixed::from_raw(1_000_000),
            opposing_movement_impulse_scale: Fixed::from_raw(1_000_000),
        }
    }
}

} // verus!
