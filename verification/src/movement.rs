//! Movement applied via inputs: the force that drives the body toward the
//! velocity the player asks for.

use crate::components::{
    integrate_velocity_spec, ControllerInput, ControllerMass, ControllerVelocity, Gravity,
};
use crate::fixed::{
    between, is_floor_sqrt, lemma_ceil_sqrt, lemma_floor_sqrt_is, lemma_trunc_div_bounds, lemma_trunc_div_monotone,
    lemma_trunc_div_multiple, magnitude, trunc_div, within, Fixed, SCALE,
};
use crate::ground::GroundCast;
use crate::spring::Strength;
use crate::vec3::{sum_squares, Vec3};
use vstd::prelude::*;

verus! {

/// A slip vector no longer than this, in raw units, counts as flat ground.
pub const SLIP_THRESHOLD: i64 = 10_000;

/// Settings used to determine movement forces on this controller.
#[derive(Clone, Copy, Debug)]
pub struct Movement {
    /// How fast the controller will get to the `max_speed`.
    pub acceleration: Strength,
    /// How fast the controller will move.
    pub max_speed: Fixed,
    /// Scales movement force, to keep movement from affecting the vertical
    /// velocity for one.
    pub force_scale: ForceScale,
    /// Scales the correction of the goal velocity on a slope that is too
    /// steep. Where a component is less than one, the body can still try
    /// to move up the slope along that axis.
    pub slip_force_scale: Vec3,
}

/// Which axes movement acts on.
#[derive(Clone, Copy, Debug)]
pub enum ForceScale {
    /// The plane at right angles to the up vector.
    Up,
    /// Don't scale at all.
    Unscaled,
    /// Specific force scale.
    Vec3(Vec3),
}

/// Calculated force for moving the character.
#[derive(Clone, Copy, Debug)]
pub struct MovementForce {
    /// Linear force to apply to move the character.
    pub linear: Vec3,
    /// Angular force to apply to move the character.
    pub angular: Vec3,
}

/// Limiting a value by a signed cap, axis by axis.
pub trait Cap: Sized {
    /// A cap of zero gives zero; a negative cap bounds from below, a
    /// positive cap from above.
    spec fn cap_spec(self, cap: Self) -> Self;

    fn cap(self, cap: Self) -> (r: Self)
        ensures
            r == self.cap_spec(cap),
    ;
}

impl Cap for Fixed {
    open spec fn cap_spec(self, cap: Fixed) -> Fixed {
        if cap.raw == 0 || (cap.raw < 0 && self.raw < cap.raw) || (cap.raw > 0 && self.raw
            > cap.raw) {
            cap
        } else {
            self
        }
    }

    fn cap(self, cap: Fixed) -> (r: Fixed) {
        if cap.raw == 0 || (cap.raw < 0 && self.raw < cap.raw) || (cap.raw > 0 && self.raw
            > cap.raw) {
            cap
        } else {
            self
        }
    }
}

impl Cap for Vec3 {
    open spec fn cap_spec(self, cap: Vec3) -> Vec3 {
        Vec3 {
            x: self.x.cap_spec(cap.x),
            y: self.y.cap_spec(cap.y),
            z: self.z.cap_spec(cap.z),
        }
    }

    fn cap(self, cap: Vec3) -> (r: Vec3) {
        Vec3 { x: self.x.cap(cap.x), y: self.y.cap(cap.y), z: self.z.cap(cap.z) }
    }
}

impl Movement {
    pub open spec fn default_spec() -> Movement {
        Movement {
            acceleration: Strength::Scaled(Fixed { raw: 10_000_000 }),
            max_speed: Fixed { raw: 10_000_000 },
            force_scale: ForceScale::Up,
            slip_force_scale: Vec3::one_spec(),
        }
    }

    /// Settings that make sense: a speed and an acceleration that are not
    /// negative.
    pub open spec fn wf(&self) -> bool {
        &&& self.max_speed.raw >= 0
        &&& self.acceleration.value_spec().raw >= 0
    }

    pub open spec fn force_scale_spec(self, gravity: Gravity) -> Vec3 {
        match self.force_scale {
            ForceScale::Vec3(v) => v,
            ForceScale::Up => if gravity.up_vector.norm() > 0 {
                let (x, z) = gravity.up_vector.normalize_spec().any_orthonormal_pair_spec();
                x.abs_spec().add_spec(z.abs_spec())
            } else {
                Vec3::one_spec()
            },
            ForceScale::Unscaled => Vec3::one_spec(),
        }
    }

    /// The scale that applies to movement, axis by axis.
    pub fn force_scale(&self, gravity: &Gravity) -> (r: Vec3)
        ensures
            r == self.force_scale_spec(*gravity),
    {
        match self.force_scale {
            ForceScale::Vec3(v) => v,
            ForceScale::Up => {
                if gravity.up_vector.length().raw > 0 {
                    let up = gravity.up_vector.normalize();
                    let (x, z) = up.any_orthonormal_pair();
                    x.abs().saturating_add(z.abs())
                } else {
                    Vec3::one()
                }
            },
            ForceScale::Unscaled => Vec3::one(),
        }
    }
}

impl Default for Movement {
    fn default() -> (r: Movement)
        ensures
            r == Movement::default_spec(),
    {
        Movement {
            acceleration: Strength::Scaled(Fixed::from_raw(10_000_000)),
            max_speed: Fixed::from_raw(10_000_000),
            force_scale: ForceScale::Up,
            slip_force_scale: Vec3::one(),
        }
    }
}

/// The up vector laid onto the plane of the ground, scaled axis by axis: on
/// a slope it points uphill.
pub open spec fn slip_vector_spec(normal: Vec3, up_vector: Vec3, force_scale: Vec3) -> Vec3 {
    let (x, z) = normal.any_orthonormal_pair_spec();
    up_vector.project_onto_spec(x).add_spec(up_vector.project_onto_spec(z)).hadamard_spec(
        force_scale,
    )
}

/// The slip vector of the ground under the body, where that ground is too
/// steep to walk on and the vector is long enough to tell a slope.
pub open spec fn slipping_spec(cast: GroundCast, up_vector: Vec3, force_scale: Vec3) -> Option<
    Vec3,
> {
    match cast.current {
        Some(contact) => {
            let slip = slip_vector_spec(contact.normal, up_vector, force_scale);
            if !contact.stable && slip.norm() > SLIP_THRESHOLD {
                Some(slip)
            } else {
                None
            }
        },
        None => None,
    }
}

/// The goal velocity on a slope that is too steep: what of it points up the
/// slope is taken away, scaled axis by axis; what points down or across is
/// left alone.
pub open spec fn slope_goal_spec(goal: Vec3, direction: Vec3, slip_force_scale: Vec3) -> Vec3 {
    let uphill = goal.dot_spec(direction).max_spec(Fixed::zero_spec());
    goal.sub_spec(direction.scale_spec(uphill).hadamard_spec(slip_force_scale))
}

/// The force along one axis: the drive toward the goal, capped so that one
/// tick cannot carry the velocity past the goal, less friction and slide.
pub open spec fn axis_force_spec(
    goal: Fixed,
    relative: Fixed,
    scale: Fixed,
    strength: Fixed,
    mass: Fixed,
    dt: Fixed,
    friction: Fixed,
    slide: Fixed,
) -> Fixed {
    let drive = goal.mul_spec(strength).mul_spec(scale);
    let displacement = goal.sub_spec(relative.cap_spec(goal));
    let limit = displacement.mul_spec(mass).div_spec(dt).mul_spec(scale).add_spec(friction);
    drive.cap_spec(limit).sub_spec(friction).sub_spec(slide)
}

/// The velocity the input asks for.
pub open spec fn input_goal_spec(movement: Movement, input: ControllerInput) -> Vec3 {
    input.movement.clamp_length_max_spec(Fixed::one_spec()).scale_spec(movement.max_speed)
}

/// The velocity to drive toward: what the input asks for, corrected on a
/// slope that is too steep.
pub open spec fn goal_spec(
    movement: Movement,
    gravity: Gravity,
    input: ControllerInput,
    cast: GroundCast,
) -> Vec3 {
    let force_scale = movement.force_scale_spec(gravity);
    match slipping_spec(cast, gravity.up_vector, force_scale) {
        Some(slip) => slope_goal_spec(
            input_goal_spec(movement, input),
            slip.normalize_spec(),
            movement.slip_force_scale,
        ),
        None => input_goal_spec(movement, input),
    }
}

/// The force that pushes the body down a slope that is too steep: of
/// length one, against the slip vector.
pub open spec fn slide_spec(
    movement: Movement,
    gravity: Gravity,
    cast: GroundCast,
) -> Vec3 {
    let force_scale = movement.force_scale_spec(gravity);
    match slipping_spec(cast, gravity.up_vector, force_scale) {
        Some(slip) => slip.hadamard_spec(force_scale).normalize_spec(),
        None => Vec3::zero_spec(),
    }
}

/// Velocity of the body against the ground, scaled axis by axis.
pub open spec fn relative_velocity_spec(
    movement: Movement,
    gravity: Gravity,
    cast: GroundCast,
    velocity: ControllerVelocity,
) -> Vec3 {
    velocity.linear.sub_spec(cast.ground_velocity_spec()).hadamard_spec(
        movement.force_scale_spec(gravity),
    )
}

/// Friction between the body and walkable ground: the larger of the two
/// coefficients times the relative velocity, as the force that would stop
/// that share of it within the tick. None without walkable ground.
pub open spec fn friction_spec(
    cast: GroundCast,
    relative_velocity: Vec3,
    own_friction: Fixed,
    ground_friction: Fixed,
    mass: Fixed,
    dt: Fixed,
) -> Vec3 {
    if cast.grounded_spec() {
        relative_velocity.scale_spec(own_friction.max_spec(ground_friction)).scale_spec(
            mass,
        ).unscale_spec(dt)
    } else {
        Vec3::zero_spec()
    }
}

/// The movement force for a tick.
pub open spec fn movement_force_spec(
    movement: Movement,
    gravity: Gravity,
    input: ControllerInput,
    cast: GroundCast,
    velocity: ControllerVelocity,
    mass: Fixed,
    own_friction: Fixed,
    ground_friction: Fixed,
    dt: Fixed,
) -> Vec3 {
    let scale = movement.force_scale_spec(gravity);
    let goal = goal_spec(movement, gravity, input, cast);
    let relative = relative_velocity_spec(movement, gravity, cast, velocity);
    let friction = friction_spec(cast, relative, own_friction, ground_friction, mass, dt);
    let slide = slide_spec(movement, gravity, cast);
    let strength = movement.acceleration.get_spec(mass, dt);
    Vec3 {
        x: axis_force_spec(
            goal.x,
            relative.x,
            scale.x,
            strength,
            mass,
            dt,
            friction.x,
            slide.x,
        ),
        y: axis_force_spec(
            goal.y,
            relative.y,
            scale.y,
            strength,
            mass,
            dt,
            friction.y,
            slide.y,
        ),
        z: axis_force_spec(
            goal.z,
            relative.z,
            scale.z,
            strength,
            mass,
            dt,
            friction.z,
            slide.z,
        ),
    }
}

/// Calculates the movement forces for this controller.
///
/// `own_friction` and `ground_friction` are the friction coefficients of the
/// body and of the ground it stands on.
#[verifier::rlimit(40)]
pub fn movement_force(
    force: &mut MovementForce,
    movement: &Movement,
    gravity: &Gravity,
    input: &ControllerInput,
    cast: &GroundCast,
    velocity: &ControllerVelocity,
    mass: &ControllerMass,
    own_friction: Fixed,
    ground_friction: Fixed,
    dt: Fixed,
)
    requires
        dt.raw > 0,
    ensures
        final(force).linear == movement_force_spec(
            *movement,
            *gravity,
            *input,
            *cast,
            *velocity,
            mass.mass,
            own_friction,
            ground_friction,
            dt,
        ),
        final(force).angular == old(force).angular,
{
    let force_scale = movement.force_scale(gravity);

    let input_dir = input.movement.clamp_length_max(Fixed::one());
    let mut goal_vel = input_dir.scale(movement.max_speed);

    let mut slip_force = Vec3::zero();
    if let Some(ground) = cast.current {
        if !ground.stable {
            let (x, z) = ground.normal.any_orthonormal_pair();
            let projected_x = gravity.up_vector.project_onto(x);
            let projected_z = gravity.up_vector.project_onto(z);
            let slip_vector = projected_x.saturating_add(projected_z).hadamard(force_scale);
            // Shorter slip vectors are taken for flat ground.
            if slip_vector.length().raw > SLIP_THRESHOLD {
                // Counteract the movement going up the slope.
                let direction = slip_vector.normalize();
                let uphill = goal_vel.dot(direction).max(Fixed::zero());
                goal_vel = goal_vel.saturating_sub(
                    direction.scale(uphill).hadamard(movement.slip_force_scale),
                );
                // Push the controller down the slope.
                slip_force = slip_vector.hadamard(force_scale).normalize();
            }
        }
    }

    let relative_velocity = velocity.linear.saturating_sub(cast.ground_velocity()).hadamard(
        force_scale,
    );
    let friction_force = if cast.grounded() {
        let friction_coefficient = own_friction.max(ground_friction);
        relative_velocity.scale(friction_coefficient).scale(mass.mass).unscale(dt)
    } else {
        Vec3::zero()
    };

    let strength = movement.acceleration.get(mass.mass, dt);

    // The displacement is a velocity, so this is a spring-damper in disguise.
    let drive = goal_vel.scale(strength).hadamard(force_scale);

    // How far the relative velocity is from the goal velocity.
    let clamped_velocity = relative_velocity.cap(goal_vel);
    let displacement = goal_vel.saturating_sub(clamped_velocity);
    let max_movement_force = displacement.scale(mass.mass).unscale(dt).hadamard(
        force_scale,
    ).saturating_add(friction_force);
    let capped = drive.cap(max_movement_force);

    force.linear = capped.saturating_sub(friction_force).saturating_sub(slip_force);
}

/// With the up vector along the y axis, the scale derived from it is the
/// horizontal plane: one along x and z, nothing along y.
#[verifier::rlimit(40)]
pub proof fn lemma_force_scale_up_y(movement: Movement, gravity: Gravity)
    requires
        movement.force_scale is Up,
        gravity.up_vector == (Vec3 {
            x: Fixed { raw: 0 },
            y: Fixed { raw: 1_000_000 },
            z: Fixed { raw: 0 },
        }),
    ensures
        movement.force_scale_spec(gravity) == (Vec3 {
            x: Fixed { raw: 1_000_000 },
            y: Fixed { raw: 0 },
            z: Fixed { raw: 1_000_000 },
        }),
{
    let up = gravity.up_vector;
    assert(up.norm_squared() == 1_000_000_000_000) by (nonlinear_arith)
        requires
            up.norm_squared() == sum_squares(0, 1_000_000, 0),
    ;
    assert(is_floor_sqrt(1_000_000_000_000, 1_000_000)) by (nonlinear_arith);
    lemma_floor_sqrt_is(1_000_000_000_000, 1_000_000);
    assert(1_000_000nat * 1_000_000nat == 1_000_000_000_000nat) by (nonlinear_arith);
    assert(up.norm() == 1_000_000);
    assert(0int * 1_000_000int == 0 && 1_000_000int * 1_000_000int == 1_000_000_000_000int)
        by (nonlinear_arith);
    assert(up.x.raw * SCALE == 0 && up.y.raw * SCALE == 1_000_000_000_000 && up.z.raw * SCALE
        == 0) by (nonlinear_arith)
        requires
            up.x.raw == 0,
            up.y.raw == 1_000_000,
            up.z.raw == 0,
    ;
    assert(trunc_div(0, 1_000_000) == 0);
    assert(trunc_div(1_000_000_000_000, 1_000_000) == 1_000_000);
    assert(up.normalize_spec() == up);
    let one = Fixed::one_spec();
    let zero = Fixed::zero_spec();
    let a = one.neg_spec().div_spec(one.add_spec(zero));
    assert((-1_000_000int) * 1_000_000int == -1_000_000_000_000int) by (nonlinear_arith);
    assert(a.raw == -1_000_000);
    zero.lemma_mul_zero(one);
    zero.lemma_mul_zero(a);
    zero.lemma_mul_zero(zero);
    one.lemma_mul_zero(zero);
    one.neg_spec().lemma_mul_zero(zero);
    assert(one.mul_spec(one) == one) by {
        one.lemma_mul_one();
    }
    assert(one.mul_spec(a) == a) by {
        a.lemma_mul_commutative(one);
        a.lemma_mul_one();
    }
}

/// A value capped by a cap of its own sign lies between zero and the cap.
pub proof fn lemma_cap_within(value: Fixed, cap: Fixed)
    requires
        (value.raw >= 0 && cap.raw >= 0) || (value.raw <= 0 && cap.raw <= 0),
    ensures
        within(value.cap_spec(cap).raw as int, cap.raw as int),
{
}

/// With neither friction nor slide, the force along an axis changes the
/// velocity within a tick by no more than what the capped velocity lacks to
/// the goal, and in that direction.
#[verifier::rlimit(40)]
pub proof fn lemma_axis_no_overshoot(
    goal: Fixed,
    relative: Fixed,
    scale: Fixed,
    strength: Fixed,
    mass: Fixed,
    dt: Fixed,
)
    requires
        0 <= scale.raw <= SCALE,
        strength.raw >= 0,
        mass.raw > 0,
        dt.raw > 0,
    ensures
        within(
            axis_force_spec(
                goal,
                relative,
                scale,
                strength,
                mass,
                dt,
                Fixed::zero_spec(),
                Fixed::zero_spec(),
            ).mul_spec(dt).div_spec(mass).raw as int,
            goal.sub_spec(relative.cap_spec(goal)).raw as int,
        ),
{
    let zero = Fixed::zero_spec();
    let drive = goal.mul_spec(strength).mul_spec(scale);
    let lacking = goal.sub_spec(relative.cap_spec(goal));
    let push = lacking.mul_spec(mass).div_spec(dt);
    let limit = push.mul_spec(scale).add_spec(zero);
    let capped = drive.cap_spec(limit);
    goal.lemma_mul_same_sign(strength);
    goal.mul_spec(strength).lemma_mul_same_sign(scale);
    lacking.lemma_mul_same_sign(mass);
    lacking.mul_spec(mass).lemma_div_same_sign(dt);
    push.lemma_mul_same_sign(scale);
    push.lemma_mul_fraction_within(scale);
    assert(limit == push.mul_spec(scale));
    lemma_cap_within(drive, limit);
    assert(capped.sub_spec(zero).sub_spec(zero) == capped);
    assert(within(capped.raw as int, push.raw as int));
    capped.lemma_mul_keeps_within(push, dt);
    capped.mul_spec(dt).lemma_div_keeps_within(push.mul_spec(dt), mass);
    lacking.mul_spec(mass).lemma_div_mul_within(dt);
    push.mul_spec(dt).lemma_div_keeps_within(lacking.mul_spec(mass), mass);
    lacking.lemma_mul_div_within(mass);
}

/// A change of velocity that stays within what the scaled velocity lacks to
/// the goal leaves the scaled velocity between where it was and the goal.
#[verifier::rlimit(40)]
pub proof fn lemma_masked_step(velocity: Fixed, change: Fixed, goal: Fixed, scale: Fixed)
    requires
        0 <= scale.raw <= SCALE,
        velocity.wf(),
        within(
            change.raw as int,
            goal.sub_spec(velocity.mul_spec(scale).cap_spec(goal)).raw as int,
        ),
    ensures
        between(
            velocity.add_spec(change).mul_spec(scale).raw as int,
            velocity.mul_spec(scale).raw as int,
            goal.raw as int,
        ),
{
    let v = velocity.raw as int;
    let c = change.raw as int;
    let s = scale.raw as int;
    let g = goal.raw as int;
    let unit = SCALE as int;
    let masked = velocity.mul_spec(scale);
    let next = velocity.add_spec(change);
    let w = masked.raw as int;
    let n = next.raw as int;
    velocity.lemma_mul_fraction_within(scale);
    lemma_trunc_div_bounds(v * s, unit);
    assert(w == trunc_div(v * s, unit)) by {
        lemma_trunc_div_multiple(v, unit);
        assert(within(v * s, v * unit)) by (nonlinear_arith)
            requires
                0 <= s <= unit,
        ;
        if v >= 0 {
            lemma_trunc_div_monotone(0, v * s, unit);
            lemma_trunc_div_monotone(v * s, v * unit, unit);
        } else {
            lemma_trunc_div_monotone(v * s, 0, unit);
            lemma_trunc_div_monotone(v * unit, v * s, unit);
        }
        assert(trunc_div(0, unit) == 0);
    }
    if g > 0 && w <= g {
        assert(0 <= c <= g - w);
        assert(v <= n <= v + c);
        velocity.lemma_mul_monotone(next, scale);
        assert(n * s <= v * s + c * unit) by (nonlinear_arith)
            requires
                n <= v + c,
                0 <= c,
                0 <= s <= unit,
        ;
        assert(v * s < (w + 1) * unit);
        assert(n * s < (g + 1) * unit);
        lemma_trunc_div_bounds(n * s, unit);
        assert(trunc_div(n * s, unit) <= g);
    } else if g < 0 && w >= g {
        assert(g - w <= c <= 0);
        assert(v + c <= n <= v);
        next.lemma_mul_monotone(velocity, scale);
        assert(n * s >= v * s + c * unit) by (nonlinear_arith)
            requires
                n >= v + c,
                c <= 0,
                0 <= s <= unit,
        ;
        assert(v * s > (w - 1) * unit);
        assert(n * s > (g - 1) * unit);
        lemma_trunc_div_bounds(n * s, unit);
        assert(trunc_div(n * s, unit) >= g);
    } else {
        assert(c == 0);
        assert(next == velocity);
    }
}

/// Friction vanishes off walkable ground, and on it where neither the body
/// nor the ground has any.
proof fn lemma_no_friction(
    cast: GroundCast,
    relative: Vec3,
    own_friction: Fixed,
    ground_friction: Fixed,
    mass: Fixed,
    dt: Fixed,
)
    requires
        dt.raw > 0,
        !cast.grounded_spec() || own_friction.max_spec(ground_friction).raw == 0,
    ensures
        friction_spec(cast, relative, own_friction, ground_friction, mass, dt)
            == Vec3::zero_spec(),
{
    let zero = Fixed::zero_spec();
    let coefficient = own_friction.max_spec(ground_friction);
    if cast.grounded_spec() {
        relative.x.lemma_mul_zero(coefficient);
        relative.y.lemma_mul_zero(coefficient);
        relative.z.lemma_mul_zero(coefficient);
        zero.lemma_mul_zero(mass);
        Fixed::lemma_div_zero(dt);
        assert(relative.scale_spec(coefficient) == Vec3::zero_spec());
        assert(Vec3::zero_spec().scale_spec(mass) == Vec3::zero_spec());
    }
}

/// Convergence without overshoot. Where nothing stands in the way, a tick
/// of the movement force carries the velocity, scaled axis by axis, toward
/// the velocity that the input asks for and never past it: on every axis
/// the new scaled velocity lies between the old one and the goal. Nothing
/// stands in the way where there is no friction (the body is off walkable
/// ground, or neither it nor the ground has any), no slope too steep to
/// walk on is underfoot, and the ground is at rest. The scale lies between
/// zero and one on every axis.
#[verifier::rlimit(40)]
pub proof fn lemma_no_overshoot(
    movement: Movement,
    gravity: Gravity,
    input: ControllerInput,
    cast: GroundCast,
    velocity: ControllerVelocity,
    mass: Fixed,
    own_friction: Fixed,
    ground_friction: Fixed,
    dt: Fixed,
)
    requires
        movement.wf(),
        velocity.linear.wf(),
        mass.raw > 0,
        dt.raw > 0,
        movement.force_scale_spec(gravity).is_fraction(),
        cast.ground_velocity_spec() == Vec3::zero_spec(),
        slipping_spec(cast, gravity.up_vector, movement.force_scale_spec(gravity)) is None,
        !cast.grounded_spec() || own_friction.max_spec(ground_friction).raw == 0,
    ensures
        ({
            let scale = movement.force_scale_spec(gravity);
            let force = movement_force_spec(
                movement,
                gravity,
                input,
                cast,
                velocity,
                mass,
                own_friction,
                ground_friction,
                dt,
            );
            let next = integrate_velocity_spec(velocity.linear, force, mass, dt);
            next.hadamard_spec(scale).between_spec(
                velocity.linear.hadamard_spec(scale),
                input_goal_spec(movement, input),
            )
        }),
{
    let scale = movement.force_scale_spec(gravity);
    let goal = input_goal_spec(movement, input);
    let strength = movement.acceleration.get_spec(mass, dt);
    let v = velocity.linear;
    let relative = relative_velocity_spec(movement, gravity, cast, velocity);
    movement.acceleration.lemma_nonnegative(mass, dt);
    lemma_no_friction(cast, relative, own_friction, ground_friction, mass, dt);
    assert(v.sub_spec(Vec3::zero_spec()) == v);
    assert(relative == v.hadamard_spec(scale));
    assert(goal_spec(movement, gravity, input, cast) == goal);
    assert(slide_spec(movement, gravity, cast) == Vec3::zero_spec());
    let force = movement_force_spec(
        movement,
        gravity,
        input,
        cast,
        velocity,
        mass,
        own_friction,
        ground_friction,
        dt,
    );
    lemma_axis_no_overshoot(goal.x, relative.x, scale.x, strength, mass, dt);
    lemma_masked_step(v.x, force.x.mul_spec(dt).div_spec(mass), goal.x, scale.x);
    lemma_axis_no_overshoot(goal.y, relative.y, scale.y, strength, mass, dt);
    lemma_masked_step(v.y, force.y.mul_spec(dt).div_spec(mass), goal.y, scale.y);
    lemma_axis_no_overshoot(goal.z, relative.z, scale.z, strength, mass, dt);
    lemma_masked_step(v.z, force.z.mul_spec(dt).div_spec(mass), goal.z, scale.z);
}

/// With no input, the force along an axis is friction alone, and within a
/// tick it takes from the velocity no more than the relative velocity times
/// the coefficient of friction, and in its direction.
#[verifier::rlimit(40)]
pub proof fn lemma_axis_friction(
    relative: Fixed,
    scale: Fixed,
    strength: Fixed,
    coefficient: Fixed,
    mass: Fixed,
    dt: Fixed,
)
    requires
        mass.raw > 0,
        dt.raw > 0,
    ensures
        ({
            let friction = relative.mul_spec(coefficient).mul_spec(mass).div_spec(dt);
            let force = axis_force_spec(
                Fixed::zero_spec(),
                relative,
                scale,
                strength,
                mass,
                dt,
                friction,
                Fixed::zero_spec(),
            );
            within(
                -force.mul_spec(dt).div_spec(mass).raw,
                relative.mul_spec(coefficient).raw as int,
            )
        }),
{
    let zero = Fixed::zero_spec();
    let grip = relative.mul_spec(coefficient);
    let held = grip.mul_spec(mass);
    let friction = held.div_spec(dt);
    zero.lemma_mul_zero(strength);
    zero.lemma_mul_zero(scale);
    zero.lemma_mul_zero(mass);
    Fixed::lemma_div_zero(dt);
    assert(zero.mul_spec(strength) == zero);
    assert(zero.mul_spec(strength).mul_spec(scale) == zero);
    assert(zero.sub_spec(relative.cap_spec(zero)) == zero);
    assert(zero.mul_spec(mass).div_spec(dt) == zero);
    assert(zero.mul_spec(mass).div_spec(dt).mul_spec(scale).add_spec(friction) == friction);
    assert(zero.cap_spec(friction) == zero);
    let force = zero.sub_spec(friction).sub_spec(zero);
    assert(force == friction.neg_spec());
    friction.lemma_mul_neg(dt);
    assert(force.mul_spec(dt) == friction.mul_spec(dt).neg_spec());
    friction.mul_spec(dt).lemma_div_neg(mass);
    held.lemma_div_mul_within(dt);
    friction.mul_spec(dt).lemma_div_keeps_within(held, mass);
    grip.lemma_mul_div_within(mass);
}

/// Friction at rest. With no input, on walkable ground that does not move,
/// a tick of the movement force never speeds the body up: on every axis the
/// new velocity is no larger in magnitude than the old one, and the same
/// holds of the velocity scaled axis by axis. The larger coefficient of
/// friction lies between zero and two, and the scale between zero and one on
/// every axis. With a coefficient of at most one the body is not turned
/// round either: the new velocity lies between zero and the old one.
#[verifier::rlimit(40)]
pub proof fn lemma_friction_at_rest(
    movement: Movement,
    gravity: Gravity,
    input: ControllerInput,
    cast: GroundCast,
    velocity: ControllerVelocity,
    mass: Fixed,
    own_friction: Fixed,
    ground_friction: Fixed,
    dt: Fixed,
)
    requires
        velocity.linear.wf(),
        mass.raw > 0,
        dt.raw > 0,
        input.movement == Vec3::zero_spec(),
        cast.grounded_spec(),
        cast.ground_velocity_spec() == Vec3::zero_spec(),
        0 <= own_friction.max_spec(ground_friction).raw <= 2 * SCALE,
        movement.force_scale_spec(gravity).is_fraction(),
    ensures
        ({
            let scale = movement.force_scale_spec(gravity);
            let force = movement_force_spec(
                movement,
                gravity,
                input,
                cast,
                velocity,
                mass,
                own_friction,
                ground_friction,
                dt,
            );
            let next = integrate_velocity_spec(velocity.linear, force, mass, dt);
            &&& next.no_larger_spec(velocity.linear)
            &&& next.hadamard_spec(scale).no_larger_spec(velocity.linear.hadamard_spec(scale))
            &&& own_friction.max_spec(ground_friction).raw <= SCALE ==> {
                &&& next.within_spec(velocity.linear)
                &&& next.hadamard_spec(scale).within_spec(velocity.linear.hadamard_spec(scale))
            }
        }),
{
    let zero = Fixed::zero_spec();
    let scale = movement.force_scale_spec(gravity);
    let coefficient = own_friction.max_spec(ground_friction);
    let strength = movement.acceleration.get_spec(mass, dt);
    let v = velocity.linear;
    let relative = relative_velocity_spec(movement, gravity, cast, velocity);
    lemma_ceil_sqrt(0);
    assert(Vec3::zero_spec().norm() == 0);
    zero.lemma_mul_zero(movement.max_speed);
    assert(input_goal_spec(movement, input) == Vec3::zero_spec());
    assert(goal_spec(movement, gravity, input, cast) == Vec3::zero_spec());
    assert(slide_spec(movement, gravity, cast) == Vec3::zero_spec());
    assert(v.sub_spec(Vec3::zero_spec()) == v);
    assert(relative == v.hadamard_spec(scale));
    let force = movement_force_spec(
        movement,
        gravity,
        input,
        cast,
        velocity,
        mass,
        own_friction,
        ground_friction,
        dt,
    );
    let next = integrate_velocity_spec(v, force, mass, dt);
    lemma_axis_friction(relative.x, scale.x, strength, coefficient, mass, dt);
    lemma_friction_step(v.x, next.x, relative.x, scale.x, coefficient);
    lemma_axis_friction(relative.y, scale.y, strength, coefficient, mass, dt);
    lemma_friction_step(v.y, next.y, relative.y, scale.y, coefficient);
    lemma_axis_friction(relative.z, scale.z, strength, coefficient, mass, dt);
    lemma_friction_step(v.z, next.z, relative.z, scale.z, coefficient);
}

/// A velocity that loses no more than its scaled self times a coefficient
/// of at most two does not grow; with a coefficient of at most one it does
/// not change sign either.
proof fn lemma_friction_step(
    velocity: Fixed,
    next: Fixed,
    relative: Fixed,
    scale: Fixed,
    coefficient: Fixed,
)
    requires
        velocity.wf(),
        0 <= scale.raw <= SCALE,
        0 <= coefficient.raw <= 2 * SCALE,
        relative == velocity.mul_spec(scale),
        within(velocity.raw - next.raw, relative.mul_spec(coefficient).raw as int),
    ensures
        magnitude(next.raw as int) <= magnitude(velocity.raw as int),
        magnitude(next.mul_spec(scale).raw as int) <= magnitude(relative.raw as int),
        coefficient.raw <= SCALE ==> within(next.raw as int, velocity.raw as int) && within(
            next.mul_spec(scale).raw as int,
            relative.raw as int,
        ),
{
    velocity.lemma_mul_fraction_within(scale);
    relative.lemma_mul_double_within(coefficient);
    next.lemma_mul_keeps_smaller(velocity, scale);
    if coefficient.raw <= SCALE {
        relative.lemma_mul_fraction_within(coefficient);
        next.lemma_mul_keeps_within(velocity, scale);
    }
}

/// Slope rejection, downhill: a goal velocity that does not point up the
/// slope is left as it is.
pub proof fn lemma_slope_leaves_downhill(goal: Vec3, direction: Vec3, slip_force_scale: Vec3)
    requires
        goal.wf(),
        goal.dot_spec(direction).raw <= 0,
    ensures
        slope_goal_spec(goal, direction, slip_force_scale) == goal,
{
    let zero = Fixed::zero_spec();
    direction.x.lemma_mul_zero(zero);
    direction.y.lemma_mul_zero(zero);
    direction.z.lemma_mul_zero(zero);
    zero.lemma_mul_zero(slip_force_scale.x);
    zero.lemma_mul_zero(slip_force_scale.y);
    zero.lemma_mul_zero(slip_force_scale.z);
    assert(direction.scale_spec(zero) == Vec3::zero_spec());
    assert(Vec3::zero_spec().hadamard_spec(slip_force_scale) == Vec3::zero_spec());
}

/// One term of the dot product of a direction scaled by `speed` with the
/// direction itself: not negative, and no more than the square of the
/// component times the speed.
proof fn lemma_uphill_term(component: Fixed, speed: Fixed)
    requires
        speed.raw >= 0,
    ensures
        component.mul_spec(speed).mul_spec(component).raw >= 0,
        component.mul_spec(speed).mul_spec(component).raw * (SCALE * SCALE) <= component.raw
            * component.raw * speed.raw,
{
    let d = component.raw as int;
    let k = speed.raw as int;
    let s = SCALE as int;
    let scaled = component.mul_spec(speed);
    let g = scaled.raw as int;
    let term = scaled.mul_spec(component);
    let t = term.raw as int;
    lemma_trunc_div_bounds(d * k, s);
    assert(within(g, trunc_div(d * k, s)));
    assert(within(g * s, d * k));
    assert(0 <= g * d && g * d * s <= d * d * k) by (nonlinear_arith)
        requires
            within(g * s, d * k),
            k >= 0,
            s > 0,
    ;
    lemma_trunc_div_bounds(g * d, s);
    assert(within(t, trunc_div(g * d, s)));
    assert(0 <= t && t * s <= g * d);
    assert(t * (s * s) <= d * d * k) by (nonlinear_arith)
        requires
            0 <= t,
            t * s <= g * d,
            g * d * s <= d * d * k,
            s > 0,
    ;
}

/// Slope rejection, uphill: a goal velocity that points straight up the
/// slope, along the direction of the slip vector and at any speed, is
/// damped toward zero on every axis and never turned round. The share of
/// the correction that is applied lies between zero and one on every axis.
#[verifier::rlimit(40)]
pub proof fn lemma_slope_damps_uphill(slip: Vec3, speed: Fixed, slip_force_scale: Vec3)
    requires
        speed.raw >= 0,
        slip_force_scale.is_fraction(),
    ensures
        slope_goal_spec(
            slip.normalize_spec().scale_spec(speed),
            slip.normalize_spec(),
            slip_force_scale,
        ).within_spec(slip.normalize_spec().scale_spec(speed)),
{
    let direction = slip.normalize_spec();
    slip.lemma_normalize_unit();
    let goal = direction.scale_spec(speed);
    let s = SCALE as int;
    let k = speed.raw as int;
    let dx = direction.x.raw as int;
    let dy = direction.y.raw as int;
    let dz = direction.z.raw as int;
    let tx = goal.x.mul_spec(direction.x);
    let ty = goal.y.mul_spec(direction.y);
    let tz = goal.z.mul_spec(direction.z);
    lemma_uphill_term(direction.x, speed);
    lemma_uphill_term(direction.y, speed);
    lemma_uphill_term(direction.z, speed);
    assert(dx * dx >= 0 && dy * dy >= 0 && dz * dz >= 0) by (nonlinear_arith);
    assert(tx.raw + ty.raw + tz.raw <= k) by (nonlinear_arith)
        requires
            tx.raw * (s * s) <= dx * dx * k,
            ty.raw * (s * s) <= dy * dy * k,
            tz.raw * (s * s) <= dz * dz * k,
            dx * dx + dy * dy + dz * dz <= s * s,
            k >= 0,
            s > 0,
    ;
    let uphill = goal.dot_spec(direction);
    assert(uphill.raw == tx.raw + ty.raw + tz.raw);
    assert(uphill.max_spec(Fixed::zero_spec()) == uphill);
    direction.x.lemma_mul_factor_within(uphill, speed);
    direction.y.lemma_mul_factor_within(uphill, speed);
    direction.z.lemma_mul_factor_within(uphill, speed);
    direction.x.mul_spec(uphill).lemma_mul_fraction_within(slip_force_scale.x);
    direction.y.mul_spec(uphill).lemma_mul_fraction_within(slip_force_scale.y);
    direction.z.mul_spec(uphill).lemma_mul_fraction_within(slip_force_scale.z);
}

/// Slope rejection. On a slope too steep to walk on, the velocity to drive
/// toward is the velocity the input asks for with its uphill part taken
/// away: where the input does not point up the slope the two are the same,
/// and where it points straight up the slope, at any `speed`, the goal lies
/// on every axis between zero and what the input asks for. The share of
/// the correction that is applied lies between zero and one on every axis.
#[verifier::rlimit(40)]
pub proof fn lemma_slope_rejection(
    movement: Movement,
    gravity: Gravity,
    input: ControllerInput,
    cast: GroundCast,
    speed: Fixed,
)
    ensures
        slipping_spec(
            cast,
            gravity.up_vector,
            movement.force_scale_spec(gravity),
        ) matches Some(slip) ==> {
            let direction = slip.normalize_spec();
            let asked = input_goal_spec(movement, input);
            let goal = goal_spec(movement, gravity, input, cast);
            &&& asked.dot_spec(direction).raw <= 0 ==> goal == asked
            &&& speed.raw >= 0 && asked == direction.scale_spec(speed)
                && movement.slip_force_scale.is_fraction() ==> goal.within_spec(asked)
        },
{
    match slipping_spec(cast, gravity.up_vector, movement.force_scale_spec(gravity)) {
        Some(slip) => {
            let direction = slip.normalize_spec();
            let asked = input_goal_spec(movement, input);
            if asked.dot_spec(direction).raw <= 0 {
                lemma_slope_leaves_downhill(asked, direction, movement.slip_force_scale);
            }
            if speed.raw >= 0 && movement.slip_force_scale.is_fraction() {
                lemma_slope_damps_uphill(slip, speed, movement.slip_force_scale);
            }
        },
        None => {},
    }
}

/// The velocity one tick on, when nothing but the movement force acts on
/// the body.
#[verifier::opaque]
pub open spec fn advance_spec(
    movement: Movement,
    gravity: Gravity,
    input: ControllerInput,
    cast: GroundCast,
    velocity: ControllerVelocity,
    mass: Fixed,
    own_friction: Fixed,
    ground_friction: Fixed,
    dt: Fixed,
) -> Vec3 {
    integrate_velocity_spec(
        velocity.linear,
        movement_force_spec(
            movement,
            gravity,
            input,
            cast,
            velocity,
            mass,
            own_friction,
            ground_friction,
            dt,
        ),
        mass,
        dt,
    )
}

/// The velocity after a number of ticks in which nothing but the movement
/// force acts on the body, while input, ground and settings stay as they
/// are.
pub open spec fn coast_spec(
    movement: Movement,
    gravity: Gravity,
    input: ControllerInput,
    cast: GroundCast,
    velocity: ControllerVelocity,
    mass: Fixed,
    own_friction: Fixed,
    ground_friction: Fixed,
    dt: Fixed,
    ticks: nat,
) -> Vec3
    decreases ticks,
{
    if ticks == 0 {
        velocity.linear
    } else {
        advance_spec(
            movement,
            gravity,
            input,
            cast,
            ControllerVelocity {
                linear: coast_spec(
                    movement,
                    gravity,
                    input,
                    cast,
                    velocity,
                    mass,
                    own_friction,
                    ground_friction,
                    dt,
                    (ticks - 1) as nat,
                ),
                angular: velocity.angular,
            },
            mass,
            own_friction,
            ground_friction,
            dt,
        )
    }
}

/// One tick on, the velocity is again one that the operations produce, and
/// where nothing stands in the way its scaled self lies between the old one
/// and the goal.
proof fn lemma_advance_no_overshoot(
    movement: Movement,
    gravity: Gravity,
    input: ControllerInput,
    cast: GroundCast,
    velocity: ControllerVelocity,
    mass: Fixed,
    own_friction: Fixed,
    ground_friction: Fixed,
    dt: Fixed,
)
    requires
        movement.wf(),
        velocity.linear.wf(),
        mass.raw > 0,
        dt.raw > 0,
        movement.force_scale_spec(gravity).is_fraction(),
        cast.ground_velocity_spec() == Vec3::zero_spec(),
        slipping_spec(cast, gravity.up_vector, movement.force_scale_spec(gravity)) is None,
        !cast.grounded_spec() || own_friction.max_spec(ground_friction).raw == 0,
    ensures
        ({
            let scale = movement.force_scale_spec(gravity);
            let next = advance_spec(
                movement,
                gravity,
                input,
                cast,
                velocity,
                mass,
                own_friction,
                ground_friction,
                dt,
            );
            &&& next.wf()
            &&& next.hadamard_spec(scale).between_spec(
                velocity.linear.hadamard_spec(scale),
                input_goal_spec(movement, input),
            )
        }),
{
    reveal(advance_spec);
    lemma_no_overshoot(
        movement,
        gravity,
        input,
        cast,
        velocity,
        mass,
        own_friction,
        ground_friction,
        dt,
    );
}

/// Betweenness carries over from tick to tick.
proof fn lemma_between_chain(next: Vec3, now: Vec3, start: Vec3, goal: Vec3)
    requires
        next.between_spec(now, goal),
        now.between_spec(start, goal),
    ensures
        next.between_spec(start, goal),
{
}

/// Monotone convergence. Under constant input, where nothing stands in the
/// way, the scaled velocity moves toward the goal tick after tick: after
/// any number of ticks it lies between where it started and the goal, and
/// one tick later between where it was and the goal. What stands in the
/// way, and what is asked of the scale, is as for a single tick.
pub proof fn lemma_converges_monotonically(
    movement: Movement,
    gravity: Gravity,
    input: ControllerInput,
    cast: GroundCast,
    velocity: ControllerVelocity,
    mass: Fixed,
    own_friction: Fixed,
    ground_friction: Fixed,
    dt: Fixed,
    ticks: nat,
)
    requires
        movement.wf(),
        velocity.linear.wf(),
        mass.raw > 0,
        dt.raw > 0,
        movement.force_scale_spec(gravity).is_fraction(),
        cast.ground_velocity_spec() == Vec3::zero_spec(),
        slipping_spec(cast, gravity.up_vector, movement.force_scale_spec(gravity)) is None,
        !cast.grounded_spec() || own_friction.max_spec(ground_friction).raw == 0,
    ensures
        ({
            let scale = movement.force_scale_spec(gravity);
            let goal = input_goal_spec(movement, input);
            let now = coast_spec(
                movement,
                gravity,
                input,
                cast,
                velocity,
                mass,
                own_friction,
                ground_friction,
                dt,
                ticks,
            );
            let next = coast_spec(
                movement,
                gravity,
                input,
                cast,
                velocity,
                mass,
                own_friction,
                ground_friction,
                dt,
                ticks + 1,
            );
            &&& now.wf()
            &&& next.wf()
            &&& now.hadamard_spec(scale).between_spec(velocity.linear.hadamard_spec(scale), goal)
            &&& next.hadamard_spec(scale).between_spec(now.hadamard_spec(scale), goal)
        }),
    decreases ticks,
{
    let scale = movement.force_scale_spec(gravity);
    let goal = input_goal_spec(movement, input);
    let now = coast_spec(
        movement,
        gravity,
        input,
        cast,
        velocity,
        mass,
        own_friction,
        ground_friction,
        dt,
        ticks,
    );
    if ticks > 0 {
        let before = coast_spec(
            movement,
            gravity,
            input,
            cast,
            velocity,
            mass,
            own_friction,
            ground_friction,
            dt,
            (ticks - 1) as nat,
        );
        lemma_converges_monotonically(
            movement,
            gravity,
            input,
            cast,
            velocity,
            mass,
            own_friction,
            ground_friction,
            dt,
            (ticks - 1) as nat,
        );
        lemma_between_chain(
            now.hadamard_spec(scale),
            before.hadamard_spec(scale),
            velocity.linear.hadamard_spec(scale),
            goal,
        );
    }
    lemma_advance_no_overshoot(
        movement,
        gravity,
        input,
        cast,
        ControllerVelocity { linear: now, angular: velocity.angular },
        mass,
        own_friction,
        ground_friction,
        dt,
    );
}

/// One tick on, the velocity is again one that the operations produce, and
/// under friction alone it has not grown.
proof fn lemma_advance_friction(
    movement: Movement,
    gravity: Gravity,
    input: ControllerInput,
    cast: GroundCast,
    velocity: ControllerVelocity,
    mass: Fixed,
    own_friction: Fixed,
    ground_friction: Fixed,
    dt: Fixed,
)
    requires
        velocity.linear.wf(),
        mass.raw > 0,
        dt.raw > 0,
        input.movement == Vec3::zero_spec(),
        cast.grounded_spec(),
        cast.ground_velocity_spec() == Vec3::zero_spec(),
        0 <= own_friction.max_spec(ground_friction).raw <= 2 * SCALE,
        movement.force_scale_spec(gravity).is_fraction(),
    ensures
        ({
            let next = advance_spec(
                movement,
                gravity,
                input,
                cast,
                velocity,
                mass,
                own_friction,
                ground_friction,
                dt,
            );
            &&& next.wf()
            &&& next.no_larger_spec(velocity.linear)
            &&& own_friction.max_spec(ground_friction).raw <= SCALE ==> next.within_spec(
                velocity.linear,
            )
        }),
{
    reveal(advance_spec);
    lemma_friction_at_rest(
        movement,
        gravity,
        input,
        cast,
        velocity,
        mass,
        own_friction,
        ground_friction,
        dt,
    );
}

/// Being no larger, and lying between zero and a bound, carry over from
/// tick to tick.
proof fn lemma_shrink_chain(next: Vec3, now: Vec3, start: Vec3)
    requires
        next.no_larger_spec(now),
        now.no_larger_spec(start),
    ensures
        next.no_larger_spec(start),
        next.within_spec(now) && now.within_spec(start) ==> next.within_spec(start),
{
}

/// Friction wears the velocity down. With no input, on walkable ground
/// that does not move, the body is never faster after a tick than before
/// it, however many ticks have passed; with a coefficient of friction of at
/// most one it is never turned round either. What is asked of friction and
/// scale is as for a single tick.
pub proof fn lemma_friction_wears_down(
    movement: Movement,
    gravity: Gravity,
    input: ControllerInput,
    cast: GroundCast,
    velocity: ControllerVelocity,
    mass: Fixed,
    own_friction: Fixed,
    ground_friction: Fixed,
    dt: Fixed,
    ticks: nat,
)
    requires
        velocity.linear.wf(),
        mass.raw > 0,
        dt.raw > 0,
        input.movement == Vec3::zero_spec(),
        cast.grounded_spec(),
        cast.ground_velocity_spec() == Vec3::zero_spec(),
        0 <= own_friction.max_spec(ground_friction).raw <= 2 * SCALE,
        movement.force_scale_spec(gravity).is_fraction(),
    ensures
        ({
            let now = coast_spec(
                movement,
                gravity,
                input,
                cast,
                velocity,
                mass,
                own_friction,
                ground_friction,
                dt,
                ticks,
            );
            let next = coast_spec(
                movement,
                gravity,
                input,
                cast,
                velocity,
                mass,
                own_friction,
                ground_friction,
                dt,
                ticks + 1,
            );
            &&& now.wf()
            &&& now.no_larger_spec(velocity.linear)
            &&& next.no_larger_spec(now)
            &&& own_friction.max_spec(ground_friction).raw <= SCALE ==> {
                &&& now.within_spec(velocity.linear)
                &&& next.within_spec(now)
            }
        }),
    decreases ticks,
{
    let now = coast_spec(
        movement,
        gravity,
        input,
        cast,
        velocity,
        mass,
        own_friction,
        ground_friction,
        dt,
        ticks,
    );
    if ticks > 0 {
        let before = coast_spec(
            movement,
            gravity,
            input,
            cast,
            velocity,
            mass,
            own_friction,
            ground_friction,
            dt,
            (ticks - 1) as nat,
        );
        lemma_friction_wears_down(
            movement,
            gravity,
            input,
            cast,
            velocity,
            mass,
            own_friction,
            ground_friction,
            dt,
            (ticks - 1) as nat,
        );
        lemma_shrink_chain(now, before, velocity.linear);
    }
    lemma_advance_friction(
        movement,
        gravity,
        input,
        cast,
        ControllerVelocity { linear: now, angular: velocity.angular },
        mass,
        own_friction,
        ground_friction,
        dt,
    );
}

} // verus!
