use wanderlust::components::{
    ControllerInput, ControllerMass, ControllerVelocity, FloatForce, Gravity, GravityForce,
};
use wanderlust::fixed::Fixed;
use wanderlust::ground::{Contact, GroundCast, GroundCaster};
use wanderlust::jump::{jump_force, jump_impulse, DecayCurve, Jump, JumpAction, JumpForce};
use wanderlust::vec3::Vec3;

const DT: i64 = 16_667;

fn secs(value: f64) -> Fixed {
    Fixed::from_raw((value * 1_000_000.0).round() as i64)
}

fn v3(x: f64, y: f64, z: f64) -> Vec3 {
    Vec3::new(secs(x), secs(y), secs(z))
}

fn dt() -> Fixed {
    Fixed::from_raw(DT)
}

fn flat_ground(velocity: Vec3) -> GroundCast {
    let contact = Contact {
        entity: 7,
        point: Vec3::zero(),
        normal: v3(0.0, 1.0, 0.0),
        distance: secs(0.5),
        stable: true,
        point_velocity: velocity,
    };
    GroundCast { current: Some(contact), viable: vec![contact] }
}

fn caster() -> GroundCaster {
    GroundCaster {
        skip_ground_check_timer: Fixed::zero(),
        cast_length: secs(1.0),
        max_ground_angle_cos: secs(0.707106),
    }
}

fn up() -> Gravity {
    Gravity { up_vector: v3(0.0, 1.0, 0.0), acceleration: secs(20.0) }
}

fn idle_in_the_air(jump: &mut Jump, ticks: usize) {
    for _ in 0..ticks {
        let action = jump.step(false, false, dt());
        assert_ne!(action, JumpAction::Fire);
    }
}

#[test]
fn default_jump_settings() {
    let jump = Jump::default();
    assert_eq!(jump.initial_force, secs(30.0));
    assert_eq!(jump.force, secs(20.0));
    assert_eq!(jump.cooldown_duration, secs(0.25));
    assert_eq!(jump.cooldown_timer, secs(0.0));
    assert_eq!(jump.jump_duration, secs(0.1));
    assert_eq!(jump.jump_timer, secs(0.0));
    assert_eq!(jump.decay_function, Some(DecayCurve::Sqrt));
    assert_eq!(jump.jumps, 1);
    assert_eq!(jump.remaining_jumps, 1);
    assert!(!jump.pressed_last_frame);
    assert_eq!(jump.stop_force, secs(0.3));
    assert_eq!(jump.buffer_timer, secs(0.0));
    assert_eq!(jump.buffer_duration, secs(0.3));
    assert_eq!(jump.coyote_duration, secs(0.2));
    assert_eq!(jump.coyote_timer, secs(0.0));
    assert_eq!(jump.skip_ground_check_duration, secs(0.3));
}

#[test]
fn tick_timers_runs_every_timer_down() {
    let mut jump = Jump::default();
    jump.cooldown_timer = secs(0.25);
    jump.jump_timer = secs(0.05);
    jump.buffer_timer = secs(0.3);
    jump.coyote_timer = secs(0.2);
    jump.tick_timers(secs(0.1));
    assert_eq!(jump.cooldown_timer, secs(0.15));
    assert_eq!(jump.jump_timer, secs(0.0));
    assert_eq!(jump.buffer_timer, secs(0.2));
    assert_eq!(jump.coyote_timer, secs(0.1));
    jump.tick_timers(secs(0.1));
    jump.tick_timers(secs(0.1));
    assert_eq!(jump.cooldown_timer, secs(0.0));
    assert_eq!(jump.buffer_timer, secs(0.0));
    assert_eq!(jump.coyote_timer, secs(0.0));
}

#[test]
fn tick_timers_leaves_the_durations_alone() {
    let mut jump = Jump::default();
    jump.coyote_timer = jump.coyote_duration;
    for _ in 0..100 {
        jump.tick_timers(dt());
    }
    assert_eq!(jump.coyote_duration, secs(0.2));
    assert_eq!(jump.cooldown_duration, secs(0.25));
    assert_eq!(jump.buffer_duration, secs(0.3));
    assert_eq!(jump.jump_duration, secs(0.1));
}

#[test]
fn jumping_while_the_jump_timer_runs() {
    let mut jump = Jump::default();
    assert!(!jump.jumping());
    jump.jump_timer = Fixed::from_raw(1);
    assert!(jump.jumping());
    jump.jump_timer = Fixed::from_raw(-1);
    assert!(!jump.jumping());
}

#[test]
fn can_jump_rules() {
    let mut jump = Jump::default();
    assert!(jump.can_jump(true));
    assert!(!jump.can_jump(false));
    jump.coyote_timer = Fixed::from_raw(1);
    assert!(jump.can_jump(false));
    jump.cooldown_timer = Fixed::from_raw(1);
    assert!(!jump.can_jump(true));
    jump.cooldown_timer = Fixed::zero();
    jump.remaining_jumps = 0;
    assert!(!jump.can_jump(true));
    jump.jumps = 2;
    jump.remaining_jumps = 1;
    jump.coyote_timer = Fixed::zero();
    assert!(jump.can_jump(false));
}

#[test]
fn reset_jump_restores_the_jumps_and_ends_the_jump() {
    let mut jump = Jump::default();
    jump.jumps = 3;
    jump.remaining_jumps = 0;
    jump.jump_timer = secs(0.05);
    jump.reset_jump();
    assert_eq!(jump.remaining_jumps, 3);
    assert_eq!(jump.jump_timer, secs(0.0));
}

#[test]
fn jump_progress_runs_from_zero_to_one() {
    let mut jump = Jump::default();
    jump.jump_timer = secs(0.1);
    assert_eq!(jump.jump_progress(), secs(0.0));
    jump.jump_timer = secs(0.075);
    assert_eq!(jump.jump_progress(), secs(0.25));
    jump.jump_timer = secs(0.0);
    assert_eq!(jump.jump_progress(), secs(1.0));
    jump.jump_duration = secs(0.0);
    assert_eq!(jump.jump_progress(), secs(1.0));
}

#[test]
fn decay_multiplier_follows_the_curve() {
    let mut jump = Jump::default();
    jump.jump_timer = secs(0.075);
    assert_eq!(jump.decay_multiplier().raw, 866_025);
    jump.decay_function = Some(DecayCurve::Linear);
    assert_eq!(jump.decay_multiplier(), secs(0.75));
    jump.decay_function = Some(DecayCurve::Constant);
    assert_eq!(jump.decay_multiplier(), secs(1.0));
    jump.decay_function = None;
    assert_eq!(jump.decay_multiplier(), secs(1.0));
}

#[test]
fn double_jump_then_no_third() {
    let mut jump = Jump::default();
    jump.jumps = 2;
    jump.remaining_jumps = 2;
    assert_eq!(jump.step(true, true, dt()), JumpAction::Fire);
    assert_eq!(jump.remaining_jumps, 1);
    idle_in_the_air(&mut jump, 15);
    assert!(jump.can_jump(false));
    assert_eq!(jump.step(true, false, dt()), JumpAction::Fire);
    assert_eq!(jump.remaining_jumps, 0);
    idle_in_the_air(&mut jump, 15);
    assert!(!jump.can_jump(false));
    assert_ne!(jump.step(true, false, dt()), JumpAction::Fire);
    assert_eq!(jump.remaining_jumps, 0);
}

#[test]
fn cooldown_blocks_a_second_jump() {
    let mut jump = Jump::default();
    jump.jumps = 2;
    jump.remaining_jumps = 2;
    assert_eq!(jump.step(true, true, dt()), JumpAction::Fire);
    assert_eq!(jump.cooldown_timer, secs(0.25));
    assert_eq!(jump.step(false, false, dt()), JumpAction::Brake);
    assert_eq!(jump.step(true, false, dt()), JumpAction::Sustain);
    assert_eq!(jump.remaining_jumps, 1);
}

#[test]
fn coyote_window_allows_a_late_first_jump() {
    let mut jump = Jump::default();
    assert_eq!(jump.step(false, true, dt()), JumpAction::Idle);
    assert_eq!(jump.coyote_timer, jump.coyote_duration);
    idle_in_the_air(&mut jump, 5);
    assert_eq!(jump.coyote_timer.raw, 200_000 - 5 * DT);
    assert_eq!(jump.remaining_jumps, jump.jumps);
    assert_eq!(jump.step(true, false, dt()), JumpAction::Fire);
    assert_eq!(jump.remaining_jumps, 0);
}

#[test]
fn coyote_window_runs_out() {
    let mut jump = Jump::default();
    assert_eq!(jump.step(false, true, dt()), JumpAction::Idle);
    idle_in_the_air(&mut jump, 12);
    assert_eq!(jump.coyote_timer.raw, 0);
    assert_eq!(jump.step(true, false, dt()), JumpAction::Idle);
    assert_eq!(jump.remaining_jumps, 1);
    assert_eq!(jump.buffer_timer, jump.buffer_duration);
}

#[test]
fn buffered_jump_fires_on_landing_and_not_before() {
    let mut jump = Jump::default();
    assert_eq!(jump.step(true, false, dt()), JumpAction::Idle);
    assert_eq!(jump.buffer_timer, jump.buffer_duration);
    for tick in 0..5 {
        let held = tick < 2;
        assert_eq!(jump.step(held, false, dt()), JumpAction::Idle);
    }
    assert_eq!(jump.step(false, true, dt()), JumpAction::Fire);
    assert_eq!(jump.remaining_jumps, 0);
    assert_eq!(jump.jump_timer, jump.jump_duration);
}

#[test]
fn buffered_jump_is_forgotten_after_the_buffer() {
    let mut jump = Jump::default();
    assert_eq!(jump.step(true, false, dt()), JumpAction::Idle);
    idle_in_the_air(&mut jump, 18);
    assert_eq!(jump.buffer_timer.raw, 0);
    assert_eq!(jump.step(false, true, dt()), JumpAction::Idle);
    assert_eq!(jump.remaining_jumps, 1);
}

#[test]
fn holding_the_control_does_not_jump_again() {
    let mut jump = Jump::default();
    jump.cooldown_duration = secs(0.0);
    jump.buffer_duration = secs(0.0);
    assert_eq!(jump.step(true, true, dt()), JumpAction::Fire);
    for _ in 0..30 {
        assert_ne!(jump.step(true, true, dt()), JumpAction::Fire);
    }
    assert_eq!(jump.step(false, true, dt()), JumpAction::Idle);
    assert_eq!(jump.step(true, true, dt()), JumpAction::Fire);
}

#[test]
fn remaining_jumps_stay_within_bounds() {
    let mut jump = Jump::default();
    jump.jumps = 3;
    jump.remaining_jumps = 3;
    let mut state: u32 = 12_345;
    for _ in 0..5_000 {
        state = state.wrapping_mul(1_103_515_245).wrapping_add(12_345);
        let pressed = (state >> 16) & 3 == 0;
        let grounded = (state >> 20) & 7 == 0;
        let before = jump.remaining_jumps;
        let cooled = jump.cooldown_timer.raw <= DT;
        let action = jump.step(pressed, grounded, dt());
        assert!(jump.remaining_jumps <= jump.jumps);
        assert_eq!(jump.jumps, 3);
        if jump.remaining_jumps < before {
            assert_eq!(action, JumpAction::Fire);
        }
        if jump.remaining_jumps > before {
            assert!(grounded && cooled);
        }
        if action == JumpAction::Fire {
            let restored = if grounded && cooled { 3 } else { before };
            assert_eq!(jump.remaining_jumps, restored - 1);
        }
    }
}

#[test]
fn starting_a_jump_cancels_the_fall_and_clears_float_and_gravity() {
    let mut force = JumpForce { linear: v3(9.0, 9.0, 9.0) };
    let mut float_force = FloatForce { linear: v3(0.0, 5.0, 0.0) };
    let mut gravity_force = GravityForce { linear: v3(0.0, -40.0, 0.0) };
    let mut jump = Jump::default();
    let mut ground_caster = caster();
    let input = ControllerInput { movement: Vec3::zero(), jumping: true };
    let velocity = ControllerVelocity { linear: v3(1.0, -2.0, 0.0), angular: Vec3::zero() };
    let mass = ControllerMass { mass: secs(2.0), inertia: secs(1.0) };
    jump_force(
        &mut force,
        &mut float_force,
        &mut gravity_force,
        &mut jump,
        &input,
        &mut ground_caster,
        &flat_ground(Vec3::zero()),
        &up(),
        &velocity,
        &mass,
        dt(),
    );
    assert_eq!(force.linear, Vec3::new(secs(0.0), Fixed::from_raw(269_995_200), secs(0.0)));
    assert_eq!(float_force.linear, Vec3::zero());
    assert_eq!(gravity_force.linear, Vec3::zero());
    assert_eq!(jump.remaining_jumps, 0);
    assert_eq!(jump.cooldown_timer, secs(0.25));
    assert_eq!(jump.jump_timer, secs(0.1));
    assert!(jump.pressed_last_frame);
    assert_eq!(ground_caster.skip_ground_check_timer, secs(0.0));
}

#[test]
fn sustaining_a_jump_pushes_up_and_suppresses_ground_sensing() {
    let mut force = JumpForce { linear: Vec3::zero() };
    let mut float_force = FloatForce { linear: v3(0.0, 5.0, 0.0) };
    let mut gravity_force = GravityForce { linear: v3(0.0, -40.0, 0.0) };
    let mut jump = Jump::default();
    let mut ground_caster = caster();
    let input = ControllerInput { movement: Vec3::zero(), jumping: true };
    let velocity = ControllerVelocity { linear: Vec3::zero(), angular: Vec3::zero() };
    let mass = ControllerMass { mass: secs(1.0), inertia: secs(1.0) };
    assert_eq!(jump.step(true, true, dt()), JumpAction::Fire);
    jump_force(
        &mut force,
        &mut float_force,
        &mut gravity_force,
        &mut jump,
        &input,
        &mut ground_caster,
        &GroundCast::new(),
        &up(),
        &velocity,
        &mass,
        dt(),
    );
    assert_eq!(jump.jump_timer.raw, 83_333);
    assert_eq!(force.linear, Vec3::new(secs(0.0), Fixed::from_raw(18_257_380), secs(0.0)));
    assert_eq!(ground_caster.skip_ground_check_timer, secs(0.3));
    assert_eq!(float_force.linear, v3(0.0, 5.0, 0.0));
    assert_eq!(gravity_force.linear, v3(0.0, -40.0, 0.0));
}

#[test]
fn releasing_the_control_brakes_the_jump() {
    let mut force = JumpForce { linear: Vec3::zero() };
    let mut float_force = FloatForce { linear: Vec3::zero() };
    let mut gravity_force = GravityForce { linear: v3(0.0, -40.0, 0.0) };
    let mut jump = Jump::default();
    let mut ground_caster = caster();
    let input = ControllerInput { movement: Vec3::zero(), jumping: false };
    let velocity = ControllerVelocity { linear: v3(2.0, 3.0, 0.0), angular: Vec3::zero() };
    let mass = ControllerMass { mass: secs(1.0), inertia: secs(1.0) };
    assert_eq!(jump.step(true, true, dt()), JumpAction::Fire);
    jump_force(
        &mut force,
        &mut float_force,
        &mut gravity_force,
        &mut jump,
        &input,
        &mut ground_caster,
        &GroundCast::new(),
        &up(),
        &velocity,
        &mass,
        dt(),
    );
    assert_eq!(force.linear, v3(0.0, -0.9, 0.0));
    assert_eq!(ground_caster.skip_ground_check_timer, secs(0.0));
    assert_eq!(gravity_force.linear, v3(0.0, -40.0, 0.0));
    assert!(!jump.pressed_last_frame);
}

#[test]
fn no_jump_means_no_jump_force() {
    let mut force = JumpForce { linear: v3(1.0, 2.0, 3.0) };
    let mut float_force = FloatForce { linear: v3(0.0, 5.0, 0.0) };
    let mut gravity_force = GravityForce { linear: v3(0.0, -40.0, 0.0) };
    let mut jump = Jump::default();
    let mut ground_caster = caster();
    let input = ControllerInput { movement: Vec3::zero(), jumping: false };
    let velocity = ControllerVelocity { linear: v3(2.0, 3.0, 0.0), angular: Vec3::zero() };
    let mass = ControllerMass { mass: secs(1.0), inertia: secs(1.0) };
    jump_force(
        &mut force,
        &mut float_force,
        &mut gravity_force,
        &mut jump,
        &input,
        &mut ground_caster,
        &flat_ground(Vec3::zero()),
        &up(),
        &velocity,
        &mass,
        dt(),
    );
    assert_eq!(force.linear, Vec3::zero());
    assert_eq!(float_force.linear, v3(0.0, 5.0, 0.0));
    assert_eq!(jump.coyote_timer, jump.coyote_duration);
    assert_eq!(jump.remaining_jumps, 1);
}

#[test]
fn a_jump_from_a_rising_platform_cancels_only_the_relative_velocity() {
    let mut force = JumpForce { linear: Vec3::zero() };
    let mut float_force = FloatForce { linear: Vec3::zero() };
    let mut gravity_force = GravityForce { linear: Vec3::zero() };
    let mut jump = Jump::default();
    let mut ground_caster = caster();
    let input = ControllerInput { movement: Vec3::zero(), jumping: true };
    let velocity = ControllerVelocity { linear: v3(0.0, 3.0, 0.0), angular: Vec3::zero() };
    let mass = ControllerMass { mass: secs(1.0), inertia: secs(1.0) };
    jump_force(
        &mut force,
        &mut float_force,
        &mut gravity_force,
        &mut jump,
        &input,
        &mut ground_caster,
        &flat_ground(v3(0.0, 1.0, 0.0)),
        &up(),
        &velocity,
        &mass,
        dt(),
    );
    assert_eq!(force.linear, Vec3::new(secs(0.0), Fixed::from_raw(-89_997_600), secs(0.0)));
}

#[test]
fn jump_impulse_for_each_action() {
    let jump = Jump::default();
    let up = v3(0.0, 1.0, 0.0);
    let velocity = v3(0.0, 3.0, 0.0);
    assert_eq!(
        jump_impulse(&jump, JumpAction::Idle, up, velocity, secs(1.0), dt()),
        Vec3::zero()
    );
    assert_eq!(
        jump_impulse(&jump, JumpAction::Brake, up, velocity, secs(1.0), dt()),
        v3(0.0, -0.9, 0.0)
    );
    assert_eq!(
        jump_impulse(&jump, JumpAction::Sustain, up, velocity, secs(1.0), dt()),
        v3(0.0, 0.0, 0.0)
    );
    assert_eq!(
        jump_impulse(&jump, JumpAction::Fire, up, Vec3::zero(), secs(1.0), dt()),
        v3(0.0, 30.0, 0.0)
    );
}
