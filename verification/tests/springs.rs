use wanderlust::components::{
    ControllerMass, ControllerVelocity, FloatForce, Gravity, UprightForce,
};
use wanderlust::fixed::Fixed;
use wanderlust::ground::{Contact, GroundCast};
use wanderlust::jump::Jump;
use wanderlust::spring::{float_force, upright_force, Float, Spring, Upright};
use wanderlust::vec3::Vec3;

fn s(value: f64) -> Fixed {
    Fixed::from_raw((value * 1_000_000.0).round() as i64)
}

fn w(x: f64, y: f64, z: f64) -> Vec3 {
    Vec3::new(s(x), s(y), s(z))
}

fn float_spring() -> Spring {
    Spring { strength: s(100.0), damping: s(0.8) }
}

fn standing(distance: f64, stable: bool) -> GroundCast {
    let contact = Contact {
        entity: 1,
        point: Vec3::zero(),
        normal: w(0.0, 1.0, 0.0),
        distance: s(distance),
        stable,
        point_velocity: Vec3::zero(),
    };
    GroundCast { current: Some(contact), viable: vec![contact] }
}

fn float_of(cast: &GroundCast, jump: &Jump, velocity: Vec3) -> Vec3 {
    let mut force = FloatForce { linear: w(3.0, 3.0, 3.0) };
    float_force(
        &mut force,
        &Float { distance: s(0.55), spring: float_spring() },
        cast,
        jump,
        &Gravity { up_vector: w(0.0, 1.0, 0.0), acceleration: s(20.0) },
        &ControllerVelocity { linear: velocity, angular: Vec3::zero() },
        &ControllerMass { mass: s(1.0), inertia: s(1.0) },
    );
    force.linear
}

#[test]
fn damping_coefficient_is_a_share_of_critical_damping() {
    assert_eq!(float_spring().damp_coefficient(), s(16.0));
    assert_eq!(Spring { strength: s(100.0), damping: s(1.0) }.damp_coefficient(), s(20.0));
    assert_eq!(Spring { strength: s(0.0), damping: s(1.0) }.damp_coefficient(), s(0.0));
}

#[test]
fn spring_force_pulls_back_and_drags() {
    let spring = float_spring();
    assert_eq!(spring.force(s(-0.05), s(0.5), s(2.0)), s(-6.0));
    assert_eq!(spring.force(s(0.1), s(-1.0), s(1.0)), s(6.0));
    assert_eq!(spring.force(s(0.1), s(0.0), s(1.0)), s(-10.0));
    assert_eq!(spring.force(s(0.0), s(1.0), s(1.0)), s(-16.0));
    assert_eq!(spring.force(s(0.0), s(0.0), s(5.0)), s(0.0));
}

#[test]
fn a_slack_spring_exerts_no_force() {
    let slack = Spring { strength: s(0.0), damping: s(0.0) };
    assert_eq!(slack.force(s(3.0), s(-7.0), s(2.0)), s(0.0));
    assert_eq!(slack.force3(w(1.0, 2.0, 3.0), w(4.0, 5.0, 6.0), s(2.0)), Vec3::zero());
}

#[test]
fn float_force_lifts_a_body_that_sits_too_low() {
    let force = float_of(&standing(0.5, true), &Jump::default(), w(3.0, -1.0, 0.0));
    assert_eq!(force, w(0.0, 21.0, 0.0));
}

#[test]
fn float_force_is_zero_without_walkable_ground_or_during_a_jump() {
    assert_eq!(float_of(&GroundCast::new(), &Jump::default(), w(0.0, -1.0, 0.0)), Vec3::zero());
    assert_eq!(float_of(&standing(0.5, false), &Jump::default(), w(0.0, -1.0, 0.0)), Vec3::zero());
    let mut jumping = Jump::default();
    jumping.jump_timer = s(0.05);
    assert_eq!(float_of(&standing(0.5, true), &jumping, w(0.0, -1.0, 0.0)), Vec3::zero());
}

#[test]
fn upright_force_turns_the_body_toward_the_up_vector() {
    let mut force = UprightForce { angular: w(9.0, 9.0, 9.0) };
    upright_force(
        &mut force,
        &Upright { spring: Spring { strength: s(10.0), damping: s(0.5) } },
        w(0.1, 0.99, 0.0),
        &Gravity { up_vector: w(0.0, 1.0, 0.0), acceleration: s(20.0) },
        &ControllerVelocity { linear: Vec3::zero(), angular: w(0.0, 0.0, 0.2) },
        &ControllerMass { mass: s(1.0), inertia: s(1.0) },
    );
    assert_eq!(force.angular, Vec3::new(s(0.0), s(0.0), Fixed::from_raw(367_545)));
}

#[test]
fn a_disabled_upright_spring_lets_the_body_tumble() {
    let mut force = UprightForce { angular: w(9.0, 9.0, 9.0) };
    upright_force(
        &mut force,
        &Upright { spring: Spring { strength: s(0.0), damping: s(0.0) } },
        w(1.0, 0.0, 0.0),
        &Gravity { up_vector: w(0.0, 1.0, 0.0), acceleration: s(20.0) },
        &ControllerVelocity { linear: Vec3::zero(), angular: w(3.0, 2.0, 1.0) },
        &ControllerMass { mass: s(1.0), inertia: s(4.0) },
    );
    assert_eq!(force.angular, Vec3::zero());
}
