use wanderlust::fixed::Fixed;
use wanderlust::jump::DecayCurve;
use wanderlust::settings::ControllerSettings;
use wanderlust::vec3::Vec3;

fn c(value: f64) -> Fixed {
    Fixed::from_raw((value * 1_000_000.0).round() as i64)
}

fn c3(x: f64, y: f64, z: f64) -> Vec3 {
    Vec3::new(c(x), c(y), c(z))
}

#[test]
fn default_settings_do_not_do_much() {
    let settings = ControllerSettings::default();
    assert_eq!(settings.acceleration, c(0.0));
    assert_eq!(settings.max_speed, c(0.0));
    assert_eq!(settings.max_acceleration_force, c(0.0));
    assert_eq!(settings.up_vector, Vec3::zero());
    assert_eq!(settings.forward_vector, Vec3::zero());
    assert_eq!(settings.gravity, c(0.0));
    assert_eq!(settings.max_ground_angle_cos, c(1.0));
    assert_eq!(settings.jump_time, c(1.0));
    assert_eq!(settings.jump_decay_function, None);
    assert!(!settings.skip_ground_check_override);
    assert_eq!(settings.extra_jumps, 0);
    assert_eq!(settings.force_scale, Vec3::zero());
    assert_eq!(settings.float_cast_radius, c(1.0));
    assert_eq!(settings.float_spring.strength, c(0.0));
    assert_eq!(settings.float_spring.damping, c(0.0));
    assert_eq!(settings.upright_spring.strength, c(0.0));
    assert!(settings.exclude_from_ground.is_empty());
    assert_eq!(settings.opposing_impulse_scale, c(1.0));
    assert_eq!(settings.opposing_movement_impulse_scale, c(1.0));
}

#[test]
fn character_preset() {
    let settings = ControllerSettings::character();
    assert_eq!(settings.acceleration, c(50.0));
    assert_eq!(settings.max_speed, c(10.0));
    assert_eq!(settings.max_acceleration_force, c(10.0));
    assert_eq!(settings.up_vector, c3(0.0, 1.0, 0.0));
    assert_eq!(settings.gravity, c(-20.0));
    assert_eq!(settings.max_ground_angle_cos.raw, 707_106);
    assert_eq!(settings.min_float_offset, c(-0.3));
    assert_eq!(settings.max_float_offset, c(0.05));
    assert_eq!(settings.jump_time, c(0.5));
    assert_eq!(settings.jump_initial_force, c(15.0));
    assert_eq!(settings.jump_force, c(0.0));
    assert_eq!(settings.jump_stop_force, c(0.3));
    assert_eq!(settings.jump_decay_function, Some(DecayCurve::Sqrt));
    assert_eq!(settings.jump_skip_ground_check_duration, c(0.5));
    assert_eq!(settings.coyote_time_duration, c(0.16));
    assert_eq!(settings.jump_buffer_duration, c(0.16));
    assert_eq!(settings.force_scale, c3(1.0, 0.0, 1.0));
    assert_eq!(settings.float_cast_length, c(1.0));
    assert_eq!(settings.float_cast_origin, Vec3::zero());
    assert_eq!(settings.float_cast_radius, c(0.45));
    assert_eq!(settings.float_distance, c(0.55));
    assert_eq!(settings.float_spring.strength, c(100.0));
    assert_eq!(settings.float_spring.damping, c(0.8));
    assert_eq!(settings.upright_spring.strength, c(10.0));
    assert_eq!(settings.upright_spring.damping, c(0.5));
    assert_eq!(settings.extra_jumps, 0);
    assert!(settings.exclude_from_ground.is_empty());
    assert_eq!(settings.opposing_impulse_scale, c(1.0));
    assert_eq!(settings.opposing_movement_impulse_scale, c(1.0));
}

#[test]
fn starship_preset() {
    let settings = ControllerSettings::starship();
    assert_eq!(settings.acceleration, c(0.3));
    assert_eq!(settings.max_speed, c(100.0));
    assert_eq!(settings.max_acceleration_force, c(10.0));
    assert_eq!(settings.up_vector, c3(0.0, 1.0, 0.0));
    assert_eq!(settings.force_scale, c3(1.0, 1.0, 1.0));
    assert_eq!(settings.upright_spring.strength, c(0.0));
    assert_eq!(settings.upright_spring.damping, c(0.0));
    assert_eq!(settings.gravity, c(0.0));
    assert_eq!(settings.jump_time, c(1.0));
    assert_eq!(settings.jump_decay_function, None);
    assert_eq!(settings.float_cast_radius, c(1.0));
    assert_eq!(settings.float_distance, c(0.0));
}
