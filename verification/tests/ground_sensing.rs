use wanderlust::fixed::Fixed;
use wanderlust::ground::{GroundCast, GroundCaster, GroundHit};
use wanderlust::vec3::Vec3;

fn m(value: f64) -> Fixed {
    Fixed::from_raw((value * 1_000_000.0).round() as i64)
}

fn p(x: f64, y: f64, z: f64) -> Vec3 {
    Vec3::new(m(x), m(y), m(z))
}

fn tilted(degrees: f64) -> Vec3 {
    let angle = degrees.to_radians();
    p(angle.sin(), angle.cos(), 0.0)
}

fn probe() -> GroundCaster {
    GroundCaster {
        skip_ground_check_timer: Fixed::zero(),
        cast_length: m(1.0),
        max_ground_angle_cos: m(45.0f64.to_radians().cos()),
    }
}

fn hit(normal: Vec3, distance: f64) -> GroundHit {
    GroundHit {
        entity: 11,
        point: p(0.0, -0.5, 0.0),
        normal,
        distance: m(distance),
        point_velocity: p(1.0, 0.0, 0.0),
    }
}

#[test]
fn a_sixty_degree_slope_is_unstable_under_a_forty_five_degree_limit() {
    let caster = probe();
    let up = p(0.0, 1.0, 0.0);
    assert!(!caster.classify(&hit(tilted(60.0), 0.5), up).stable);
    assert!(caster.classify(&hit(tilted(30.0), 0.5), up).stable);
    assert!(caster.classify(&hit(tilted(0.0), 0.5), up).stable);
    assert!(caster.classify(&hit(tilted(44.0), 0.5), up).stable);
    assert!(!caster.classify(&hit(tilted(46.0), 0.5), up).stable);
    assert!(!caster.classify(&hit(tilted(180.0), 0.5), up).stable);
}

#[test]
fn classify_copies_the_hit() {
    let contact = probe().classify(&hit(tilted(10.0), 0.25), p(0.0, 1.0, 0.0));
    assert_eq!(contact.entity, 11);
    assert_eq!(contact.point, p(0.0, -0.5, 0.0));
    assert_eq!(contact.normal, tilted(10.0));
    assert_eq!(contact.distance, m(0.25));
    assert_eq!(contact.point_velocity, p(1.0, 0.0, 0.0));
}

#[test]
fn a_hit_in_reach_grounds_the_body() {
    let mut caster = probe();
    let mut cast = GroundCast::new();
    assert!(!cast.grounded());
    assert_eq!(cast.ground_velocity(), Vec3::zero());
    caster.update(&mut cast, Some(hit(tilted(0.0), 1.0)), p(0.0, 1.0, 0.0), m(0.016667));
    assert!(cast.grounded());
    assert_eq!(cast.viable.len(), 1);
    assert_eq!(cast.ground_velocity(), p(1.0, 0.0, 0.0));
}

#[test]
fn a_steep_hit_is_a_contact_but_no_ground() {
    let mut caster = probe();
    let mut cast = GroundCast::new();
    caster.update(&mut cast, Some(hit(tilted(60.0), 0.5)), p(0.0, 1.0, 0.0), m(0.016667));
    assert!(cast.current.is_some());
    assert!(!cast.grounded());
    assert_eq!(cast.viable.len(), 1);
}

#[test]
fn a_hit_out_of_reach_is_no_contact() {
    let mut caster = probe();
    let mut cast = GroundCast::new();
    caster.update(&mut cast, Some(hit(tilted(0.0), 1.000001)), p(0.0, 1.0, 0.0), m(0.016667));
    assert!(cast.current.is_none());
    assert_eq!(cast.viable.len(), 0);
}

#[test]
fn the_last_contact_is_kept_for_one_tick() {
    let mut caster = probe();
    let mut cast = GroundCast::new();
    let up = p(0.0, 1.0, 0.0);
    caster.update(&mut cast, Some(hit(tilted(0.0), 0.5)), up, m(0.016667));
    caster.update(&mut cast, None, up, m(0.016667));
    assert!(cast.current.is_none());
    assert!(!cast.grounded());
    assert_eq!(cast.viable.len(), 1);
    assert_eq!(cast.ground_velocity(), p(1.0, 0.0, 0.0));
    caster.update(&mut cast, None, up, m(0.016667));
    assert_eq!(cast.viable.len(), 0);
    assert_eq!(cast.ground_velocity(), Vec3::zero());
}

#[test]
fn the_skip_timer_suppresses_sensing_until_it_runs_out() {
    let mut caster = probe();
    caster.skip_ground_check_timer = m(0.03);
    let mut cast = GroundCast::new();
    let up = p(0.0, 1.0, 0.0);
    assert!(!caster.should_cast());
    caster.update(&mut cast, Some(hit(tilted(0.0), 0.5)), up, m(0.016667));
    assert!(cast.current.is_none());
    assert_eq!(caster.skip_ground_check_timer.raw, 13_333);
    caster.update(&mut cast, Some(hit(tilted(0.0), 0.5)), up, m(0.016667));
    assert!(cast.current.is_none());
    assert_eq!(caster.skip_ground_check_timer.raw, 0);
    assert!(caster.should_cast());
    caster.update(&mut cast, Some(hit(tilted(0.0), 0.5)), up, m(0.016667));
    assert!(cast.grounded());
    assert_eq!(caster.cast_length, m(1.0));
}
