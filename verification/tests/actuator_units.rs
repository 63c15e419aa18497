//! Unit tests of the actuator over plain per-tick values: construction
//! validation, flow accounting and the numeric helpers.

use nose_steering::actuator::{ActuatorConfigError, SteeringActuator};
use nose_steering::num::isqrt;

fn actuator() -> SteeringActuator {
    SteeringActuator::new(75_000, 28_648, 150, 150).unwrap()
}

#[test]
fn new_computes_piston_area() {
    let a = actuator();
    assert_eq!(a.actuator_area, 17_671);
    assert_eq!(a.position_feedback(), 0);
    assert_eq!(a.used_volume(), 0);
    assert_eq!(a.reservoir_return(), 0);
}

#[test]
fn new_rejects_bad_parameters() {
    assert_eq!(
        SteeringActuator::new(0, 28_648, 150, 150).err(),
        Some(ActuatorConfigError::InvalidHalfAngle)
    );
    assert_eq!(
        SteeringActuator::new(-75_000, 28_648, 150, 150).err(),
        Some(ActuatorConfigError::InvalidHalfAngle)
    );
    assert_eq!(
        SteeringActuator::new(75_000, 0, 150, 150).err(),
        Some(ActuatorConfigError::InvalidNominalSpeed)
    );
    assert_eq!(
        SteeringActuator::new(75_000, -1, 150, 150).err(),
        Some(ActuatorConfigError::InvalidNominalSpeed)
    );
    assert_eq!(
        SteeringActuator::new(75_000, 28_648, 0, 150).err(),
        Some(ActuatorConfigError::InvalidDiameter)
    );
    assert_eq!(
        SteeringActuator::new(75_000, 28_648, 301, 150).err(),
        Some(ActuatorConfigError::InvalidDiameter)
    );
    assert_eq!(
        SteeringActuator::new(75_000, 28_648, 150, -1).err(),
        Some(ActuatorConfigError::InvalidRatio)
    );
    assert_eq!(
        SteeringActuator::new(75_000, 28_648, 150, 10_001).err(),
        Some(ActuatorConfigError::InvalidRatio)
    );
}

#[test]
fn first_powered_tick_matches_the_formulas() {
    let mut a = actuator();
    a.update_with(100, 3000, 90_000, false, 0);
    // max speed: (0 + 28648 * isqrt(1_500_000) / 1000) / 2 = 17_532;
    // speed: 2 * 17_532 / 10 = 3_506; position: 3_506 * 100 / 1000 = 350.
    assert_eq!(a.max_speed, 17_532);
    assert_eq!(a.current_speed, 3_506);
    assert_eq!(a.position_feedback(), 350);
    // 350 mdeg -> 6_108 urad -> 916_200 nm -> 916 um -> x 17_671 mm2.
    assert_eq!(a.used_volume(), 16_186_636);
    assert_eq!(a.reservoir_return(), 16_186_636);
}

#[test]
fn volumes_are_equal_every_tick_and_reset_clears_them() {
    let mut a = actuator();
    a.update_with(100, 3000, 60_000, false, 0);
    assert!(a.used_volume() > 0);
    let mut ticks = 0;
    while ticks < 30 {
        a.update_with(100, 3000, 60_000, false, 0);
        assert_eq!(a.used_volume(), a.reservoir_return());
        ticks += 1;
    }
    a.reset_volumes();
    assert_eq!(a.used_volume(), 0);
    assert_eq!(a.reservoir_return(), 0);
}

#[test]
fn towing_keeps_previous_volumes_and_zeroes_speed() {
    let mut a = actuator();
    a.update_with(100, 3000, 90_000, false, 0);
    let moved = a.used_volume();
    assert!(moved > 0);
    a.update_with(100, 3000, 90_000, true, 12_000);
    assert_eq!(a.position_feedback(), 12_000);
    assert_eq!(a.current_speed, 0);
    assert_eq!(a.used_volume(), moved);
    assert_eq!(a.reservoir_return(), moved);
}

#[test]
fn override_wins_over_any_request_and_pressure() {
    let mut a = actuator();
    a.update_with(100, 0, -90_000, true, -40_000);
    assert_eq!(a.position_feedback(), -40_000);
    assert_eq!(a.current_speed, 0);
    a.update_with(100, 1_000_000, 90_000, true, 5_000);
    assert_eq!(a.position_feedback(), 5_000);
    assert_eq!(a.current_speed, 0);
}

#[test]
fn normalized_position_is_a_thousandth_ratio() {
    let mut a = actuator();
    assert_eq!(a.position_normalized(), 0);
    a.update_with(100, 3000, 90_000, true, 37_500);
    assert_eq!(a.position_normalized(), 500);
    a.update_with(100, 3000, 90_000, true, -75_000);
    assert_eq!(a.position_normalized(), -1000);
    a.update_with(100, 3000, 90_000, true, -1);
    assert_eq!(a.position_normalized(), 0);
}

#[test]
fn isqrt_matches_known_roots() {
    assert_eq!(isqrt(0), 0);
    assert_eq!(isqrt(1), 1);
    assert_eq!(isqrt(3), 1);
    assert_eq!(isqrt(4), 2);
    assert_eq!(isqrt(999_999), 999);
    assert_eq!(isqrt(1_000_000), 1000);
    assert_eq!(isqrt(1_500_000), 1224);
    assert_eq!(isqrt(u64::MAX), 4_294_967_295);
}
