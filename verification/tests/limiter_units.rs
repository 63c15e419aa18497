//! Unit tests of the speed-dependent angle limiter: interpolation values,
//! both input modes and construction validation.

use nose_steering::limiter::{LimiterConfigError, SteeringAngleLimiter};

fn pedal_limiter() -> SteeringAngleLimiter {
    SteeringAngleLimiter::new(
        [0, 40_000, 130_000, 1_500_000, 2_800_000],
        [6_000, 6_000, 0, 0, 0],
    )
    .unwrap()
}

#[test]
fn ratio_mode_scales_the_table_bound() {
    let limiter = pedal_limiter();
    assert_eq!(limiter.angle_from_speed(20_000, 1000), 6_000);
    assert_eq!(limiter.angle_from_speed(20_000, -1000), -6_000);
    assert_eq!(limiter.angle_from_speed(20_000, 500), 3_000);
    assert_eq!(limiter.angle_from_speed(20_000, 0), 0);
}

#[test]
fn interpolation_is_linear_between_breakpoints() {
    let limiter = pedal_limiter();
    // Halfway between 40 and 130 knots the bound is half of 6 degrees.
    assert_eq!(limiter.angle_from_speed(85_000, 1000), 3_000);
    // A quarter of the way: 6 - 6/4 degrees.
    assert_eq!(limiter.angle_from_speed(62_500, 1000), 4_500);
}

#[test]
fn speeds_outside_the_table_use_the_edge_values() {
    let limiter = pedal_limiter();
    assert_eq!(limiter.angle_from_speed(-50_000, 1000), 6_000);
    assert_eq!(limiter.angle_from_speed(0, 1000), 6_000);
    assert_eq!(limiter.angle_from_speed(2_800_000, 1000), 0);
    assert_eq!(limiter.angle_from_speed(9_000_000, 1000), 0);
}

#[test]
fn raw_angle_mode_clamps_symmetrically() {
    let limiter = pedal_limiter();
    assert_eq!(limiter.limited_angle_from_speed(20_000, 90_000), 6_000);
    assert_eq!(limiter.limited_angle_from_speed(20_000, -90_000), -6_000);
    assert_eq!(limiter.limited_angle_from_speed(20_000, 3_000), 3_000);
    assert_eq!(limiter.limited_angle_from_speed(20_000, -2_000), -2_000);
    assert_eq!(limiter.limited_angle_from_speed(200_000, 90_000), 0);
}

#[test]
fn new_rejects_bad_tables() {
    assert_eq!(
        SteeringAngleLimiter::new([0, 40_000, 40_000, 1_500_000, 2_800_000], [0; 5]).err(),
        Some(LimiterConfigError::InvalidSpeedTable)
    );
    assert_eq!(
        SteeringAngleLimiter::new([10, 5, 20, 30, 40], [0; 5]).err(),
        Some(LimiterConfigError::InvalidSpeedTable)
    );
    assert_eq!(
        SteeringAngleLimiter::new([0, 1, 2, 3, 4], [0, 0, -1, 0, 0]).err(),
        Some(LimiterConfigError::InvalidAngleTable)
    );
    assert_eq!(
        SteeringAngleLimiter::new([0, 1, 2, 3, 4], [0, 0, 2_000_000, 0, 0]).err(),
        Some(LimiterConfigError::InvalidAngleTable)
    );
    assert!(SteeringAngleLimiter::new([0, 1, 2, 3, 4], [0, 1, 2, 3, 4]).is_ok());
}
