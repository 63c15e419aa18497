//! Scenario tests driving the actuator through its trait-based tick, with
//! a 100 ms tick: angles in milli-degrees, speeds in milli-degrees per
//! second, pressure in psi.

use nose_steering::actuator::{Pushback, SteeringActuator, SteeringController};
use nose_steering::limiter::SteeringAngleLimiter;

struct TestPushBack {
    steering: i64,
    is_connected: bool,
}

impl TestPushBack {
    fn new() -> Self {
        Self { steering: 0, is_connected: false }
    }

    fn set_pin_inserted(&mut self) {
        self.is_connected = true;
    }

    fn set_steer_angle(&mut self, angle: i64) {
        self.steering = angle;
    }
}

impl Pushback for TestPushBack {
    fn is_nose_wheel_steering_pin_inserted(&self) -> bool {
        self.is_connected
    }

    fn steering_angle(&self) -> i64 {
        self.steering
    }
}

struct TestSteeringController {
    requested_position: i64,
}

impl TestSteeringController {
    fn new() -> Self {
        Self { requested_position: 0 }
    }

    fn set_requested_position(&mut self, requested_position: i64) {
        self.requested_position = requested_position;
    }
}

impl SteeringController for TestSteeringController {
    fn requested_position(&self) -> i64 {
        self.requested_position
    }
}

struct TestAircraft {
    steering_actuator: SteeringActuator,
    controller: TestSteeringController,
    pressure: u64,
    pushback: TestPushBack,
}

impl TestAircraft {
    fn new() -> Self {
        Self {
            steering_actuator: steering_actuator(),
            controller: TestSteeringController::new(),
            pressure: 0,
            pushback: TestPushBack::new(),
        }
    }

    fn set_pressure(&mut self, pressure: u64) {
        self.pressure = pressure;
    }

    fn command_steer_angle(&mut self, angle: i64) {
        self.controller.set_requested_position(angle);
    }

    fn command_pushback_angle(&mut self, angle: i64) {
        self.pushback.set_steer_angle(angle);
    }

    fn set_pushback(&mut self) {
        self.pushback.set_pin_inserted();
    }

    fn run_ms(&mut self, duration_ms: u64) {
        let mut elapsed: u64 = 0;
        while elapsed < duration_ms {
            self.steering_actuator.update(100, self.pressure, &self.controller, &self.pushback);
            elapsed += 100;
        }
    }
}

/// A 75-degree half travel, 0.5 rad/s (28648 mdeg/s) nominal speed, a
/// 150 mm bore and a 0.15 gearing ratio.
fn steering_actuator() -> SteeringActuator {
    SteeringActuator::new(75_000, 28_648, 150, 150).unwrap()
}

/// Speed map 0 / 40 / 130 / 1500 / 2800 knots, angle bound 6 / 6 / 0 / 0 /
/// 0 degrees.
fn pedal_steer_command() -> SteeringAngleLimiter {
    const SPEED_MAP: [i64; 5] = [0, 40_000, 130_000, 1_500_000, 2_800_000];
    const STEERING_ANGLE: [i64; 5] = [6_000, 6_000, 0, 0, 0];
    SteeringAngleLimiter::new(SPEED_MAP, STEERING_ANGLE).unwrap()
}

/// Angles agree within 0.1 degree.
fn is_equal_angle(a1: i64, a2: i64) -> bool {
    const EPSILON_MDEG: i64 = 100;
    (a1 - a2).abs() <= EPSILON_MDEG
}

#[test]
fn init_with_zero_angle() {
    let mut test_bed = TestAircraft::new();

    let actuator_position_init = test_bed.steering_actuator.position_feedback();

    test_bed.run_ms(1000);

    assert!(is_equal_angle(
        test_bed.steering_actuator.position_feedback(),
        actuator_position_init
    ));

    let normalized_position = test_bed.steering_actuator.position_normalized();
    assert!(normalized_position == 0);
}

#[test]
fn steering_not_moving_without_pressure() {
    let mut test_bed = TestAircraft::new();

    let actuator_position_init = test_bed.steering_actuator.position_feedback();
    test_bed.set_pressure(0);
    test_bed.command_steer_angle(90_000);

    test_bed.run_ms(1000);

    assert!(is_equal_angle(
        test_bed.steering_actuator.position_feedback(),
        actuator_position_init
    ));

    test_bed.command_steer_angle(-90_000);

    test_bed.run_ms(1000);

    assert!(is_equal_angle(
        test_bed.steering_actuator.position_feedback(),
        actuator_position_init
    ));
}

#[test]
fn steering_not_moving_with_pushback_pin_inserted() {
    let mut test_bed = TestAircraft::new();

    let actuator_position_init = test_bed.steering_actuator.position_feedback();
    test_bed.set_pressure(3000);
    test_bed.command_steer_angle(90_000);
    test_bed.set_pushback();

    test_bed.run_ms(1000);

    assert!(is_equal_angle(
        test_bed.steering_actuator.position_feedback(),
        actuator_position_init
    ));

    test_bed.command_steer_angle(-90_000);

    test_bed.run_ms(1000);

    assert!(is_equal_angle(
        test_bed.steering_actuator.position_feedback(),
        actuator_position_init
    ));
}

#[test]
fn steering_driven_by_pushback_angle_when_pushing_back() {
    let mut test_bed = TestAircraft::new();

    test_bed.set_pressure(3000);
    test_bed.command_steer_angle(90_000);
    test_bed.set_pushback();
    test_bed.command_pushback_angle(12_000);

    test_bed.run_ms(1000);

    assert!(is_equal_angle(test_bed.steering_actuator.position_feedback(), 12_000));
}

#[test]
fn steering_moving_with_pressure_to_max_pos_less_than_3s() {
    let mut test_bed = TestAircraft::new();

    test_bed.set_pressure(3000);
    test_bed.command_steer_angle(90_000);

    test_bed.run_ms(3000);

    assert!(is_equal_angle(test_bed.steering_actuator.position_feedback(), 75_000));

    assert!(test_bed.steering_actuator.position_normalized() == 1000);

    test_bed.command_steer_angle(-90_000);
    test_bed.run_ms(6000);

    assert!(is_equal_angle(test_bed.steering_actuator.position_feedback(), -75_000));

    assert!(test_bed.steering_actuator.position_normalized() == -1000);
}

#[test]
fn steering_moving_only_by_6_deg_at_20_knot() {
    let mut test_bed = TestAircraft::new();

    let angle_limiter = pedal_steer_command();

    test_bed.set_pressure(3000);
    test_bed.command_steer_angle(angle_limiter.angle_from_speed(20_000, 1000));

    test_bed.run_ms(3000);

    assert!(is_equal_angle(test_bed.steering_actuator.position_feedback(), 6_000));

    test_bed.command_steer_angle(angle_limiter.angle_from_speed(20_000, -1000));

    test_bed.run_ms(6000);

    assert!(is_equal_angle(test_bed.steering_actuator.position_feedback(), -6_000));
}

#[test]
fn steering_response_is_symmetric() {
    let mut right = TestAircraft::new();
    let mut left = TestAircraft::new();

    right.set_pressure(3000);
    left.set_pressure(3000);
    right.command_steer_angle(30_000);
    left.command_steer_angle(-30_000);

    let mut elapsed: u64 = 0;
    while elapsed < 3000 {
        right.run_ms(100);
        left.run_ms(100);
        assert_eq!(
            right.steering_actuator.position_feedback(),
            -left.steering_actuator.position_feedback()
        );
        assert_eq!(right.steering_actuator.used_volume(), left.steering_actuator.used_volume());
        elapsed += 100;
    }
    assert_eq!(right.steering_actuator.position_feedback(), 30_000);
    assert_eq!(left.steering_actuator.position_feedback(), -30_000);
}

#[test]
fn requests_beyond_travel_stay_clamped() {
    let mut test_bed = TestAircraft::new();

    test_bed.set_pressure(3000);
    test_bed.command_steer_angle(1_000_000_000);

    let mut elapsed: u64 = 0;
    while elapsed < 5000 {
        test_bed.run_ms(100);
        let pos = test_bed.steering_actuator.position_feedback();
        assert!(-75_000 <= pos && pos <= 75_000);
        let norm = test_bed.steering_actuator.position_normalized();
        assert!(-1000 <= norm && norm <= 1000);
        elapsed += 100;
    }
    assert_eq!(test_bed.steering_actuator.position_feedback(), 75_000);
}
