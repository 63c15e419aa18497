//! Stateful steering-actuator model: per-tick position, speed and hydraulic
//! fluid-flow update.
//!
//! Each simulation tick the actuator derives a pressure-limited maximum
//! angular speed, drives its position toward the commanded target at a
//! smoothed speed (snapping onto the target when a tick would overshoot
//! it), and converts the motion into the fluid volume pushed to the
//! actuator and returned to the reservoir.  While a tow tug's steering pin
//! is inserted, the wheel instead follows the tug's angle directly and the
//! servo loop is bypassed.
//!
//! Quantities are scaled integers: angles in milli-degrees, angular speeds
//! in milli-degrees per second, pressure in psi, time in milliseconds,
//! piston area in square millimetres, volume in nanolitres.

use vstd::prelude::*;

use crate::num::{
    clamp_i64, clamp_spec, div_trunc, isqrt, lemma_div_trunc_bounds, lemma_sqrt_floor_le,
    sqrt_floor,
};

verus! {

/// Below this supply pressure the hydraulic servo cannot move the wheel.
pub const MIN_PRESSURE_ALLOWING_STEERING_PSI: u64 = 300;

/// Pressure at which the actuator reaches exactly its nominal speed.
pub const REFERENCE_PRESS_FOR_NOMINAL_SPEED_PSI: u64 = 2000;

/// Largest supply pressure the model accepts; keeps the square-root
/// scaling within `u64`.
pub const MAX_PRESSURE_PSI: u64 = 1_000_000;

/// Largest single tick the model accepts, in milliseconds; keeps the
/// position integration within `i64`.
pub const MAX_DELTA_MS: u64 = 10_000;

/// Largest admissible mechanical half-travel, in milli-degrees.
pub const MAX_HALF_ANGLE_MDEG: i64 = 1_000_000;

/// Largest admissible nominal angular speed, in milli-degrees per second.
pub const MAX_NOMINAL_SPEED_MDEG_S: i64 = 1_000_000;

/// Largest admissible angular-to-linear gearing ratio, in thousandths.
pub const MAX_RATIO_MILLI: i64 = 10_000;

/// Largest admissible actuator bore diameter, in millimetres.
pub const MAX_DIAMETER_MM: i64 = 300;

/// Largest piston area a valid diameter can produce, in square
/// millimetres.
pub const MAX_AREA_MM2: i64 = 70_686;

/// Hard bound on the angular speed: the nominal-speed cap scaled by the
/// square root of the largest admissible pressure ratio.
pub const SPEED_LIMIT_MDEG_S: i64 = 22_360_000;

/// Hard bound on the wheel position, in milli-degrees; a tow tug may push
/// the wheel this far, the servo never drives it past its travel limit.
pub const POSITION_LIMIT_MDEG: i64 = 1_000_000_000;

/// Microradians per degree, rounded down.
pub const URAD_PER_DEG: i64 = 17_453;

/// One million times the circle constant, rounded.
pub const PI_MICRO: i64 = 3_141_593;

/// Source of the tow-tug override: while the tug's steering pin is
/// inserted the wheel follows the tug's angle instead of the servo.
pub trait Pushback {
    /// Whether the tow tug's steering pin is inserted.
    fn is_nose_wheel_steering_pin_inserted(&self) -> bool;

    /// Steering angle imposed by the tug, in milli-degrees.  Collaborators
    /// keep it within the representable command range.
    fn steering_angle(&self) -> (r: i64)
        ensures
            -POSITION_LIMIT_MDEG <= r <= POSITION_LIMIT_MDEG,
    ;
}

/// Source of the commanded steering angle (pedals, tiller or autopilot).
pub trait SteeringController {
    /// Requested steering position, in milli-degrees.
    fn requested_position(&self) -> i64;
}

/// Why a set of construction parameters was rejected.
#[derive(Clone, Copy, Debug, PartialEq, Eq, Structural)]
pub enum ActuatorConfigError {
    /// The half-travel angle is not positive or above the representable
    /// range.
    InvalidHalfAngle,
    /// The nominal speed is not positive or above the representable range.
    InvalidNominalSpeed,
    /// The bore diameter is not positive or above the representable range.
    InvalidDiameter,
    /// The gearing ratio is negative or above the representable range.
    InvalidRatio,
}

/// Mathematical state of the actuator: every field of
/// [`SteeringActuator`], widened to `int`.
#[verifier::ext_equal]
pub struct ActuatorModel {
    /// Wheel position, milli-degrees, signed, `0` = centered.
    pub current_position: int,
    /// Wheel angular speed, milli-degrees per second, signed.
    pub current_speed: int,
    /// Pressure-limited speed bound, milli-degrees per second, smoothed.
    pub max_speed: int,
    /// Mechanical half-travel, milli-degrees, positive.
    pub max_half_angle: int,
    /// Angular speed at the reference pressure, milli-degrees per second.
    pub nominal_speed: int,
    /// Angular-to-linear gearing ratio, thousandths.
    pub angular_to_linear_ratio: int,
    /// Piston area, square millimetres.
    pub actuator_area: int,
    /// Fluid pushed to the actuator this tick, nanolitres.
    pub volume_to_actuator: int,
    /// Fluid returned to the reservoir this tick, nanolitres.
    pub volume_to_reservoir: int,
}

/// The construction parameters carried in `m` are within their admissible
/// ranges.
pub open spec fn params_ok(m: ActuatorModel) -> bool {
    &&& 0 < m.max_half_angle <= MAX_HALF_ANGLE_MDEG
    &&& 0 < m.nominal_speed <= MAX_NOMINAL_SPEED_MDEG_S
    &&& 0 <= m.angular_to_linear_ratio <= MAX_RATIO_MILLI
    &&& 0 <= m.actuator_area <= MAX_AREA_MM2
}

/// The actuator state is well formed: parameters in range, speeds within
/// the hard speed bound, position within the hard position bound and, when
/// the wheel sits beyond its own travel limit (a tow tug can put it
/// there), moving back toward it; the two volume accumulators agree.
pub open spec fn wf(m: ActuatorModel) -> bool {
    &&& params_ok(m)
    &&& 0 <= m.max_speed <= SPEED_LIMIT_MDEG_S
    &&& -SPEED_LIMIT_MDEG_S <= m.current_speed <= SPEED_LIMIT_MDEG_S
    &&& -POSITION_LIMIT_MDEG <= m.current_position <= POSITION_LIMIT_MDEG
    &&& m.current_position > m.max_half_angle ==> m.current_speed <= 0
    &&& m.current_position < -m.max_half_angle ==> m.current_speed >= 0
    &&& m.volume_to_actuator == m.volume_to_reservoir
    &&& 0 <= m.volume_to_actuator
}

/// A tick's inputs are within the ranges the fixed-point arithmetic
/// admits.
pub open spec fn inputs_ok(delta_ms: int, pressure: int) -> bool {
    &&& 0 <= delta_ms <= MAX_DELTA_MS
    &&& 0 <= pressure <= MAX_PRESSURE_PSI
}

/// Piston area from the bore diameter: `pi * (diameter / 2)^2`, in square
/// millimetres.
pub open spec fn disc_area_mm2(diameter: int) -> int {
    (PI_MICRO * diameter * diameter) / 4_000_000
}

/// State of a freshly built actuator: centered, at rest, no flow.
pub open spec fn initial_model(
    max_half_angle: int,
    nominal_speed: int,
    diameter: int,
    angular_to_linear_ratio: int,
) -> ActuatorModel {
    ActuatorModel {
        current_position: 0,
        current_speed: 0,
        max_speed: 0,
        max_half_angle: max_half_angle,
        nominal_speed: nominal_speed,
        angular_to_linear_ratio: angular_to_linear_ratio,
        actuator_area: disc_area_mm2(diameter),
        volume_to_actuator: 0,
        volume_to_reservoir: 0,
    }
}

/// Angular speed the supply pressure allows: the nominal speed scaled by
/// the square root of the pressure over the reference pressure, zero below
/// the minimum steering pressure.  `sqrt(p / 2000)` is computed as
/// `sqrt_floor(500 * p) / 1000`.
pub open spec fn pressure_limited_speed(nominal: int, pressure: int) -> int {
    if pressure > MIN_PRESSURE_ALLOWING_STEERING_PSI {
        (nominal * sqrt_floor((500 * pressure) as nat)) / 1000
    } else {
        0
    }
}

/// The speed bound after one tick: the mean of the previous bound and the
/// bound the current pressure allows (a first-order low-pass).
pub open spec fn smoothed_max_speed(m: ActuatorModel, pressure: int) -> int {
    (m.max_speed + pressure_limited_speed(m.nominal_speed, pressure)) / 2
}

/// The requested angle clamped to the mechanical travel range.
pub open spec fn steering_target(m: ActuatorModel, requested: int) -> int {
    clamp_spec(requested, -m.max_half_angle, m.max_half_angle)
}

/// The wheel speed after one tick: driven toward the target at the
/// pressure-limited bound through `0.8 / 0.2` exponential smoothing, zero
/// once the target is reached.
pub open spec fn smoothed_speed(current: int, max_speed: int, target: int, position: int) -> int {
    if target > position {
        div_trunc(8 * current + 2 * max_speed, 10)
    } else if target < position {
        div_trunc(8 * current - 2 * max_speed, 10)
    } else {
        0
    }
}

/// One tick of the hydraulic servo: refresh the speed bound, drive the
/// speed toward the clamped target, integrate the position over the tick,
/// and snap onto the target when the tick would overshoot it.  Volumes are
/// untouched here.
pub open spec fn servo_state(
    m: ActuatorModel,
    delta_ms: int,
    pressure: int,
    requested: int,
) -> ActuatorModel {
    let max2 = smoothed_max_speed(m, pressure);
    let target = steering_target(m, requested);
    let v = smoothed_speed(m.current_speed, max2, target, m.current_position);
    let pos = m.current_position + div_trunc(v * delta_ms, 1000);
    if (v > 0 && target < pos) || (v < 0 && target > pos) {
        ActuatorModel { current_speed: 0, current_position: target, max_speed: max2, ..m }
    } else {
        ActuatorModel { current_speed: v, current_position: pos, max_speed: max2, ..m }
    }
}

/// One tick under tow: the wheel follows the tug's angle instantly and the
/// servo speed is zeroed.  Volumes are untouched.
pub open spec fn tow_state(m: ActuatorModel, pushback_angle: int) -> ActuatorModel {
    ActuatorModel { current_speed: 0, current_position: pushback_angle, ..m }
}

/// Fluid volume displaced by one tick of motion at `speed`, in
/// nanolitres: the angular displacement magnitude converted to linear
/// piston travel through the gearing ratio, then to volume through the
/// piston area.
pub open spec fn tick_volume(speed: int, delta_ms: int, ratio: int, area: int) -> int {
    let speed_abs = if speed >= 0 { speed } else { -speed };
    let delta_mdeg = (speed_abs * delta_ms) / 1000;
    let delta_urad = (delta_mdeg * URAD_PER_DEG) / 1000;
    let linear_nm = delta_urad * ratio;
    let linear_um = linear_nm / 1000;
    linear_um * area
}

/// The full tick: servo mode unless the tow pin is inserted, then the
/// flow accounting over the new speed.  Under tow no flow is computed and
/// the volumes keep their last values.
pub open spec fn next_state(
    m: ActuatorModel,
    delta_ms: int,
    pressure: int,
    requested: int,
    pin_inserted: bool,
    pushback_angle: int,
) -> ActuatorModel {
    if pin_inserted {
        tow_state(m, pushback_angle)
    } else {
        let s = servo_state(m, delta_ms, pressure, requested);
        let vol = tick_volume(s.current_speed, delta_ms, m.angular_to_linear_ratio, m.actuator_area);
        ActuatorModel { volume_to_actuator: vol, volume_to_reservoir: vol, ..s }
    }
}

/// `n` ticks of [`next_state`] under constant inputs.
pub open spec fn run(
    m: ActuatorModel,
    n: nat,
    delta_ms: int,
    pressure: int,
    requested: int,
    pin_inserted: bool,
    pushback_angle: int,
) -> ActuatorModel
    decreases n,
{
    if n == 0 {
        m
    } else {
        next_state(
            run(m, (n - 1) as nat, delta_ms, pressure, requested, pin_inserted, pushback_angle),
            delta_ms,
            pressure,
            requested,
            pin_inserted,
            pushback_angle,
        )
    }
}

/// The pressure-limited speed is non-negative and within the hard speed
/// bound.
pub proof fn lemma_pressure_limited_speed_bounds(nominal: int, pressure: int)
    requires
        0 < nominal <= MAX_NOMINAL_SPEED_MDEG_S,
        0 <= pressure <= MAX_PRESSURE_PSI,
    ensures
        0 <= pressure_limited_speed(nominal, pressure) <= SPEED_LIMIT_MDEG_S,
{
    if pressure > MIN_PRESSURE_ALLOWING_STEERING_PSI {
        let n500 = (500 * pressure) as nat;
        assert(n500 < (22360 + 1) * (22360 + 1)) by (nonlinear_arith)
            requires
                n500 <= 500_000_000,
        ;
        lemma_sqrt_floor_le(n500, 22360);
        let s = sqrt_floor(n500);
        assert(0 <= nominal * s <= MAX_NOMINAL_SPEED_MDEG_S * 22360) by (nonlinear_arith)
            requires
                0 < nominal <= MAX_NOMINAL_SPEED_MDEG_S,
                0 <= s <= 22360,
        ;
        assert((nominal * s) / 1000 <= SPEED_LIMIT_MDEG_S) by (nonlinear_arith)
            requires
                0 <= nominal * s <= MAX_NOMINAL_SPEED_MDEG_S * 22360,
                MAX_NOMINAL_SPEED_MDEG_S * 22360 == 1000 * SPEED_LIMIT_MDEG_S,
        ;
        assert((nominal * s) / 1000 >= 0) by (nonlinear_arith)
            requires
                nominal * s >= 0,
        ;
    }
}

/// The smoothed speed bound stays within `[0, SPEED_LIMIT_MDEG_S]`.
pub proof fn lemma_smoothed_max_speed_bounds(m: ActuatorModel, pressure: int)
    requires
        wf(m),
        0 <= pressure <= MAX_PRESSURE_PSI,
    ensures
        0 <= smoothed_max_speed(m, pressure) <= SPEED_LIMIT_MDEG_S,
{
    lemma_pressure_limited_speed_bounds(m.nominal_speed, pressure);
    let c = pressure_limited_speed(m.nominal_speed, pressure);
    assert(0 <= (m.max_speed + c) / 2 <= SPEED_LIMIT_MDEG_S) by (nonlinear_arith)
        requires
            0 <= m.max_speed <= SPEED_LIMIT_MDEG_S,
            0 <= c <= SPEED_LIMIT_MDEG_S,
    ;
}

/// The smoothed wheel speed stays within the hard speed bound.
pub proof fn lemma_smoothed_speed_bounds(current: int, max_speed: int, target: int, position: int)
    requires
        -SPEED_LIMIT_MDEG_S <= current <= SPEED_LIMIT_MDEG_S,
        0 <= max_speed <= SPEED_LIMIT_MDEG_S,
    ensures
        -SPEED_LIMIT_MDEG_S <= smoothed_speed(current, max_speed, target, position)
            <= SPEED_LIMIT_MDEG_S,
{
    if target > position {
        assert(-(10 * SPEED_LIMIT_MDEG_S) <= 8 * current + 2 * max_speed <= 10
            * SPEED_LIMIT_MDEG_S);
        lemma_div_trunc_scaled(8 * current + 2 * max_speed, 10, SPEED_LIMIT_MDEG_S as int);
    } else if target < position {
        assert(-(10 * SPEED_LIMIT_MDEG_S) <= 8 * current - 2 * max_speed <= 10
            * SPEED_LIMIT_MDEG_S);
        lemma_div_trunc_scaled(8 * current - 2 * max_speed, 10, SPEED_LIMIT_MDEG_S as int);
    }
}

/// A dividend bounded by `b * m` has its truncating quotient by `b`
/// bounded by `m`.
pub proof fn lemma_div_trunc_scaled(a: int, b: int, m: int)
    requires
        b > 0,
        0 <= m,
        -(b * m) <= a <= b * m,
    ensures
        -m <= div_trunc(a, b) <= m,
{
    if a >= 0 {
        assert(a / b <= m && a / b >= 0) by (nonlinear_arith)
            requires
                b > 0,
                0 <= a <= b * m,
        ;
    } else {
        assert((-a) / b <= m && (-a) / b >= 0) by (nonlinear_arith)
            requires
                b > 0,
                0 <= -a <= b * m,
        ;
    }
}

/// The displaced volume of a tick is never negative.
pub proof fn lemma_tick_volume_nonneg(speed: int, delta_ms: int, ratio: int, area: int)
    requires
        0 <= delta_ms,
        0 <= ratio,
        0 <= area,
    ensures
        0 <= tick_volume(speed, delta_ms, ratio, area),
{
    let speed_abs = if speed >= 0 { speed } else { -speed };
    crate::num::lemma_mul_le_nonneg(speed_abs, speed_abs, delta_ms, delta_ms);
    crate::num::lemma_div_le_nonneg(speed_abs * delta_ms, speed_abs * delta_ms, 1000);
    let delta_mdeg = (speed_abs * delta_ms) / 1000;
    crate::num::lemma_mul_le_nonneg(delta_mdeg, delta_mdeg, URAD_PER_DEG as int, URAD_PER_DEG as int);
    crate::num::lemma_div_le_nonneg(delta_mdeg * URAD_PER_DEG, delta_mdeg * URAD_PER_DEG, 1000);
    let delta_urad = (delta_mdeg * URAD_PER_DEG) / 1000;
    crate::num::lemma_mul_le_nonneg(delta_urad, delta_urad, ratio, ratio);
    crate::num::lemma_div_le_nonneg(delta_urad * ratio, delta_urad * ratio, 1000);
    let linear_um = (delta_urad * ratio) / 1000;
    crate::num::lemma_mul_le_nonneg(linear_um, linear_um, area, area);
}

/// A motionless tick displaces no fluid.
pub proof fn lemma_tick_volume_zero(delta_ms: int, ratio: int, area: int)
    ensures
        tick_volume(0, delta_ms, ratio, area) == 0,
{
    crate::num::lemma_zero_mul_div(delta_ms, 1000);
    assert((0int) / 1000 == 0) by (nonlinear_arith);
    assert(0 * URAD_PER_DEG == 0) by (nonlinear_arith);
    crate::num::lemma_zero_mul_div(ratio, 1000);
    assert(0 * area == 0) by (nonlinear_arith);
}

/// One servo tick keeps the state well formed, never drives the wheel
/// outward past its travel limit, and moves the position only between its
/// old value and the clamped target.
pub proof fn lemma_servo_state_wf(m: ActuatorModel, delta_ms: int, pressure: int, requested: int)
    requires
        wf(m),
        inputs_ok(delta_ms, pressure),
    ensures
        wf(servo_state(m, delta_ms, pressure, requested)),
        servo_state(m, delta_ms, pressure, requested).current_position <= m.current_position
            || servo_state(m, delta_ms, pressure, requested).current_position <= m.max_half_angle,
        servo_state(m, delta_ms, pressure, requested).current_position >= m.current_position
            || servo_state(m, delta_ms, pressure, requested).current_position >= -m.max_half_angle,
        servo_state(m, delta_ms, pressure, requested).volume_to_actuator == m.volume_to_actuator,
        servo_state(m, delta_ms, pressure, requested).volume_to_reservoir == m.volume_to_reservoir,
{
    lemma_smoothed_max_speed_bounds(m, pressure);
    let max2 = smoothed_max_speed(m, pressure);
    let target = steering_target(m, requested);
    lemma_smoothed_speed_bounds(m.current_speed, max2, target, m.current_position);
    let v = smoothed_speed(m.current_speed, max2, target, m.current_position);
    assert(-(1000 * (SPEED_LIMIT_MDEG_S * MAX_DELTA_MS / 1000)) <= v * delta_ms <= 1000 * (
    SPEED_LIMIT_MDEG_S * MAX_DELTA_MS / 1000)) by (nonlinear_arith)
        requires
            -SPEED_LIMIT_MDEG_S <= v <= SPEED_LIMIT_MDEG_S,
            0 <= delta_ms <= MAX_DELTA_MS,
    ;
    lemma_div_trunc_scaled(v * delta_ms, 1000, SPEED_LIMIT_MDEG_S * MAX_DELTA_MS / 1000);
    lemma_div_trunc_bounds(v * delta_ms, 1000, 1000 * (SPEED_LIMIT_MDEG_S * MAX_DELTA_MS / 1000));
    let delta = div_trunc(v * delta_ms, 1000);
    if v > 0 {
        assert(v * delta_ms >= 0) by (nonlinear_arith)
            requires
                v > 0,
                delta_ms >= 0,
        ;
        assert(m.current_position <= m.max_half_angle);
    }
    if v < 0 {
        assert(v * delta_ms <= 0) by (nonlinear_arith)
            requires
                v < 0,
                delta_ms >= 0,
        ;
        assert(m.current_position >= -m.max_half_angle);
    }
    if v == 0 {
        assert(v * delta_ms == 0) by (nonlinear_arith)
            requires
                v == 0,
        ;
    }
}

/// One full tick keeps the state well formed.
pub proof fn lemma_next_state_wf(
    m: ActuatorModel,
    delta_ms: int,
    pressure: int,
    requested: int,
    pin_inserted: bool,
    pushback_angle: int,
)
    requires
        wf(m),
        inputs_ok(delta_ms, pressure),
        -POSITION_LIMIT_MDEG <= pushback_angle <= POSITION_LIMIT_MDEG,
    ensures
        wf(next_state(m, delta_ms, pressure, requested, pin_inserted, pushback_angle)),
{
    if !pin_inserted {
        lemma_servo_state_wf(m, delta_ms, pressure, requested);
        let s = servo_state(m, delta_ms, pressure, requested);
        lemma_tick_volume_nonneg(
            s.current_speed,
            delta_ms,
            m.angular_to_linear_ratio,
            m.actuator_area,
        );
    }
}

/// A tick in servo mode never takes a wheel that is within its travel
/// range out of it.
pub proof fn lemma_travel_clamp_step(
    m: ActuatorModel,
    delta_ms: int,
    pressure: int,
    requested: int,
    pushback_angle: int,
)
    requires
        wf(m),
        inputs_ok(delta_ms, pressure),
        -m.max_half_angle <= m.current_position <= m.max_half_angle,
    ensures
        -m.max_half_angle <= next_state(
            m,
            delta_ms,
            pressure,
            requested,
            false,
            pushback_angle,
        ).current_position <= m.max_half_angle,
{
    lemma_servo_state_wf(m, delta_ms, pressure, requested);
}

impl View for SteeringActuator {
    type V = ActuatorModel;

    open spec fn view(&self) -> ActuatorModel {
        ActuatorModel {
            current_position: self.current_position as int,
            current_speed: self.current_speed as int,
            max_speed: self.max_speed as int,
            max_half_angle: self.max_half_angle as int,
            nominal_speed: self.nominal_speed as int,
            angular_to_linear_ratio: self.angular_to_linear_ratio as int,
            actuator_area: self.actuator_area as int,
            volume_to_actuator: self.total_volume_to_actuator as int,
            volume_to_reservoir: self.total_volume_to_reservoir as int,
        }
    }
}

impl SteeringActuator {
    /// Builds a centered actuator at rest.  `max_half_angle` is the
    /// mechanical travel limit in milli-degrees, `nominal_speed` the
    /// angular speed reached at the reference pressure in milli-degrees
    /// per second, `actuator_diameter` the bore in millimetres and
    /// `angular_to_linear_ratio` the gearing in thousandths.  Parameters
    /// outside their admissible ranges are rejected.
    pub fn new(
        max_half_angle: i64,
        nominal_speed: i64,
        actuator_diameter: i64,
        angular_to_linear_ratio: i64,
    ) -> (r: Result<SteeringActuator, ActuatorConfigError>)
        ensures
            r matches Ok(a) ==> a@ == initial_model(
                max_half_angle as int,
                nominal_speed as int,
                actuator_diameter as int,
                angular_to_linear_ratio as int,
            ) && wf(a@),
            r matches Ok(_) <==> 0 < max_half_angle <= MAX_HALF_ANGLE_MDEG && 0 < nominal_speed
                <= MAX_NOMINAL_SPEED_MDEG_S && 0 < actuator_diameter <= MAX_DIAMETER_MM && 0
                <= angular_to_linear_ratio <= MAX_RATIO_MILLI,
            r == Err::<SteeringActuator, ActuatorConfigError>(
                ActuatorConfigError::InvalidHalfAngle,
            ) <==> !(0 < max_half_angle <= MAX_HALF_ANGLE_MDEG),
            r == Err::<SteeringActuator, ActuatorConfigError>(
                ActuatorConfigError::InvalidNominalSpeed,
            ) <==> 0 < max_half_angle <= MAX_HALF_ANGLE_MDEG && !(0 < nominal_speed
                <= MAX_NOMINAL_SPEED_MDEG_S),
            r == Err::<SteeringActuator, ActuatorConfigError>(
                ActuatorConfigError::InvalidDiameter,
            ) <==> 0 < max_half_angle <= MAX_HALF_ANGLE_MDEG && 0 < nominal_speed
                <= MAX_NOMINAL_SPEED_MDEG_S && !(0 < actuator_diameter <= MAX_DIAMETER_MM),
            r == Err::<SteeringActuator, ActuatorConfigError>(
                ActuatorConfigError::InvalidRatio,
            ) <==> 0 < max_half_angle <= MAX_HALF_ANGLE_MDEG && 0 < nominal_speed
                <= MAX_NOMINAL_SPEED_MDEG_S && 0 < actuator_diameter <= MAX_DIAMETER_MM && !(0
                <= angular_to_linear_ratio <= MAX_RATIO_MILLI),
    {
        if max_half_angle <= 0 || max_half_angle > MAX_HALF_ANGLE_MDEG {
            return Err(ActuatorConfigError::InvalidHalfAngle);
        }
        if nominal_speed <= 0 || nominal_speed > MAX_NOMINAL_SPEED_MDEG_S {
            return Err(ActuatorConfigError::InvalidNominalSpeed);
        }
        if actuator_diameter <= 0 || actuator_diameter > MAX_DIAMETER_MM {
            return Err(ActuatorConfigError::InvalidDiameter);
        }
        if angular_to_linear_ratio < 0 || angular_to_linear_ratio > MAX_RATIO_MILLI {
            return Err(ActuatorConfigError::InvalidRatio);
        }
        proof {
            assert(0 <= PI_MICRO * actuator_diameter * actuator_diameter <= PI_MICRO
                * MAX_DIAMETER_MM * MAX_DIAMETER_MM) by (nonlinear_arith)
                requires
                    0 < actuator_diameter <= MAX_DIAMETER_MM,
            ;
            assert((PI_MICRO * actuator_diameter * actuator_diameter) / 4_000_000 <= MAX_AREA_MM2
                && (PI_MICRO * actuator_diameter * actuator_diameter) / 4_000_000 >= 0)
                by (nonlinear_arith)
                requires
                    0 <= PI_MICRO * actuator_diameter * actuator_diameter <= PI_MICRO
                        * MAX_DIAMETER_MM * MAX_DIAMETER_MM,
            ;
        }
        let area = (PI_MICRO * actuator_diameter * actuator_diameter) / 4_000_000;
        Ok(
            SteeringActuator {
                current_speed: 0,
                current_position: 0,
                max_half_angle,
                max_speed: 0,
                nominal_speed,
                angular_to_linear_ratio,
                total_volume_to_actuator: 0,
                total_volume_to_reservoir: 0,
                actuator_area: area,
            },
        )
    }

    /// One simulation tick, reading the commanded angle and the tow
    /// override from their collaborators; see [`Self::update_with`] for
    /// the transition itself.
    pub fn update(
        &mut self,
        delta_ms: u64,
        current_pressure: u64,
        steering_controller: &impl SteeringController,
        pushback_tug: &impl Pushback,
    )
        requires
            wf(old(self)@),
            delta_ms <= MAX_DELTA_MS,
            current_pressure <= MAX_PRESSURE_PSI,
        ensures
            wf(final(self)@),
            exists|requested: int, pin: bool, push: int|
                final(self)@ == next_state(
                    old(self)@,
                    delta_ms as int,
                    current_pressure as int,
                    requested,
                    pin,
                    push,
                ),
    {
        if !pushback_tug.is_nose_wheel_steering_pin_inserted() {
            let requested = steering_controller.requested_position();
            self.update_with(delta_ms, current_pressure, requested, false, 0);
            assert(self@ == next_state(
                old(self)@,
                delta_ms as int,
                current_pressure as int,
                requested as int,
                false,
                0,
            ));
        } else {
            let push = pushback_tug.steering_angle();
            self.update_with(delta_ms, current_pressure, 0, true, push);
            assert(self@ == next_state(
                old(self)@,
                delta_ms as int,
                current_pressure as int,
                0,
                true,
                push as int,
            ));
        }
    }

    /// One simulation tick over plain values: `delta_ms` since the last
    /// tick, the hydraulic supply pressure in psi, the commanded angle in
    /// milli-degrees, and the tow override (`pin_inserted` with the tug's
    /// angle).  The new state is exactly [`next_state`] of the old one; in
    /// particular, under tow the position equals the tug's angle and the
    /// speed is zero, in servo mode a position within the travel range
    /// stays within it, and the two reported volumes are equal.
    pub fn update_with(
        &mut self,
        delta_ms: u64,
        current_pressure: u64,
        requested_angle: i64,
        pin_inserted: bool,
        pushback_angle: i64,
    )
        requires
            wf(old(self)@),
            delta_ms <= MAX_DELTA_MS,
            current_pressure <= MAX_PRESSURE_PSI,
            -POSITION_LIMIT_MDEG <= pushback_angle <= POSITION_LIMIT_MDEG,
        ensures
            final(self)@ == next_state(
                old(self)@,
                delta_ms as int,
                current_pressure as int,
                requested_angle as int,
                pin_inserted,
                pushback_angle as int,
            ),
            wf(final(self)@),
            pin_inserted ==> final(self)@.current_position == pushback_angle
                && final(self)@.current_speed == 0,
            !pin_inserted && -old(self)@.max_half_angle <= old(self)@.current_position <= old(
                self,
            )@.max_half_angle ==> -old(self)@.max_half_angle <= final(self)@.current_position
                <= old(self)@.max_half_angle,
            final(self)@.volume_to_actuator == final(self)@.volume_to_reservoir,
    {
        let ghost m0 = self@;
        if !pin_inserted {
            self.update_max_speed(current_pressure);
            let limited_requested_angle = clamp_i64(
                requested_angle,
                -self.max_half_angle,
                self.max_half_angle,
            );
            proof {
                lemma_smoothed_speed_bounds(
                    m0.current_speed,
                    self@.max_speed,
                    limited_requested_angle as int,
                    m0.current_position,
                );
            }
            if limited_requested_angle > self.current_position {
                self.current_speed = (8 * self.current_speed + 2 * self.max_speed) / 10;
            } else if limited_requested_angle < self.current_position {
                self.current_speed = (8 * self.current_speed - 2 * self.max_speed) / 10;
            } else {
                self.current_speed = 0;
            }
            proof {
                assert(-(1000 * (SPEED_LIMIT_MDEG_S * MAX_DELTA_MS / 1000)) <= self@.current_speed
                    * delta_ms <= 1000 * (SPEED_LIMIT_MDEG_S * MAX_DELTA_MS / 1000))
                    by (nonlinear_arith)
                    requires
                        -SPEED_LIMIT_MDEG_S <= self@.current_speed <= SPEED_LIMIT_MDEG_S,
                        0 <= delta_ms <= MAX_DELTA_MS,
                ;
                lemma_div_trunc_scaled(
                    self@.current_speed * delta_ms,
                    1000,
                    SPEED_LIMIT_MDEG_S * MAX_DELTA_MS / 1000,
                );
            }
            self.current_position = self.current_position + (self.current_speed * (
            delta_ms as i64)) / 1000;
            if self.current_speed > 0 && limited_requested_angle < self.current_position
                || self.current_speed < 0 && limited_requested_angle > self.current_position {
                self.current_speed = 0;
                self.current_position = limited_requested_angle;
            }
            proof {
                lemma_servo_state_wf(
                    m0,
                    delta_ms as int,
                    current_pressure as int,
                    requested_angle as int,
                );
                assert(self@ =~= servo_state(
                    m0,
                    delta_ms as int,
                    current_pressure as int,
                    requested_angle as int,
                ));
            }
        } else {
            self.current_speed = 0;
            self.current_position = pushback_angle;
            proof {
                assert(self@ =~= tow_state(m0, pushback_angle as int));
            }
        }
        self.update_flow(delta_ms, pin_inserted);
        proof {
            assert(self@ =~= next_state(
                m0,
                delta_ms as int,
                current_pressure as int,
                requested_angle as int,
                pin_inserted,
                pushback_angle as int,
            ));
            lemma_next_state_wf(
                m0,
                delta_ms as int,
                current_pressure as int,
                requested_angle as int,
                pin_inserted,
                pushback_angle as int,
            );
        }
    }

    /// Refreshes the pressure-limited speed bound: the bound the current
    /// pressure allows, low-pass filtered against the previous bound.
    fn update_max_speed(&mut self, current_pressure: u64)
        requires
            wf(old(self)@),
            current_pressure <= MAX_PRESSURE_PSI,
        ensures
            final(self)@ == (ActuatorModel {
                max_speed: smoothed_max_speed(old(self)@, current_pressure as int),
                ..old(self)@
            }),
            0 <= final(self)@.max_speed <= SPEED_LIMIT_MDEG_S,
    {
        proof {
            lemma_pressure_limited_speed_bounds(self@.nominal_speed, current_pressure as int);
            lemma_smoothed_max_speed_bounds(self@, current_pressure as int);
        }
        let new_max_speed: i64 = if current_pressure > MIN_PRESSURE_ALLOWING_STEERING_PSI {
            let root = isqrt(500 * current_pressure);
            proof {
                assert(((500 * current_pressure) as nat) < (22360 + 1) * (22360 + 1))
                    by (nonlinear_arith)
                    requires
                        current_pressure <= 1_000_000,
                ;
                lemma_sqrt_floor_le((500 * current_pressure) as nat, 22360);
                assert(0 <= self.nominal_speed * (root as i64) <= MAX_NOMINAL_SPEED_MDEG_S * 22360)
                    by (nonlinear_arith)
                    requires
                        0 < self.nominal_speed <= MAX_NOMINAL_SPEED_MDEG_S,
                        0 <= root <= 22360,
                ;
            }
            (self.nominal_speed * (root as i64)) / 1000
        } else {
            0
        };
        self.max_speed = (self.max_speed + new_max_speed) / 2;
    }

    /// Converts this tick's motion into displaced fluid volume.  Under tow
    /// no flow is computed and the volumes keep their last values.
    fn update_flow(&mut self, delta_ms: u64, pin_inserted: bool)
        requires
            -SPEED_LIMIT_MDEG_S <= old(self)@.current_speed <= SPEED_LIMIT_MDEG_S,
            0 <= old(self)@.angular_to_linear_ratio <= MAX_RATIO_MILLI,
            0 <= old(self)@.actuator_area <= MAX_AREA_MM2,
            delta_ms <= MAX_DELTA_MS,
        ensures
            pin_inserted ==> final(self)@ == old(self)@,
            !pin_inserted ==> final(self)@ == (ActuatorModel {
                volume_to_actuator: tick_volume(
                    old(self)@.current_speed,
                    delta_ms as int,
                    old(self)@.angular_to_linear_ratio,
                    old(self)@.actuator_area,
                ),
                volume_to_reservoir: tick_volume(
                    old(self)@.current_speed,
                    delta_ms as int,
                    old(self)@.angular_to_linear_ratio,
                    old(self)@.actuator_area,
                ),
                ..old(self)@
            }),
    {
        if !pin_inserted {
            let speed_abs: i64 = if self.current_speed >= 0 {
                self.current_speed
            } else {
                -self.current_speed
            };
            proof {
                crate::num::lemma_mul_le_nonneg(
                    speed_abs as int,
                    SPEED_LIMIT_MDEG_S as int,
                    delta_ms as int,
                    MAX_DELTA_MS as int,
                );
                crate::num::lemma_div_le_nonneg(
                    speed_abs * delta_ms,
                    SPEED_LIMIT_MDEG_S * MAX_DELTA_MS,
                    1000,
                );
            }
            let delta_mdeg = (speed_abs * (delta_ms as i64)) / 1000;
            proof {
                crate::num::lemma_mul_le_nonneg(
                    delta_mdeg as int,
                    SPEED_LIMIT_MDEG_S * MAX_DELTA_MS / 1000,
                    URAD_PER_DEG as int,
                    URAD_PER_DEG as int,
                );
                crate::num::lemma_div_le_nonneg(
                    delta_mdeg * URAD_PER_DEG,
                    (SPEED_LIMIT_MDEG_S * MAX_DELTA_MS / 1000) * URAD_PER_DEG,
                    1000,
                );
            }
            let delta_urad = (delta_mdeg * URAD_PER_DEG) / 1000;
            proof {
                crate::num::lemma_mul_le_nonneg(
                    delta_urad as int,
                    (SPEED_LIMIT_MDEG_S * MAX_DELTA_MS / 1000) * URAD_PER_DEG / 1000,
                    self@.angular_to_linear_ratio,
                    MAX_RATIO_MILLI as int,
                );
                crate::num::lemma_div_le_nonneg(
                    delta_urad * self@.angular_to_linear_ratio,
                    ((SPEED_LIMIT_MDEG_S * MAX_DELTA_MS / 1000) * URAD_PER_DEG / 1000)
                        * MAX_RATIO_MILLI,
                    1000,
                );
            }
            let linear_nm = delta_urad * self.angular_to_linear_ratio;
            let linear_um = linear_nm / 1000;
            proof {
                crate::num::lemma_mul_le_nonneg(
                    linear_um as int,
                    (((SPEED_LIMIT_MDEG_S * MAX_DELTA_MS / 1000) * URAD_PER_DEG / 1000)
                        * MAX_RATIO_MILLI) / 1000,
                    self@.actuator_area,
                    MAX_AREA_MM2 as int,
                );
            }
            let volume_nl = linear_um * self.actuator_area;
            self.total_volume_to_actuator = volume_nl;
            self.total_volume_to_reservoir = volume_nl;
        }
    }

    /// Current wheel position, in milli-degrees.
    pub fn position_feedback(&self) -> (r: i64)
        ensures
            r == self@.current_position,
    {
        self.current_position
    }

    /// Current wheel position as a ratio of the half-travel, in
    /// thousandths: `1000` is full right deflection, `-1000` full left.
    /// Within `[-1000, 1000]` whenever the wheel is within its travel
    /// range.
    pub fn position_normalized(&self) -> (r: i64)
        requires
            wf(self@),
        ensures
            r == div_trunc(self@.current_position * 1000, self@.max_half_angle),
            -self@.max_half_angle <= self@.current_position <= self@.max_half_angle ==> -1000 <= r
                <= 1000,
    {
        proof {
            assert(-(1000 * POSITION_LIMIT_MDEG) <= self@.current_position * 1000 <= 1000
                * POSITION_LIMIT_MDEG) by (nonlinear_arith)
                requires
                    -POSITION_LIMIT_MDEG <= self@.current_position <= POSITION_LIMIT_MDEG,
            ;
            if -self@.max_half_angle <= self@.current_position <= self@.max_half_angle {
                assert(-(self@.max_half_angle * 1000) <= self@.current_position * 1000
                    <= self@.max_half_angle * 1000) by (nonlinear_arith)
                    requires
                        -self@.max_half_angle <= self@.current_position <= self@.max_half_angle,
                ;
                lemma_div_trunc_scaled(self@.current_position * 1000, self@.max_half_angle, 1000);
            }
        }
        (self.current_position * 1000) / self.max_half_angle
    }

    /// Fluid volume pushed to the actuator during the last tick, in
    /// nanolitres.
    pub fn used_volume(&self) -> (r: i64)
        ensures
            r == self@.volume_to_actuator,
    {
        self.total_volume_to_actuator
    }

    /// Fluid volume returned to the reservoir during the last tick, in
    /// nanolitres.
    pub fn reservoir_return(&self) -> (r: i64)
        ensures
            r == self@.volume_to_reservoir,
    {
        self.total_volume_to_reservoir
    }

    /// Clears both volume accumulators; the consumer calls this after
    /// reading them, once per tick.
    pub fn reset_volumes(&mut self)
        requires
            wf(old(self)@),
        ensures
            final(self)@ == (ActuatorModel {
                volume_to_actuator: 0,
                volume_to_reservoir: 0,
                ..old(self)@
            }),
            wf(final(self)@),
    {
        self.total_volume_to_reservoir = 0;
        self.total_volume_to_actuator = 0;
    }
}

/// Rate-limited, pressure-dependent steering actuator.
pub struct SteeringActuator {
    /// Wheel angular speed, milli-degrees per second, signed.
    pub current_speed: i64,
    /// Wheel position, milli-degrees, signed, `0` = centered.
    pub current_position: i64,
    /// Mechanical half-travel, milli-degrees; the servo keeps the wheel in
    /// `[-max_half_angle, max_half_angle]`.
    pub max_half_angle: i64,
    /// Pressure-limited speed bound, milli-degrees per second, smoothed.
    pub max_speed: i64,
    /// Angular speed at the reference pressure, milli-degrees per second.
    pub nominal_speed: i64,
    /// Angular-to-linear gearing ratio, thousandths.
    pub angular_to_linear_ratio: i64,
    /// Fluid pushed to the actuator this tick, nanolitres.
    pub total_volume_to_actuator: i64,
    /// Fluid returned to the reservoir this tick, nanolitres.
    pub total_volume_to_reservoir: i64,
    /// Piston area, square millimetres.
    pub actuator_area: i64,
}

} // verus!

