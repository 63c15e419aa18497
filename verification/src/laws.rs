//! Laws of the steering actuator, proved over the tick transition
//! [`next_state`] and its iteration [`run`].

use vstd::prelude::*;

use crate::actuator::{
    initial_model, inputs_ok, lemma_next_state_wf, lemma_pressure_limited_speed_bounds,
    lemma_travel_clamp_step, next_state, pressure_limited_speed, run, servo_state,
    smoothed_max_speed, smoothed_speed, steering_target, tick_volume, tow_state, wf,
    ActuatorModel,
    MAX_DELTA_MS, MAX_DIAMETER_MM, MAX_HALF_ANGLE_MDEG, MAX_NOMINAL_SPEED_MDEG_S,
    MAX_PRESSURE_PSI, MAX_RATIO_MILLI, MIN_PRESSURE_ALLOWING_STEERING_PSI, PI_MICRO,
    POSITION_LIMIT_MDEG, REFERENCE_PRESS_FOR_NOMINAL_SPEED_PSI,
};
use crate::num::{
    div_trunc, lemma_div_le_nonneg, lemma_div_trunc_mono, lemma_div_trunc_neg, lemma_sqrt_floor,
    sqrt_floor,
};

verus! {

/// A freshly built actuator is well formed.
pub proof fn lemma_initial_model_wf(
    max_half_angle: int,
    nominal_speed: int,
    diameter: int,
    angular_to_linear_ratio: int,
)
    requires
        0 < max_half_angle <= MAX_HALF_ANGLE_MDEG,
        0 < nominal_speed <= MAX_NOMINAL_SPEED_MDEG_S,
        0 < diameter <= MAX_DIAMETER_MM,
        0 <= angular_to_linear_ratio <= MAX_RATIO_MILLI,
    ensures
        wf(initial_model(max_half_angle, nominal_speed, diameter, angular_to_linear_ratio)),
{
    assert(0 <= PI_MICRO * diameter * diameter <= PI_MICRO * MAX_DIAMETER_MM * MAX_DIAMETER_MM)
        by (nonlinear_arith)
        requires
            0 < diameter <= MAX_DIAMETER_MM,
    ;
    lemma_div_le_nonneg(
        PI_MICRO * diameter * diameter,
        PI_MICRO * MAX_DIAMETER_MM * MAX_DIAMETER_MM,
        4_000_000,
    );
}

/// One tick at a state at rest (no speed, no stored speed bound, no
/// accumulated flow) with the supply pressure at or below the steering
/// threshold changes nothing, whatever angle is requested.
pub proof fn lemma_rest_step(
    m: ActuatorModel,
    delta_ms: int,
    pressure: int,
    requested: int,
    pushback_angle: int,
)
    requires
        wf(m),
        0 <= delta_ms <= MAX_DELTA_MS,
        0 <= pressure <= MIN_PRESSURE_ALLOWING_STEERING_PSI,
        m.current_speed == 0,
        m.max_speed == 0,
        m.volume_to_actuator == 0,
    ensures
        next_state(m, delta_ms, pressure, requested, false, pushback_angle) == m,
{
    assert(pressure_limited_speed(m.nominal_speed, pressure) == 0);
    assert(smoothed_max_speed(m, pressure) == 0);
    let target = steering_target(m, requested);
    assert((0int) / 10 == 0) by (nonlinear_arith);
    assert(smoothed_speed(0, 0, target, m.current_position) == 0);
    crate::num::lemma_zero_mul_div(delta_ms, 1000);
    assert(servo_state(m, delta_ms, pressure, requested) == (ActuatorModel {
        max_speed: 0,
        ..m
    }));
    crate::actuator::lemma_tick_volume_zero(
        delta_ms,
        m.angular_to_linear_ratio,
        m.actuator_area,
    );
    assert(next_state(m, delta_ms, pressure, requested, false, pushback_angle) =~= m);
}

/// Requesting any angle while the supply pressure is at or below the
/// steering threshold leaves an actuator at rest unchanged, for any number
/// of ticks.
pub proof fn lemma_no_motion_without_pressure(
    m: ActuatorModel,
    n: nat,
    delta_ms: int,
    pressure: int,
    requested: int,
    pushback_angle: int,
)
    requires
        wf(m),
        0 <= delta_ms <= MAX_DELTA_MS,
        0 <= pressure <= MIN_PRESSURE_ALLOWING_STEERING_PSI,
        m.current_speed == 0,
        m.max_speed == 0,
        m.volume_to_actuator == 0,
    ensures
        run(m, n, delta_ms, pressure, requested, false, pushback_angle) == m,
    decreases n,
{
    if n > 0 {
        lemma_no_motion_without_pressure(
            m,
            (n - 1) as nat,
            delta_ms,
            pressure,
            requested,
            pushback_angle,
        );
        lemma_rest_step(m, delta_ms, pressure, requested, pushback_angle);
    }
}

/// Any actuator at rest (no speed and no stored speed bound, whatever its
/// accumulators hold) keeps its position, for any number of ticks, while
/// the supply pressure stays at or below the steering threshold, whatever
/// angle is requested.
pub proof fn lemma_parked_position_holds(
    m: ActuatorModel,
    n: nat,
    delta_ms: int,
    pressure: int,
    requested: int,
    pushback_angle: int,
)
    requires
        wf(m),
        0 <= delta_ms <= MAX_DELTA_MS,
        0 <= pressure <= MIN_PRESSURE_ALLOWING_STEERING_PSI,
        -POSITION_LIMIT_MDEG <= pushback_angle <= POSITION_LIMIT_MDEG,
        m.current_speed == 0,
        m.max_speed == 0,
    ensures
        run(m, n, delta_ms, pressure, requested, false, pushback_angle).current_position
            == m.current_position,
        run(m, n, delta_ms, pressure, requested, false, pushback_angle).current_speed == 0,
        run(m, n, delta_ms, pressure, requested, false, pushback_angle).max_speed == 0,
        wf(run(m, n, delta_ms, pressure, requested, false, pushback_angle)),
    decreases n,
{
    if n > 0 {
        lemma_parked_position_holds(
            m,
            (n - 1) as nat,
            delta_ms,
            pressure,
            requested,
            pushback_angle,
        );
        let prev = run(m, (n - 1) as nat, delta_ms, pressure, requested, false, pushback_angle);
        lemma_run_keeps_params(m, (n - 1) as nat, delta_ms, pressure, requested, false,
            pushback_angle);
        lemma_next_state_wf(prev, delta_ms, pressure, requested, false, pushback_angle);
        assert(pressure_limited_speed(prev.nominal_speed, pressure) == 0);
        assert(smoothed_max_speed(prev, pressure) == 0);
        assert((0int) / 10 == 0) by (nonlinear_arith);
        assert(smoothed_speed(0, 0, steering_target(prev, requested), prev.current_position)
            == 0);
        crate::num::lemma_zero_mul_div(delta_ms, 1000);
    }
}

/// A freshly built actuator under zero pressure and a zero requested
/// angle stays exactly in its initial state, for any number of ticks.
pub proof fn lemma_new_actuator_idle(
    max_half_angle: int,
    nominal_speed: int,
    diameter: int,
    angular_to_linear_ratio: int,
    n: nat,
    delta_ms: int,
)
    requires
        0 < max_half_angle <= MAX_HALF_ANGLE_MDEG,
        0 < nominal_speed <= MAX_NOMINAL_SPEED_MDEG_S,
        0 < diameter <= MAX_DIAMETER_MM,
        0 <= angular_to_linear_ratio <= MAX_RATIO_MILLI,
        0 <= delta_ms <= MAX_DELTA_MS,
    ensures
        run(
            initial_model(max_half_angle, nominal_speed, diameter, angular_to_linear_ratio),
            n,
            delta_ms,
            0,
            0,
            false,
            0,
        ) == initial_model(max_half_angle, nominal_speed, diameter, angular_to_linear_ratio),
{
    lemma_initial_model_wf(max_half_angle, nominal_speed, diameter, angular_to_linear_ratio);
    lemma_no_motion_without_pressure(
        initial_model(max_half_angle, nominal_speed, diameter, angular_to_linear_ratio),
        n,
        delta_ms,
        0,
        0,
        0,
    );
}

/// The state with position and speed negated; everything else, the
/// volumes included, is direction-free.
pub open spec fn mirrored(m: ActuatorModel) -> ActuatorModel {
    ActuatorModel {
        current_position: -m.current_position,
        current_speed: -m.current_speed,
        ..m
    }
}

/// Construction parameters never change from tick to tick.
pub proof fn lemma_run_keeps_params(
    m: ActuatorModel,
    n: nat,
    delta_ms: int,
    pressure: int,
    requested: int,
    pin_inserted: bool,
    pushback_angle: int,
)
    ensures
        run(m, n, delta_ms, pressure, requested, pin_inserted, pushback_angle).max_half_angle
            == m.max_half_angle,
        run(m, n, delta_ms, pressure, requested, pin_inserted, pushback_angle).nominal_speed
            == m.nominal_speed,
        run(
            m,
            n,
            delta_ms,
            pressure,
            requested,
            pin_inserted,
            pushback_angle,
        ).angular_to_linear_ratio == m.angular_to_linear_ratio,
        run(m, n, delta_ms, pressure, requested, pin_inserted, pushback_angle).actuator_area
            == m.actuator_area,
    decreases n,
{
    if n > 0 {
        lemma_run_keeps_params(
            m,
            (n - 1) as nat,
            delta_ms,
            pressure,
            requested,
            pin_inserted,
            pushback_angle,
        );
    }
}

/// Steering is symmetric: one tick from the mirrored state under the
/// mirrored commands is the mirror of the tick from the original state
/// under the original commands.
pub proof fn lemma_step_symmetry(
    m: ActuatorModel,
    delta_ms: int,
    pressure: int,
    requested: int,
    pin_inserted: bool,
    pushback_angle: int,
)
    requires
        0 <= m.max_half_angle,
    ensures
        next_state(mirrored(m), delta_ms, pressure, -requested, pin_inserted, -pushback_angle)
            == mirrored(next_state(m, delta_ms, pressure, requested, pin_inserted, pushback_angle)),
{
    if pin_inserted {
        assert(tow_state(mirrored(m), -pushback_angle) =~= mirrored(tow_state(m, pushback_angle)));
    } else {
        let max2 = smoothed_max_speed(m, pressure);
        assert(smoothed_max_speed(mirrored(m), pressure) == max2);
        let target = steering_target(m, requested);
        assert(steering_target(mirrored(m), -requested) == -target);
        let v = smoothed_speed(m.current_speed, max2, target, m.current_position);
        if target > m.current_position {
            lemma_div_trunc_neg(8 * m.current_speed + 2 * max2, 10);
        } else if target < m.current_position {
            lemma_div_trunc_neg(8 * m.current_speed - 2 * max2, 10);
        }
        assert(smoothed_speed(-m.current_speed, max2, -target, -m.current_position) == -v);
        lemma_div_trunc_neg(v * delta_ms, 1000);
        assert((-v) * delta_ms == -(v * delta_ms)) by (nonlinear_arith);
        let s = servo_state(m, delta_ms, pressure, requested);
        assert(servo_state(mirrored(m), delta_ms, pressure, -requested) =~= mirrored(s));
        assert(tick_volume(-s.current_speed, delta_ms, m.angular_to_linear_ratio, m.actuator_area)
            == tick_volume(s.current_speed, delta_ms, m.angular_to_linear_ratio, m.actuator_area));
        assert(next_state(mirrored(m), delta_ms, pressure, -requested, false, -pushback_angle)
            =~= mirrored(next_state(m, delta_ms, pressure, requested, false, pushback_angle)));
    }
}

/// Steering is symmetric over any number of ticks: the response to a
/// mirrored command history from a mirrored state is the mirrored
/// response, position and timing alike.
pub proof fn lemma_run_symmetry(
    m: ActuatorModel,
    n: nat,
    delta_ms: int,
    pressure: int,
    requested: int,
    pin_inserted: bool,
    pushback_angle: int,
)
    requires
        0 <= m.max_half_angle,
    ensures
        run(mirrored(m), n, delta_ms, pressure, -requested, pin_inserted, -pushback_angle)
            == mirrored(run(m, n, delta_ms, pressure, requested, pin_inserted, pushback_angle)),
    decreases n,
{
    if n == 0 {
        assert(mirrored(m) =~= mirrored(run(
            m,
            0,
            delta_ms,
            pressure,
            requested,
            pin_inserted,
            pushback_angle,
        )));
    } else {
        lemma_run_symmetry(
            m,
            (n - 1) as nat,
            delta_ms,
            pressure,
            requested,
            pin_inserted,
            pushback_angle,
        );
        lemma_run_keeps_params(
            m,
            (n - 1) as nat,
            delta_ms,
            pressure,
            requested,
            pin_inserted,
            pushback_angle,
        );
        lemma_step_symmetry(
            run(m, (n - 1) as nat, delta_ms, pressure, requested, pin_inserted, pushback_angle),
            delta_ms,
            pressure,
            requested,
            pin_inserted,
            pushback_angle,
        );
    }
}

/// In servo mode the wheel never leaves its travel range, however large
/// the requested angle, for any number of ticks; construction parameters
/// do not change.
pub proof fn lemma_travel_clamp_run(
    m: ActuatorModel,
    n: nat,
    delta_ms: int,
    pressure: int,
    requested: int,
    pushback_angle: int,
)
    requires
        wf(m),
        inputs_ok(delta_ms, pressure),
        -POSITION_LIMIT_MDEG <= pushback_angle <= POSITION_LIMIT_MDEG,
        -m.max_half_angle <= m.current_position <= m.max_half_angle,
    ensures
        wf(run(m, n, delta_ms, pressure, requested, false, pushback_angle)),
        run(m, n, delta_ms, pressure, requested, false, pushback_angle).max_half_angle
            == m.max_half_angle,
        -m.max_half_angle <= run(
            m,
            n,
            delta_ms,
            pressure,
            requested,
            false,
            pushback_angle,
        ).current_position <= m.max_half_angle,
    decreases n,
{
    if n > 0 {
        lemma_travel_clamp_run(m, (n - 1) as nat, delta_ms, pressure, requested, pushback_angle);
        let prev = run(m, (n - 1) as nat, delta_ms, pressure, requested, false, pushback_angle);
        lemma_next_state_wf(prev, delta_ms, pressure, requested, false, pushback_angle);
        lemma_travel_clamp_step(prev, delta_ms, pressure, requested, pushback_angle);
    }
}

/// The least drive the servo guarantees once at least the reference
/// pressure is available: the smoothed speed one tick after a standing
/// start, in milli-degrees per second.
pub open spec fn drive_floor(nominal: int) -> int {
    (2 * (nominal / 2)) / 10
}

/// With at least the reference pressure available, the pressure-limited
/// speed is at least the nominal speed.
proof fn lemma_full_pressure_speed(nominal: int, pressure: int)
    requires
        0 < nominal <= MAX_NOMINAL_SPEED_MDEG_S,
        REFERENCE_PRESS_FOR_NOMINAL_SPEED_PSI <= pressure <= MAX_PRESSURE_PSI,
    ensures
        nominal <= pressure_limited_speed(nominal, pressure),
{
    let n500 = (500 * pressure) as nat;
    lemma_sqrt_floor(n500);
    let s = sqrt_floor(n500);
    assert(1000 <= s) by (nonlinear_arith)
        requires
            1_000_000 <= n500,
            n500 < (s + 1) * (s + 1),
    ;
    assert(nominal * 1000 <= nominal * s) by (nonlinear_arith)
        requires
            0 < nominal,
            1000 <= s,
    ;
    lemma_div_trunc_mono(nominal * 1000, nominal * s, 1000);
    assert((nominal * 1000) / 1000 == nominal) by (nonlinear_arith);
}

/// With at least the reference pressure available and the target ahead of
/// a wheel that is not moving backward, one tick either reaches the
/// target or advances the position by at least the drive floor times the
/// tick; the wheel never passes the target and never starts moving
/// backward.
pub proof fn lemma_progress_step(m: ActuatorModel, delta_ms: int, pressure: int, requested: int)
    requires
        wf(m),
        0 <= delta_ms <= MAX_DELTA_MS,
        REFERENCE_PRESS_FOR_NOMINAL_SPEED_PSI <= pressure <= MAX_PRESSURE_PSI,
        0 <= m.current_speed,
        m.current_position < steering_target(m, requested),
    ensures
        next_state(m, delta_ms, pressure, requested, false, 0).current_position == steering_target(
            m,
            requested,
        ) || next_state(m, delta_ms, pressure, requested, false, 0).current_position
            >= m.current_position + div_trunc(drive_floor(m.nominal_speed) * delta_ms, 1000),
        next_state(m, delta_ms, pressure, requested, false, 0).current_position <= steering_target(
            m,
            requested,
        ),
        0 <= next_state(m, delta_ms, pressure, requested, false, 0).current_speed,
{
    lemma_full_pressure_speed(m.nominal_speed, pressure);
    lemma_pressure_limited_speed_bounds(m.nominal_speed, pressure);
    let cand = pressure_limited_speed(m.nominal_speed, pressure);
    let max2 = smoothed_max_speed(m, pressure);
    lemma_div_trunc_mono(m.nominal_speed, m.max_speed + cand, 2);
    assert(m.nominal_speed / 2 <= max2);
    let target = steering_target(m, requested);
    let v = smoothed_speed(m.current_speed, max2, target, m.current_position);
    lemma_div_trunc_mono(2 * (m.nominal_speed / 2), 8 * m.current_speed + 2 * max2, 10);
    assert(drive_floor(m.nominal_speed) <= v);
    assert(0 <= drive_floor(m.nominal_speed)) by (nonlinear_arith)
        requires
            0 < m.nominal_speed,
    ;
    assert(drive_floor(m.nominal_speed) * delta_ms <= v * delta_ms && 0 <= drive_floor(
        m.nominal_speed,
    ) * delta_ms) by (nonlinear_arith)
        requires
            0 <= drive_floor(m.nominal_speed) <= v,
            0 <= delta_ms,
    ;
    lemma_div_trunc_mono(drive_floor(m.nominal_speed) * delta_ms, v * delta_ms, 1000);
    if v == 0 {
        assert(v * delta_ms == 0) by (nonlinear_arith)
            requires
                v == 0,
        ;
        assert((0int) / 1000 == 0) by (nonlinear_arith);
    }
}

/// Holding the request at the wheel's own position keeps the wheel there,
/// with no speed.
pub proof fn lemma_hold_at_target(m: ActuatorModel, delta_ms: int, pressure: int, requested: int)
    requires
        wf(m),
        inputs_ok(delta_ms, pressure),
        steering_target(m, requested) == m.current_position,
    ensures
        next_state(m, delta_ms, pressure, requested, false, 0).current_position
            == m.current_position,
        next_state(m, delta_ms, pressure, requested, false, 0).current_speed == 0,
{
    let target = steering_target(m, requested);
    assert(smoothed_speed(m.current_speed, smoothed_max_speed(m, pressure), target,
        m.current_position) == 0);
    crate::num::lemma_zero_mul_div(delta_ms, 1000);
}

/// Convergence: with at least the reference pressure available and the
/// target at or ahead of a wheel that is not moving backward, `n` ticks
/// either reach the target exactly or advance the position by at least
/// `n` times the drive floor per tick, so the wheel reaches the target
/// within a number of ticks bounded by the distance over the drive floor.
pub proof fn lemma_convergence(
    m: ActuatorModel,
    n: nat,
    delta_ms: int,
    pressure: int,
    requested: int,
)
    requires
        wf(m),
        0 <= delta_ms <= MAX_DELTA_MS,
        REFERENCE_PRESS_FOR_NOMINAL_SPEED_PSI <= pressure <= MAX_PRESSURE_PSI,
        0 <= m.current_speed,
        m.current_position <= steering_target(m, requested),
    ensures
        run(m, n, delta_ms, pressure, requested, false, 0).current_position == steering_target(
            m,
            requested,
        ) || run(m, n, delta_ms, pressure, requested, false, 0).current_position
            >= m.current_position + n * div_trunc(drive_floor(m.nominal_speed) * delta_ms, 1000),
        run(m, n, delta_ms, pressure, requested, false, 0).current_position <= steering_target(
            m,
            requested,
        ),
        0 <= run(m, n, delta_ms, pressure, requested, false, 0).current_speed,
        wf(run(m, n, delta_ms, pressure, requested, false, 0)),
        run(m, n, delta_ms, pressure, requested, false, 0).max_half_angle == m.max_half_angle,
        run(m, n, delta_ms, pressure, requested, false, 0).nominal_speed == m.nominal_speed,
    decreases n,
{
    if n > 0 {
        lemma_convergence(m, (n - 1) as nat, delta_ms, pressure, requested);
        let prev = run(m, (n - 1) as nat, delta_ms, pressure, requested, false, 0);
        lemma_next_state_wf(prev, delta_ms, pressure, requested, false, 0);
        assert(steering_target(prev, requested) == steering_target(m, requested));
        if prev.current_position == steering_target(m, requested) {
            lemma_hold_at_target(prev, delta_ms, pressure, requested);
        } else {
            lemma_progress_step(prev, delta_ms, pressure, requested);
            let step = div_trunc(drive_floor(m.nominal_speed) * delta_ms, 1000);
            assert((n - 1) * step + step == n * step) by (nonlinear_arith)
                requires
                    n >= 1,
            ;
        }
    }
}

/// Convergence bound: once enough ticks have passed that the guaranteed
/// drive would carry the wheel beyond the target, the wheel sits exactly
/// on the target.
pub proof fn lemma_convergence_reaches_target(
    m: ActuatorModel,
    n: nat,
    delta_ms: int,
    pressure: int,
    requested: int,
)
    requires
        wf(m),
        0 <= delta_ms <= MAX_DELTA_MS,
        REFERENCE_PRESS_FOR_NOMINAL_SPEED_PSI <= pressure <= MAX_PRESSURE_PSI,
        0 <= m.current_speed,
        m.current_position <= steering_target(m, requested),
        m.current_position + n * div_trunc(drive_floor(m.nominal_speed) * delta_ms, 1000)
            > steering_target(m, requested),
    ensures
        run(m, n, delta_ms, pressure, requested, false, 0).current_position == steering_target(
            m,
            requested,
        ),
{
    lemma_convergence(m, n, delta_ms, pressure, requested);
}

} // verus!
