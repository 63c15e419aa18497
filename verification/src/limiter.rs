//! Speed-dependent bound on commanded steering angles.
//!
//! A [`SteeringAngleLimiter`] holds a five-point calibration table mapping
//! ground speed (milli-knots) to the largest allowed steering deflection
//! (milli-degrees).  The bound at a given speed is read off the table by
//! piecewise-linear interpolation, clamped to the table's domain, and is
//! then either scaled by a signed steering ratio or used to clamp a raw
//! signed target angle.

use vstd::prelude::*;

use crate::num::{clamp_spec, div_trunc, div_trunc_i64, lemma_div_trunc_bounds};

verus! {

/// Number of breakpoints in the calibration table.
pub const TABLE_LEN: usize = 5;

/// Largest admissible breakpoint speed magnitude, in milli-knots.
pub const MAX_BREAKPOINT_SPEED_MKNOT: i64 = 100_000_000;

/// Largest admissible breakpoint angle, in milli-degrees.
pub const MAX_BREAKPOINT_ANGLE_MDEG: i64 = 1_000_000;

/// Largest steering-ratio magnitude the limiter accepts, in thousandths.
/// A full deflection command is `1000`; the bound only keeps the scaling
/// arithmetic within `i64`.
pub const MAX_STEERING_RATIO_MILLI: i64 = 1_000_000;

/// Why a calibration table was rejected.
#[derive(Clone, Copy, Debug, PartialEq, Eq, Structural)]
pub enum LimiterConfigError {
    /// The speed breakpoints are not strictly increasing, or one of them
    /// lies outside the representable range.
    InvalidSpeedTable,
    /// An angle breakpoint is negative or above the representable range.
    InvalidAngleTable,
}

/// Value at `x` of the line through `(x0, y0)` and `(x1, y1)`, with the
/// quotient rounded toward zero.
pub open spec fn segment_value(x0: int, y0: int, x1: int, y1: int, x: int) -> int {
    y0 + div_trunc((y1 - y0) * (x - x0), x1 - x0)
}

/// Piecewise-linear table value at `x`, walked from breakpoint `i`;
/// meaningful when `xs[i] <= x`.
pub open spec fn interp_from(xs: Seq<i64>, ys: Seq<i64>, i: int, x: i64) -> int
    decreases xs.len() - i,
{
    if i + 2 >= xs.len() {
        if x >= xs[xs.len() - 1] {
            ys[xs.len() - 1] as int
        } else {
            segment_value(xs[i] as int, ys[i] as int, xs[i + 1] as int, ys[i + 1] as int, x as int)
        }
    } else if x >= xs[i + 1] {
        interp_from(xs, ys, i + 1, x)
    } else {
        segment_value(xs[i] as int, ys[i] as int, xs[i + 1] as int, ys[i + 1] as int, x as int)
    }
}

/// Piecewise-linear table value at `x`, clamped to the table's domain:
/// inputs below the first breakpoint read the first output, inputs above
/// the last breakpoint read the last output.
pub open spec fn interp_table(xs: Seq<i64>, ys: Seq<i64>, x: i64) -> int {
    if x <= xs[0] {
        ys[0] as int
    } else {
        interp_from(xs, ys, 0, x)
    }
}

/// The speed breakpoints are strictly increasing and within the
/// representable calibration range.
pub open spec fn speed_table_ok(speed_map: [i64; 5]) -> bool {
    &&& forall|i: int|
        0 <= i < TABLE_LEN - 1 ==> #[trigger] speed_map@[i] < speed_map@[i + 1]
    &&& forall|i: int|
        0 <= i < TABLE_LEN ==> -MAX_BREAKPOINT_SPEED_MKNOT <= #[trigger] speed_map@[i]
            <= MAX_BREAKPOINT_SPEED_MKNOT
}

/// The angle breakpoints are non-negative and within the representable
/// calibration range.
pub open spec fn angle_table_ok(angle_output: [i64; 5]) -> bool {
    forall|i: int|
        0 <= i < TABLE_LEN ==> 0 <= #[trigger] angle_output@[i] <= MAX_BREAKPOINT_ANGLE_MDEG
}

impl SteeringAngleLimiter {
    /// The stored tables are well formed: speeds strictly increasing, all
    /// entries within the representable calibration range.
    pub open spec fn wf(&self) -> bool {
        &&& speed_table_ok(self.speed_map)
        &&& angle_table_ok(self.angle_output)
    }

    /// Largest steering angle the table allows at `speed`, in
    /// milli-degrees.
    pub open spec fn max_angle_at(&self, speed: i64) -> int {
        interp_table(self.speed_map@, self.angle_output@, speed)
    }

    /// Builds a limiter from a calibration table: `speed_map` in
    /// milli-knots, strictly increasing, and `angle_output` in
    /// milli-degrees, non-negative, paired by index.
    pub fn new(speed_map: [i64; 5], angle_output: [i64; 5]) -> (r: Result<
        SteeringAngleLimiter,
        LimiterConfigError,
    >)
        ensures
            r matches Ok(l) ==> l == (SteeringAngleLimiter { speed_map, angle_output }) && l.wf(),
            r matches Ok(_) <==> speed_table_ok(speed_map) && angle_table_ok(angle_output),
            r == Err::<SteeringAngleLimiter, LimiterConfigError>(
                LimiterConfigError::InvalidSpeedTable,
            ) <==> !speed_table_ok(speed_map),
            r == Err::<SteeringAngleLimiter, LimiterConfigError>(
                LimiterConfigError::InvalidAngleTable,
            ) <==> speed_table_ok(speed_map) && !angle_table_ok(angle_output),
    {
        let mut i: usize = 0;
        while i < TABLE_LEN - 1
            invariant
                i <= TABLE_LEN - 1,
                forall|j: int| 0 <= j < i ==> #[trigger] speed_map@[j] < speed_map@[j + 1],
            decreases TABLE_LEN - 1 - i,
        {
            if speed_map[i] >= speed_map[i + 1] {
                return Err(LimiterConfigError::InvalidSpeedTable);
            }
            i = i + 1;
        }
        let mut i: usize = 0;
        while i < TABLE_LEN
            invariant
                i <= TABLE_LEN,
                forall|j: int| 0 <= j < TABLE_LEN - 1 ==> #[trigger] speed_map@[j] < speed_map@[j + 1],
                forall|j: int|
                    0 <= j < i ==> -MAX_BREAKPOINT_SPEED_MKNOT <= #[trigger] speed_map@[j]
                        <= MAX_BREAKPOINT_SPEED_MKNOT,
            decreases TABLE_LEN - i,
        {
            if speed_map[i] < -MAX_BREAKPOINT_SPEED_MKNOT || speed_map[i]
                > MAX_BREAKPOINT_SPEED_MKNOT {
                return Err(LimiterConfigError::InvalidSpeedTable);
            }
            i = i + 1;
        }
        let mut i: usize = 0;
        while i < TABLE_LEN
            invariant
                i <= TABLE_LEN,
                speed_table_ok(speed_map),
                forall|j: int|
                    0 <= j < i ==> 0 <= #[trigger] angle_output@[j] <= MAX_BREAKPOINT_ANGLE_MDEG,
            decreases TABLE_LEN - i,
        {
            if angle_output[i] < 0 || angle_output[i] > MAX_BREAKPOINT_ANGLE_MDEG {
                return Err(LimiterConfigError::InvalidAngleTable);
            }
            i = i + 1;
        }
        Ok(SteeringAngleLimiter { speed_map, angle_output })
    }

    /// Table value at `speed`, in milli-degrees: the largest steering
    /// deflection the calibration allows there.  Always within the range
    /// spanned by the angle breakpoints.
    fn interpolate(&self, speed: i64) -> (r: i64)
        requires
            self.wf(),
        ensures
            r == self.max_angle_at(speed),
            0 <= r <= MAX_BREAKPOINT_ANGLE_MDEG,
    {
        proof {
            lemma_interp_table_bounds(self.speed_map@, self.angle_output@, speed);
        }
        if speed <= self.speed_map[0] {
            return self.angle_output[0];
        }
        let mut i: usize = 0;
        while i + 2 < TABLE_LEN && speed >= self.speed_map[i + 1]
            invariant
                self.wf(),
                i + 2 <= TABLE_LEN,
                self.speed_map@[i as int] <= speed,
                interp_from(self.speed_map@, self.angle_output@, 0, speed) == interp_from(
                    self.speed_map@,
                    self.angle_output@,
                    i as int,
                    speed,
                ),
            decreases TABLE_LEN - i,
        {
            i = i + 1;
        }
        if i + 2 >= TABLE_LEN && speed >= self.speed_map[TABLE_LEN - 1] {
            self.angle_output[TABLE_LEN - 1]
        } else {
            let x0 = self.speed_map[i];
            let y0 = self.angle_output[i];
            let x1 = self.speed_map[i + 1];
            let y1 = self.angle_output[i + 1];
            proof {
                lemma_segment_bounds(x0 as int, y0 as int, x1 as int, y1 as int, speed as int);
                assert(-(MAX_BREAKPOINT_ANGLE_MDEG * 2 * MAX_BREAKPOINT_SPEED_MKNOT) <= (y1 - y0)
                    * (speed - x0) <= MAX_BREAKPOINT_ANGLE_MDEG * 2 * MAX_BREAKPOINT_SPEED_MKNOT)
                    by (nonlinear_arith)
                    requires
                        -MAX_BREAKPOINT_ANGLE_MDEG <= y1 - y0 <= MAX_BREAKPOINT_ANGLE_MDEG,
                        0 <= speed - x0 <= 2 * MAX_BREAKPOINT_SPEED_MKNOT,
                ;
            }
            y0 + div_trunc_i64((y1 - y0) * (speed - x0), x1 - x0)
        }
    }

    /// Final steering angle for the current ground speed and a requested
    /// turning ratio, `-1000` (full left) to `1000` (full right), in
    /// thousandths: the table bound at `speed` scaled by the ratio.
    /// Ratios outside that range are not rejected and scale linearly.
    pub fn angle_from_speed(&self, speed: i64, steering_ratio_requested: i64) -> (r: i64)
        requires
            self.wf(),
            -MAX_STEERING_RATIO_MILLI <= steering_ratio_requested <= MAX_STEERING_RATIO_MILLI,
        ensures
            r == div_trunc(self.max_angle_at(speed) * steering_ratio_requested, 1000),
    {
        let max_angle = self.interpolate(speed);
        proof {
            assert(max_angle * steering_ratio_requested
                <= MAX_BREAKPOINT_ANGLE_MDEG * MAX_STEERING_RATIO_MILLI && max_angle
                * steering_ratio_requested >= -(MAX_BREAKPOINT_ANGLE_MDEG
                * MAX_STEERING_RATIO_MILLI)) by (nonlinear_arith)
                requires
                    0 <= max_angle <= MAX_BREAKPOINT_ANGLE_MDEG,
                    -MAX_STEERING_RATIO_MILLI <= steering_ratio_requested
                        <= MAX_STEERING_RATIO_MILLI;
        }
        div_trunc_i64(max_angle * steering_ratio_requested, 1000)
    }

    /// Final steering angle for the current ground speed and a raw signed
    /// target angle in milli-degrees: the target clamped symmetrically to
    /// the table bound at `speed`.
    pub fn limited_angle_from_speed(&self, speed: i64, angle: i64) -> (r: i64)
        requires
            self.wf(),
        ensures
            r == clamp_spec(angle as int, -self.max_angle_at(speed), self.max_angle_at(speed)),
    {
        let max_angle = self.interpolate(speed);
        if angle > max_angle {
            max_angle
        } else if angle < -max_angle {
            -max_angle
        } else {
            angle
        }
    }
}

/// Calibration table for the speed-dependent angle bound.
pub struct SteeringAngleLimiter {
    /// Speed breakpoints in milli-knots, strictly increasing.
    pub speed_map: [i64; 5],
    /// Angle bound at each speed breakpoint, in milli-degrees.
    pub angle_output: [i64; 5],
}

/// On a segment whose endpoints both lie in `[0, MAX_BREAKPOINT_ANGLE_MDEG]`
/// the interpolated value stays between the endpoints.
proof fn lemma_segment_bounds(x0: int, y0: int, x1: int, y1: int, x: int)
    requires
        x0 < x1,
        x0 <= x <= x1,
    ensures
        y0 <= y1 ==> y0 <= segment_value(x0, y0, x1, y1, x) <= y1,
        y1 <= y0 ==> y1 <= segment_value(x0, y0, x1, y1, x) <= y0,
{
    if y0 <= y1 {
        assert(0 <= (y1 - y0) * (x - x0) <= (y1 - y0) * (x1 - x0)) by (nonlinear_arith)
            requires
                x0 <= x <= x1,
                y0 <= y1,
        ;
        assert(((y1 - y0) * (x - x0)) / (x1 - x0) <= ((y1 - y0) * (x1 - x0)) / (x1 - x0))
            by (nonlinear_arith)
            requires
                0 <= (y1 - y0) * (x - x0) <= (y1 - y0) * (x1 - x0),
                x0 < x1,
        ;
        assert(((y1 - y0) * (x1 - x0)) / (x1 - x0) == y1 - y0) by (nonlinear_arith)
            requires
                x0 < x1,
        ;
        assert(((y1 - y0) * (x - x0)) / (x1 - x0) >= 0) by (nonlinear_arith)
            requires
                (y1 - y0) * (x - x0) >= 0,
                x0 < x1,
        ;
    } else {
        assert((y1 - y0) * (x - x0) == -((y0 - y1) * (x - x0))) by (nonlinear_arith);
        assert(0 <= (y0 - y1) * (x - x0) <= (y0 - y1) * (x1 - x0)) by (nonlinear_arith)
            requires
                x0 <= x <= x1,
                y1 <= y0,
        ;
        assert(((y0 - y1) * (x - x0)) / (x1 - x0) <= ((y0 - y1) * (x1 - x0)) / (x1 - x0))
            by (nonlinear_arith)
            requires
                0 <= (y0 - y1) * (x - x0) <= (y0 - y1) * (x1 - x0),
                x0 < x1,
        ;
        assert(((y0 - y1) * (x1 - x0)) / (x1 - x0) == y0 - y1) by (nonlinear_arith)
            requires
                x0 < x1,
        ;
        assert(((y0 - y1) * (x - x0)) / (x1 - x0) >= 0) by (nonlinear_arith)
            requires
                (y0 - y1) * (x - x0) >= 0,
                x0 < x1,
        ;
    }
}

/// Every value of a well-formed table lies within the range spanned by the
/// angle breakpoints.
proof fn lemma_interp_from_bounds(xs: Seq<i64>, ys: Seq<i64>, i: int, x: i64, lo: int, hi: int)
    requires
        xs.len() == TABLE_LEN,
        ys.len() == TABLE_LEN,
        0 <= i < TABLE_LEN - 1,
        forall|j: int| 0 <= j < TABLE_LEN - 1 ==> #[trigger] xs[j] < xs[j + 1],
        forall|j: int| 0 <= j < TABLE_LEN ==> lo <= #[trigger] ys[j] <= hi,
        xs[i] <= x,
    ensures
        lo <= interp_from(xs, ys, i, x) <= hi,
    decreases xs.len() - i,
{
    if i + 2 >= xs.len() {
        if x >= xs[xs.len() - 1] {
        } else {
            lemma_segment_bounds(xs[i] as int, ys[i] as int, xs[i + 1] as int, ys[i + 1] as int, x as int);
        }
    } else if x >= xs[i + 1] {
        lemma_interp_from_bounds(xs, ys, i + 1, x, lo, hi);
    } else {
        lemma_segment_bounds(xs[i] as int, ys[i] as int, xs[i + 1] as int, ys[i + 1] as int, x as int);
    }
}

/// Every value of a well-formed table lies within the range spanned by the
/// angle breakpoints.
proof fn lemma_interp_table_bounds(xs: Seq<i64>, ys: Seq<i64>, x: i64)
    requires
        xs.len() == TABLE_LEN,
        ys.len() == TABLE_LEN,
        forall|j: int| 0 <= j < TABLE_LEN - 1 ==> #[trigger] xs[j] < xs[j + 1],
        forall|j: int| 0 <= j < TABLE_LEN ==> 0 <= #[trigger] ys[j] <= MAX_BREAKPOINT_ANGLE_MDEG,
    ensures
        0 <= interp_table(xs, ys, x) <= MAX_BREAKPOINT_ANGLE_MDEG,
{
    if x <= xs[0] {
    } else {
        lemma_interp_from_bounds(xs, ys, 0, x, 0, MAX_BREAKPOINT_ANGLE_MDEG as int);
    }
}

} // verus!
