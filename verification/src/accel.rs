//! The motion accelerator: velocity estimation, validation, gain application,
//! and the touchpad truncation-and-carry bookkeeping.
//!
//! Displacements and coordinates are fixed-point `i64` values in `SCALE`
//! units (billionths of a pixel). For a raw displacement `(dx, dy)` the
//! blended velocity is `(|dx| + |dy|) / 2` for the mouse family and
//! `max(|dx|, |dy|) + min(|dx|, |dy|) / 2` for the touchpad family; both are
//! carried exactly as the numerator of a rational with denominator
//! `2 * SCALE`. A call fails with `BelowEpsilon` when the velocity magnitude
//! is under one millionth of a pixel, and with `InvalidSpeed` when the speed
//! tier is outside 1 through 11; otherwise it succeeds.
//!
//! The mouse output per axis is `delta * (1 + gain)`, the touchpad output is
//! `delta * gain + carry` truncated to whole pixels, with the signed
//! fractional remainder left over by the truncation becoming the next carry;
//! `gain = (slope * vin + intercept) / vin` comes from the active curve
//! segment. Each call thus conserves the displacement it owes — integer
//! output plus new carry equals the raw value — so truncation error never
//! accumulates across calls. Every output is the exact rational truncated
//! toward zero at `SCALE` resolution, as the contracts state.

use vstd::prelude::*;

verus! {

use vstd::math::{abs, max, min};
use crate::arith::{
    div_trunc, div_up, rem_trunc, div_trunc_i128, div_up_i64, lemma_div_trunc_decomposition,
    lemma_div_trunc_bounded, lemma_div_trunc_exact,
};
use vstd::arithmetic::div_mod::{lemma_div_is_ordered, lemma_div_pos_is_pos};
use crate::curve::{
    CurveSegment, CurveTable, mouse_table, touchpad_table, table_wf, tier_wf, seg_wf,
    lemma_mouse_table_wf, lemma_touchpad_table_wf,
};
use crate::resolver::active_index;

/// Fixed-point scale: displacement units per pixel.
pub const SCALE: i64 = 1_000_000_000;

/// Largest per-event displacement magnitude the engine accepts, in `SCALE`
/// units (one million pixels): keeps every intermediate product in `i128`.
pub const MAX_DELTA: i64 = 1_000_000_000_000_000;

/// Largest accumulated coordinate magnitude the boundary operations accept,
/// in `SCALE` units: keeps the coordinate update free of overflow.
pub const MAX_COORD: i64 = 4_000_000_000_000_000_000;

/// Bound on one call's output displacement magnitude, in `SCALE` units.
pub const OUT_BOUND: i64 = 23_000_000_000_000_000;

/// Below-epsilon bound: a velocity numerator under this value means the
/// velocity magnitude is under `1e-6` pixels (the numerator is in units of
/// `1 / (2 * SCALE)` pixels).
pub const EPS_NUM: i64 = 2000;

/// Status code for a successful boundary call.
pub const RET_OK: i32 = 0;

/// Status code for a failed boundary call.
pub const RET_ERR: i32 = -1;

/// Why a call performed no acceleration.
#[derive(Clone, Copy, Debug, PartialEq, Eq, Structural)]
pub enum AccelError {
    /// The velocity magnitude is under `1e-6` pixels: no meaningful motion.
    BelowEpsilon,
    /// The speed tier is outside 1 through 11: caller misconfiguration.
    InvalidSpeed,
}

/// A raw per-event displacement, in `SCALE` units (billionths of a pixel).
#[derive(Clone, Copy, Debug, PartialEq, Eq, Structural)]
pub struct Offset {
    pub dx: i64,
    pub dy: i64,
}

impl Offset {
    /// Both axes within the magnitude bound the engine accepts.
    pub open spec fn in_range(&self) -> bool {
        abs(self.dx as int) <= MAX_DELTA && abs(self.dy as int) <= MAX_DELTA
    }
}

/// The touchpad path's persistent sub-pixel remainder, one value per axis,
/// in `SCALE` units. Owned by the accelerator; reset to zero at construction.
#[derive(Clone, Copy, Debug, PartialEq, Eq, Structural)]
pub struct CarryState {
    pub carry_x: i64,
    pub carry_y: i64,
}

impl CarryState {
    /// Each carry stays strictly below one pixel in magnitude.
    pub open spec fn wf(&self) -> bool {
        abs(self.carry_x as int) < SCALE && abs(self.carry_y as int) < SCALE
    }

    /// A zero carry.
    pub fn new() -> (c: CarryState)
        ensures
            c.carry_x == 0 && c.carry_y == 0,
            c.wf(),
    {
        CarryState { carry_x: 0, carry_y: 0 }
    }
}

/// Velocity numerator for the mouse family: `vin = (|dx| + |dy|) / 2` pixels,
/// held as `num / (2 * SCALE)`.
pub open spec fn mouse_vel_num(dx: int, dy: int) -> int {
    abs(dx) as int + abs(dy) as int
}

/// Velocity numerator for the touchpad family:
/// `vin = max(|dx|, |dy|) + min(|dx|, |dy|) / 2` pixels, held as
/// `num / (2 * SCALE)`.
pub open spec fn touchpad_vel_num(dx: int, dy: int) -> int {
    2 * max(abs(dx) as int, abs(dy) as int) + min(abs(dx) as int, abs(dy) as int)
}

/// Whether a velocity numerator is below the `1e-6` pixel epsilon.
pub open spec fn below_epsilon(num: int) -> bool {
    num < EPS_NUM
}

/// Whether a speed tier is inside the configured domain.
pub open spec fn speed_valid(speed: int) -> bool {
    1 <= speed <= 11
}

/// The active mouse segment for a velocity numerator: the magnitude is
/// `ceil(vin)` (integer-rounded up before the segment lookup).
pub open spec fn mouse_active_seg(speed: int, num: int) -> CurveSegment {
    let t = mouse_table()[speed - 1];
    t[active_index(t, div_up(num, 2 * SCALE), 1)]
}

/// The active touchpad segment for a velocity numerator: the magnitude is
/// `vin` itself, with no rounding.
pub open spec fn touchpad_active_seg(speed: int, num: int) -> CurveSegment {
    let t = touchpad_table()[speed - 1];
    t[active_index(t, num, 2 * SCALE)]
}

/// Accelerated mouse output for one axis, in `SCALE` units: the exact
/// rational `delta * (1 + gain)` truncated toward zero, where
/// `gain = (slope * vin + intercept) / vin` and `vin = num / (2 * SCALE)`.
pub open spec fn mouse_axis_out(delta: int, num: int, s: CurveSegment) -> int {
    div_trunc(delta * (100 + s.slope_h) * num + delta * s.intercept_h * (2 * SCALE), 100 * num)
}

/// Raw touchpad output for one axis, in `SCALE` units: the exact rational
/// `delta * gain + carry` truncated toward zero at `SCALE` resolution.
pub open spec fn touchpad_axis_raw(delta: int, num: int, s: CurveSegment, carry: int) -> int {
    div_trunc(
        delta * s.slope_h * num + delta * s.intercept_h * (2 * SCALE) + carry * (100 * num),
        100 * num,
    )
}

/// Whole-pixel part of a raw output: truncation toward zero.
pub open spec fn pixel_part(raw: int) -> int {
    div_trunc(raw, SCALE as int)
}

/// Signed fractional remainder of a raw output, in `SCALE` units: what the
/// truncation to whole pixels leaves over. After a non-capture touchpad call
/// this remainder is the new carry — the old carry already entered the raw
/// value, so the leftover fraction replaces it, and output plus carry always
/// equals the raw value.
pub open spec fn fract_part(raw: int) -> int {
    raw - SCALE * pixel_part(raw)
}

/// The carry invariant: whatever the raw output, the carry a call leaves
/// behind is strictly below one pixel in magnitude.
pub proof fn lemma_carry_stays_sub_pixel(raw: int)
    ensures
        -SCALE < fract_part(raw) < SCALE,
{
    lemma_div_trunc_decomposition(raw, SCALE as int);
}

/// Per-call conservation: one non-capture touchpad call splits what it owes
/// — the exact displacement `delta * gain` plus the incoming carry — into
/// the integer pixel output plus the outgoing carry. Output plus new carry
/// equals the raw value exactly, and the raw value sits within one
/// denominator unit of the exact rational, so no displacement is created or
/// lost beyond a single sub-`SCALE` rounding.
pub proof fn lemma_touchpad_call_conserves(delta: int, num: int, s: CurveSegment, carry: int)
    requires
        num > 0,
    ensures
        ({
            let d = 100 * num;
            let g = delta * s.slope_h * num + delta * s.intercept_h * (2 * SCALE);
            let raw = touchpad_axis_raw(delta, num, s, carry);
            &&& SCALE * pixel_part(raw) + fract_part(raw) == raw
            &&& -d < g + carry * d - d * raw < d
        }),
{
    let d = 100 * num;
    let g = delta * s.slope_h * num + delta * s.intercept_h * (2 * SCALE);
    lemma_div_trunc_decomposition(g + carry * d, d);
}

/// The engine: the two curve tables and the touchpad carry state. The
/// carry is the one piece of mutable state; the touchpad operations take the
/// engine exclusively (`&mut self`), so a host that delivers events from
/// several threads must serialize access to one engine or give each device
/// its own.
pub struct MotionAccelerator {
    pub mouse_curves: CurveTable,
    pub touchpad_curves: CurveTable,
    pub carry: CarryState,
}

impl MotionAccelerator {
    /// Both tables hold their fixed domain data and the carry is sub-pixel.
    pub open spec fn wf(&self) -> bool {
        &&& self.mouse_curves@ == mouse_table()
        &&& self.touchpad_curves@ == touchpad_table()
        &&& self.carry.wf()
    }

    /// Builds the engine: both tables constructed once, carry zeroed.
    pub fn new() -> (a: MotionAccelerator)
        ensures
            a.wf(),
            a.carry.carry_x == 0 && a.carry.carry_y == 0,
    {
        MotionAccelerator {
            mouse_curves: CurveTable::mouse(),
            touchpad_curves: CurveTable::touchpad(),
            carry: CarryState::new(),
        }
    }

    /// Mouse-family acceleration. Fails with `BelowEpsilon` exactly when the
    /// blended velocity magnitude is under `1e-6` pixels, then with
    /// `InvalidSpeed` exactly when the speed tier is outside 1 through 11;
    /// otherwise returns the input unchanged in capture mode, and the exact
    /// accelerated displacement `delta * (1 + gain)` per axis outside it.
    pub fn accelerate(&self, offset: &Offset, capture_mode: bool, speed: i32) -> (r: Result<
        (i64, i64),
        AccelError,
    >)
        requires
            self.wf(),
            offset.in_range(),
        ensures
            ({
                let num = mouse_vel_num(offset.dx as int, offset.dy as int);
                &&& ((r matches Err(e) && e == AccelError::BelowEpsilon) <==> below_epsilon(num))
                &&& ((r matches Err(e) && e == AccelError::InvalidSpeed) <==> (!below_epsilon(num)
                    && !speed_valid(speed as int)))
                &&& (r is Ok <==> (!below_epsilon(num) && speed_valid(speed as int)))
                &&& (r is Ok && capture_mode ==> (r matches Ok(v) && v.0 == offset.dx && v.1
                    == offset.dy))
                &&& (r is Ok && !capture_mode ==> (r matches Ok(v) && {
                    let s = mouse_active_seg(speed as int, num);
                    &&& v.0 == mouse_axis_out(offset.dx as int, num, s)
                    &&& v.1 == mouse_axis_out(offset.dy as int, num, s)
                }))
                &&& (r matches Ok(v) ==> abs(v.0 as int) <= OUT_BOUND && abs(v.1 as int)
                    <= OUT_BOUND)
            }),
    {
        let dx = offset.dx;
        let dy = offset.dy;
        let adx: i64 = if dx >= 0 {
            dx
        } else {
            -dx
        };
        let ady: i64 = if dy >= 0 {
            dy
        } else {
            -dy
        };
        let num = adx + ady;
        if num < EPS_NUM {
            return Err(AccelError::BelowEpsilon);
        }
        if speed < 1 || speed > 11 {
            return Err(AccelError::InvalidSpeed);
        }
        if capture_mode {
            return Ok((dx, dy));
        }
        let mag = div_up_i64(num, 2 * SCALE);
        proof {
            lemma_mouse_table_wf();
            lemma_div_pos_is_pos(num + 2 * SCALE - 1, 2 * SCALE as int);
            lemma_div_is_ordered(num + 2 * SCALE - 1, num + 2 * SCALE - 1, 2 * SCALE as int);
        }
        let t = self.mouse_curves.tier(speed);
        let idx = t.resolve(mag as i128, 1);
        let s = t.segments[idx];
        let ox = mouse_axis(dx, num, s);
        let oy = mouse_axis(dy, num, s);
        Ok((ox, oy))
    }

    /// Touchpad-family acceleration. Validation mirrors the mouse path but
    /// uses the touchpad velocity blend. In capture mode the displacement
    /// passes through and the carry is untouched. Outside it, each axis
    /// returns the whole-pixel part of `delta * gain + carry` (in `SCALE`
    /// units) and folds the fractional remainder into the carry, which stays
    /// strictly sub-pixel.
    pub fn accelerate_touchpad(&mut self, offset: &Offset, capture_mode: bool, speed: i32) -> (r:
        Result<(i64, i64), AccelError>)
        requires
            old(self).wf(),
            offset.in_range(),
        ensures
            final(self).wf(),
            final(self).mouse_curves == old(self).mouse_curves,
            final(self).touchpad_curves == old(self).touchpad_curves,
            ({
                let num = touchpad_vel_num(offset.dx as int, offset.dy as int);
                &&& ((r matches Err(e) && e == AccelError::BelowEpsilon) <==> below_epsilon(num))
                &&& ((r matches Err(e) && e == AccelError::InvalidSpeed) <==> (!below_epsilon(num)
                    && !speed_valid(speed as int)))
                &&& (r is Ok <==> (!below_epsilon(num) && speed_valid(speed as int)))
                &&& (r is Err ==> *final(self) == *old(self))
                &&& (r is Ok && capture_mode ==> (r matches Ok(v) && v.0 == offset.dx && v.1
                    == offset.dy && *final(self) == *old(self)))
                &&& (r is Ok && !capture_mode ==> (r matches Ok(v) && {
                    let s = touchpad_active_seg(speed as int, num);
                    let raw_x = touchpad_axis_raw(
                        offset.dx as int,
                        num,
                        s,
                        old(self).carry.carry_x as int,
                    );
                    let raw_y = touchpad_axis_raw(
                        offset.dy as int,
                        num,
                        s,
                        old(self).carry.carry_y as int,
                    );
                    &&& v.0 == SCALE * pixel_part(raw_x)
                    &&& v.1 == SCALE * pixel_part(raw_y)
                    &&& final(self).carry.carry_x == fract_part(raw_x)
                    &&& final(self).carry.carry_y == fract_part(raw_y)
                }))
                &&& (r matches Ok(v) ==> abs(v.0 as int) <= OUT_BOUND && abs(v.1 as int)
                    <= OUT_BOUND)
            }),
    {
        let dx = offset.dx;
        let dy = offset.dy;
        let adx: i64 = if dx >= 0 {
            dx
        } else {
            -dx
        };
        let ady: i64 = if dy >= 0 {
            dy
        } else {
            -dy
        };
        let amax: i64 = if adx >= ady {
            adx
        } else {
            ady
        };
        let amin: i64 = if adx >= ady {
            ady
        } else {
            adx
        };
        let num = 2 * amax + amin;
        if num < EPS_NUM {
            return Err(AccelError::BelowEpsilon);
        }
        if speed < 1 || speed > 11 {
            return Err(AccelError::InvalidSpeed);
        }
        if capture_mode {
            return Ok((dx, dy));
        }
        proof {
            lemma_touchpad_table_wf();
        }
        let t = self.touchpad_curves.tier(speed);
        let idx = t.resolve(num as i128, (2 * SCALE) as i128);
        let s = t.segments[idx];
        let (ox, cx) = touchpad_axis(dx, num, s, self.carry.carry_x);
        let (oy, cy) = touchpad_axis(dy, num, s, self.carry.carry_y);
        self.carry.carry_x = cx;
        self.carry.carry_y = cy;
        Ok((ox, oy))
    }

    /// Boundary operation for the mouse family: returns `RET_OK` and, outside
    /// capture mode, advances both coordinates by the accelerated
    /// displacement; returns `RET_ERR` and leaves both coordinates untouched
    /// on validation failure. Capture mode never mutates the coordinates.
    pub fn handle_motion_accelerate(
        &self,
        offset: &Offset,
        capture_mode: bool,
        abs_x: &mut i64,
        abs_y: &mut i64,
        speed: i32,
    ) -> (ret: i32)
        requires
            self.wf(),
            offset.in_range(),
            abs(*old(abs_x) as int) <= MAX_COORD,
            abs(*old(abs_y) as int) <= MAX_COORD,
        ensures
            ({
                let num = mouse_vel_num(offset.dx as int, offset.dy as int);
                let ok = !below_epsilon(num) && speed_valid(speed as int);
                &&& ret == if ok {
                    RET_OK
                } else {
                    RET_ERR
                }
                &&& (!ok || capture_mode) ==> (*final(abs_x) == *old(abs_x) && *final(abs_y)
                    == *old(abs_y))
                &&& (ok && !capture_mode) ==> ({
                    let s = mouse_active_seg(speed as int, num);
                    &&& *final(abs_x) == *old(abs_x) + mouse_axis_out(offset.dx as int, num, s)
                    &&& *final(abs_y) == *old(abs_y) + mouse_axis_out(offset.dy as int, num, s)
                })
            }),
    {
        match self.accelerate(offset, capture_mode, speed) {
            Ok((ox, oy)) => {
                if !capture_mode {
                    *abs_x = *abs_x + ox;
                    *abs_y = *abs_y + oy;
                }
                RET_OK
            },
            Err(_) => RET_ERR,
        }
    }

    /// Boundary operation for the touchpad family: like the mouse one, but
    /// the coordinate advance is the whole-pixel touchpad output and the
    /// carry state is updated in place. On failure or in capture mode the
    /// coordinates and the carry are untouched.
    pub fn handle_motion_accelerate_touchpad(
        &mut self,
        offset: &Offset,
        capture_mode: bool,
        abs_x: &mut i64,
        abs_y: &mut i64,
        speed: i32,
    ) -> (ret: i32)
        requires
            old(self).wf(),
            offset.in_range(),
            abs(*old(abs_x) as int) <= MAX_COORD,
            abs(*old(abs_y) as int) <= MAX_COORD,
        ensures
            final(self).wf(),
            ({
                let num = touchpad_vel_num(offset.dx as int, offset.dy as int);
                let ok = !below_epsilon(num) && speed_valid(speed as int);
                &&& ret == if ok {
                    RET_OK
                } else {
                    RET_ERR
                }
                &&& (!ok || capture_mode) ==> (*final(abs_x) == *old(abs_x) && *final(abs_y)
                    == *old(abs_y) && *final(self) == *old(self))
                &&& (ok && !capture_mode) ==> ({
                    let s = touchpad_active_seg(speed as int, num);
                    let raw_x = touchpad_axis_raw(
                        offset.dx as int,
                        num,
                        s,
                        old(self).carry.carry_x as int,
                    );
                    let raw_y = touchpad_axis_raw(
                        offset.dy as int,
                        num,
                        s,
                        old(self).carry.carry_y as int,
                    );
                    &&& *final(abs_x) == *old(abs_x) + SCALE * pixel_part(raw_x)
                    &&& *final(abs_y) == *old(abs_y) + SCALE * pixel_part(raw_y)
                    &&& final(self).carry.carry_x == fract_part(raw_x)
                    &&& final(self).carry.carry_y == fract_part(raw_y)
                })
            }),
    {
        match self.accelerate_touchpad(offset, capture_mode, speed) {
            Ok((ox, oy)) => {
                if !capture_mode {
                    *abs_x = *abs_x + ox;
                    *abs_y = *abs_y + oy;
                }
                RET_OK
            },
            Err(_) => RET_ERR,
        }
    }
}

/// One mouse axis: computes the exact rational numerator and denominator of
/// `delta * (1 + gain)` in `SCALE` units and truncates once.
fn mouse_axis(delta: i64, num: i64, s: CurveSegment) -> (out: i64)
    requires
        abs(delta as int) <= MAX_DELTA,
        abs(delta as int) <= num,
        EPS_NUM <= num <= 2 * MAX_DELTA,
        seg_wf(s),
    ensures
        out == mouse_axis_out(delta as int, num as int, s),
        abs(out as int) <= OUT_BOUND,
{
    let ghost d = delta as int;
    let ghost n = num as int;
    let dw = delta as i128;
    let nw = num as i128;
    proof {
        assert(-(2200 * MAX_DELTA) <= d * (100 + s.slope_h) <= 2200 * MAX_DELTA)
            by (nonlinear_arith)
            requires
                -MAX_DELTA <= d <= MAX_DELTA,
                0 < s.slope_h <= 2000,
        ;
    }
    let a1 = dw * ((100 + s.slope_h) as i128);
    proof {
        assert(
            -(2200 * MAX_DELTA * (2 * MAX_DELTA)) <= (d * (100 + s.slope_h)) * n <= 2200
                * MAX_DELTA * (2 * MAX_DELTA)
        ) by (nonlinear_arith)
            requires
                -(2200 * MAX_DELTA) <= d * (100 + s.slope_h) <= 2200 * MAX_DELTA,
                0 <= n <= 2 * MAX_DELTA,
        ;
    }
    let b1 = a1 * nw;
    proof {
        assert(-(20000 * MAX_DELTA) <= d * s.intercept_h <= 20000 * MAX_DELTA)
            by (nonlinear_arith)
            requires
                -MAX_DELTA <= d <= MAX_DELTA,
                -20000 <= s.intercept_h <= 0,
        ;
    }
    let b2a = dw * (s.intercept_h as i128);
    let b2 = b2a * ((2 * SCALE) as i128);
    let den = 100 * nw;
    proof {
        let ad = abs(d) as int;
        assert(
            -((100 * n) * (22 * ad + 400 * SCALE)) <= (d * (100 + s.slope_h)) * n + (d
                * s.intercept_h) * (2 * SCALE) <= (100 * n) * (22 * ad + 400 * SCALE)
        ) by (nonlinear_arith)
            requires
                -ad <= d <= ad,
                ad <= n,
                2000 <= n,
                0 < s.slope_h <= 2000,
                -20000 <= s.intercept_h <= 0,
                SCALE == 1_000_000_000,
        ;
        assert((100 * n) * (22 * ad + 400 * SCALE) <= (100 * n) * OUT_BOUND)
            by (nonlinear_arith)
            requires
                0 < n,
                0 <= ad <= MAX_DELTA,
                MAX_DELTA == 1_000_000_000_000_000,
                SCALE == 1_000_000_000,
                OUT_BOUND == 23_000_000_000_000_000,
        ;
        lemma_div_trunc_bounded(
            (d * (100 + s.slope_h)) * n + (d * s.intercept_h) * (2 * SCALE),
            100 * n,
            OUT_BOUND as int,
        );
        assert(d * (100 + s.slope_h) * n == (d * (100 + s.slope_h)) * n) by (nonlinear_arith);
    }
    let q = div_trunc_i128(b1 + b2, den);
    q as i64
}

/// One touchpad axis: computes the exact rational `delta * gain + carry` in
/// `SCALE` units, truncates it to a raw output, and splits that into the
/// whole-pixel part and the leftover fraction. Returns the whole-pixel
/// output (in `SCALE` units) and the leftover fraction, which is the new
/// carry: output plus new carry equals the raw value.
fn touchpad_axis(delta: i64, num: i64, s: CurveSegment, carry: i64) -> (res: (i64, i64))
    requires
        abs(delta as int) <= MAX_DELTA,
        2 * abs(delta as int) <= num,
        EPS_NUM <= num <= 3 * MAX_DELTA,
        seg_wf(s),
        abs(carry as int) < SCALE,
    ensures
        ({
            let raw = touchpad_axis_raw(delta as int, num as int, s, carry as int);
            &&& res.0 == SCALE * pixel_part(raw)
            &&& res.1 == fract_part(raw)
            &&& abs(res.1 as int) < SCALE
            &&& abs(res.0 as int) <= OUT_BOUND
        }),
{
    let ghost d = delta as int;
    let ghost n = num as int;
    let ghost c = carry as int;
    let dw = delta as i128;
    let nw = num as i128;
    proof {
        assert(-(2000 * MAX_DELTA) <= d * s.slope_h <= 2000 * MAX_DELTA) by (nonlinear_arith)
            requires
                -MAX_DELTA <= d <= MAX_DELTA,
                0 < s.slope_h <= 2000,
        ;
    }
    let a1 = dw * (s.slope_h as i128);
    proof {
        assert(
            -(2000 * MAX_DELTA * (3 * MAX_DELTA)) <= (d * s.slope_h) * n <= 2000 * MAX_DELTA * (3
                * MAX_DELTA)
        ) by (nonlinear_arith)
            requires
                -(2000 * MAX_DELTA) <= d * s.slope_h <= 2000 * MAX_DELTA,
                0 <= n <= 3 * MAX_DELTA,
        ;
    }
    let b1 = a1 * nw;
    proof {
        assert(-(20000 * MAX_DELTA) <= d * s.intercept_h <= 20000 * MAX_DELTA)
            by (nonlinear_arith)
            requires
                -MAX_DELTA <= d <= MAX_DELTA,
                -20000 <= s.intercept_h <= 0,
        ;
    }
    let b2a = dw * (s.intercept_h as i128);
    let b2 = b2a * ((2 * SCALE) as i128);
    let den = 100 * nw;
    proof {
        assert(-(SCALE * (100 * n)) <= c * (100 * n) <= SCALE * (100 * n)) by (nonlinear_arith)
            requires
                -SCALE <= c <= SCALE,
                0 < n,
        ;
    }
    let b3 = (carry as i128) * den;
    proof {
        let ad = abs(d) as int;
        assert(
            -((100 * n) * (21 * ad + 401 * SCALE)) <= (d * s.slope_h) * n + (d * s.intercept_h) * (
            2 * SCALE) + c * (100 * n) <= (100 * n) * (21 * ad + 401 * SCALE)
        ) by (nonlinear_arith)
            requires
                -ad <= d <= ad,
                2 * ad <= n,
                2000 <= n,
                0 < s.slope_h <= 2000,
                -20000 <= s.intercept_h <= 0,
                -SCALE <= c <= SCALE,
                SCALE == 1_000_000_000,
        ;
        assert((100 * n) * (21 * ad + 401 * SCALE) <= (100 * n) * OUT_BOUND)
            by (nonlinear_arith)
            requires
                0 < n,
                0 <= ad <= MAX_DELTA,
                MAX_DELTA == 1_000_000_000_000_000,
                SCALE == 1_000_000_000,
                OUT_BOUND == 23_000_000_000_000_000,
        ;
        lemma_div_trunc_bounded(
            (d * s.slope_h) * n + (d * s.intercept_h) * (2 * SCALE) + c * (100 * n),
            100 * n,
            OUT_BOUND as int,
        );
        assert(d * s.slope_h * n == (d * s.slope_h) * n) by (nonlinear_arith);
    }
    let raw128 = div_trunc_i128(b1 + b2 + b3, den);
    let raw = raw128 as i64;
    let ghost raw_spec = touchpad_axis_raw(d, n, s, c);
    proof {
        lemma_div_trunc_decomposition(raw_spec, SCALE as int);
        lemma_div_trunc_bounded(raw_spec, SCALE as int, OUT_BOUND as int);
    }
    let px = div_trunc_i128(raw128, SCALE as i128) as i64;
    let fract = raw - px * SCALE;
    (px * SCALE, fract)
}

/// The carry after `n` repeated identical non-capture touchpad calls on one
/// axis, starting from `carry`.
pub open spec fn touchpad_iter_carry(
    n: nat,
    carry: int,
    delta: int,
    num: int,
    s: CurveSegment,
) -> int
    decreases n,
{
    if n == 0 {
        carry
    } else {
        let prev = touchpad_iter_carry((n - 1) as nat, carry, delta, num, s);
        fract_part(touchpad_axis_raw(delta, num, s, prev))
    }
}

/// The total whole-pixel output of `n` repeated identical non-capture
/// touchpad calls on one axis, in pixels.
pub open spec fn touchpad_iter_out(n: nat, carry: int, delta: int, num: int, s: CurveSegment) -> int
    decreases n,
{
    if n == 0 {
        0
    } else {
        let prev = touchpad_iter_carry((n - 1) as nat, carry, delta, num, s);
        touchpad_iter_out((n - 1) as nat, carry, delta, num, s) + pixel_part(
            touchpad_axis_raw(delta, num, s, prev),
        )
    }
}

/// Long-run accuracy in the exactly-representable case: when one call's
/// accelerated displacement `delta * gain` is a whole number of pixels `g`
/// and the carry starts at zero, `n` repeated identical calls output exactly
/// `n * g` pixels and the carry stays zero — truncation loses nothing.
pub proof fn lemma_touchpad_repeat_exact(n: nat, delta: int, num: int, s: CurveSegment, g: int)
    requires
        num >= EPS_NUM,
        delta * s.slope_h * num + delta * s.intercept_h * (2 * SCALE) == g * (100 * num) * SCALE,
    ensures
        touchpad_iter_carry(n, 0, delta, num, s) == 0,
        touchpad_iter_out(n, 0, delta, num, s) == n * g,
    decreases n,
{
    if n > 0 {
        lemma_touchpad_repeat_exact((n - 1) as nat, delta, num, s, g);
        let raw = touchpad_axis_raw(delta, num, s, 0);
        assert(delta * s.slope_h * num + delta * s.intercept_h * (2 * SCALE) + 0 * (100 * num) == (
        g * SCALE) * (100 * num)) by (nonlinear_arith)
            requires
                delta * s.slope_h * num + delta * s.intercept_h * (2 * SCALE) == g * (100 * num)
                    * SCALE,
        ;
        lemma_div_trunc_exact(g * SCALE, 100 * num);
        assert(raw == g * SCALE);
        lemma_div_trunc_exact(g, SCALE as int);
        assert(pixel_part(raw) == g);
        assert(fract_part(raw) == raw - SCALE * g);
        assert(touchpad_iter_out(n, 0, delta, num, s) == (n - 1) * g + g);
        assert((n - 1) * g + g == n * g) by (nonlinear_arith);
    } else {
        assert(touchpad_iter_out(0, 0, delta, num, s) == 0);
        assert(0 == 0 * g) by (nonlinear_arith);
    }
}

/// Long-run accuracy: over `n` repeated identical non-capture calls from a
/// zero carry, the total whole-pixel output differs from `n` times the exact
/// per-call displacement `delta * gain` by less than one pixel plus `n`
/// fixed-point units (each call truncates its raw value to the `SCALE` grid
/// once). Stated exactly over the scaled per-call numerator `g` and
/// denominator `d`: the ideal `n * g` equals `d` times (output plus final
/// carry) up to a residue of at most `n * d` — the carry keeps truncation
/// drift from accumulating.
pub proof fn lemma_touchpad_drift_bounded(
    n: nat,
    delta: int,
    num: int,
    s: CurveSegment,
    g: int,
    d: int,
)
    requires
        num > 0,
        d == 100 * num,
        g == delta * s.slope_h * num + delta * s.intercept_h * (2 * SCALE),
    ensures
        -SCALE < touchpad_iter_carry(n, 0, delta, num, s) < SCALE,
        -(n * d) <= n * g - d * (SCALE * touchpad_iter_out(n, 0, delta, num, s)
            + touchpad_iter_carry(n, 0, delta, num, s)) <= n * d,
    decreases n,
{
    if n > 0 {
        lemma_touchpad_drift_bounded((n - 1) as nat, delta, num, s, g, d);
        let c_prev = touchpad_iter_carry((n - 1) as nat, 0, delta, num, s);
        let t_prev = touchpad_iter_out((n - 1) as nat, 0, delta, num, s);
        let raw = touchpad_axis_raw(delta, num, s, c_prev);
        let c_n = touchpad_iter_carry(n, 0, delta, num, s);
        let t_n = touchpad_iter_out(n, 0, delta, num, s);
        let out = pixel_part(raw);
        lemma_div_trunc_decomposition(g + c_prev * d, d);
        let r = rem_trunc(g + c_prev * d, d);
        assert(g + c_prev * d == d * raw + r && -d < r < d);
        lemma_carry_stays_sub_pixel(raw);
        assert(c_n == fract_part(raw) && SCALE * out + c_n == raw);
        assert(t_n == t_prev + out);
        assert(n * g - d * (SCALE * t_n + c_n) == (n - 1) * g - d * (SCALE * t_prev + c_prev)
            + r) by (nonlinear_arith)
            requires
                t_n == t_prev + out,
                g + c_prev * d == d * raw + r,
                SCALE * out + c_n == raw
        ;
        assert(-(n * d) <= n * g - d * (SCALE * t_n + c_n) <= n * d) by (nonlinear_arith)
            requires
                n >= 1,
                d > 0,
                -d < r < d,
                -((n - 1) * d) <= (n - 1) * g - d * (SCALE * t_prev + c_prev) <= (n - 1) * d,
                n * g - d * (SCALE * t_n + c_n) == (n - 1) * g - d * (SCALE * t_prev + c_prev)
                    + r
        ;
    } else {
        let c0 = touchpad_iter_carry(n, 0, delta, num, s);
        let t0 = touchpad_iter_out(n, 0, delta, num, s);
        assert(c0 == 0 && t0 == 0);
        assert(-(n * d) <= n * g - d * (SCALE * t0 + c0) <= n * d) by (nonlinear_arith)
            requires
                n == 0,
                c0 == 0,
                t0 == 0
        ;
    }
}

} // verus!
