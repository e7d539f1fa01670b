//! A pointer-motion acceleration engine.
//!
//! Given a raw per-event displacement `(dx, dy)` from a pointing device and a
//! configured speed tier, the engine computes a gain from a family of
//! piecewise-linear curves and returns an accelerated displacement. Two curve
//! families exist: one for mouse-like devices and one for touchpads; the
//! touchpad path truncates its output to whole pixels and keeps the fractional
//! remainder in a persistent carry so that long runs of events do not lose
//! sub-pixel motion.
//!
//! All quantities are exact fixed-point values: a displacement is an `i64`
//! count of billionths of a pixel (`SCALE` units per pixel), and the curve
//! tables hold thresholds, slopes and intercepts in hundredths. Every
//! computation is an exact integer rational followed by a single truncating
//! division, so each function's result is pinned exactly by its contract.

pub mod arith;
pub mod curve;
pub mod resolver;
pub mod accel;

pub use accel::{AccelError, CarryState, MotionAccelerator, Offset, RET_ERR, RET_OK};
pub use curve::{CurveSegment, CurveTier, CurveTable};
