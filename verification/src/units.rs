//! Fixed-point scales and bounds for the arena's quantities.
//!
//! The scales are chosen so that the frame displacement needs no division:
//! with coordinates in millionths of a unit, axis readings in thousandths
//! and frame times in milliseconds, a motion of `axis * dt * SPEED`
//! distance units is exactly `axis_raw * dt_millis * SPEED` coordinate
//! ticks, since `(a/1000) * (dt/1000) * SPEED` units is
//! `a * dt * SPEED / 1_000_000` units.

use vstd::prelude::*;

verus! {

/// Coordinate ticks per distance unit: positions are held in millionths.
pub const COORD_UNIT: i64 = 1_000_000;

/// Axis ticks per full deflection: a reading of 1.0 is held as 1_000.
pub const AXIS_UNIT: i64 = 1_000;

/// Frame times are held in milliseconds.
pub const MILLIS_PER_SECOND: i64 = 1_000;

/// Movement speed, in distance units per second of frame time.
pub const SPEED: i64 = 50;

/// Largest accepted axis magnitude: a thousand times full deflection.
/// Axis sources normally stay within one full deflection either way, but
/// out-of-range readings are passed through arithmetically, so the bound
/// only keeps the displacement product inside `i64`.
pub const AXIS_RAW_LIMIT: i64 = 1_000_000;

/// Longest accepted frame, a thousand seconds.
pub const DT_MILLIS_LIMIT: i64 = 1_000_000;

/// Largest accepted coordinate magnitude, a million distance units.
pub const COORD_RAW_LIMIT: i64 = 1_000_000_000_000;

/// The same coordinate bound expressed in whole distance units.
pub const COORD_UNITS_LIMIT: i64 = 1_000_000;

/// Bound on one frame's displacement in coordinate ticks:
/// `AXIS_RAW_LIMIT * DT_MILLIS_LIMIT * SPEED`.
pub const DISPLACEMENT_RAW_LIMIT: i64 = 50_000_000_000_000;

pub open spec fn axis_in_range(a: i64) -> bool {
    -AXIS_RAW_LIMIT <= a <= AXIS_RAW_LIMIT
}

/// An absent reading means the axis has no bound input device this frame;
/// it carries no value to bound.
pub open spec fn axis_opt_in_range(a: Option<i64>) -> bool {
    match a {
        Some(v) => axis_in_range(v),
        None => true,
    }
}

pub open spec fn dt_in_range(dt: i64) -> bool {
    0 <= dt <= DT_MILLIS_LIMIT
}

pub open spec fn coord_in_range(c: i64) -> bool {
    -COORD_RAW_LIMIT <= c <= COORD_RAW_LIMIT
}

/// One frame's displacement along one axis, in coordinate ticks.
pub open spec fn displacement(axis: i64, dt: i64) -> int {
    axis * dt * SPEED
}

/// In-range axis and frame time keep the displacement product within
/// `DISPLACEMENT_RAW_LIMIT`, so adding it to an in-range coordinate
/// stays far inside `i64`.
pub proof fn lemma_displacement_bounded(axis: i64, dt: i64)
    requires
        axis_in_range(axis),
        dt_in_range(dt),
    ensures
        -1_000_000_000_000 <= axis * dt <= 1_000_000_000_000,
        -DISPLACEMENT_RAW_LIMIT <= displacement(axis, dt) <= DISPLACEMENT_RAW_LIMIT,
{
    assert(-1_000_000_000_000 <= axis * dt <= 1_000_000_000_000) by (nonlinear_arith)
        requires
            -1_000_000 <= axis <= 1_000_000,
            0 <= dt <= 1_000_000,
    ;
}

} // verus!
