//! Conversion factors and physical constants, as raw fixed-point values.
//!
//! Pressures are in psi, volumes in US gallons, flows in gallons per second,
//! displacements in cubic inches per revolution, speeds in revolutions per
//! minute and times in seconds.
use vstd::prelude::*;

verus! {

/// Cubic inches in one gallon.
pub const CUBIC_INCHES_PER_GALLON: i64 = 231_000_000_000;

/// Seconds in one minute.
pub const SECONDS_PER_MINUTE: i64 = 60_000_000_000;

/// Pressure of an unpressurised loop, 14.7 psi.
pub const MIN_LOOP_PRESSURE: i64 = 14_700_000_000;

/// Pressure that the pumps regulate toward, 3000 psi.
pub const TARGET_PRESSURE: i64 = 3_000_000_000_000;

/// Nitrogen pre-charge of the accumulator, 1885 psi.
pub const ACCUMULATOR_GAS_PRE_CHARGE: i64 = 1_885_000_000_000;

/// Total volume of the accumulator, 0.264 gallon.
pub const ACCUMULATOR_MAX_VOLUME: i64 = 264_000_000;

/// Static leak at the reference pressure difference, 0.04 gallon per second.
pub const STATIC_LEAK_FLOW: i64 = 40_000_000;

/// Pressure difference at which the static leak is `STATIC_LEAK_FLOW`.
pub const STATIC_LEAK_REFERENCE: i64 = 3_000_000_000_000;

/// Low-pass coefficient on the loop pressure, 0.75.
pub const PRESSURE_LOW_PASS_FILTER: i64 = 750_000_000;

/// Low-pass coefficient on the volume moved per step, 0.1.
pub const DELTA_VOL_LOW_PASS_FILTER: i64 = 100_000_000;

} // verus!
