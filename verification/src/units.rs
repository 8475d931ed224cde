//! Fixed-point scale and the design constants of the simulation.
//!
//! Every length, mass and color channel is an integer count of
//! milli-units: `MILLI` of them make one world unit.

use vstd::prelude::*;

verus! {

/// Milli-units per world unit.
pub const MILLI: u64 = 1000;

/// Smallest star size (0.1 units, in milli-units).
pub const STAR_SIZE_MIN: u64 = 100;

/// Largest star size (10.0 units, in milli-units).
pub const STAR_SIZE_MAX: u64 = 10000;

/// Largest magnitude a world coordinate can take, in milli-units.
/// Generation stays far inside this; it keeps squared distances inside
/// `i64`.
pub const COORD_LIMIT: i64 = 100000000;

/// Flight speed, in milli-units per second (100 units per second).
pub const FLIGHT_SPEED: u64 = 100000;

/// Flight ticks per second.
pub const FLIGHT_TICKS_PER_SECOND: u64 = 60;

/// How far an in-flight fleet moves in one flight tick, in milli-units.
pub const FLIGHT_STEP: u64 = FLIGHT_SPEED / FLIGHT_TICKS_PER_SECOND;

/// An in-flight fleet closer to its destination than this resolves
/// (1.0 unit, in milli-units).
pub const ARRIVAL_RADIUS: u64 = 1000;

} // verus!
