//! A verified core for a galactic-conquest simulation: procedural galaxy
//! generation, player setup, fleet economy, dispatch, AI targeting and
//! combat resolution.
//!
//! All quantities are fixed-point integers in milli-units: a star size of
//! `2.0` is stored as `2000`, a world coordinate of `1.5` units as `1500`.

pub mod ai;
pub mod cadence;
pub mod combat;
pub mod dispatch;
pub mod economy;
pub mod galaxy;
pub mod players;
pub mod rng;
pub mod score;
pub mod text;
pub mod units;
pub mod world;
