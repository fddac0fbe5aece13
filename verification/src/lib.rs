//! Charger-control automation engine for a laptop battery.
//!
//! The engine decides which firmware a charger microcontroller should run,
//! models the lifecycle of a charger command, and confirms the physical
//! effect of a command by polling battery telemetry until a
//! command-specific exit condition holds.
//!
//! Battery percentages are carried as thousandths of a percent
//! (milli-percent), so that the arithmetic on them is exact integer
//! arithmetic: a reading of 80% is `80_000`.

use vstd::prelude::*;

pub mod ardu;
pub mod battery_health;
pub mod utils;

verus! {

/// Charge level, in milli-percent, at which the charger should disconnect.
pub const CHARGE_UPPER_LIMIT_MILLI: u64 = 80_000;

/// Charge level, in milli-percent, at which the charger should reconnect.
pub const DISCHARGE_LOWER_LIMIT_MILLI: u64 = 20_000;

/// Seconds between two battery checks of the notifier loop.
pub const BATTERY_CHECK_TIME_SECS: u64 = 20;

} // verus!
