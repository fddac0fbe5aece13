//! Battery telemetry: charge/discharge state and charge percentage.
//!
//! The raw telemetry values (a textual state label and two integer charge
//! counters) are read from the operating system by the caller; the
//! functions here turn them into the engine's own types and are the only
//! place where that interpretation happens.

use vstd::prelude::*;

verus! {

/// Charge/discharge state of the battery, as reported by the power
/// subsystem. A closed enumeration: any other label is a hard error.
#[derive(Debug, PartialEq, Eq, Structural, Clone, Copy)]
pub enum BatteryState {
    Discharging,
    Charging,
    Full,
}

/// A failure while reading or interpreting battery telemetry.
#[derive(Debug, PartialEq, Eq)]
pub enum TelemetryError {
    /// The underlying data source could not be read.
    Unavailable,
    /// The counters read do not admit a percentage (zero "full" counter).
    Invalid,
    /// The state label is not one of the closed enumeration; carries the
    /// raw label.
    UnknownState(String),
}

impl Clone for TelemetryError {
    fn clone(&self) -> (r: Self)
        ensures
            r == *self,
    {
        match self {
            TelemetryError::Unavailable => TelemetryError::Unavailable,
            TelemetryError::Invalid => TelemetryError::Invalid,
            TelemetryError::UnknownState(raw) => TelemetryError::UnknownState(raw.clone()),
        }
    }
}

/// One battery telemetry reading: the charge percentage in milli-percent
/// and the charge/discharge state. Produced fresh on every poll and never
/// cached; successive readings may jump, since the underlying counters
/// are not read atomically.
#[derive(Debug, PartialEq, Eq, Structural, Clone, Copy)]
pub struct BatteryReading {
    pub percentage_milli: u64,
    pub state: BatteryState,
}

/// Raw charge counters of the battery, as read from the power subsystem;
/// kept as the raw text the caller read, exactly as supplied.
#[derive(Debug, PartialEq, Eq)]
pub struct BatteryStatistics {
    pub charge_full: String,
    pub charge_full_design: String,
}

/// Battery health in milli-percent, from the raw texts of the "charge
/// full" and "charge full design" counters: `charge_full /
/// charge_full_design * 100`, carried as the exact truncated integer.
/// `None` when either text is not a numeral in counter range, or the
/// design counter is zero.
pub open spec fn spec_health_milli(full_txt: Seq<char>, design_txt: Seq<char>) -> Option<u64> {
    match (crate::utils::spec_u64(full_txt), crate::utils::spec_u64(design_txt)) {
        (Some(full), Some(design)) => if full <= u32::MAX && 0 < design <= u32::MAX {
            Some(((full * 100_000) / (design as int)) as u64)
        } else {
            None
        },
        _ => None,
    }
}

impl BatteryStatistics {
    /// Bundles the raw contents of the "charge full" and "charge full
    /// design" counters, which the caller has read from the power
    /// subsystem.
    pub fn new(charge_full: String, charge_full_design: String) -> (r: BatteryStatistics)
        ensures
            r.charge_full@ == charge_full@,
            r.charge_full_design@ == charge_full_design@,
    {
        BatteryStatistics { charge_full, charge_full_design }
    }

    /// Battery health in milli-percent: how much of its designed
    /// capacity the battery still reaches.
    pub fn health_milli(&self) -> (r: Option<u64>)
        ensures
            r == spec_health_milli(self.charge_full@, self.charge_full_design@),
    {
        let full = match crate::utils::parse_u64(self.charge_full.as_str()) {
            Some(v) => v,
            None => {
                return None;
            },
        };
        let design = match crate::utils::parse_u64(self.charge_full_design.as_str()) {
            Some(v) => v,
            None => {
                return None;
            },
        };
        if full > u32::MAX as u64 || design > u32::MAX as u64 || design == 0 {
            return None;
        }
        Some(full * 100_000 / design)
    }
}

/// Charge left in the battery, in milli-percent: `charge_now /
/// charge_full * 100`, carried as the exact integer `charge_now * 100_000
/// / charge_full` (truncated). A zero "full" counter admits no
/// percentage and is `TelemetryError::Invalid`.
pub fn get_battery_percentage(charge_now: u32, charge_full: u32) -> (r: Result<
    u64,
    TelemetryError,
>)
    ensures
        charge_full == 0 ==> r == Err::<u64, TelemetryError>(TelemetryError::Invalid),
        charge_full > 0 ==> r == Ok::<u64, TelemetryError>(
            ((charge_now * 100_000) / (charge_full as int)) as u64,
        ),
{
    if charge_full == 0 {
        Err(TelemetryError::Invalid)
    } else {
        let now = charge_now as u64;
        let full = charge_full as u64;
        Ok(now * 100_000 / full)
    }
}

/// The state, if any, that a raw textual label denotes.
pub open spec fn parsed_state(label: Seq<char>) -> Option<BatteryState> {
    if label == "Charging"@ {
        Some(BatteryState::Charging)
    } else if label == "Discharging"@ {
        Some(BatteryState::Discharging)
    } else if label == "Full"@ {
        Some(BatteryState::Full)
    } else {
        None
    }
}

/// `parsed_state` is a total bijection between the three labels
/// `"Charging"`, `"Discharging"`, `"Full"` and the three battery states:
/// each of the three states is denoted by exactly one of the three
/// labels, and distinct labels never denote the same state; every other
/// label denotes no state at all.
pub proof fn lemma_parsed_state_bijective()
    ensures
        parsed_state("Charging"@) == Some(BatteryState::Charging),
        parsed_state("Discharging"@) == Some(BatteryState::Discharging),
        parsed_state("Full"@) == Some(BatteryState::Full),
        forall|l1: Seq<char>, l2: Seq<char>|
            parsed_state(l1) is Some && l1 != l2 ==> parsed_state(l1) != parsed_state(l2),
{
    reveal_strlit("Charging");
    reveal_strlit("Discharging");
    reveal_strlit("Full");
    assert("Charging"@.len() == 8);
    assert("Discharging"@.len() == 11);
    assert("Full"@.len() == 4);
}

impl BatteryState {
    /// Maps a raw textual state label to the closed enumeration; an
    /// unrecognized label is a `TelemetryError::UnknownState` carrying the
    /// raw label, never a default.
    pub fn match_string(str_state: &str) -> (r: Result<BatteryState, TelemetryError>)
        ensures
            match r {
                Ok(state) => parsed_state(str_state@) == Some(state),
                Err(e) => {
                    &&& parsed_state(str_state@) is None
                    &&& e matches TelemetryError::UnknownState(raw) && raw@ == str_state@
                },
            },
    {
        let label = String::from_str(str_state);
        if label == String::from_str("Charging") {
            Ok(BatteryState::Charging)
        } else if label == String::from_str("Discharging") {
            Ok(BatteryState::Discharging)
        } else if label == String::from_str("Full") {
            Ok(BatteryState::Full)
        } else {
            Err(TelemetryError::UnknownState(label))
        }
    }
}

} // verus!
