//! The slices of the Redfish schema this tool reads.
//!
//! Every field is optional: vendors implement different parts of Redfish, and a
//! sensor that reads fine while the host is on reports nothing when it is off.
//! Readings that Redfish gives as fractional numbers are held here as whole
//! thousandths of their unit (`..._milli`), so that every comparison and every
//! rounding the tool makes is exact integer arithmetic.

use vstd::prelude::*;
use crate::text::same_text;

verus! {

#[derive(Debug)]
pub struct Status {
    pub state: Option<String>,
    pub health: Option<String>,
}

#[derive(Debug)]
pub struct System {
    pub model: Option<String>,
    pub manufacturer: Option<String>,
    pub serial_number: Option<String>,
    pub bios_version: Option<String>,
    pub power_state: Option<String>,
    pub status: Option<Status>,
    pub processor_summary: Option<ProcessorSummary>,
    pub memory_summary: Option<MemorySummary>,
}

#[derive(Debug)]
pub struct ProcessorSummary {
    pub count: Option<u32>,
    pub model: Option<String>,
}

#[derive(Debug)]
pub struct MemorySummary {
    /// Installed memory, in thousandths of a GiB.
    pub total_system_memory_gib_milli: Option<i64>,
}

#[derive(Debug)]
pub struct PowerMetrics {
    /// Thousandths of a watt.
    pub average_consumed_watts_milli: Option<i64>,
    /// Thousandths of a watt.
    pub max_consumed_watts_milli: Option<i64>,
    /// Thousandths of a watt.
    pub min_consumed_watts_milli: Option<i64>,
    pub interval_in_min: Option<u32>,
}

#[derive(Debug)]
pub struct PowerControl {
    /// Thousandths of a watt.
    pub power_consumed_watts_milli: Option<i64>,
    /// Thousandths of a watt.
    pub power_capacity_watts_milli: Option<i64>,
    pub power_metrics: Option<PowerMetrics>,
}

#[derive(Debug)]
pub struct Voltage {
    pub name: Option<String>,
    /// Thousandths of a volt.
    pub reading_volts_milli: Option<i64>,
    pub status: Option<Status>,
}

#[derive(Debug)]
pub struct Power {
    pub power_control: Vec<PowerControl>,
    pub voltages: Vec<Voltage>,
}

#[derive(Debug)]
pub struct Fan {
    pub name: Option<String>,
    /// How Redfish addresses this entry inside its array.
    pub member_id: Option<String>,
    pub reading: Option<i64>,
    pub reading_units: Option<String>,
    pub lower_threshold_critical: Option<i64>,
    pub status: Option<Status>,
}

#[derive(Debug)]
pub struct Temperature {
    pub name: Option<String>,
    /// How Redfish addresses this entry inside its array.
    pub member_id: Option<String>,
    /// Thousandths of a degree Celsius.
    pub reading_celsius_milli: Option<i64>,
    /// Thousandths of a degree Celsius.
    pub upper_threshold_critical_milli: Option<i64>,
    pub status: Option<Status>,
}

#[derive(Debug)]
pub struct Thermal {
    pub fans: Vec<Fan>,
    pub temperatures: Vec<Temperature>,
}

/// A sensor state that means "nothing there" rather than "broken".
pub open spec fn is_absent_state(state: Option<String>) -> bool {
    match state {
        Some(s) => s@ == "Absent"@ || s@ == "Disabled"@,
        None => false,
    }
}

/// A health value that is no cause for alarm: `OK`, or none reported at all.
pub open spec fn is_ok_health(health: Option<String>) -> bool {
    match health {
        Some(h) => h@ == "OK"@,
        None => true,
    }
}

/// Whether an optional status reads as present; no status at all counts as present.
pub open spec fn present_status(s: Option<Status>) -> bool {
    match s {
        Some(st) => !is_absent_state(st.state),
        None => true,
    }
}

/// Whether an optional string equals a literal.
pub fn is_text(o: &Option<String>, lit: &str) -> (r: bool)
    ensures
        r == (o matches Some(s) && s@ == lit@),
{
    match o {
        Some(s) => same_text(s.as_str(), lit),
        None => false,
    }
}

impl Status {
    /// A sensor the BMC reports as `Absent` (or `Disabled`) is not a fault: the
    /// host is off, or that slot is empty.
    pub fn is_present(&self) -> (r: bool)
        ensures
            r == !is_absent_state(self.state),
    {
        !(is_text(&self.state, "Absent") || is_text(&self.state, "Disabled"))
    }

    /// Health is fine when it reads `OK` or is not reported.
    pub fn is_ok(&self) -> (r: bool)
        ensures
            r == is_ok_health(self.health),
    {
        match &self.health {
            Some(_) => is_text(&self.health, "OK"),
            None => true,
        }
    }
}

} // verus!
