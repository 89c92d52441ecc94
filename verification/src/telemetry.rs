//! Messages exchanged between the controller, the dashboard and the host.

use vstd::prelude::*;

verus! {

/// Types that the dashboard mirrors as user-interface structures.
pub trait OxideSlint {}

/// Highest plausible engine speed, in revolutions per minute.
pub const MAX_PLAUSIBLE_RPM: u32 = 16000;

/// Highest state of charge, in percent.
pub const MAX_STATE_OF_CHARGE: u8 = 100;

/// Whether the integer fields of a telemetry sample are plausible: the
/// state of charge is a percentage and the engine speed is at most 16000
/// revolutions per minute. (The sample's speed field takes no part.)
pub fn telemetry_in_bounds(rpm: u32, soc: u8) -> (ok: bool)
    ensures
        ok == (soc <= MAX_STATE_OF_CHARGE && rpm <= MAX_PLAUSIBLE_RPM),
{
    soc <= MAX_STATE_OF_CHARGE && rpm <= MAX_PLAUSIBLE_RPM
}

/// Coolant temperature above which the dashboard lights its first warning
/// LED, in degrees Celsius.
pub const OVERHEAT_TEMP: i16 = 100;

/// Whether a telemetry temperature lights the dashboard's overheat warning.
pub fn overheat_warning(temp: i16) -> (on: bool)
    ensures
        on == (temp > OVERHEAT_TEMP),
{
    temp > OVERHEAT_TEMP
}

/// A diagnostic trouble code as reported by the controller.
#[derive(Debug, Clone, Copy, PartialEq, Eq, Structural)]
pub struct DiagnosticDtc {
    pub code: u32,
    pub severity: u8,
    pub timestamp: u64,
}

impl OxideSlint for DiagnosticDtc {}

/// A command from the dashboard.
#[derive(Debug, Clone, Copy, PartialEq, Eq, Structural)]
pub struct HmiCommand {
    pub target: u8,
    pub action: u8,
}

impl OxideSlint for HmiCommand {}

/// A diagnostic request from the host.
#[derive(Debug, Clone, Copy, PartialEq, Eq, Structural)]
pub enum UdsRequest {
    DiagnosticSessionControl(u8),
    ReadDataByIdentifier(u16),
}

} // verus!
