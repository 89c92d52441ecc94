//! The ESP32 dashboard platform.

use vstd::prelude::*;

verus! {

/// The platform the dashboard UI runs on when hosted by an ESP32.
pub struct Esp32Platform;

/// Brings up the dashboard display; the SPI display driver is not
/// implemented, so there is nothing to initialise.
pub fn init_display() {
}

} // verus!
