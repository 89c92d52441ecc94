//! Live tuning of calibration maps.

use vstd::prelude::*;

verus! {

/// Errors of a tuning exchange with the controller.
#[derive(Debug, Clone, Copy, PartialEq, Eq, Structural)]
pub enum CommError {
    SendError,
    AckTimeout,
    NakReceived,
}

} // verus!
