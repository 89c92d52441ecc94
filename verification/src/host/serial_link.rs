//! The host's polling of the controller's serial port: what each read
//! leads to.

use vstd::prelude::*;

verus! {

/// The outcome of one read from the serial port.
#[derive(Debug, Clone, Copy, PartialEq, Eq, Structural)]
pub enum SerialRead {
    /// The read returned this many bytes.
    Bytes(usize),
    /// The read timed out with nothing to return.
    TimedOut,
    /// The read failed otherwise.
    Failed,
}

/// A line for the host log.
#[derive(Debug, Clone, Copy, PartialEq, Eq, Structural)]
pub enum SerialLog {
    /// This many bytes were read.
    ReadBytes(usize),
    /// The port failed; the line carries the port's error.
    PortError,
}

/// What follows one read: the line to log, if any, and whether to go on
/// polling.
#[derive(Debug, Clone, Copy, PartialEq, Eq, Structural)]
pub struct SerialStep {
    pub log: Option<SerialLog>,
    pub keep_reading: bool,
}

/// The step after a read: a read of some bytes is logged, an empty read or
/// a timeout is passed over in silence, and any other failure is logged and
/// ends the polling.
pub fn serial_step(read: SerialRead) -> (step: SerialStep)
    ensures
        step == (match read {
            SerialRead::Bytes(n) => SerialStep {
                log: if n > 0 { Some(SerialLog::ReadBytes(n)) } else { None },
                keep_reading: true,
            },
            SerialRead::TimedOut => SerialStep { log: None, keep_reading: true },
            SerialRead::Failed => SerialStep { log: Some(SerialLog::PortError), keep_reading: false },
        }),
{
    match read {
        SerialRead::Bytes(n) => {
            let log = if n > 0 {
                Some(SerialLog::ReadBytes(n))
            } else {
                None
            };
            SerialStep { log, keep_reading: true }
        },
        SerialRead::TimedOut => SerialStep { log: None, keep_reading: true },
        SerialRead::Failed => SerialStep { log: Some(SerialLog::PortError), keep_reading: false },
    }
}

} // verus!
