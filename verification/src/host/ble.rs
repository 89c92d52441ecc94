//! The bridge between a WebSocket client and the controller's UART.

use vstd::prelude::*;

verus! {

/// Relays messages between WebSocket clients and a UART port.
pub struct BleBridge {
    uart_port: String,
}

impl BleBridge {
    /// The UART device the bridge talks to.
    pub closed spec fn port(&self) -> Seq<char> {
        self.uart_port@
    }

    /// A bridge for the UART device `uart_port`.
    pub fn new(uart_port: &str) -> (b: Self)
        ensures
            b.port() == uart_port@,
    {
        BleBridge { uart_port: uart_port.to_owned() }
    }
}

} // verus!
