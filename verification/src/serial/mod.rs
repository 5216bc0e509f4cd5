//! Serial (UxART) configuration: pin markers, interface events and errors,
//! and the baud-rate register arithmetic.

use vstd::prelude::*;

pub mod config;

verus! {

/// Interrupt event.
#[derive(PartialEq, Eq, Structural, Debug)]
pub enum Event {
    /// New data has been received.
    Rxne,
    /// New data can be sent.
    Txe,
    /// The line has gone idle.
    Idle,
}

/// Serial error.
#[derive(PartialEq, Eq, Structural, Debug)]
pub enum Error {
    /// Framing error.
    Framing,
    /// Noise error.
    Noise,
    /// RX buffer overrun.
    Overrun,
    /// Parity check error.
    Parity,
}

/// UxART pin definition.
pub trait Pin {
    /// The index of the UART this pin serves, as a specification value.
    spec fn spec_uart_idx() -> u8;

    /// Whether the pin accepts the UART with the given index.
    spec fn spec_does_belong(idx: u8) -> bool;

    /// UART index.
    fn uart_idx() -> (r: u8)
        ensures
            r == Self::spec_uart_idx(),
    ;

    /// Checks that this pin belongs to the UART with the given index.
    fn does_belong(idx: u8) -> (r: bool)
        ensures
            r == Self::spec_does_belong(idx),
    ;
}

/// Dummy pin to be used when no CK pin is needed.
pub struct DummyPin;

impl Pin for DummyPin {
    open spec fn spec_uart_idx() -> u8 {
        0
    }

    open spec fn spec_does_belong(idx: u8) -> bool {
        true
    }

    fn uart_idx() -> u8 {
        0
    }

    fn does_belong(_idx: u8) -> bool {
        true
    }
}

/// TX pin.
///
/// Responsible for transmitting data.
pub trait TX: Pin {

}

/// RX pin.
///
/// Responsible for receiving data.
pub trait RX: Pin {

}

/// Clock pin.
///
/// Outputs the transmitter data clock for synchronous transmission.
pub trait CK: Pin {

}

// The dummy pin can only ever stand in for the clock; TX and RX pins must
// always be real.
impl CK for DummyPin {

}

/// The value of the baud-rate register for an interface clocked at `clock`
/// hertz transmitting at `baud_rate`. Rates that the interface cannot divide
/// down to (a quotient below 16) have no encoding; requesting one is a
/// composition fault.
pub fn brr_value(clock: u32, baud_rate: u32) -> (r: u32)
    requires
        baud_rate >= 1,
        clock as int / baud_rate as int >= 16,
    ensures
        r == clock as int / baud_rate as int,
{
    clock / baud_rate
}

} // verus!
