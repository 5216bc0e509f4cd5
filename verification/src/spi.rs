//! Serial peripheral interface (SPI) configuration: pin markers, transfer
//! errors and the baud-rate divider lookup.

use vstd::prelude::*;

verus! {

/// SPI errors.
pub enum Error {
    /// Overrun occurred.
    Overrun,
    /// Mode fault.
    ModeFault,
    /// CRC checksum error.
    Crc,
}

/// Describes an SCK pin.
pub trait SCK {
    /// SPI index.
    fn spi_idx() -> u8;
}

/// Describes a MISO pin.
pub trait MISO {
    /// SPI index.
    fn spi_idx() -> u8;
}

/// Describes a MOSI pin.
pub trait MOSI {
    /// SPI index.
    fn spi_idx() -> u8;
}

/// The BR code of the SPI control register for a requested
/// clock-to-baud ratio. The hardware divides by two to the power of the
/// code plus one, so each bucket spans up to the next power of two.
pub open spec fn spi_br_bits_spec(ratio: u32) -> u8 {
    if 1 <= ratio <= 2 {
        0b000
    } else if 3 <= ratio <= 5 {
        0b001
    } else if 6 <= ratio <= 11 {
        0b010
    } else if 12 <= ratio <= 23 {
        0b011
    } else if 24 <= ratio <= 39 {
        0b100
    } else if 40 <= ratio <= 95 {
        0b101
    } else if 96 <= ratio <= 191 {
        0b110
    } else {
        0b111
    }
}

/// Computes the BR divider code for a requested clock-to-baud ratio. A
/// ratio of zero would mean the requested rate exceeds the bus clock: that
/// is a composition fault, not a recoverable state.
pub fn spi_br_bits(ratio: u32) -> (r: u8)
    requires
        ratio >= 1,
    ensures
        r == spi_br_bits_spec(ratio),
{
    if ratio <= 2 {
        0b000
    } else if ratio <= 5 {
        0b001
    } else if ratio <= 11 {
        0b010
    } else if ratio <= 23 {
        0b011
    } else if ratio <= 39 {
        0b100
    } else if ratio <= 95 {
        0b101
    } else if ratio <= 191 {
        0b110
    } else {
        0b111
    }
}

} // verus!
