//! Typed configuration layer for the STM32L4x6 clock tree and peripherals.
//!
//! The heart of the crate is the `rcc` module: it models the clock sources
//! (internal RC oscillators, external crystals and the PLL), validates PLL
//! multiplier and divider settings against the hardware's electrical limits,
//! resolves bus prescalers from requested frequencies, and derives the flash
//! wait states a chosen system clock requires. All of that arithmetic is
//! verified; the register writes themselves belong to a thin hardware layer
//! built on top of this crate.

use vstd::prelude::*;

pub mod config;
pub mod crc;
pub mod flash;
pub mod gpio;
pub mod lcd;
pub mod rcc;
pub mod serial;
pub mod spi;
pub mod time;
pub mod timer;

verus! {

/// Maximum value for the system clock, per the reference manual.
pub const SYS_CLOCK_MAX: u32 = 80_000_000;

} // verus!
