//! Frequency and baud-rate value types shared by the clock and peripheral
//! configuration code.

use vstd::prelude::*;

verus! {

/// Bits per second.
#[derive(Clone, Copy, PartialEq, Eq, Structural, Debug)]
pub struct Bps(pub u32);

/// Hertz.
#[derive(Clone, Copy, PartialEq, Eq, Structural, Debug)]
pub struct Hertz(pub u32);

/// Kilohertz.
#[derive(Clone, Copy, PartialEq, Eq, Structural, Debug)]
pub struct KiloHertz(pub u32);

/// Megahertz.
#[derive(Clone, Copy, PartialEq, Eq, Structural, Debug)]
pub struct MegaHertz(pub u32);

impl Hertz {
    /// Wraps a raw count of cycles per second.
    pub fn new(raw: u32) -> (r: Hertz)
        ensures
            r.0 == raw,
    {
        Hertz(raw)
    }
}

impl KiloHertz {
    /// The same frequency expressed in hertz.
    pub fn to_hertz(self) -> (r: Hertz)
        requires
            self.0 * 1000 <= u32::MAX,
        ensures
            r.0 == self.0 * 1000,
    {
        Hertz(self.0 * 1000)
    }
}

impl MegaHertz {
    /// The same frequency expressed in hertz.
    pub fn to_hertz(self) -> (r: Hertz)
        requires
            self.0 * 1_000_000 <= u32::MAX,
        ensures
            r.0 == self.0 * 1_000_000,
    {
        Hertz(self.0 * 1_000_000)
    }

    /// The same frequency expressed in kilohertz.
    pub fn to_kilohertz(self) -> (r: KiloHertz)
        requires
            self.0 * 1000 <= u32::MAX,
        ensures
            r.0 == self.0 * 1000,
    {
        KiloHertz(self.0 * 1000)
    }
}

} // verus!
