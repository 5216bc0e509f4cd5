//! Model of the flash access-control register (ACR).
//!
//! The clock-freeze sequence must program the flash wait states for the new
//! system clock *before* switching the bus clocks, so the freeze operation
//! takes the ACR and records the latency code it selected. The hardware
//! layer mirrors this value into the real memory-mapped register.

use vstd::prelude::*;

verus! {

/// The flash access-control register, reduced to the one field the clock
/// configuration writes: the LATENCY wait-state code.
pub struct ACR {
    /// Wait-state code last programmed (the hardware reset value is 0).
    pub latency: u8,
}

impl Default for ACR {
    /// An ACR in its reset state: zero wait states.
    fn default() -> (r: ACR)
        ensures
            r.latency == 0,
    {
        ACR { latency: 0 }
    }
}

/// Constrained FLASH peripheral.
pub struct Parts {
    /// Opaque ACR register.
    pub acr: ACR,
}

impl Default for Parts {
    /// The FLASH peripheral as found after reset.
    fn default() -> (r: Parts)
        ensures
            r.acr.latency == 0,
    {
        Parts { acr: ACR { latency: 0 } }
    }
}

} // verus!
