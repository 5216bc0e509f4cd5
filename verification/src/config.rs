//! System-timer configuration: the SysTick reload arithmetic and the
//! extension trait the hardware layer implements for the SYST peripheral.

use vstd::prelude::*;

use crate::rcc::Clocks;

verus! {

/// Max possible value to set on SYST's RVR register.
///
/// SysTick is a 24-bit timer.
pub const SYST_MAX_RVR: u32 = 1 << 24;

/// Extension to configure SYST.
pub trait SysClockConfig {
    /// Sets the reload value in microseconds, capped at [`SYST_MAX_RVR`].
    fn set_reload_us(&mut self, us: u32, clocks: &Clocks);

    /// Sets the reload value in milliseconds, capped at [`SYST_MAX_RVR`].
    fn set_reload_ms(&mut self, ms: u32, clocks: &Clocks);
}

/// The SysTick reload value for a period of `us` microseconds under the
/// system clock `sysclk`: the tick count, capped at the 24-bit maximum.
pub open spec fn syst_reload_us_spec(us: u32, sysclk: u32) -> int {
    let rvr = us as int * (sysclk as int / 1_000_000);
    if rvr <= SYST_MAX_RVR as int {
        rvr
    } else {
        SYST_MAX_RVR as int
    }
}

/// Computes the SysTick reload value for a period of `us` microseconds.
pub fn syst_reload_us(us: u32, sysclk: u32) -> (r: u32)
    requires
        us as int * (sysclk as int / 1_000_000) <= u32::MAX,
    ensures
        r == syst_reload_us_spec(us, sysclk),
{
    let rvr = us * (sysclk / 1_000_000);
    if rvr < SYST_MAX_RVR {
        rvr
    } else {
        SYST_MAX_RVR
    }
}

/// Computes the SysTick reload value for a period of `ms` milliseconds.
pub fn syst_reload_ms(ms: u32, sysclk: u32) -> (r: u32)
    requires
        ms as int * 1000 <= u32::MAX,
        (ms as int * 1000) * (sysclk as int / 1_000_000) <= u32::MAX,
    ensures
        r == syst_reload_us_spec((ms * 1000) as u32, sysclk),
{
    syst_reload_us(ms * 1000, sysclk)
}

} // verus!
