//! Hardware timers: the reload-value arithmetic that turns a bus clock and
//! a requested period into prescaler and auto-reload register values.

use vstd::prelude::*;

use crate::config::SYST_MAX_RVR;

verus! {

/// Possible timer events.
pub enum Event {
    /// Interrupt on timeout.
    Timeout,
}

/// The number of timer input ticks per requested period: the bus clock,
/// doubled when the bus prescaler divides (the timer clock runs at twice
/// the bus clock then), divided by the requested frequency.
pub open spec fn timer_ticks_spec(bus_freq: u32, mult: u8, timeout: u32) -> int {
    (bus_freq as int * mult as int) / timeout as int
}

/// The factor between the bus clock and the timer clock: one when the bus
/// prescaler is one, two otherwise.
pub fn timer_clock_multiplier(ppre: u8) -> (r: u8)
    ensures
        r == (if ppre == 1 {
            1u8
        } else {
            2u8
        }),
{
    if ppre == 1 {
        1
    } else {
        2
    }
}

/// A tick count whose remainder modulo the 16-bit range is nonzero divides
/// into a prescaler and an auto-reload value that both fit in 16 bits.
proof fn lemma_timer_arr_fits(t: int, k: int)
    by (nonlinear_arith)
    requires
        1 <= t,
        k == (t - 1) / 0x1_0000,
        t % 0x1_0000 != 0,
    ensures
        t / (k + 1) <= 0xFFFF,
{
}

/// Splits a timer period into the 16-bit prescaler and auto-reload register
/// values: the prescaler divides the tick count down into the 16-bit range
/// and the auto-reload value is the quotient that remains. A tick count that
/// is an exact multiple of the 16-bit range would need an auto-reload value
/// of 65,536, which no longer fits; such periods have no encoding.
pub fn timer_reload(bus_freq: u32, mult: u8, timeout: u32) -> (r: (u16, u16))
    requires
        mult == 1 || mult == 2,
        bus_freq as int * mult as int <= u32::MAX,
        timeout >= 1,
        timer_ticks_spec(bus_freq, mult, timeout) >= 1,
        timer_ticks_spec(bus_freq, mult, timeout) % 0x1_0000 != 0,
    ensures
        r.0 == (timer_ticks_spec(bus_freq, mult, timeout) - 1) / 0x1_0000,
        r.1 == timer_ticks_spec(bus_freq, mult, timeout) / (r.0 as int + 1),
{
    let ticks = (bus_freq * (mult as u32)) / timeout;
    let psc_wide = (ticks - 1) / 0x1_0000;
    let psc = psc_wide as u16;
    proof {
        lemma_timer_arr_fits(ticks as int, psc_wide as int);
    }
    let arr = (ticks / (psc_wide + 1)) as u16;
    (psc, arr)
}

/// The SysTick reload value for a requested periodic frequency: one tick
/// less than the clock-to-frequency ratio. The counter is 24 bits wide, so
/// ratios at or beyond that range have no encoding.
pub fn syst_rvr(sysclk: u32, timeout: u32) -> (r: u32)
    requires
        timeout >= 1,
        sysclk as int / timeout as int >= 1,
        sysclk as int / timeout as int - 1 < SYST_MAX_RVR,
    ensures
        r == sysclk as int / timeout as int - 1,
{
    sysclk / timeout - 1
}

} // verus!
