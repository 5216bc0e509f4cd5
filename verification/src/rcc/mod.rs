//! Reset and clock control: the clock configuration builder and the frozen
//! clock snapshot.

use vstd::prelude::*;

use crate::flash::ACR;
use crate::time::Hertz;
use crate::SYS_CLOCK_MAX;

pub mod clocking;

use clocking::InputClock;
use clocking::SysClkSource;

verus! {

/// The HPRE code the AHB prescaler field takes for a requested
/// SYSCLK-to-HCLK ratio. Ratios fall into fixed buckets; each bucket names
/// one of the divisors the hardware offers.
pub open spec fn hpre_code_spec(ratio: u32) -> u8 {
    if ratio == 1 {
        0b0111
    } else if ratio == 2 {
        0b1000
    } else if 3 <= ratio <= 5 {
        0b1001
    } else if 6 <= ratio <= 11 {
        0b1010
    } else if 12 <= ratio <= 39 {
        0b1011
    } else if 40 <= ratio <= 95 {
        0b1100
    } else if 96 <= ratio <= 191 {
        0b1101
    } else if 192 <= ratio <= 383 {
        0b1110
    } else {
        0b1111
    }
}

/// The divisor the AHB prescaler applies for a given HPRE code, as the
/// reference manual defines it (note the jump from 16 to 64: the hardware
/// offers no divide-by-32).
pub open spec fn hpre_div_spec(code: u8) -> u32 {
    if code == 0b0111 {
        1
    } else if code == 0b1000 {
        2
    } else if code == 0b1001 {
        4
    } else if code == 0b1010 {
        8
    } else if code == 0b1011 {
        16
    } else if code == 0b1100 {
        64
    } else if code == 0b1101 {
        128
    } else if code == 0b1110 {
        256
    } else {
        512
    }
}

/// The PPRE code an APB prescaler field takes for a requested
/// HCLK-to-PCLK ratio.
pub open spec fn ppre_code_spec(ratio: u32) -> u8 {
    if ratio == 1 {
        0b011
    } else if ratio == 2 {
        0b100
    } else if 3 <= ratio <= 5 {
        0b101
    } else if 6 <= ratio <= 11 {
        0b110
    } else {
        0b111
    }
}

/// The divisor an APB prescaler applies for a given PPRE code.
pub open spec fn ppre_div_spec(code: u8) -> u8 {
    if code == 0b011 {
        1
    } else if code == 0b100 {
        2
    } else if code == 0b101 {
        4
    } else if code == 0b110 {
        8
    } else {
        16
    }
}

/// The flash wait-state (LATENCY) code required for a system clock, the
/// five-tier table of the reference manual.
pub open spec fn flash_latency_spec(sysclk: u32) -> u8 {
    if sysclk <= 16_000_000 {
        0b000
    } else if sysclk <= 32_000_000 {
        0b001
    } else if sysclk <= 48_000_000 {
        0b010
    } else if sysclk <= 64_000_000 {
        0b011
    } else {
        0b100
    }
}

/// Computes the AHB prescaler code for a requested SYSCLK-to-HCLK ratio.
/// A ratio of zero would mean the requested frequency exceeds the source:
/// that is a composition fault, not a recoverable state.
pub fn hpre_code(ratio: u32) -> (r: u8)
    requires
        ratio >= 1,
    ensures
        r == hpre_code_spec(ratio),
{
    if ratio == 1 {
        0b0111
    } else if ratio == 2 {
        0b1000
    } else if ratio <= 5 {
        0b1001
    } else if ratio <= 11 {
        0b1010
    } else if ratio <= 39 {
        0b1011
    } else if ratio <= 95 {
        0b1100
    } else if ratio <= 191 {
        0b1101
    } else if ratio <= 383 {
        0b1110
    } else {
        0b1111
    }
}

/// The divisor the AHB prescaler applies for a given HPRE code.
pub fn hpre_div(code: u8) -> (r: u32)
    requires
        code == 0b0111 || (0b1000 <= code <= 0b1111),
    ensures
        r == hpre_div_spec(code),
{
    if code == 0b0111 {
        1
    } else if code == 0b1000 {
        2
    } else if code == 0b1001 {
        4
    } else if code == 0b1010 {
        8
    } else if code == 0b1011 {
        16
    } else if code == 0b1100 {
        64
    } else if code == 0b1101 {
        128
    } else if code == 0b1110 {
        256
    } else {
        512
    }
}

/// Computes an APB prescaler code for a requested HCLK-to-PCLK ratio.
pub fn ppre_code(ratio: u32) -> (r: u8)
    requires
        ratio >= 1,
    ensures
        r == ppre_code_spec(ratio),
{
    if ratio == 1 {
        0b011
    } else if ratio == 2 {
        0b100
    } else if ratio <= 5 {
        0b101
    } else if ratio <= 11 {
        0b110
    } else {
        0b111
    }
}

/// The divisor an APB prescaler applies for a given PPRE code.
pub fn ppre_div(code: u8) -> (r: u8)
    requires
        0b011 <= code <= 0b111,
    ensures
        r == ppre_div_spec(code),
{
    if code == 0b011 {
        1
    } else if code == 0b100 {
        2
    } else if code == 0b101 {
        4
    } else if code == 0b110 {
        8
    } else {
        16
    }
}

/// Computes the flash wait-state code a system clock requires.
pub fn flash_latency(sysclk: u32) -> (r: u8)
    ensures
        r == flash_latency_spec(sysclk),
{
    if sysclk <= 16_000_000 {
        0b000
    } else if sysclk <= 32_000_000 {
        0b001
    } else if sysclk <= 48_000_000 {
        0b010
    } else if sysclk <= 64_000_000 {
        0b011
    } else {
        0b100
    }
}

/// The AHB frequency the freeze operation derives: the source frequency
/// when no target was requested, otherwise the source divided by the
/// divisor of the bucket the requested ratio falls into.
pub open spec fn ahb_freq_spec(sys: u32, hclk: Option<u32>) -> int {
    match hclk {
        None => sys as int,
        Some(h) => sys as int / hpre_div_spec(hpre_code_spec((sys / h) as u32)) as int,
    }
}

/// The APB prescaler divisor the freeze operation picks for one APB bus.
pub open spec fn apb_div_spec(ahb: u32, pclk: Option<u32>) -> u8 {
    match pclk {
        None => 1,
        Some(p) => ppre_div_spec(ppre_code_spec((ahb / p) as u32)),
    }
}

/// A quotient of values with a divisor no larger than the dividend is at
/// least one.
proof fn lemma_div_at_least_one(a: int, b: int)
    by (nonlinear_arith)
    requires
        1 <= b <= a,
    ensures
        a / b >= 1,
{
}

/// The AHB prescaler lookup is monotonic: asking for a larger
/// SYSCLK-to-HCLK ratio never yields a smaller divisor.
pub proof fn lemma_hpre_monotonic(r1: u32, r2: u32)
    requires
        1 <= r1 <= r2,
    ensures
        hpre_div_spec(hpre_code_spec(r1)) <= hpre_div_spec(hpre_code_spec(r2)),
{
}

/// The AHB prescaler lookup is idempotent: looking up the divisor a ratio
/// selected lands in the bucket of that same divisor.
pub proof fn lemma_hpre_idempotent(ratio: u32)
    requires
        1 <= ratio,
    ensures
        hpre_code_spec(hpre_div_spec(hpre_code_spec(ratio))) == hpre_code_spec(ratio),
{
}

/// The APB prescaler lookup is monotonic: asking for a larger
/// HCLK-to-PCLK ratio never yields a smaller divisor.
pub proof fn lemma_ppre_monotonic(r1: u32, r2: u32)
    requires
        1 <= r1 <= r2,
    ensures
        ppre_div_spec(ppre_code_spec(r1)) <= ppre_div_spec(ppre_code_spec(r2)),
{
}

/// The APB prescaler lookup is idempotent: looking up the divisor a ratio
/// selected lands in the bucket of that same divisor.
pub proof fn lemma_ppre_idempotent(ratio: u32)
    requires
        1 <= ratio,
    ensures
        ppre_code_spec(ppre_div_spec(ppre_code_spec(ratio)) as u32) == ppre_code_spec(ratio),
{
}

/// Clock configuration staged by the user and committed by [`CFGR::freeze`].
pub struct CFGR {
    hclk: Option<u32>,
    pclk1: Option<u32>,
    pclk2: Option<u32>,
    sysclk: SysClkSource,
}

impl Default for CFGR {
    /// The configuration the hardware wakes up with: SYSCLK driven by the
    /// MSI at 4 MHz and no bus frequency targets.
    fn default() -> (r: CFGR)
        ensures
            r.spec_hclk() is None,
            r.spec_pclk1() is None,
            r.spec_pclk2() is None,
            (r.spec_sysclk() matches SysClkSource::MSI(s) && s.spec_freq() == 4_000_000
                && !s.spec_auto_cal()),
    {
        CFGR {
            hclk: None,
            pclk1: None,
            pclk2: None,
            sysclk: SysClkSource::MSI(clocking::MediumSpeedInternalRC::new(4_000_000, false)),
        }
    }
}

impl CFGR {
    /// The requested AHB frequency, if any.
    pub closed spec fn spec_hclk(&self) -> Option<u32> {
        self.hclk
    }

    /// The requested APB1 frequency, if any.
    pub closed spec fn spec_pclk1(&self) -> Option<u32> {
        self.pclk1
    }

    /// The requested APB2 frequency, if any.
    pub closed spec fn spec_pclk2(&self) -> Option<u32> {
        self.pclk2
    }

    /// The chosen SYSCLK source.
    pub closed spec fn spec_sysclk(&self) -> SysClkSource {
        self.sysclk
    }

    /// The frequency the chosen source will drive SYSCLK at.
    pub open spec fn spec_sys_freq(&self) -> u32 {
        self.spec_sysclk().freq_spec()
    }

    /// The AHB frequency this configuration will produce.
    pub open spec fn spec_ahb_freq(&self) -> int {
        ahb_freq_spec(self.spec_sys_freq(), self.spec_hclk())
    }

    /// A configuration can be committed when each requested bus frequency is
    /// nonzero and no larger than the frequency feeding its prescaler; a
    /// request above the feeding clock has no encoding and is a composition
    /// fault.
    pub open spec fn freeze_ready(&self) -> bool {
        &&& (self.spec_hclk() matches Some(h) ==> 1 <= h <= self.spec_sys_freq())
        &&& (self.spec_pclk1() matches Some(p) ==> 1 <= p <= self.spec_ahb_freq())
        &&& (self.spec_pclk2() matches Some(p) ==> 1 <= p <= self.spec_ahb_freq())
    }

    /// The requested AHB frequency, if any.
    pub fn hclk_target(&self) -> (r: Option<u32>)
        ensures
            r == self.spec_hclk(),
    {
        self.hclk
    }

    /// The requested APB1 frequency, if any.
    pub fn pclk1_target(&self) -> (r: Option<u32>)
        ensures
            r == self.spec_pclk1(),
    {
        self.pclk1
    }

    /// The requested APB2 frequency, if any.
    pub fn pclk2_target(&self) -> (r: Option<u32>)
        ensures
            r == self.spec_pclk2(),
    {
        self.pclk2
    }

    /// The chosen SYSCLK source.
    pub fn sysclk_source(&self) -> (r: SysClkSource)
        ensures
            r == self.spec_sysclk(),
    {
        self.sysclk
    }

    /// Sets a frequency for the AHB bus.
    pub fn hclk(self, freq: Hertz) -> (r: Self)
        ensures
            r.spec_hclk() == Some(freq.0),
            r.spec_pclk1() == self.spec_pclk1(),
            r.spec_pclk2() == self.spec_pclk2(),
            r.spec_sysclk() == self.spec_sysclk(),
    {
        CFGR { hclk: Some(freq.0), ..self }
    }

    /// Sets a frequency for the APB1 bus.
    pub fn pclk1(self, freq: Hertz) -> (r: Self)
        ensures
            r.spec_pclk1() == Some(freq.0),
            r.spec_hclk() == self.spec_hclk(),
            r.spec_pclk2() == self.spec_pclk2(),
            r.spec_sysclk() == self.spec_sysclk(),
    {
        CFGR { pclk1: Some(freq.0), ..self }
    }

    /// Sets a frequency for the APB2 bus.
    pub fn pclk2(self, freq: Hertz) -> (r: Self)
        ensures
            r.spec_pclk2() == Some(freq.0),
            r.spec_hclk() == self.spec_hclk(),
            r.spec_pclk1() == self.spec_pclk1(),
            r.spec_sysclk() == self.spec_sysclk(),
    {
        CFGR { pclk2: Some(freq.0), ..self }
    }

    /// Sets a frequency and a source for the system clock. A PLL that has no
    /// input clock cannot drive SYSCLK.
    pub fn sysclk(self, src: SysClkSource) -> (r: Self)
        requires
            src matches SysClkSource::PLL(p) ==> p.spec_src().spec_is_connected(),
        ensures
            r.spec_sysclk() == src,
            r.spec_hclk() == self.spec_hclk(),
            r.spec_pclk1() == self.spec_pclk1(),
            r.spec_pclk2() == self.spec_pclk2(),
    {
        CFGR { sysclk: src, ..self }
    }

    /// Freezes the clock configuration, making it effective.
    ///
    /// Resolves the AHB prescaler from the SYSCLK-to-HCLK ratio, then each
    /// APB prescaler from the AHB frequency (the buses form a serial chain:
    /// SYSCLK feeds AHB, AHB feeds APB1 and APB2), records in the ACR the
    /// flash wait states the new SYSCLK requires, and returns the frozen
    /// snapshot every peripheral derives its timing from.
    pub fn freeze(self, acr: &mut ACR) -> (c: Clocks)
        requires
            self.freeze_ready(),
        ensures
            c.sysclk.0 == self.spec_sys_freq(),
            c.hclk.0 == self.spec_ahb_freq(),
            c.ppre1 == apb_div_spec(c.hclk.0, self.spec_pclk1()),
            c.ppre2 == apb_div_spec(c.hclk.0, self.spec_pclk2()),
            c.pclk1.0 == c.hclk.0 as int / c.ppre1 as int,
            c.pclk2.0 == c.hclk.0 as int / c.ppre2 as int,
            c.pll_src == (match self.spec_sysclk() {
                SysClkSource::PLL(p) => Some(p.spec_src()),
                _ => None::<clocking::PLLClkSource>,
            }),
            c.pll_psc == (match self.spec_sysclk() {
                SysClkSource::PLL(p) => Some(p.spec_m()),
                _ => None::<u8>,
            }),
            final(acr).latency == flash_latency_spec(c.sysclk.0),
    {
        let sys_clock = self.sysclk.freq();

        let hpre_bits = match self.hclk {
            Some(h) => {
                proof {
                    lemma_div_at_least_one(sys_clock as int, h as int);
                }
                hpre_code(sys_clock / h)
            },
            None => 0b0111,
        };
        let ahb = sys_clock / hpre_div(hpre_bits);
        assert(ahb == self.spec_ahb_freq());

        let ppre1_bits = match self.pclk1 {
            Some(p) => {
                proof {
                    lemma_div_at_least_one(ahb as int, p as int);
                }
                ppre_code(ahb / p)
            },
            None => 0b011,
        };
        let ppre1 = ppre_div(ppre1_bits);
        let apb1 = ahb / (ppre1 as u32);

        let ppre2_bits = match self.pclk2 {
            Some(p) => {
                proof {
                    lemma_div_at_least_one(ahb as int, p as int);
                }
                ppre_code(ahb / p)
            },
            None => 0b011,
        };
        let ppre2 = ppre_div(ppre2_bits);
        let apb2 = ahb / (ppre2 as u32);

        // The wait states must be safe for the new frequency before the
        // switch itself is written.
        acr.latency = flash_latency(sys_clock);

        Clocks {
            hclk: Hertz(ahb),
            pclk1: Hertz(apb1),
            pclk2: Hertz(apb2),
            sysclk: Hertz(sys_clock),
            pll_src: match self.sysclk {
                SysClkSource::PLL(s) => Some(s.src()),
                _ => None,
            },
            pll_psc: match self.sysclk {
                SysClkSource::PLL(s) => Some(s.m()),
                _ => None,
            },
            ppre1,
            ppre2,
        }
    }
}

/// Frozen clock frequencies.
///
/// The existence of this value indicates that the clock configuration can no
/// longer be changed.
#[derive(Clone, Copy)]
pub struct Clocks {
    /// Frequency of the AHB bus (HCLK).
    pub hclk: Hertz,
    /// Frequency of the APB1 bus (PCLK1).
    pub pclk1: Hertz,
    /// Frequency of the APB2 bus (PCLK2).
    pub pclk2: Hertz,
    /// Frequency of the system clock (SYSCLK).
    pub sysclk: Hertz,
    /// Clock source driving the PLL, when the PLL drives SYSCLK.
    pub pll_src: Option<clocking::PLLClkSource>,
    /// PLL input prescaler, the factor M of the clock tree.
    pub pll_psc: Option<u8>,
    /// APB1 prescaler divisor.
    pub ppre1: u8,
    /// APB2 prescaler divisor.
    pub ppre2: u8,
}

impl Clocks {
    /// Returns the frequency of the AHB.
    pub fn hclk(&self) -> (r: Hertz)
        ensures
            r == self.hclk,
    {
        self.hclk
    }

    /// Returns the frequency of the APB1.
    pub fn pclk1(&self) -> (r: Hertz)
        ensures
            r == self.pclk1,
    {
        self.pclk1
    }

    /// Returns the frequency of the APB2.
    pub fn pclk2(&self) -> (r: Hertz)
        ensures
            r == self.pclk2,
    {
        self.pclk2
    }

    /// Returns the value of the PCLK1 prescaler.
    pub fn ppre1(&self) -> (r: u8)
        ensures
            r == self.ppre1,
    {
        self.ppre1
    }

    /// Returns the value of the PCLK2 prescaler.
    pub fn ppre2(&self) -> (r: u8)
        ensures
            r == self.ppre2,
    {
        self.ppre2
    }

    /// Returns the system (core) frequency.
    pub fn sysclk(&self) -> (r: Hertz)
        ensures
            r == self.sysclk,
    {
        self.sysclk
    }
}

} // verus!

