//! The clock tree of the STM32L4x6: oscillators, RC clocks and the PLL.
//!
//! Sources are composed into a [`SysClkSource`] and handed to the clock
//! configuration (`rcc::CFGR`), which derives every bus frequency from them.
//! The PLL is both a source (`PLLClkOutput`) and a consumer of a source
//! (`PLLClkSource`); its constructor checks the hardware's electrical limits
//! so that an invalid clock tree can never be composed.

use vstd::prelude::*;

use crate::SYS_CLOCK_MAX;

verus! {

/// Anything that can drive another stage of the clock tree.
pub trait InputClock {
    /// The frequency in hertz that this clock supplies.
    spec fn freq_spec(&self) -> u32;

    /// Returns the clock's output frequency in hertz.
    fn freq(&self) -> (r: u32)
        ensures
            r == self.freq_spec(),
    ;
}

/// High-speed internal 16 MHz RC.
#[derive(Clone, Copy, Debug)]
pub struct HighSpeedInternal16RC {
    /// Keep the oscillator running even in stop mode.
    pub always_on: bool,
    /// Restart the oscillator automatically after stop mode.
    pub auto_start: bool,
}

/// The fixed output frequency of the high-speed internal RC.
pub const HSI16_FREQ: u32 = 16_000_000;

/// The frequencies the medium-speed internal RC can be trimmed to, and the
/// MSIRANGE register code that selects each of them.
pub open spec fn msi_range_bits(freq: u32) -> u8 {
    if freq == 100_000 {
        0b0000
    } else if freq == 200_000 {
        0b0001
    } else if freq == 400_000 {
        0b0010
    } else if freq == 800_000 {
        0b0011
    } else if freq == 1_000_000 {
        0b0100
    } else if freq == 2_000_000 {
        0b0101
    } else if freq == 4_000_000 {
        0b0110
    } else if freq == 8_000_000 {
        0b0111
    } else if freq == 16_000_000 {
        0b1000
    } else if freq == 24_000_000 {
        0b1001
    } else if freq == 32_000_000 {
        0b1010
    } else if freq == 48_000_000 {
        0b1011
    } else {
        0b0000
    }
}

/// Whether `freq` is one of the discrete speeds the MSI hardware offers.
pub open spec fn is_msi_freq(freq: u32) -> bool {
    ||| freq == 100_000
    ||| freq == 200_000
    ||| freq == 400_000
    ||| freq == 800_000
    ||| freq == 1_000_000
    ||| freq == 2_000_000
    ||| freq == 4_000_000
    ||| freq == 8_000_000
    ||| freq == 16_000_000
    ||| freq == 24_000_000
    ||| freq == 32_000_000
    ||| freq == 48_000_000
}

/// Checks whether `freq` is one of the discrete speeds the MSI hardware
/// offers.
pub fn is_valid_msi_freq(freq: u32) -> (r: bool)
    ensures
        r == is_msi_freq(freq),
{
    match freq {
        100_000 | 200_000 | 400_000 | 800_000 | 1_000_000 | 2_000_000 | 4_000_000 | 8_000_000
            | 16_000_000 | 24_000_000 | 32_000_000 | 48_000_000 => true,
        _ => false,
    }
}

/// Medium-speed internal 100 kHz - 48 MHz RC.
#[derive(Clone, Copy, Debug)]
pub struct MediumSpeedInternalRC {
    freq: u32,
    auto_cal: bool,
}

impl MediumSpeedInternalRC {
    /// The configured frequency in hertz.
    pub closed spec fn spec_freq(&self) -> u32 {
        self.freq
    }

    /// Whether hardware auto-calibration against the LSE was requested.
    pub closed spec fn spec_auto_cal(&self) -> bool {
        self.auto_cal
    }

    /// Describes an MSI clock trimmed to `freq` hertz, optionally
    /// auto-calibrated against the LSE.
    pub fn new(freq: u32, auto_cal: bool) -> (r: Self)
        ensures
            r.spec_freq() == freq,
            r.spec_auto_cal() == auto_cal,
    {
        MediumSpeedInternalRC { freq, auto_cal }
    }

    /// The MSIRANGE register code that selects the configured frequency.
    pub fn bits(&self) -> (r: u8)
        requires
            is_msi_freq(self.spec_freq()),
        ensures
            r == msi_range_bits(self.spec_freq()),
    {
        match self.freq {
            100_000 => 0b0000,
            200_000 => 0b0001,
            400_000 => 0b0010,
            800_000 => 0b0011,
            1_000_000 => 0b0100,
            2_000_000 => 0b0101,
            4_000_000 => 0b0110,
            8_000_000 => 0b0111,
            16_000_000 => 0b1000,
            24_000_000 => 0b1001,
            32_000_000 => 0b1010,
            48_000_000 => 0b1011,
            // excluded by the precondition
            _ => 0b0000,
        }
    }

    /// Whether hardware auto-calibration against the LSE was requested.
    pub fn auto_cal(&self) -> (r: bool)
        ensures
            r == self.spec_auto_cal(),
    {
        self.auto_cal
    }
}

impl InputClock for MediumSpeedInternalRC {
    open spec fn freq_spec(&self) -> u32 {
        self.spec_freq()
    }

    fn freq(&self) -> u32 {
        self.freq
    }
}

/// High-speed external 4-48 MHz oscillator.
#[derive(Clone, Copy, Debug)]
pub struct HighSpeedExternalOSC(pub u32);

impl InputClock for HighSpeedExternalOSC {
    open spec fn freq_spec(&self) -> u32 {
        self.0
    }

    fn freq(&self) -> u32 {
        self.0
    }
}

/// Clock that can drive the real-time clock.
#[derive(Clone, Copy, Debug)]
pub enum RtcClkSource {
    /// No clock selected.
    Off,
    /// Internal 32 kHz RC.
    LSI,
    /// External 32.768 kHz oscillator.
    LSE,
    /// High-speed external oscillator, prescaled by (a fixed value of) 32.
    HSEDiv32,
}

impl RtcClkSource {
    /// The frequency this selection supplies, given the HSE oscillator that
    /// would feed the divide-by-32 path.
    pub open spec fn spec_freq(&self, hse: Option<HighSpeedExternalOSC>) -> Option<u32> {
        match *self {
            RtcClkSource::Off => None,
            RtcClkSource::LSI => Some(32_000),
            RtcClkSource::LSE => Some(32_768),
            RtcClkSource::HSEDiv32 => match hse {
                Some(clk) => Some((clk.0 / 32) as u32),
                None => None,
            },
        }
    }

    /// Returns the output frequency of the RTC clock based on its input.
    pub fn freq(&self, hse: Option<HighSpeedExternalOSC>) -> (r: Option<u32>)
        ensures
            r == self.spec_freq(hse),
    {
        match *self {
            RtcClkSource::Off => None,
            RtcClkSource::LSI => Some(32_000),
            RtcClkSource::LSE => Some(32_768),
            RtcClkSource::HSEDiv32 => {
                if let Some(clk) = hse {
                    Some(clk.0 / 32)
                } else {
                    None
                }
            },
        }
    }

    /// The RTCSEL register code for this selection.
    pub open spec fn spec_bits(&self) -> u8 {
        match *self {
            RtcClkSource::Off => 0,
            RtcClkSource::LSE => 1,
            RtcClkSource::LSI => 2,
            RtcClkSource::HSEDiv32 => 3,
        }
    }

    /// The RTCSEL register code that selects this clock.
    pub fn bits(&self) -> (r: u8)
        ensures
            r == self.spec_bits(),
    {
        match *self {
            RtcClkSource::Off => 0,
            RtcClkSource::LSE => 1,
            RtcClkSource::LSI => 2,
            RtcClkSource::HSEDiv32 => 3,
        }
    }

    /// Decodes an RTCSEL register code back into the selection it names.
    pub fn from_bits(bits: u8) -> (r: RtcClkSource)
        requires
            bits <= 3,
        ensures
            r.spec_bits() == bits,
    {
        match bits {
            0 => RtcClkSource::Off,
            1 => RtcClkSource::LSE,
            2 => RtcClkSource::LSI,
            _ => RtcClkSource::HSEDiv32,
        }
    }
}

/// Clock that can drive SYSCLK.
#[derive(Clone, Copy, Debug)]
pub enum SysClkSource {
    /// High-speed internal 16 MHz RC.
    HSI16(HighSpeedInternal16RC),
    /// Medium-speed internal RC.
    MSI(MediumSpeedInternalRC),
    /// High-speed external oscillator.
    HSE(HighSpeedExternalOSC),
    /// Output of the PLL.
    PLL(PLLClkOutput),
}

impl InputClock for SysClkSource {
    open spec fn freq_spec(&self) -> u32 {
        match *self {
            SysClkSource::HSI16(_) => HSI16_FREQ,
            SysClkSource::MSI(s) => s.freq_spec(),
            SysClkSource::HSE(s) => s.freq_spec(),
            SysClkSource::PLL(s) => s.freq_spec(),
        }
    }

    fn freq(&self) -> u32 {
        match *self {
            SysClkSource::HSI16(_) => 16_000_000,
            SysClkSource::MSI(s) => s.freq(),
            SysClkSource::HSE(s) => s.freq(),
            SysClkSource::PLL(s) => s.freq(),
        }
    }
}

impl SysClkSource {
    /// The SW code the clock-switch field of the configuration register uses
    /// to select this source.
    pub open spec fn spec_sw_bits(&self) -> u8 {
        match *self {
            SysClkSource::MSI(_) => 0b00,
            SysClkSource::HSI16(_) => 0b01,
            SysClkSource::HSE(_) => 0b10,
            SysClkSource::PLL(_) => 0b11,
        }
    }

    /// The SW code that selects this source as SYSCLK.
    pub fn sw_bits(&self) -> (r: u8)
        ensures
            r == self.spec_sw_bits(),
    {
        match *self {
            SysClkSource::MSI(_) => 0b00,
            SysClkSource::HSI16(_) => 0b01,
            SysClkSource::HSE(_) => 0b10,
            SysClkSource::PLL(_) => 0b11,
        }
    }
}

/// Clock that can feed the PLL.
#[derive(Clone, Copy, Debug)]
pub enum PLLClkSource {
    /// The PLL input is disconnected.
    Off,
    /// Medium-speed internal RC.
    MSI(MediumSpeedInternalRC),
    /// High-speed internal 16 MHz RC.
    HSI16(HighSpeedInternal16RC),
    /// High-speed external oscillator.
    HSE(HighSpeedExternalOSC),
}

impl InputClock for PLLClkSource {
    open spec fn freq_spec(&self) -> u32 {
        match *self {
            PLLClkSource::Off => 0,
            PLLClkSource::MSI(s) => s.freq_spec(),
            PLLClkSource::HSI16(_) => HSI16_FREQ,
            PLLClkSource::HSE(s) => s.freq_spec(),
        }
    }

    fn freq(&self) -> u32 {
        match *self {
            PLLClkSource::Off => 0,
            PLLClkSource::MSI(s) => s.freq(),
            PLLClkSource::HSI16(_) => 16_000_000,
            PLLClkSource::HSE(s) => s.freq(),
        }
    }
}

impl PLLClkSource {
    /// The PLLSRC register code that selects this input.
    pub open spec fn spec_bits(&self) -> u8 {
        match *self {
            PLLClkSource::Off => 0b00,
            PLLClkSource::MSI(_) => 0b01,
            PLLClkSource::HSI16(_) => 0b10,
            PLLClkSource::HSE(_) => 0b11,
        }
    }

    /// The PLLSRC register code that selects this input.
    pub fn bits(&self) -> (r: u8)
        ensures
            r == self.spec_bits(),
    {
        match *self {
            PLLClkSource::Off => 0b00,
            PLLClkSource::MSI(_) => 0b01,
            PLLClkSource::HSI16(_) => 0b10,
            PLLClkSource::HSE(_) => 0b11,
        }
    }

    /// Whether an actual clock is connected.
    pub open spec fn spec_is_connected(&self) -> bool {
        !(*self is Off)
    }
}

/// Valid ranges of the PLL division and multiplication factors: the input
/// divider M, the VCO multiplier N and the output divider R.
pub open spec fn pll_params_valid(m: u8, n: u8, r: u8) -> bool {
    &&& 0 < m < 9
    &&& 7 < n < 87
    &&& (r == 2 || r == 4 || r == 6 || r == 8)
}

/// Frequency entering the VCO: the source divided by M.
pub open spec fn vco_input_freq(src_freq: u32, m: u8) -> int {
    src_freq as int / m as int
}

/// Frequency leaving the VCO: the input multiplied by N.
pub open spec fn vco_output_freq(src_freq: u32, m: u8, n: u8) -> int {
    vco_input_freq(src_freq, m) * n as int
}

/// Frequency of the PLLCLK output: the VCO output divided by R.
pub open spec fn pll_output_freq(src_freq: u32, m: u8, n: u8, r: u8) -> int {
    vco_output_freq(src_freq, m, n) / r as int
}

/// Lower bound of the VCO input window.
pub const VCO_INPUT_MIN: u32 = 4_000_000;

/// Upper bound of the VCO input window.
pub const VCO_INPUT_MAX: u32 = 16_000_000;

/// Lower bound of the VCO output window.
pub const VCO_OUTPUT_MIN: u32 = 64_000_000;

/// Upper bound of the VCO output window.
pub const VCO_OUTPUT_MAX: u32 = 344_000_000;

/// All the electrical limits a PLL configuration has to meet: factor ranges,
/// the VCO input and output windows, and the system-clock ceiling on the
/// derived output frequency.
pub open spec fn pll_config_ok(src_freq: u32, m: u8, n: u8, r: u8) -> bool {
    &&& pll_params_valid(m, n, r)
    &&& VCO_INPUT_MIN <= vco_input_freq(src_freq, m) <= VCO_INPUT_MAX
    &&& VCO_OUTPUT_MIN <= vco_output_freq(src_freq, m, n) <= VCO_OUTPUT_MAX
    &&& pll_output_freq(src_freq, m, n, r) < SYS_CLOCK_MAX
}

/// Why a PLL configuration was rejected.
#[derive(Clone, Copy, PartialEq, Eq, Structural, Debug)]
pub enum PllConfigError {
    /// M, N or R is outside its permitted range.
    ParamOutOfRange,
    /// The source frequency divided by M leaves the VCO input window.
    VcoInputOutOfRange,
    /// The multiplied frequency leaves the VCO output window.
    VcoOutputOutOfRange,
    /// The derived output frequency reaches the system-clock maximum.
    FreqTooHigh,
}

/// PLLCLK output of the PLL module.
#[derive(Clone, Copy, Debug)]
pub struct PLLClkOutput {
    src: PLLClkSource,
    m: u8,
    n: u8,
    r: u8,
    f: u32,
}

impl PLLClkOutput {
    /// The clock feeding the PLL.
    pub closed spec fn spec_src(&self) -> PLLClkSource {
        self.src
    }

    /// The input divider M.
    pub closed spec fn spec_m(&self) -> u8 {
        self.m
    }

    /// The VCO multiplier N.
    pub closed spec fn spec_n(&self) -> u8 {
        self.n
    }

    /// The output divider R.
    pub closed spec fn spec_r(&self) -> u8 {
        self.r
    }

    /// Creates a new PLL clock source. The arguments are the scale factors
    /// of the PLL stage; they end up in the PLLM, PLLN and PLLR fields of
    /// the PLL configuration register.
    ///
    /// Construction succeeds exactly when the factors lie in their hardware
    /// ranges, the VCO input and output frequencies fall inside their
    /// electrical windows, and the derived output stays below the
    /// system-clock maximum.
    pub fn new(src: PLLClkSource, m: u8, n: u8, r: u8) -> (result: Result<Self, PllConfigError>)
        ensures
            result is Ok <==> pll_config_ok(src.freq_spec(), m, n, r),
            (result matches Ok(p) ==> {
                &&& p.spec_src() == src
                &&& p.spec_m() == m
                &&& p.spec_n() == n
                &&& p.spec_r() == r
                &&& p.freq_spec() == pll_output_freq(src.freq_spec(), m, n, r)
            }),
            !pll_params_valid(m, n, r) ==> result == Err::<Self, _>(
                PllConfigError::ParamOutOfRange,
            ),
            (pll_params_valid(m, n, r) && !(VCO_INPUT_MIN <= vco_input_freq(src.freq_spec(), m)
                <= VCO_INPUT_MAX)) ==> result == Err::<Self, _>(PllConfigError::VcoInputOutOfRange),
            (pll_params_valid(m, n, r) && VCO_INPUT_MIN <= vco_input_freq(src.freq_spec(), m)
                <= VCO_INPUT_MAX && !(VCO_OUTPUT_MIN <= vco_output_freq(src.freq_spec(), m, n)
                <= VCO_OUTPUT_MAX)) ==> result == Err::<Self, _>(
                PllConfigError::VcoOutputOutOfRange,
            ),
            (pll_params_valid(m, n, r) && VCO_INPUT_MIN <= vco_input_freq(src.freq_spec(), m)
                <= VCO_INPUT_MAX && VCO_OUTPUT_MIN <= vco_output_freq(src.freq_spec(), m, n)
                <= VCO_OUTPUT_MAX && pll_output_freq(src.freq_spec(), m, n, r) >= SYS_CLOCK_MAX)
                ==> result == Err::<Self, _>(PllConfigError::FreqTooHigh),
    {
        if !(m > 0 && m < 9 && n > 7 && n < 87 && (r == 2 || r == 4 || r == 6 || r == 8)) {
            return Err(PllConfigError::ParamOutOfRange);
        }
        let src_freq = src.freq();
        let vco_in = src_freq / (m as u32);
        if vco_in < VCO_INPUT_MIN || vco_in > VCO_INPUT_MAX {
            return Err(PllConfigError::VcoInputOutOfRange);
        }
        assert(vco_in * n <= 16_000_000 * 86) by (nonlinear_arith)
            requires
                vco_in <= 16_000_000,
                n <= 86,
        ;
        let vco_out = vco_in * (n as u32);
        if vco_out < VCO_OUTPUT_MIN || vco_out > VCO_OUTPUT_MAX {
            return Err(PllConfigError::VcoOutputOutOfRange);
        }
        let f = vco_out / (r as u32);
        if f >= SYS_CLOCK_MAX {
            return Err(PllConfigError::FreqTooHigh);
        }
        Ok(PLLClkOutput { src, m, n, r, f })
    }

    /// The clock feeding the PLL.
    pub fn src(&self) -> (r: PLLClkSource)
        ensures
            r == self.spec_src(),
    {
        self.src
    }

    /// The input divider M.
    pub fn m(&self) -> (r: u8)
        ensures
            r == self.spec_m(),
    {
        self.m
    }

    /// The VCO multiplier N.
    pub fn n(&self) -> (r: u8)
        ensures
            r == self.spec_n(),
    {
        self.n
    }

    /// The output divider R.
    pub fn r(&self) -> (r: u8)
        ensures
            r == self.spec_r(),
    {
        self.r
    }
}

impl InputClock for PLLClkOutput {
    closed spec fn freq_spec(&self) -> u32 {
        self.f
    }

    fn freq(&self) -> u32 {
        self.f
    }
}

} // verus!
