use stm32l4x6_hal::flash::ACR;
use stm32l4x6_hal::rcc::clocking::{
    HighSpeedExternalOSC, HighSpeedInternal16RC, InputClock, MediumSpeedInternalRC, PLLClkOutput,
    PLLClkSource, PllConfigError, RtcClkSource, SysClkSource,
};
use stm32l4x6_hal::rcc::{self, CFGR};
use stm32l4x6_hal::SYS_CLOCK_MAX;

fn hsi() -> HighSpeedInternal16RC {
    HighSpeedInternal16RC { always_on: false, auto_start: false }
}

#[test]
fn pll_freq_matches_formula_for_valid_params() {
    // 16 MHz / 2 * 16 / 4 = 32 MHz.
    let pll = PLLClkOutput::new(PLLClkSource::HSI16(hsi()), 2, 16, 4).unwrap();
    assert_eq!(pll.freq(), 16_000_000 / 2 * 16 / 4);
    assert_eq!(pll.m(), 2);
    assert_eq!(pll.n(), 16);
    assert_eq!(pll.r(), 4);

    // 8 MHz external crystal: 8 MHz / 1 * 36 / 4 = 72 MHz.
    let pll = PLLClkOutput::new(PLLClkSource::HSE(HighSpeedExternalOSC(8_000_000)), 1, 36, 4)
        .unwrap();
    assert_eq!(pll.freq(), 8_000_000 / 1 * 36 / 4);

    // 48 MHz MSI: 48 MHz / 8 * 56 / 8 = 42 MHz.
    let msi = MediumSpeedInternalRC::new(48_000_000, false);
    let pll = PLLClkOutput::new(PLLClkSource::MSI(msi), 8, 56, 8).unwrap();
    assert_eq!(pll.freq(), 48_000_000 / 8 * 56 / 8);

    // Just below the system-clock ceiling.
    let pll = PLLClkOutput::new(PLLClkSource::HSE(HighSpeedExternalOSC(9_999_999)), 1, 32, 4)
        .unwrap();
    assert_eq!(pll.freq(), 79_999_992);
    assert!(pll.freq() < SYS_CLOCK_MAX);
}

#[test]
fn pll_rejects_out_of_range_params() {
    let src = PLLClkSource::HSI16(hsi());
    assert_eq!(PLLClkOutput::new(src, 0, 16, 4).unwrap_err(), PllConfigError::ParamOutOfRange);
    assert_eq!(PLLClkOutput::new(src, 9, 16, 4).unwrap_err(), PllConfigError::ParamOutOfRange);
    assert_eq!(PLLClkOutput::new(src, 2, 7, 4).unwrap_err(), PllConfigError::ParamOutOfRange);
    assert_eq!(PLLClkOutput::new(src, 2, 87, 4).unwrap_err(), PllConfigError::ParamOutOfRange);
    assert_eq!(PLLClkOutput::new(src, 2, 16, 3).unwrap_err(), PllConfigError::ParamOutOfRange);
    assert_eq!(PLLClkOutput::new(src, 2, 16, 0).unwrap_err(), PllConfigError::ParamOutOfRange);
}

#[test]
fn pll_rejects_vco_input_outside_window() {
    // 2 MHz / 1 = 2 MHz, below the 4 MHz floor.
    let msi = MediumSpeedInternalRC::new(2_000_000, false);
    assert_eq!(
        PLLClkOutput::new(PLLClkSource::MSI(msi), 1, 40, 4).unwrap_err(),
        PllConfigError::VcoInputOutOfRange
    );
    // 20 MHz / 1 = 20 MHz, above the 16 MHz ceiling.
    let hse = HighSpeedExternalOSC(20_000_000);
    assert_eq!(
        PLLClkOutput::new(PLLClkSource::HSE(hse), 1, 16, 4).unwrap_err(),
        PllConfigError::VcoInputOutOfRange
    );
    // A disconnected input supplies 0 Hz, which no divider can lift.
    assert_eq!(
        PLLClkOutput::new(PLLClkSource::Off, 1, 40, 4).unwrap_err(),
        PllConfigError::VcoInputOutOfRange
    );
}

#[test]
fn pll_rejects_vco_output_outside_window() {
    // 16 MHz * 40 = 640 MHz, far above the 344 MHz ceiling.
    assert_eq!(
        PLLClkOutput::new(PLLClkSource::HSI16(hsi()), 1, 40, 2).unwrap_err(),
        PllConfigError::VcoOutputOutOfRange
    );
    // 4 MHz * 8 = 32 MHz, below the 64 MHz floor.
    let msi = MediumSpeedInternalRC::new(4_000_000, false);
    assert_eq!(
        PLLClkOutput::new(PLLClkSource::MSI(msi), 1, 8, 2).unwrap_err(),
        PllConfigError::VcoOutputOutOfRange
    );
}

#[test]
fn pll_rejects_output_at_sys_clock_max() {
    // 16 MHz / 2 * 20 / 2 = 80 MHz: the ceiling itself is invalid, the
    // bound is strict.
    assert_eq!(
        PLLClkOutput::new(PLLClkSource::HSI16(hsi()), 2, 20, 2).unwrap_err(),
        PllConfigError::FreqTooHigh
    );
}

#[test]
fn freeze_with_default_config_yields_msi_reset_clocks() {
    let mut acr = ACR::default();
    let clocks = CFGR::default().freeze(&mut acr);
    assert_eq!(clocks.hclk().0, 4_000_000);
    assert_eq!(clocks.pclk1().0, 4_000_000);
    assert_eq!(clocks.pclk2().0, 4_000_000);
    assert_eq!(clocks.sysclk().0, 4_000_000);
    assert_eq!(clocks.ppre1(), 1);
    assert_eq!(clocks.ppre2(), 1);
    assert!(clocks.pll_src.is_none());
    assert!(clocks.pll_psc.is_none());
    assert_eq!(acr.latency, 0);
}

#[test]
fn freeze_resolves_bus_targets_through_the_prescaler_chain() {
    let mut acr = ACR::default();
    let cfgr = CFGR::default()
        .sysclk(SysClkSource::HSI16(hsi()))
        .hclk(stm32l4x6_hal::time::Hertz(8_000_000))
        .pclk1(stm32l4x6_hal::time::Hertz(1_000_000))
        .pclk2(stm32l4x6_hal::time::Hertz(3_000_000));
    let clocks = cfgr.freeze(&mut acr);
    assert_eq!(clocks.sysclk().0, 16_000_000);
    // Ratio 2 selects divide-by-2.
    assert_eq!(clocks.hclk().0, 8_000_000);
    // Ratio 8 falls in the 6..=11 bucket: divide-by-8.
    assert_eq!(clocks.ppre1(), 8);
    assert_eq!(clocks.pclk1().0, 1_000_000);
    // Ratio 8/3 = 2 selects divide-by-2.
    assert_eq!(clocks.ppre2(), 2);
    assert_eq!(clocks.pclk2().0, 4_000_000);
    assert_eq!(acr.latency, 0);
}

#[test]
fn freeze_uses_the_hardware_divisor_table() {
    // The AHB prescaler offers no divide-by-32: a ratio of 48 falls in the
    // 40..=95 bucket, whose hardware divisor is 64.
    let mut acr = ACR::default();
    let msi = MediumSpeedInternalRC::new(48_000_000, false);
    let cfgr = CFGR::default()
        .sysclk(SysClkSource::MSI(msi))
        .hclk(stm32l4x6_hal::time::Hertz(1_000_000));
    let clocks = cfgr.freeze(&mut acr);
    assert_eq!(clocks.hclk().0, 48_000_000 / 64);
    assert_eq!(clocks.sysclk().0, 48_000_000);
    assert_eq!(acr.latency, 2);
}

#[test]
fn freeze_records_pll_source_and_prescaler() {
    let mut acr = ACR::default();
    let pll = PLLClkOutput::new(PLLClkSource::HSI16(hsi()), 1, 8, 2).unwrap();
    assert_eq!(pll.freq(), 64_000_000);
    let clocks = CFGR::default().sysclk(SysClkSource::PLL(pll)).freeze(&mut acr);
    assert_eq!(clocks.sysclk().0, 64_000_000);
    assert_eq!(clocks.hclk().0, 64_000_000);
    assert!(matches!(clocks.pll_src, Some(PLLClkSource::HSI16(_))));
    assert_eq!(clocks.pll_psc, Some(1));
    // 64 MHz sits at the top of the three-wait-state band.
    assert_eq!(acr.latency, 3);
}

#[test]
fn flash_latency_buckets_match_the_reference_table() {
    assert_eq!(rcc::flash_latency(4_000_000), 0);
    assert_eq!(rcc::flash_latency(16_000_000), 0);
    assert_eq!(rcc::flash_latency(16_000_001), 1);
    assert_eq!(rcc::flash_latency(20_000_000), 1);
    assert_eq!(rcc::flash_latency(32_000_000), 1);
    assert_eq!(rcc::flash_latency(32_000_001), 2);
    assert_eq!(rcc::flash_latency(48_000_000), 2);
    assert_eq!(rcc::flash_latency(64_000_000), 3);
    assert_eq!(rcc::flash_latency(64_000_001), 4);
    assert_eq!(rcc::flash_latency(80_000_000), 4);
}

#[test]
fn hpre_buckets_and_divisors() {
    let table: [(u32, u8, u32); 9] = [
        (1, 0b0111, 1),
        (2, 0b1000, 2),
        (3, 0b1001, 4),
        (11, 0b1010, 8),
        (39, 0b1011, 16),
        (40, 0b1100, 64),
        (96, 0b1101, 128),
        (383, 0b1110, 256),
        (384, 0b1111, 512),
    ];
    for (ratio, code, div) in table {
        assert_eq!(rcc::hpre_code(ratio), code);
        assert_eq!(rcc::hpre_div(code), div);
    }
}

#[test]
fn ppre_buckets_and_divisors() {
    let table: [(u32, u8, u8); 5] = [
        (1, 0b011, 1),
        (2, 0b100, 2),
        (5, 0b101, 4),
        (6, 0b110, 8),
        (12, 0b111, 16),
    ];
    for (ratio, code, div) in table {
        assert_eq!(rcc::ppre_code(ratio), code);
        assert_eq!(rcc::ppre_div(code), div);
    }
}

#[test]
fn prescaler_lookup_is_monotonic_and_idempotent() {
    // Monotonic: a larger requested ratio never selects a smaller divisor.
    let mut previous: u32 = 0;
    for ratio in 1u32..600 {
        let div = rcc::hpre_div(rcc::hpre_code(ratio));
        assert!(div >= previous);
        previous = div;
    }
    let mut previous: u8 = 0;
    for ratio in 1u32..40 {
        let div = rcc::ppre_div(rcc::ppre_code(ratio));
        assert!(div >= previous);
        previous = div;
    }
    // Idempotent: looking up a selected divisor selects it again.
    for ratio in 1u32..600 {
        let div = rcc::hpre_div(rcc::hpre_code(ratio));
        assert_eq!(rcc::hpre_div(rcc::hpre_code(div)), div);
    }
    for ratio in 1u32..40 {
        let div = rcc::ppre_div(rcc::ppre_code(ratio));
        assert_eq!(rcc::ppre_div(rcc::ppre_code(div as u32)), div);
    }
}

#[test]
fn clock_sources_report_their_frequencies() {
    let msi = MediumSpeedInternalRC::new(8_000_000, true);
    assert_eq!(msi.freq(), 8_000_000);
    assert!(msi.auto_cal());
    assert_eq!(HighSpeedExternalOSC(12_345_678).freq(), 12_345_678);
    assert_eq!(SysClkSource::HSI16(hsi()).freq(), 16_000_000);
    assert_eq!(SysClkSource::MSI(msi).freq(), 8_000_000);
    assert_eq!(PLLClkSource::Off.freq(), 0);
    assert_eq!(PLLClkSource::HSI16(hsi()).freq(), 16_000_000);
}

#[test]
fn msi_range_codes() {
    let table: [(u32, u8); 12] = [
        (100_000, 0b0000),
        (200_000, 0b0001),
        (400_000, 0b0010),
        (800_000, 0b0011),
        (1_000_000, 0b0100),
        (2_000_000, 0b0101),
        (4_000_000, 0b0110),
        (8_000_000, 0b0111),
        (16_000_000, 0b1000),
        (24_000_000, 0b1001),
        (32_000_000, 0b1010),
        (48_000_000, 0b1011),
    ];
    for (freq, code) in table {
        assert_eq!(MediumSpeedInternalRC::new(freq, false).bits(), code);
    }
}

#[test]
fn sysclk_switch_codes() {
    let msi = MediumSpeedInternalRC::new(4_000_000, false);
    assert_eq!(SysClkSource::MSI(msi).sw_bits(), 0b00);
    assert_eq!(SysClkSource::HSI16(hsi()).sw_bits(), 0b01);
    assert_eq!(SysClkSource::HSE(HighSpeedExternalOSC(8_000_000)).sw_bits(), 0b10);
    let pll = PLLClkOutput::new(PLLClkSource::HSI16(hsi()), 1, 8, 2).unwrap();
    assert_eq!(SysClkSource::PLL(pll).sw_bits(), 0b11);
}

#[test]
fn pll_source_codes() {
    let msi = MediumSpeedInternalRC::new(4_000_000, false);
    assert_eq!(PLLClkSource::Off.bits(), 0b00);
    assert_eq!(PLLClkSource::MSI(msi).bits(), 0b01);
    assert_eq!(PLLClkSource::HSI16(hsi()).bits(), 0b10);
    assert_eq!(PLLClkSource::HSE(HighSpeedExternalOSC(8_000_000)).bits(), 0b11);
}

#[test]
fn rtc_clock_frequencies_and_codes() {
    assert_eq!(RtcClkSource::Off.freq(None), None);
    assert_eq!(RtcClkSource::LSI.freq(None), Some(32_000));
    assert_eq!(RtcClkSource::LSE.freq(None), Some(32_768));
    assert_eq!(RtcClkSource::HSEDiv32.freq(None), None);
    assert_eq!(RtcClkSource::HSEDiv32.freq(Some(HighSpeedExternalOSC(8_000_000))), Some(250_000));

    assert_eq!(RtcClkSource::Off.bits(), 0);
    assert_eq!(RtcClkSource::LSE.bits(), 1);
    assert_eq!(RtcClkSource::LSI.bits(), 2);
    assert_eq!(RtcClkSource::HSEDiv32.bits(), 3);
    for code in 0u8..4 {
        assert_eq!(RtcClkSource::from_bits(code).bits(), code);
    }
}
