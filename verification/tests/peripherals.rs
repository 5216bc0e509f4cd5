use stm32l4x6_hal::config;
use stm32l4x6_hal::crc::{PolySize, ReverseInput, DEFAULT_INIT, DEFAULT_POLY};
use stm32l4x6_hal::gpio::{
    afr_bits, moder_alt_fun_bits, moder_input_bits, moder_output_bits, AltFun, Floating,
    InputMode, OpenDrain, OutputMode, PullDown, PullUp, PushPull, AF11, AF7,
};
use stm32l4x6_hal::serial::config::{Config, DefaultCfg};
use stm32l4x6_hal::serial::{brr_value, DummyPin, Pin};
use stm32l4x6_hal::spi::spi_br_bits;
use stm32l4x6_hal::time::{Hertz, KiloHertz, MegaHertz};
use stm32l4x6_hal::timer::{syst_rvr, timer_clock_multiplier, timer_reload};

#[test]
fn pupdr_bits_select_the_mode_and_keep_other_fields() {
    // Pin 2: field bits 4..=5.
    assert_eq!(Floating::modify_pupdr_bits(0xFFFF_FFFF, 4), 0xFFFF_FFCF);
    assert_eq!(PullUp::modify_pupdr_bits(0xFFFF_FFFF, 4), 0xFFFF_FFDF);
    assert_eq!(PullDown::modify_pupdr_bits(0xFFFF_FFFF, 4), 0xFFFF_FFEF);
    assert_eq!(PullUp::modify_pupdr_bits(0, 4), 0x10);
    assert_eq!(PullDown::modify_pupdr_bits(0, 30), 0x8000_0000);
}

#[test]
fn otyper_bits_select_the_mode_and_keep_other_bits() {
    assert_eq!(PushPull::modify_otyper_bits(0xFFFF_FFFF, 3), 0xFFFF_FFF7);
    assert_eq!(OpenDrain::modify_otyper_bits(0, 3), 0x8);
    assert_eq!(OpenDrain::modify_otyper_bits(0x8, 3), 0x8);
}

#[test]
fn moder_and_afr_values() {
    // Pin 5: field bits 10..=11.
    assert_eq!(moder_input_bits(0xFFFF_FFFF, 10), 0xFFFF_F3FF);
    assert_eq!(moder_output_bits(0, 10), 0x400);
    assert_eq!(moder_alt_fun_bits(0, 10), 0x800);
    assert_eq!(afr_bits(0, 8, AF11::num()), 0xB00);
    assert_eq!(AF7::num(), 7);
}

#[test]
fn crc_field_codes_and_defaults() {
    assert_eq!(DEFAULT_POLY, 0x04C1_1DB7);
    assert_eq!(DEFAULT_INIT, 0xFFFF_FFFF);
    assert_eq!(PolySize::Word.bits(), 0x00);
    assert_eq!(PolySize::Half.bits(), 0x01);
    assert_eq!(PolySize::Byte.bits(), 0x10);
    assert_eq!(PolySize::SevenBit.bits(), 0x11);
    assert_eq!(ReverseInput::Keep.bits(), 0x00);
    assert_eq!(ReverseInput::Byte.bits(), 0x01);
    assert_eq!(ReverseInput::Half.bits(), 0x10);
    assert_eq!(ReverseInput::Word.bits(), 0x11);
}

#[test]
fn serial_baud_register_value() {
    // 16 MHz bus at 115200 baud.
    assert_eq!(brr_value(16_000_000, 115_200), 138);
    // The classic 9600 on an 8 MHz bus.
    assert_eq!(brr_value(8_000_000, 9_600), 833);
}

#[test]
fn serial_markers_and_default_config() {
    assert_eq!(DummyPin::uart_idx(), 0);
    assert!(DummyPin::does_belong(1));
    assert!(DummyPin::does_belong(3));
    assert_eq!(DefaultCfg::baud(), 9_200);
}

#[test]
fn spi_baud_divider_codes() {
    assert_eq!(spi_br_bits(1), 0b000);
    assert_eq!(spi_br_bits(2), 0b000);
    assert_eq!(spi_br_bits(3), 0b001);
    assert_eq!(spi_br_bits(11), 0b010);
    assert_eq!(spi_br_bits(23), 0b011);
    assert_eq!(spi_br_bits(39), 0b100);
    assert_eq!(spi_br_bits(95), 0b101);
    assert_eq!(spi_br_bits(191), 0b110);
    assert_eq!(spi_br_bits(192), 0b111);
    assert_eq!(spi_br_bits(10_000), 0b111);
}

#[test]
fn timer_reload_splits_ticks_into_psc_and_arr() {
    // 8 MHz bus, prescaler 1, 1 kHz period: 8000 ticks fit without
    // a prescaler.
    assert_eq!(timer_clock_multiplier(1), 1);
    assert_eq!(timer_reload(8_000_000, 1, 1_000), (0, 8_000));
    // 40 MHz bus behind a dividing prescaler: the timer runs at 80 MHz;
    // 80000 ticks need one prescaler step.
    assert_eq!(timer_clock_multiplier(4), 2);
    assert_eq!(timer_reload(40_000_000, 2, 1_000), (1, 40_000));
}

#[test]
fn syst_reload_values() {
    assert_eq!(syst_rvr(8_000_000, 1_000), 7_999);
    assert_eq!(config::SYST_MAX_RVR, 1 << 24);
    assert_eq!(config::syst_reload_us(1_000, 80_000_000), 80_000);
    // A full second at 80 MHz overflows the 24-bit counter and is capped.
    assert_eq!(config::syst_reload_us(1_000_000, 80_000_000), config::SYST_MAX_RVR);
    assert_eq!(config::syst_reload_ms(1, 80_000_000), 80_000);
}

#[test]
fn frequency_conversions() {
    assert_eq!(Hertz::new(123).0, 123);
    assert_eq!(KiloHertz(32).to_hertz(), Hertz(32_000));
    assert_eq!(MegaHertz(8).to_hertz(), Hertz(8_000_000));
    assert_eq!(MegaHertz(8).to_kilohertz(), KiloHertz(8_000));
}
