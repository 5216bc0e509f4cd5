use stm32l4x6_hal::lcd;
use stm32l4x6_hal::lcd::config;
use stm32l4x6_hal::lcd::ValidationResult;

#[test]
pub fn calculate_frame_rate() {
    // Reference manual Ch. 25.3.2 Table 160
    let frame_rate = lcd::calculate_frame_rate(
        32_768,
        config::Prescaler::PS_8 as u32,
        config::Divider::DIV_17 as u32,
        config::Duty::OneTo8 as u8,
    );
    assert_eq!(frame_rate, 30);
    let frame_rate = lcd::calculate_frame_rate(32_768, 4, 1, config::Duty::OneTo4 as u8);
    assert_eq!(frame_rate, 30);
    let frame_rate = lcd::calculate_frame_rate(32_768, 4, 6, config::Duty::OneTo3 as u8);
    assert_eq!(frame_rate, 30);
    let frame_rate = lcd::calculate_frame_rate(32_768, 4, 6, config::Duty::OneTo3 as u8);
    assert_eq!(frame_rate, 30);
    let frame_rate = lcd::calculate_frame_rate(32_768, 5, 1, config::Duty::OneTo2 as u8);
    assert_eq!(frame_rate, 30);
    let frame_rate = lcd::calculate_frame_rate(
        32_768,
        config::Prescaler::PS_64 as u32,
        config::Divider::DIV_17 as u32,
        config::Duty::Static as u8,
    );
    assert_eq!(frame_rate, 30);

    let frame_rate = lcd::calculate_frame_rate(32_768, 1, 4, config::Duty::OneTo8 as u8);
    assert_eq!(frame_rate, 102);
    let frame_rate = lcd::calculate_frame_rate(32_768, 2, 4, config::Duty::OneTo4 as u8);
    assert_eq!(frame_rate, 102);
    let frame_rate = lcd::calculate_frame_rate(32_768, 2, 11, config::Duty::OneTo3 as u8);
    assert_eq!(frame_rate, 100);
    let frame_rate = lcd::calculate_frame_rate(32_768, 4, 4, config::Duty::Static as u8);
    assert_eq!(frame_rate, 102);

    let frame_rate = lcd::calculate_frame_rate(1_000_000, 6, 3, config::Duty::OneTo8 as u8);
    assert_eq!(frame_rate, 102);
    let frame_rate = lcd::calculate_frame_rate(1_000_000, 8, 3, config::Duty::OneTo2 as u8);
    assert_eq!(frame_rate, 102);
}

#[test]
fn validate_reports_missing_clock() {
    assert_eq!(lcd::validate(None, 3, 1, 4), ValidationResult::ClockNotSet);
}

#[test]
fn validate_approves_displayable_rates() {
    // LSE clock, prescaler 8, divider 17, duty 1/8: 30 Hz.
    assert_eq!(lcd::validate(Some(32_768), 3, 1, 4), ValidationResult::Approved(30));
    // 102 Hz still passes the upper bound of 110.
    assert_eq!(lcd::validate(Some(32_768), 1, 4, 4), ValidationResult::Approved(102));
}

#[test]
fn validate_rejects_out_of_band_rates() {
    // Dividing 32.768 kHz down by 2^15 gives a frame rate of zero.
    assert_eq!(lcd::validate(Some(32_768), 15, 0, 0), ValidationResult::SmallFrameRate);
    // An undivided 32.768 kHz static drive is far too fast.
    assert_eq!(lcd::validate(Some(32_768), 0, 0, 0), ValidationResult::BigFrameRate);
}

#[test]
fn lcd_config_codes_follow_field_order() {
    assert_eq!(config::Prescaler::PS_1 as u8, 0);
    assert_eq!(config::Prescaler::PS_32768 as u8, 15);
    assert_eq!(config::Divider::DIV_16 as u8, 0);
    assert_eq!(config::Divider::DIV_31 as u8, 15);
    assert_eq!(config::Duty::Static as u8, 0);
    assert_eq!(config::Duty::OneTo8 as u8, 4);
    assert_eq!(config::Bias::Bias13 as u8, 2);
    assert_eq!(config::BlinkMode::SegAllComAll as u8, 3);
    assert_eq!(config::BlinkFreq::Div1024 as u8, 7);
    assert_eq!(config::DeadTime::Phase7 as u8, 7);
    assert_eq!(config::VoltageSource::External as u8, 1);
    assert_eq!(config::PulseDuration::Seven as u8, 7);
    assert_eq!(config::Contrast::Seven as u8, 7);
    assert_eq!(config::HighDrive::On as u8, 1);
    assert_eq!(config::MuxSegment::On as u8, 1);
}

#[test]
fn lcd_config_default_sets_nothing() {
    let cfg = config::Config::default();
    assert!(cfg.prescaler.is_none());
    assert!(cfg.divider.is_none());
    assert!(cfg.duty.is_none());
    assert!(cfg.bias.is_none());
    assert!(cfg.blink_mode.is_none());
    assert!(cfg.blink_freq.is_none());
    assert!(cfg.dead_time.is_none());
    assert!(cfg.voltage_source.is_none());
    assert!(cfg.pulse_duration.is_none());
    assert!(cfg.contrast.is_none());
    assert!(cfg.high_drive.is_none());
    assert!(cfg.mux_segment.is_none());
}
