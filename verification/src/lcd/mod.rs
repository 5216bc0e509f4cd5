//! LCD controller configuration: the frame-rate arithmetic used to vet a
//! prescaler, divider and duty combination before it is written to the
//! hardware.

use vstd::prelude::*;

pub mod config;

verus! {

/// Outcome of vetting an LCD configuration.
#[derive(Clone, Copy, PartialEq, Eq, Structural, Debug)]
pub enum ValidationResult {
    /// Valid frame rate.
    ///
    /// Contains the approximate frame rate.
    Approved(u32),
    /// The RTC clock is not set; the LCD has no input clock.
    ClockNotSet,
    /// The resulting frame rate is below the minimum of roughly 30 Hz.
    SmallFrameRate,
    /// The resulting frame rate is above the maximum of roughly 100 Hz.
    BigFrameRate,
}

/// The factor the duty cycle contributes to the frame rate, scaled by 1000
/// so the fractional duties stay in integer arithmetic.
pub open spec fn duty_numerator_spec(duty: u8) -> u32 {
    if duty == 0 {
        1000
    } else if duty == 1 {
        500
    } else if duty == 2 {
        333
    } else if duty == 3 {
        250
    } else {
        125
    }
}

/// The approximate frame rate produced by an input clock, a power-of-two
/// prescaler code, a divider code and a duty code:
/// `clock / (2^ps * (16 + div)) * duty / 1000`.
pub open spec fn frame_rate_spec(clock_frequency: u32, ps: u32, div: u32, duty: u8) -> int {
    ((clock_frequency as int / ((1u32 << ps) * (16 + div as int))) * duty_numerator_spec(
        duty,
    ) as int) / 1000
}

/// The arithmetic of [`calculate_frame_rate`] stays within `u32`.
pub open spec fn frame_rate_args_ok(clock_frequency: u32, ps: u32, div: u32, duty: u8) -> bool {
    &&& ps <= 31
    &&& duty <= 4
    &&& (1u32 << ps) * (16 + div as int) <= u32::MAX
    &&& (clock_frequency as int / ((1u32 << ps) * (16 + div as int))) * duty_numerator_spec(duty)
        as int <= u32::MAX
}

/// Computes the approximate frame rate for a clock frequency, prescaler
/// code, divider code and duty code. The duty factor is taken times 1000
/// and divided back out at the end to drop the fractional part.
pub fn calculate_frame_rate(clock_frequency: u32, ps: u32, div: u32, duty: u8) -> (r: u32)
    requires
        frame_rate_args_ok(clock_frequency, ps, div, duty),
    ensures
        r == frame_rate_spec(clock_frequency, ps, div, duty),
{
    proof {
        assert(1u32 << ps >= 1) by (bit_vector)
            requires
                ps <= 31,
        ;
        assert((1u32 << ps) * (16 + div as int) >= 16 + div as int) by (nonlinear_arith)
            requires
                1u32 << ps >= 1,
                div >= 0,
        ;
    }
    let denom = (1u32 << ps) * (16 + div);
    let base = clock_frequency / denom;
    let numerator: u32 = if duty == 0 {
        1000
    } else if duty == 1 {
        500
    } else if duty == 2 {
        333
    } else if duty == 3 {
        250
    } else {
        125
    };
    base * numerator / 1000
}

/// The verdict [`validate`] reaches for a resolved clock and configuration.
pub open spec fn validate_spec(clock_frequency: Option<u32>, ps: u32, div: u32, duty: u8)
    -> ValidationResult {
    match clock_frequency {
        None => ValidationResult::ClockNotSet,
        Some(f) => {
            let rate = frame_rate_spec(f, ps, div, duty);
            if rate < 29 {
                ValidationResult::SmallFrameRate
            } else if rate > 110 {
                ValidationResult::BigFrameRate
            } else {
                ValidationResult::Approved(rate as u32)
            }
        },
    }
}

/// Vets a resolved LCD configuration: `clock_frequency` is the RTC clock
/// driving the LCD (absent when no RTC clock is selected), `ps`, `div` and
/// `duty` are the register codes that would be in effect. Approves exactly
/// the combinations whose frame rate lands in the displayable band.
pub fn validate(clock_frequency: Option<u32>, ps: u32, div: u32, duty: u8) -> (r: ValidationResult)
    requires
        clock_frequency matches Some(f) ==> frame_rate_args_ok(f, ps, div, duty),
    ensures
        r == validate_spec(clock_frequency, ps, div, duty),
{
    let f = match clock_frequency {
        Some(f) => f,
        None => {
            return ValidationResult::ClockNotSet;
        },
    };

    let frame_rate = calculate_frame_rate(f, ps, div, duty);

    if frame_rate < 29 {
        ValidationResult::SmallFrameRate
    } else if frame_rate > 110 {
        ValidationResult::BigFrameRate
    } else {
        ValidationResult::Approved(frame_rate)
    }
}

} // verus!
