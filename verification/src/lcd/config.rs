//! LCD configuration values.
//!
//! Each enum lists the values a register field accepts, in the order of
//! their field codes, so a value can be taken as its raw code with an
//! `as` cast.

use vstd::prelude::*;

verus! {

/// Possible LCD events.
pub enum Event {
    /// Enables interrupt to be run at the beginning of each frame.
    StartFrame,
    /// Enables interrupt to be run each time LCD is updated.
    UpdateDone,
}

#[derive(Copy, Clone)]
#[allow(non_camel_case_types)]
/// LCD prescaler value: the clock is divided by two to the power of the
/// field code.
pub enum Prescaler {
    /// LCDCLK
    PS_1,
    /// LCDCLK/2
    PS_2,
    /// LCDCLK/4
    PS_4,
    /// LCDCLK/8
    PS_8,
    /// LCDCLK/16
    PS_16,
    /// LCDCLK/32
    PS_32,
    /// LCDCLK/64
    PS_64,
    /// LCDCLK/128
    PS_128,
    /// LCDCLK/256
    PS_256,
    /// LCDCLK/512
    PS_512,
    /// LCDCLK/1024
    PS_1024,
    /// LCDCLK/2048
    PS_2048,
    /// LCDCLK/4096
    PS_4096,
    /// LCDCLK/8192
    PS_8192,
    /// LCDCLK/16384
    PS_16384,
    /// LCDCLK/32768
    PS_32768,
}

#[derive(Copy, Clone)]
#[allow(non_camel_case_types)]
/// LCD clock divider: the prescaled clock is divided by sixteen plus the
/// field code.
pub enum Divider {
    /// CLKPS/16
    DIV_16,
    /// CLKPS/17
    DIV_17,
    /// CLKPS/18
    DIV_18,
    /// CLKPS/19
    DIV_19,
    /// CLKPS/20
    DIV_20,
    /// CLKPS/21
    DIV_21,
    /// CLKPS/22
    DIV_22,
    /// CLKPS/23
    DIV_23,
    /// CLKPS/24
    DIV_24,
    /// CLKPS/25
    DIV_25,
    /// CLKPS/26
    DIV_26,
    /// CLKPS/27
    DIV_27,
    /// CLKPS/28
    DIV_28,
    /// CLKPS/29
    DIV_29,
    /// CLKPS/30
    DIV_30,
    /// CLKPS/31
    DIV_31,
}

#[derive(Copy, Clone)]
/// LCD duty cycle.
pub enum Duty {
    /// Static duty.
    Static,
    /// 1/2 duty.
    OneTo2,
    /// 1/3 duty.
    OneTo3,
    /// 1/4 duty.
    OneTo4,
    /// 1/8 duty.
    OneTo8,
}

#[derive(Copy, Clone)]
/// LCD bias selector.
pub enum Bias {
    /// 1/4 bias.
    Bias14,
    /// 1/2 bias.
    Bias12,
    /// 1/3 bias.
    Bias13,
}

#[derive(Copy, Clone)]
/// Blink mode selection.
pub enum BlinkMode {
    /// Disabled.
    Disabled,
    /// Blink enabled for SEG[0], COM[0] (1 pixel).
    Seg0Com0,
    /// Blink enabled for SEG[0], all COMs (up to 8 pixels depending on the
    /// programmed duty).
    Seg0ComAll,
    /// Blink enabled on all SEGs and all COMs (all pixels).
    SegAllComAll,
}

#[derive(Copy, Clone)]
/// Blink frequency as a divider of the prescaled clock.
pub enum BlinkFreq {
    /// Divide by 8.
    Div8,
    /// Divide by 16.
    Div16,
    /// Divide by 32.
    Div32,
    /// Divide by 64.
    Div64,
    /// Divide by 128.
    Div128,
    /// Divide by 256.
    Div256,
    /// Divide by 512.
    Div512,
    /// Divide by 1024.
    Div1024,
}

#[derive(Copy, Clone)]
/// Dead-time duration.
///
/// During the dead time the COM and SEG voltage levels are held at 0 V to
/// reduce the contrast without modifying the frame rate.
pub enum DeadTime {
    /// No dead time.
    Off,
    /// One phase inserted.
    Phase1,
    /// Two phases inserted.
    Phase2,
    /// Three phases inserted.
    Phase3,
    /// Four phases inserted.
    Phase4,
    /// Five phases inserted.
    Phase5,
    /// Six phases inserted.
    Phase6,
    /// Seven phases inserted.
    Phase7,
}

#[derive(Copy, Clone)]
/// Voltage source for the LCD.
pub enum VoltageSource {
    /// Voltage step-up converter.
    Internal,
    /// VLCD pin.
    External,
}

#[derive(Copy, Clone)]
/// Pulse duration in terms of the prescaled clock period.
///
/// A short pulse leads to lower power consumption, but displays with high
/// internal resistance may need a longer pulse to achieve satisfactory
/// contrast.
pub enum PulseDuration {
    /// No pulse.
    Off,
    /// One clock period.
    One,
    /// Two clock periods.
    Two,
    /// Three clock periods.
    Three,
    /// Four clock periods.
    Four,
    /// Five clock periods.
    Five,
    /// Six clock periods.
    Six,
    /// Seven clock periods.
    Seven,
}

#[derive(Copy, Clone)]
/// Contrast level, selecting the LCD's maximum voltage.
///
/// The voltage range is board specific; refer to the board's datasheet.
pub enum Contrast {
    /// Lowest maximum voltage.
    Zero,
    /// Contrast level one.
    One,
    /// Contrast level two.
    Two,
    /// Contrast level three.
    Three,
    /// Contrast level four.
    Four,
    /// Contrast level five.
    Five,
    /// Contrast level six.
    Six,
    /// Highest maximum voltage.
    Seven,
}

#[derive(Copy, Clone)]
/// High-drive mode.
///
/// Displays with high internal resistance may need a longer drive time to
/// achieve satisfactory contrast; this costs some additional power.
pub enum HighDrive {
    /// High drive disabled.
    Off,
    /// High drive enabled; the pulse duration then has to be programmed to
    /// one clock period.
    On,
}

#[derive(Copy, Clone)]
/// SEG pin remapping.
pub enum MuxSegment {
    /// No remapping.
    Off,
    /// SEG[31:28] are multiplexed with SEG[43:40].
    On,
}

/// LCD configuration.
///
/// When an option is not set, the corresponding register field is left as
/// the hardware has it.
pub struct Config {
    /// Prescaler for the LCD clock.
    pub prescaler: Option<Prescaler>,
    /// Divider for the prescaled clock.
    pub divider: Option<Divider>,
    /// Duty cycle.
    pub duty: Option<Duty>,
    /// Bias selector.
    pub bias: Option<Bias>,
    /// Blink mode.
    pub blink_mode: Option<BlinkMode>,
    /// Blink frequency.
    pub blink_freq: Option<BlinkFreq>,
    /// Dead time.
    pub dead_time: Option<DeadTime>,
    /// Voltage source.
    pub voltage_source: Option<VoltageSource>,
    /// Pulse duration.
    pub pulse_duration: Option<PulseDuration>,
    /// Contrast level.
    pub contrast: Option<Contrast>,
    /// High-drive mode.
    pub high_drive: Option<HighDrive>,
    /// SEG pin remapping.
    pub mux_segment: Option<MuxSegment>,
}

impl Default for Config {
    /// A configuration that sets nothing.
    fn default() -> (r: Config)
        ensures
            r.prescaler is None,
            r.divider is None,
            r.duty is None,
            r.bias is None,
            r.blink_mode is None,
            r.blink_freq is None,
            r.dead_time is None,
            r.voltage_source is None,
            r.pulse_duration is None,
            r.contrast is None,
            r.high_drive is None,
            r.mux_segment is None,
    {
        Config {
            prescaler: None,
            divider: None,
            duty: None,
            bias: None,
            blink_mode: None,
            blink_freq: None,
            dead_time: None,
            voltage_source: None,
            pulse_duration: None,
            contrast: None,
            high_drive: None,
            mux_segment: None,
        }
    }
}

} // verus!
