//! The RGB indicator: which channels a colour lights, and how bright.
//!
//! Each of the three channels is a pulse-width modulated output, in the order
//! red, green, blue.
use embassy_nrf::pwm::DutyCycle;
use vstd::prelude::*;

verus! {

/// Counter value at which a pulse period ends.
pub const MAX_DUTY: u16 = 1000;

/// Pulse width of a lit channel: 8% of full scale, comfortable to look at.
pub const BRIGHTNESS: u16 = 80;

/// The colours that the indicator shows.
#[derive(Clone, Copy, Debug, PartialEq, Eq, Structural)]
pub enum LedColor {
    /// Dark.
    Off,
    /// Red.
    Red,
    /// Green.
    Green,
    /// Blue.
    Blue,
    /// Red and green.
    Yellow,
    /// Green and blue.
    Cyan,
    /// Red and blue.
    Magenta,
    /// All three.
    White,
}

impl LedColor {
    /// The colour has red in it.
    pub open spec fn has_red(self) -> bool {
        self is Red || self is Yellow || self is Magenta || self is White
    }

    /// The colour has green in it.
    pub open spec fn has_green(self) -> bool {
        self is Green || self is Yellow || self is Cyan || self is White
    }

    /// The colour has blue in it.
    pub open spec fn has_blue(self) -> bool {
        self is Blue || self is Cyan || self is Magenta || self is White
    }
}

/// The duty cycle of one channel.
#[derive(Clone, Copy, Debug, PartialEq, Eq, Structural)]
pub struct ChannelDuty {
    /// Counter value at which the output changes.
    pub value: u16,
    /// The output is high below that value, and not above it.
    pub inverted: bool,
}

/// The duty cycles of the three channels.
#[derive(Clone, Copy, Debug, PartialEq, Eq, Structural)]
pub struct ColorDuty {
    /// Channel 0.
    pub red: ChannelDuty,
    /// Channel 1.
    pub green: ChannelDuty,
    /// Channel 2.
    pub blue: ChannelDuty,
}

/// The duty cycle of a channel that is lit or dark.
pub open spec fn duty_of(lit: bool) -> ChannelDuty {
    ChannelDuty {
        value: if lit {
            BRIGHTNESS
        } else {
            0
        },
        inverted: true,
    }
}

/// Calls `embassy_nrf::pwm::DutyCycle::inverted`, and reads back with `value` and
/// `is_inverted` what it made: the low 15 bits of `value`, with inverted polarity.
#[verifier::external_body]
fn inverted_duty(value: u16) -> (duty: ChannelDuty)
    ensures
        duty.value == value & 0x7FFF,
        duty.inverted,
{
    let duty = DutyCycle::inverted(value);
    ChannelDuty { value: duty.value(), inverted: duty.is_inverted() }
}

/// The channels that `color` lights: red, green, blue.
pub fn channel_bits(color: LedColor) -> (bits: (bool, bool, bool))
    ensures
        bits == (color.has_red(), color.has_green(), color.has_blue()),
{
    match color {
        LedColor::Off => (false, false, false),
        LedColor::Red => (true, false, false),
        LedColor::Green => (false, true, false),
        LedColor::Blue => (false, false, true),
        LedColor::Yellow => (true, true, false),
        LedColor::Cyan => (false, true, true),
        LedColor::Magenta => (true, false, true),
        LedColor::White => (true, true, true),
    }
}

/// The duty cycle of one channel.
fn channel_duty(lit: bool) -> (duty: ChannelDuty)
    ensures
        duty == duty_of(lit),
{
    assert(80u16 & 0x7FFF == 80 && 0u16 & 0x7FFF == 0) by (bit_vector);
    inverted_duty(
        if lit {
            BRIGHTNESS
        } else {
            0
        },
    )
}

/// The duty cycles that show `color`.
pub fn set_color(color: LedColor) -> (duty: ColorDuty)
    ensures
        duty.red == duty_of(color.has_red()),
        duty.green == duty_of(color.has_green()),
        duty.blue == duty_of(color.has_blue()),
{
    let (r, g, b) = channel_bits(color);
    ColorDuty { red: channel_duty(r), green: channel_duty(g), blue: channel_duty(b) }
}

/// Different colours light different channels, so no two of them look the same.
pub proof fn law_colors_differ(color1: LedColor, color2: LedColor)
    requires
        color1 != color2,
    ensures
        color1.has_red() != color2.has_red() || color1.has_green() != color2.has_green()
            || color1.has_blue() != color2.has_blue(),
{
}

/// A channel is dark or lit for 8% of the period, never longer.
pub proof fn law_brightness(lit: bool)
    ensures
        duty_of(lit).value * 100 == if lit {
            8 * MAX_DUTY
        } else {
            0
        },
{
}

/// The channels of each colour.
pub proof fn law_channels_of_a_color(color: LedColor)
    ensures
        match color {
            LedColor::Off => !color.has_red() && !color.has_green() && !color.has_blue(),
            LedColor::Red => color.has_red() && !color.has_green() && !color.has_blue(),
            LedColor::Green => !color.has_red() && color.has_green() && !color.has_blue(),
            LedColor::Blue => !color.has_red() && !color.has_green() && color.has_blue(),
            LedColor::Yellow => color.has_red() && color.has_green() && !color.has_blue(),
            LedColor::Cyan => !color.has_red() && color.has_green() && color.has_blue(),
            LedColor::Magenta => color.has_red() && !color.has_green() && color.has_blue(),
            LedColor::White => color.has_red() && color.has_green() && color.has_blue(),
        },
{
}

/// A dark channel is never high and a lit one is high for the first 80 of 1000
/// counts: the output is high below the value, so the polarity is inverted.
pub proof fn law_lit_and_dark_channels(lit: bool)
    ensures
        duty_of(lit).inverted,
        lit ==> duty_of(lit).value == 80,
        !lit ==> duty_of(lit).value == 0,
{
}

} // verus!
