use thingy53_hci_usb::led::{
    channel_bits, set_color, ChannelDuty, LedColor, BRIGHTNESS, MAX_DUTY,
};

const COLORS: [LedColor; 8] = [
    LedColor::Off,
    LedColor::Red,
    LedColor::Green,
    LedColor::Blue,
    LedColor::Yellow,
    LedColor::Cyan,
    LedColor::Magenta,
    LedColor::White,
];

#[test]
fn colors_light_their_channels() {
    assert_eq!(channel_bits(LedColor::Off), (false, false, false));
    assert_eq!(channel_bits(LedColor::Red), (true, false, false));
    assert_eq!(channel_bits(LedColor::Green), (false, true, false));
    assert_eq!(channel_bits(LedColor::Blue), (false, false, true));
    assert_eq!(channel_bits(LedColor::Yellow), (true, true, false));
    assert_eq!(channel_bits(LedColor::Cyan), (false, true, true));
    assert_eq!(channel_bits(LedColor::Magenta), (true, false, true));
    assert_eq!(channel_bits(LedColor::White), (true, true, true));
}

#[test]
fn lit_channels_are_dim_and_inverted() {
    let duty = set_color(LedColor::Yellow);
    let lit = ChannelDuty { value: 80, inverted: true };
    let dark = ChannelDuty { value: 0, inverted: true };
    assert_eq!((duty.red, duty.green, duty.blue), (lit, lit, dark));
    assert_eq!(BRIGHTNESS as u32 * 100, 8 * MAX_DUTY as u32);
}

#[test]
fn no_two_colors_look_the_same() {
    for (i, a) in COLORS.iter().enumerate() {
        for (j, b) in COLORS.iter().enumerate() {
            assert_eq!(set_color(*a) == set_color(*b), i == j);
        }
    }
}
