use lvgl::color::{Color, Rgb565, Rgb888};

#[test]
fn from_raw_keeps_the_packed_value() {
    assert_eq!(Color::from_raw(0xabcd).raw, 0xabcd);
    assert_eq!(Color::from_raw(0).raw, 0);
    assert_eq!(Color::from_raw(0xffff).raw, 0xffff);
}

#[test]
fn channels_of_a_packed_value() {
    // 0b10101_110011_01010
    let color = Color::from_raw(0b1010_1110_0110_1010);
    assert_eq!(color.r(), 0b10101);
    assert_eq!(color.g(), 0b110011);
    assert_eq!(color.b(), 0b01010);
}

#[test]
fn from_rgb_keeps_the_high_bits() {
    assert_eq!(Color::from_rgb((0xff, 0xff, 0xff)).raw, 0xffff);
    assert_eq!(Color::from_rgb((0, 0, 0)).raw, 0);
    assert_eq!(Color::from_rgb((0xff, 0, 0)).raw, 0xf800);
    assert_eq!(Color::from_rgb((0, 0xff, 0)).raw, 0x07e0);
    assert_eq!(Color::from_rgb((0, 0, 0xff)).raw, 0x001f);
    // 0x80 >> 3 = 16, 0x80 >> 2 = 32
    assert_eq!(Color::from_rgb((0x80, 0x80, 0x80)).raw, (16 << 11) | (32 << 5) | 16);
    // the low bits do not count
    assert_eq!(Color::from_rgb((0x07, 0x03, 0x07)).raw, 0);
}

#[test]
fn rgb565_new_drops_the_bits_above_each_channel() {
    assert_eq!(Rgb565::new(31, 63, 31).storage, 0xffff);
    assert_eq!(Rgb565::new(0xff, 0xff, 0xff).storage, 0xffff);
    assert_eq!(Rgb565::new(32, 64, 32).storage, 0);
    assert_eq!(Rgb565::new(1, 2, 3).storage, (1 << 11) | (2 << 5) | 3);
    let color = Rgb565::new(17, 33, 9);
    assert_eq!((color.r(), color.g(), color.b()), (17, 33, 9));
}

#[test]
fn native_to_rgb565_and_back_is_the_identity() {
    for raw in 0..=u16::MAX {
        let native = Color::from_raw(raw);
        let abstract_color = Rgb565::from(native);
        assert_eq!(abstract_color.r(), native.r());
        assert_eq!(abstract_color.g(), native.g());
        assert_eq!(abstract_color.b(), native.b());
        assert_eq!(Color::from(abstract_color), native);
    }
}

#[test]
fn native_to_rgb888_and_back_is_the_identity() {
    for raw in 0..=u16::MAX {
        let native = Color::from_raw(raw);
        assert_eq!(Color::from(Rgb888::from(native)), native);
    }
}

#[test]
fn rgb565_to_native_and_back_is_the_identity() {
    for storage in 0..=u16::MAX {
        let color = Rgb565 { storage };
        assert_eq!(Rgb565::from(Color::from(color)), color);
    }
}

#[test]
fn rgb888_loses_only_the_low_bits() {
    let color = Rgb888 { r: 0xff, g: 0xff, b: 0xff };
    assert_eq!(Rgb888::from(Color::from(color)), Rgb888 { r: 0xf8, g: 0xfc, b: 0xf8 });
    let color = Rgb888 { r: 0x12, g: 0x34, b: 0x56 };
    assert_eq!(Rgb888::from(Color::from(color)), Rgb888 { r: 0x10, g: 0x34, b: 0x50 });
}

#[test]
fn native_to_rgb888_moves_channels_to_the_high_bits() {
    let native = Color::from_raw((1 << 11) | (1 << 5) | 1);
    assert_eq!(Rgb888::from(native), Rgb888 { r: 8, g: 4, b: 8 });
    assert_eq!(Rgb888::from(Color::from_raw(0xffff)), Rgb888 { r: 0xf8, g: 0xfc, b: 0xf8 });
}
