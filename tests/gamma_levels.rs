use colorspace::color::{LinRGB24Color, LinRGB48Color, SRGB24Color};
use colorspace::gamma::{decode_level, encode_level, midpoint_level};

#[test]
fn srgb_to_linear() {
    let srgb = SRGB24Color::new(128, 255, 55);
    let lin_rgb = srgb.lin_rgb48();
    let srgb2 = lin_rgb.srgb24();

    assert_eq!(srgb, srgb2)
}

#[test]
fn srgb_linear_srgb_linear_keeps_levels() {
    let srgb = SRGB24Color::new(128, 255, 55);
    let lin = srgb.lin_rgb48();
    assert_eq!(lin.srgb24().lin_rgb48(), lin);
}

#[test]
fn every_srgb_value_survives_linear_round_trip() {
    for c in 0..=255u8 {
        assert_eq!(encode_level(decode_level(c)), c);
    }
}

#[test]
fn decode_levels_exact() {
    assert_eq!(decode_level(0), 0);
    assert_eq!(decode_level(1), 19);
    assert_eq!(decode_level(10), 198);
    assert_eq!(decode_level(11), 219);
    assert_eq!(decode_level(55), 2503);
    assert_eq!(decode_level(128), 14146);
    assert_eq!(decode_level(255), 65535);
}

#[test]
fn decode_levels_increase() {
    for c in 0..255u8 {
        assert!(decode_level(c) < decode_level(c + 1));
    }
}

#[test]
fn midpoint_levels_exact() {
    assert_eq!(midpoint_level(1), 10);
    assert_eq!(midpoint_level(11), 209);
    assert_eq!(midpoint_level(255), 65244);
}

#[test]
fn encode_levels_round_to_nearest() {
    assert_eq!(encode_level(0), 0);
    assert_eq!(encode_level(9), 0);
    assert_eq!(encode_level(10), 1);
    assert_eq!(encode_level(14146), 128);
    assert_eq!(encode_level(65243), 254);
    assert_eq!(encode_level(65244), 255);
    assert_eq!(encode_level(65535), 255);
}

#[test]
fn srgb24_to_linear_channels() {
    let lin = SRGB24Color::new(128, 255, 55).lin_rgb48();
    assert_eq!(lin, LinRGB48Color::new(14146, 65535, 2503));
    let lin8 = SRGB24Color::new(128, 255, 55).lin_rgb24();
    assert_eq!(lin8, LinRGB24Color::new(55, 255, 9));
}

#[test]
fn linear_bit_depths() {
    assert_eq!(LinRGB24Color::new(0, 1, 255).lin_rgb48(), LinRGB48Color::new(0, 257, 65535));
    assert_eq!(LinRGB48Color::new(256, 257, 65535).lin_rgb24(), LinRGB24Color::new(0, 1, 255));
    assert_eq!(LinRGB24Color::new(55, 255, 9).srgb24(), SRGB24Color::new(128, 255, 53));
}
