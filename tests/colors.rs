use colorspace::ansi::ansi_background;
use colorspace::color::{BaseColor, LinRGB24Color, LinRGB48Color, SRGB24Color};
use colorspace::util::clamp;

#[test]
fn srgb24_new_and_tuple() {
    let c = SRGB24Color::new(128, 255, 55);
    assert_eq!(c.to_tuple(), (128, 255, 55));
    assert_eq!((c.r, c.g, c.b), (128, 255, 55));
}

#[test]
fn lin_rgb24_new_and_tuple() {
    let c = LinRGB24Color::new(1, 2, 3);
    assert_eq!(c.to_tuple(), (1, 2, 3));
}

#[test]
fn channel_text() {
    assert_eq!(SRGB24Color::new(128, 5, 55).to_string(), "128,   5,  55");
    assert_eq!(LinRGB24Color::new(0, 255, 10).to_string(), "  0, 255,  10");
    assert_eq!(LinRGB48Color::new(65535, 0, 123).to_string(), "65535,     0,   123");
}

#[test]
fn lin_rgb48_arithmetic() {
    let a = LinRGB48Color::new(100, 200, 300);
    let b = LinRGB48Color::new(1, 2, 3);
    assert_eq!(a.add(b), LinRGB48Color::new(101, 202, 303));
    assert_eq!(a.sub(b), LinRGB48Color::new(99, 198, 297));
    assert_eq!(a.mul(3), LinRGB48Color::new(300, 600, 900));
    assert_eq!(a.div(7), LinRGB48Color::new(14, 28, 42));
    assert_eq!(a.to_tuple(), (100, 200, 300));
    assert_eq!(b.divided_from(7), LinRGB48Color::new(7, 3, 2));
}

#[test]
fn base_color_channels() {
    assert_eq!(BaseColor::Black.srgb24(), SRGB24Color::new(0, 0, 0));
    assert_eq!(BaseColor::Grey.srgb24(), SRGB24Color::new(128, 128, 128));
    assert_eq!(BaseColor::White.srgb24(), SRGB24Color::new(255, 255, 255));
    assert_eq!(BaseColor::Red.srgb24(), SRGB24Color::new(255, 0, 0));
    assert_eq!(BaseColor::Yellow.srgb24(), SRGB24Color::new(255, 255, 0));
    assert_eq!(BaseColor::Green.srgb24(), SRGB24Color::new(0, 255, 0));
    assert_eq!(BaseColor::Cyan.srgb24(), SRGB24Color::new(0, 255, 255));
    assert_eq!(BaseColor::Blue.srgb24(), SRGB24Color::new(0, 0, 255));
    assert_eq!(BaseColor::Magenta.srgb24(), SRGB24Color::new(255, 0, 255));
}

#[test]
fn base_color_names() {
    assert_eq!(BaseColor::Black.name(), "black");
    assert_eq!(BaseColor::Grey.name(), "grey");
    assert_eq!(BaseColor::Magenta.name(), "magenta");
    assert_eq!(BaseColor::Cyan.name(), "cyan");
}

#[test]
fn clamp_integers() {
    assert_eq!(clamp(5i64, 0, 10), 5);
    assert_eq!(clamp(-5i64, 0, 10), 0);
    assert_eq!(clamp(15i64, 0, 10), 10);
    assert_eq!(clamp(0i64, 0, 10), 0);
    assert_eq!(clamp(10i64, 0, 10), 10);
}

#[test]
fn clamp_floats() {
    assert_eq!(clamp(0.5f32, 0.0, 1.0), 0.5);
    assert_eq!(clamp(-0.5f32, 0.0, 1.0), 0.0);
    assert_eq!(clamp(1.5f32, 0.0, 1.0), 1.0);
    assert_eq!(clamp(f32::NAN, 0.0, 1.0), 0.0);
    assert!(clamp(0.5f32, f32::NAN, 1.0).is_nan());
    assert!(clamp(2.0f32, f32::NAN, 1.0).is_nan());
}

#[test]
fn ansi_background_text() {
    let white = ansi_background("hi", SRGB24Color::new(1, 22, 255), true);
    assert_eq!(white, "\x1b[38;2;255;255;255m\x1b[48;2;1;22;255mhi\x1b[0m");
    let black = ansi_background("", SRGB24Color::new(0, 0, 0), false);
    assert_eq!(black, "\x1b[38;2;;;m\x1b[48;2;0;0;0m\x1b[0m");
}
