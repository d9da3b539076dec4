use colorspace::color::SRGB24Color;

#[test]
fn hex_conversion() {
    for hex in (0..=0xFFFFFF).step_by(30_000) {
        let hex_str: String = format!("{:06X}", hex);
        let color = SRGB24Color::from_hex(&hex_str).unwrap();
        let hex_str2 = color.to_hex();

        assert_eq!(hex_str, hex_str2);
    }
}

#[test]
fn hex_lower_case_is_written_upper_case() {
    let color = SRGB24Color::from_hex("80ff37").unwrap();
    assert_eq!(color, SRGB24Color::new(128, 255, 55));
    assert_eq!(color.to_hex(), "80FF37");
}

#[test]
fn hex_mixed_case_reads() {
    let color = SRGB24Color::from_hex("aBcDeF").unwrap();
    assert_eq!(color.to_tuple(), (0xAB, 0xCD, 0xEF));
}

#[test]
fn hex_rejects_bad_digits_and_lengths() {
    assert_eq!(SRGB24Color::from_hex("12345G"), None);
    assert_eq!(SRGB24Color::from_hex("#12345"), None);
    assert_eq!(SRGB24Color::from_hex("12345"), None);
    assert_eq!(SRGB24Color::from_hex("1234567"), None);
    assert_eq!(SRGB24Color::from_hex(""), None);
}

#[test]
fn hex_extremes() {
    assert_eq!(SRGB24Color::new(0, 0, 0).to_hex(), "000000");
    assert_eq!(SRGB24Color::new(255, 255, 255).to_hex(), "FFFFFF");
    assert_eq!(SRGB24Color::from_hex("FFFFFF"), Some(SRGB24Color::new(255, 255, 255)));
}

#[test]
fn color_to_hex_and_back() {
    let c = SRGB24Color::new(1, 171, 254);
    assert_eq!(c.to_hex(), "01ABFE");
    assert_eq!(SRGB24Color::from_hex(&c.to_hex()), Some(c));
}
