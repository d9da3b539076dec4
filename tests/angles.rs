use colorspace::angle::{Deg, Deg16};

#[test]
fn deg_wraps_negative() {
    assert_eq!(Deg::new(-30).value(), 330);
    assert_eq!(Deg::new(-360).value(), 0);
    assert_eq!(Deg::new(-361).value(), 359);
}

#[test]
fn deg_wraps_large() {
    assert_eq!(Deg::new(360).value(), 0);
    assert_eq!(Deg::new(725).value(), 5);
    assert_eq!(Deg::new(i32::MAX).value(), (i32::MAX as i64).rem_euclid(360) as i32);
    assert_eq!(Deg::new(i32::MIN).value(), (i32::MIN as i64).rem_euclid(360) as i32);
}

#[test]
fn deg_wrap_is_idempotent() {
    for x in [-1000, -1, 0, 1, 359, 360, 1000, i32::MIN, i32::MAX] {
        let d = Deg::new(x);
        assert!(0 <= d.value() && d.value() < 360);
        assert_eq!(Deg::new(d.value()), d);
    }
}

#[test]
fn deg_arithmetic_wraps() {
    assert_eq!(Deg::new(350).add(Deg::new(20)).value(), 10);
    assert_eq!(Deg::new(10).sub(Deg::new(20)).value(), 350);
    assert_eq!(Deg::new(359).mul(Deg::new(359)).value(), (359 * 359) % 360);
    assert_eq!(Deg::new(300).div(Deg::new(7)).value(), 42);
    assert_eq!(Deg::new(300).rem(Deg::new(7)).value(), 6);
}

#[test]
fn deg_assign_forms_wrap() {
    let mut d = Deg::new(300);
    d.add_assign(Deg::new(100));
    assert_eq!(d.value(), 40);
    d.sub_assign(Deg::new(50));
    assert_eq!(d.value(), 350);
    d.mul_assign(Deg::new(2));
    assert_eq!(d.value(), 340);
    d.div_assign(Deg::new(3));
    assert_eq!(d.value(), 113);
    d.rem_assign(Deg::new(100));
    assert_eq!(d.value(), 13);
}

#[test]
fn deg_inv_and_constants() {
    assert_eq!(Deg::new(30).inv().value(), 330);
    assert_eq!(Deg::zero().inv().value(), 0);
    assert_eq!(Deg::zero().value(), 0);
    assert_eq!(Deg::half_turn().value(), 180);
}

#[test]
fn deg_casts() {
    assert_eq!(Deg::from_i64(-30).map(|d| d.value()), Some(330));
    assert_eq!(Deg::from_i64(4_000_000_000), None);
    assert_eq!(Deg::from_i64(i32::MIN as i64 - 1), None);
    assert_eq!(Deg::new(200).to_u8(), Some(200));
    assert_eq!(Deg::new(300).to_u8(), None);
}

#[test]
fn deg_to_string() {
    assert_eq!(Deg::new(-30).to_string(), "330");
    assert_eq!(Deg::new(5).to_string(), "5");
    assert_eq!(Deg::zero().to_string(), "0");
}

#[test]
fn deg_more_casts() {
    assert_eq!(Deg::from_u64(725).map(|d| d.value()), Some(5));
    assert_eq!(Deg::from_u64(3_000_000_000), None);
    assert_eq!(Deg::new(-30).to_i64(), Some(330));
    assert_eq!(Deg::new(359).to_u16(), Some(359));
}

#[test]
fn deg_default_and_order() {
    assert_eq!(Deg::default().value(), 0);
    assert!(Deg::new(10) < Deg::new(20));
    assert!(Deg::new(-10) > Deg::new(20));
    assert_eq!(Deg16::default().value(), 0);
    assert!(Deg16::new(5) < Deg16::new(-5));
}

#[test]
fn deg16_wraps() {
    assert_eq!(Deg16::new(-30).value(), 330);
    assert_eq!(Deg16::new(i16::MIN).value(), (i16::MIN as i32).rem_euclid(360) as i16);
    assert_eq!(Deg16::new(i16::MAX).value(), (i16::MAX as i32).rem_euclid(360) as i16);
    assert_eq!(Deg16::new(720).to_deg().value(), 0);
}

#[test]
fn deg16_arithmetic_wraps() {
    assert_eq!(Deg16::new(350).add(Deg16::new(20)).value(), 10);
    assert_eq!(Deg16::new(10).sub(Deg16::new(20)).value(), 350);
    assert_eq!(Deg16::new(359).mul(Deg16::new(359)).value(), ((359 * 359) % 360) as i16);
    assert_eq!(Deg16::new(300).div(Deg16::new(7)).value(), 42);
    assert_eq!(Deg16::new(300).rem(Deg16::new(7)).value(), 6);
    assert_eq!(Deg16::new(30).inv().value(), 330);
    let mut d = Deg16::new(300);
    d.add_assign(Deg16::new(100));
    assert_eq!(d.value(), 40);
    d.sub_assign(Deg16::new(50));
    assert_eq!(d.value(), 350);
    d.mul_assign(Deg16::new(2));
    assert_eq!(d.value(), 340);
    d.div_assign(Deg16::new(3));
    assert_eq!(d.value(), 113);
    d.rem_assign(Deg16::new(100));
    assert_eq!(d.value(), 13);
}

#[test]
fn deg16_casts() {
    assert_eq!(Deg16::from_i64(-30).map(|d| d.value()), Some(330));
    assert_eq!(Deg16::from_i64(40_000), None);
    assert_eq!(Deg16::from_i64(-40_000), None);
}
