use scheme_gen::color::{Rgb, RgbExt};

fn rgb(red: u8, green: u8, blue: u8) -> Rgb {
    Rgb { red, green, blue }
}

#[test]
fn darken_takes_two_from_each_channel() {
    let mut c = rgb(100, 50, 3);
    c.brigthen(-1);
    assert_eq!(c, rgb(98, 48, 1));
}

#[test]
fn darken_stops_at_zero() {
    let mut c = rgb(1, 0, 2);
    c.brigthen(-1);
    assert_eq!(c, rgb(0, 0, 0));
}

#[test]
fn brighten_adds_three_to_each_channel() {
    let mut c = rgb(100, 50, 0);
    c.brigthen(1);
    assert_eq!(c, rgb(103, 53, 3));
}

#[test]
fn brighten_stops_at_full() {
    let mut c = rgb(254, 255, 252);
    c.brigthen(1);
    assert_eq!(c, rgb(255, 255, 255));
}

#[test]
fn shift_by_larger_amounts() {
    let mut c = rgb(128, 128, 128);
    c.brigthen(-10);
    assert_eq!(c, rgb(103, 103, 103));
    let mut d = rgb(128, 128, 128);
    d.brigthen(10);
    assert_eq!(d, rgb(154, 154, 154));
    let mut e = rgb(7, 8, 9);
    e.brigthen(0);
    assert_eq!(e, rgb(7, 8, 9));
}

#[test]
fn hex_string_has_six_lower_case_digits() {
    assert_eq!(rgb(255, 0, 0).to_hex_string(), "ff0000");
    assert_eq!(rgb(0x0a, 0xb1, 0x07).to_hex_string(), "0ab107");
    assert_eq!(rgb(0, 0, 0).to_hex_string(), "000000");
}
