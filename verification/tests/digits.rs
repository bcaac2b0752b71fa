use dxf2elmt::color::Color;
use dxf2elmt::digits::decimal_text;

#[test]
fn whole_numbers_in_decimal() {
    assert_eq!(decimal_text(0), "0");
    assert_eq!(decimal_text(-1), "-1");
    assert_eq!(decimal_text(7), "7");
    assert_eq!(decimal_text(10), "10");
    assert_eq!(decimal_text(-120), "-120");
    assert_eq!(decimal_text(1_000_000), "1000000");
    assert_eq!(decimal_text(2147483647), "2147483647");
    assert_eq!(decimal_text(-2147483648), "-2147483648");
    assert_eq!(decimal_text(i64::MAX), "9223372036854775807");
    assert_eq!(decimal_text(i64::MIN), "-9223372036854775808");
}

#[test]
fn decimal_agrees_with_the_standard_formatting() {
    for n in [-99999i64, -1001, -10, -9, 0, 9, 10, 11, 99, 100, 101, 65535, 123456789] {
        assert_eq!(decimal_text(n), n.to_string());
    }
}

#[test]
fn colors_as_capital_hexadecimal() {
    assert_eq!(Color::black().display_rgb(), "#000000");
    assert_eq!(Color::rgb(255, 0, 0).display_rgb(), "#FF0000");
    assert_eq!(Color::rgb(10, 11, 12).display_rgb(), "#0A0B0C");
    assert_eq!(Color::rgb(0xdc, 0xdc, 0xdc).display_rgb(), "#DCDCDC");
    assert_eq!(Color { r: 1, g: 2, b: 3, a: 0 }.display_rgb(), "#010203");
}

#[test]
fn black_is_opaque() {
    assert_eq!(Color::black(), Color { r: 0, g: 0, b: 0, a: 255 });
}
