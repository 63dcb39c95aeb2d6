use blelight::color::{parse_color, Color};
use blelight::LightError;

#[test]
fn parses_valid_colors() {
    assert_eq!(parse_color(b"ff8800"), Ok(Color { r: 0xFF, g: 0x88, b: 0x00 }));
    assert_eq!(parse_color(b"000000"), Ok(Color { r: 0, g: 0, b: 0 }));
    assert_eq!(parse_color(b"ffffff"), Ok(Color { r: 255, g: 255, b: 255 }));
    assert_eq!(parse_color(b"0a1B2c"), Ok(Color { r: 0x0A, g: 0x1B, b: 0x2C }));
}

#[test]
fn parsing_is_case_insensitive() {
    assert_eq!(parse_color(b"FF8800"), parse_color(b"ff8800"));
    assert_eq!(parse_color(b"AbCdEf"), Ok(Color { r: 0xAB, g: 0xCD, b: 0xEF }));
}

#[test]
fn rejects_non_hex_digits() {
    assert_eq!(parse_color(b"zz0000"), Err(LightError::InvalidColorFormat));
    assert_eq!(parse_color(b"ff00g0"), Err(LightError::InvalidColorFormat));
    assert_eq!(parse_color(b"ff 000"), Err(LightError::InvalidColorFormat));
    assert_eq!(parse_color(b"#ff000"), Err(LightError::InvalidColorFormat));
}

#[test]
fn rejects_wrong_length() {
    assert_eq!(parse_color(b""), Err(LightError::InvalidColorFormat));
    assert_eq!(parse_color(b"fff"), Err(LightError::InvalidColorFormat));
    assert_eq!(parse_color(b"ff880"), Err(LightError::InvalidColorFormat));
    assert_eq!(parse_color(b"ff88000"), Err(LightError::InvalidColorFormat));
}
