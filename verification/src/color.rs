//! Color values and hex color string parsing.
//!
//! A color request carries a six-character hex string such as `ff8800`.
//! Parsing turns it into the three 8-bit channel intensities; anything
//! else — wrong length or a non-hex character, in either case — is a
//! malformed request and fails with `InvalidColorFormat`.

use crate::LightError;
use vstd::prelude::*;

verus! {

/// A triple of 8-bit channel intensities.
#[derive(Clone, Copy, Debug, PartialEq, Eq, Structural)]
pub struct Color {
    pub r: u8,
    pub g: u8,
    pub b: u8,
}

/// Whether `b` is the ASCII code of a hex digit, in either case.
pub open spec fn is_hex_digit(b: u8) -> bool {
    (0x30 <= b && b <= 0x39) || (0x41 <= b && b <= 0x46) || (0x61 <= b && b <= 0x66)
}

/// The value of the hex digit with ASCII code `b`.
pub open spec fn hex_val(b: u8) -> u8 {
    if 0x30 <= b && b <= 0x39 {
        (b - 0x30) as u8
    } else if 0x41 <= b && b <= 0x46 {
        (b - 0x41 + 10) as u8
    } else {
        (b - 0x61 + 10) as u8
    }
}

/// The channel value written as the two hex digits `hi`, `lo`.
pub open spec fn hex_pair(hi: u8, lo: u8) -> u8 {
    (hex_val(hi) * 16 + hex_val(lo)) as u8
}

/// Whether `s` is a well-formed hex color string: exactly six bytes, each a
/// hex digit.
pub open spec fn valid_color_str(s: Seq<u8>) -> bool {
    s.len() == 6 && forall|i: int| 0 <= i < 6 ==> is_hex_digit(#[trigger] s[i])
}

/// The color a well-formed hex color string denotes.
pub open spec fn color_of(s: Seq<u8>) -> Color {
    Color { r: hex_pair(s[0], s[1]), g: hex_pair(s[2], s[3]), b: hex_pair(s[4], s[5]) }
}

/// The value of one hex digit, or `None` for any other byte.
fn hex_digit_value(b: u8) -> (r: Option<u8>)
    ensures
        is_hex_digit(b) ==> r == Some(hex_val(b)),
        !is_hex_digit(b) ==> r == None::<u8>,
{
    if 0x30 <= b && b <= 0x39 {
        Some(b - 0x30)
    } else if 0x41 <= b && b <= 0x46 {
        Some(b - 0x41 + 10)
    } else if 0x61 <= b && b <= 0x66 {
        Some(b - 0x61 + 10)
    } else {
        None
    }
}

/// The channel value written at positions `i`, `i + 1` of `hex`, or `None`
/// unless both bytes are hex digits.
fn parse_channel(hex: &[u8], i: usize) -> (r: Option<u8>)
    requires
        i + 1 < hex@.len(),
    ensures
        (is_hex_digit(hex@[i as int]) && is_hex_digit(hex@[i + 1])) ==> r == Some(
            hex_pair(hex@[i as int], hex@[i + 1]),
        ),
        !(is_hex_digit(hex@[i as int]) && is_hex_digit(hex@[i + 1])) ==> r == None::<u8>,
{
    let hi = hex_digit_value(hex[i]);
    let lo = hex_digit_value(hex[i + 1]);
    match (hi, lo) {
        (Some(h), Some(l)) => Some(h * 16 + l),
        _ => None,
    }
}

/// Parse a hex color string into its channel intensities. Succeeds exactly
/// on well-formed six-digit hex strings; everything else is
/// `InvalidColorFormat`.
pub fn parse_color(hex: &[u8]) -> (r: Result<Color, LightError>)
    ensures
        valid_color_str(hex@) ==> r == Ok::<Color, LightError>(color_of(hex@)),
        !valid_color_str(hex@) ==> r == Err::<Color, LightError>(LightError::InvalidColorFormat),
{
    if hex.len() != 6 {
        return Err(LightError::InvalidColorFormat);
    }
    let red = parse_channel(hex, 0);
    let green = parse_channel(hex, 2);
    let blue = parse_channel(hex, 4);
    match (red, green, blue) {
        (Some(r), Some(g), Some(b)) => Ok(Color { r, g, b }),
        _ => Err(LightError::InvalidColorFormat),
    }
}

} // verus!
