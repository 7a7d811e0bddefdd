//! Colors and hexadecimal color notation.
use vstd::prelude::*;
use vstd::string::StringSliceAdditionalSpecFns;

verus! {

/// An 8-bit RGBA color.
#[derive(Clone, Copy, Debug, PartialEq, Eq, Structural)]
pub struct Color {
    pub r: u8,
    pub g: u8,
    pub b: u8,
    pub a: u8,
}

impl Color {
    pub fn from_rgba(r: u8, g: u8, b: u8, a: u8) -> (c: Color)
        ensures
            c == (Color { r, g, b, a }),
    {
        Color { r, g, b, a }
    }
}

/// The value of an ASCII hexadecimal digit, either case.
pub open spec fn hex_value(c: u8) -> Option<u8> {
    if 48 <= c <= 57 {
        Some((c - 48) as u8)
    } else if 65 <= c <= 70 {
        Some((c - 55) as u8)
    } else if 97 <= c <= 102 {
        Some((c - 87) as u8)
    } else {
        None
    }
}

/// The byte that a two-character base-16 number names: two digits, or a `+`
/// followed by one digit.
pub open spec fn hex_pair_value(c0: u8, c1: u8) -> Option<u8> {
    match (hex_value(c0), hex_value(c1)) {
        (Some(h), Some(l)) => Some((h * 16 + l) as u8),
        (None, Some(l)) => if c0 == 43 {
            Some(l)
        } else {
            None
        },
        _ => None,
    }
}

/// The color that a hex code names: three digits (each one doubled, `"F80"` is
/// `"FF8800"`) or six digits, without the `#`.
pub open spec fn parse_hex_spec(s: Seq<u8>) -> Option<(u8, u8, u8)> {
    if s.len() == 3 {
        match (hex_value(s[0]), hex_value(s[1]), hex_value(s[2])) {
            (Some(r), Some(g), Some(b)) => Some(((r * 17) as u8, (g * 17) as u8, (b * 17) as u8)),
            _ => None,
        }
    } else if s.len() == 6 {
        match (hex_pair_value(s[0], s[1]), hex_pair_value(s[2], s[3]), hex_pair_value(s[4], s[5])) {
            (Some(r), Some(g), Some(b)) => Some((r, g, b)),
            _ => None,
        }
    } else {
        None
    }
}

fn hex_digit(c: u8) -> (r: Option<u8>)
    ensures
        r == hex_value(c),
{
    if 48 <= c && c <= 57 {
        Some(c - 48)
    } else if 65 <= c && c <= 70 {
        Some(c - 55)
    } else if 97 <= c && c <= 102 {
        Some(c - 87)
    } else {
        None
    }
}

fn hex_pair(c0: u8, c1: u8) -> (r: Option<u8>)
    ensures
        r == hex_pair_value(c0, c1),
{
    match (hex_digit(c0), hex_digit(c1)) {
        (Some(h), Some(l)) => Some(h * 16 + l),
        (None, Some(l)) => if c0 == 43 {
            Some(l)
        } else {
            None
        },
        _ => None,
    }
}

/// Reads a color from a hex code of three or six digits.
///
/// A string of any other length, or with a character that is not a digit in
/// its place, gives `None`.
pub fn try_parse(str: &str) -> (r: Option<(u8, u8, u8)>)
    ensures
        r == parse_hex_spec(str.spec_bytes()),
{
    let bytes = str.as_bytes();
    let len = bytes.len();
    if len == 3 {
        match (hex_digit(bytes[0]), hex_digit(bytes[1]), hex_digit(bytes[2])) {
            (Some(r), Some(g), Some(b)) => Some((r * 17, g * 17, b * 17)),
            _ => None,
        }
    } else if len == 6 {
        match (hex_pair(bytes[0], bytes[1]), hex_pair(bytes[2], bytes[3]), hex_pair(bytes[4], bytes[5])) {
            (Some(r), Some(g), Some(b)) => Some((r, g, b)),
            _ => None,
        }
    } else {
        None
    }
}

} // verus!
