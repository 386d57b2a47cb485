use vstd::prelude::*;

use crate::rational::Rat;

verus! {

/// An RGBA color with exact rational channels in [0, 1].
#[derive(Clone, Copy, Debug, PartialEq, Eq, Structural)]
pub struct Rgba {
    pub r: Rat,
    pub g: Rat,
    pub b: Rat,
    pub a: Rat,
}

impl Rgba {
    /// Well-formed: every channel lies in [0, 1].
    pub open spec fn wf(self) -> bool {
        &&& self.r.in_unit_interval()
        &&& self.g.in_unit_interval()
        &&& self.b.in_unit_interval()
        &&& self.a.in_unit_interval()
    }
}

/// Rejection of a color written in the configuration.
#[derive(Clone, Copy, Debug, PartialEq, Eq, Structural)]
pub enum ColorError {
    /// Too short: a color needs a leading marker and six hex digits.
    BadFormat,
    /// One of the six color characters is not a hexadecimal digit.
    BadDigit,
}

/// A color as it appears in the configuration: either a bare hex
/// string, or a hex string with an explicit alpha.
#[derive(Clone, Debug)]
pub enum ConfigColor {
    Simple(String),
    Complex(HexColorConfig),
}

/// A hex color with an optional alpha; a missing alpha means opaque.
#[derive(Clone, Debug)]
pub struct HexColorConfig {
    pub hex: String,
    pub alpha: Option<Rat>,
}

pub open spec fn is_hex_digit(c: char) -> bool {
    (48 <= c as u32 <= 57) || (65 <= c as u32 <= 70) || (97 <= c as u32 <= 102)
}

pub open spec fn hex_digit_val(c: char) -> int {
    if 48 <= c as u32 <= 57 {
        c as u32 - 48
    } else if 65 <= c as u32 <= 70 {
        c as u32 - 55
    } else {
        c as u32 - 87
    }
}

/// The channel value written by two hex digits, over denominator 255.
pub open spec fn spec_channel(hi: char, lo: char) -> Rat {
    Rat { num: (16 * hex_digit_val(hi) + hex_digit_val(lo)) as i64, den: 255i64 }
}

/// What parsing a color string (conventionally `#RRGGBB`) with the
/// given alpha yields: the exact color, or the error naming what is
/// wrong with the text. Only the six characters after the leading
/// marker are read; the marker itself and anything after the sixth
/// digit are ignored.
pub open spec fn spec_hex_color(s: Seq<char>, alpha: Rat) -> Result<Rgba, ColorError> {
    if s.len() < 7 {
        Err(ColorError::BadFormat)
    } else if !(is_hex_digit(s[1]) && is_hex_digit(s[2]) && is_hex_digit(s[3]) && is_hex_digit(
        s[4],
    ) && is_hex_digit(s[5]) && is_hex_digit(s[6])) {
        Err(ColorError::BadDigit)
    } else {
        Ok(
            Rgba {
                r: spec_channel(s[1], s[2]),
                g: spec_channel(s[3], s[4]),
                b: spec_channel(s[5], s[6]),
                a: alpha,
            },
        )
    }
}

/// The alpha a configured color carries: the explicit one, or opaque.
pub open spec fn spec_color_alpha(alpha: Option<Rat>) -> Rat {
    match alpha {
        Some(a) => a,
        None => Rat { num: 1i64, den: 1i64 },
    }
}

/// A configured color is well-formed when its explicit alpha, if any,
/// lies in [0, 1].
pub open spec fn config_color_wf(color: ConfigColor) -> bool {
    match color {
        ConfigColor::Simple(_) => true,
        ConfigColor::Complex(c) => spec_color_alpha(c.alpha).in_unit_interval(),
    }
}

fn hex_digit(c: char) -> (r: Option<u8>)
    ensures
        r matches Some(v) ==> is_hex_digit(c) && v == hex_digit_val(c),
        r is None ==> !is_hex_digit(c),
{
    let u = c as u32;
    if 48 <= u && u <= 57 {
        Some((u - 48) as u8)
    } else if 65 <= u && u <= 70 {
        Some((u - 55) as u8)
    } else if 97 <= u && u <= 102 {
        Some((u - 87) as u8)
    } else {
        None
    }
}

/// Parse a hex color string (conventionally `#RRGGBB`) into an exact
/// color with the given alpha. Only the six characters after the
/// leading marker are read; the marker and any trailing characters
/// are ignored.
pub fn color_from_hex(hex: &str, alpha: Rat) -> (r: Result<Rgba, ColorError>)
    requires
        alpha.in_unit_interval(),
    ensures
        r == spec_hex_color(hex@, alpha),
        r matches Ok(c) ==> c.wf(),
{
    if hex.unicode_len() < 7 {
        return Err(ColorError::BadFormat);
    }
    let d1 = hex_digit(hex.get_char(1));
    let d2 = hex_digit(hex.get_char(2));
    let d3 = hex_digit(hex.get_char(3));
    let d4 = hex_digit(hex.get_char(4));
    let d5 = hex_digit(hex.get_char(5));
    let d6 = hex_digit(hex.get_char(6));
    match (d1, d2, d3, d4, d5, d6) {
        (Some(r1), Some(r2), Some(g1), Some(g2), Some(b1), Some(b2)) => Ok(
            Rgba {
                r: Rat { num: 16 * (r1 as i64) + (r2 as i64), den: 255 },
                g: Rat { num: 16 * (g1 as i64) + (g2 as i64), den: 255 },
                b: Rat { num: 16 * (b1 as i64) + (b2 as i64), den: 255 },
                a: alpha,
            },
        ),
        _ => Err(ColorError::BadDigit),
    }
}

/// Turn a configured color into an RGBA color: a bare hex string is
/// opaque, an explicit alpha is kept, a missing alpha means opaque.
pub fn array_from_config_color(color: &ConfigColor) -> (r: Result<Rgba, ColorError>)
    requires
        config_color_wf(*color),
    ensures
        match *color {
            ConfigColor::Simple(h) => r == spec_hex_color(h@, (Rat { num: 1i64, den: 1i64 })),
            ConfigColor::Complex(c) => r == spec_hex_color(c.hex@, spec_color_alpha(c.alpha)),
        },
        r matches Ok(c) ==> c.wf(),
{
    match color {
        ConfigColor::Simple(h) => color_from_hex(h.as_str(), Rat { num: 1, den: 1 }),
        ConfigColor::Complex(c) => {
            let alpha = match c.alpha {
                Some(a) => a,
                None => Rat { num: 1, den: 1 },
            };
            color_from_hex(c.hex.as_str(), alpha)
        },
    }
}

} // verus!
