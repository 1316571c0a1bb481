//! Plain value types shared by the parsers and formatters.
use vstd::prelude::*;

verus! {

/// A color as four 8-bit channels; alpha 255 is opaque.
#[derive(Debug, Clone, Copy, PartialEq, Eq, Structural)]
pub struct Rgba8 {
    pub r: u8,
    pub g: u8,
    pub b: u8,
    pub a: u8,
}

/// Format types for color representation.
#[derive(Debug, Clone, Copy, PartialEq, Eq, Structural)]
pub enum ColorFormat {
    RGB,
    PRGB,
    HEX,
    HEX3,
    HEX6,
    HEX8,
    HSL,
    HSV,
    HSB,
    LAB,
    LCH,
    OKLAB,
    OKLCH,
    CMYK,
    NAME,
    INVALID,
}

/// Type of gradient.
#[derive(Debug, Clone, Copy, PartialEq, Eq, Structural)]
pub enum GradientType {
    /// Linear gradient
    Linear,
    /// Radial gradient
    Radial,
    /// Conic gradient
    Conic,
}

/// How the gradient extends beyond its bounds.
#[derive(Debug, Clone, Copy, PartialEq, Eq, Structural)]
pub enum GradientExtend {
    /// Extend the final color
    Pad,
    /// Repeat the gradient
    Repeat,
    /// Mirror the gradient
    Reflect,
}


/// The notation a color is written in by `to_string`.
#[derive(Debug, Clone, Copy, PartialEq, Eq, Structural)]
pub enum Rendering {
    Rgb,
    PercentRgb,
    Hex,
    ShortHex,
    Hex8,
    /// The color's name, or long hex where it has none
    Name,
    /// The word `transparent`
    Transparent,
    Hsl,
    Hsv,
    Hsb,
    Lab,
    Lch,
    Oklab,
    Oklch,
    Cmyk,
}

/// Formats that cannot carry an alpha channel.
pub open spec fn drops_alpha(format: ColorFormat) -> bool {
    format == ColorFormat::HEX || format == ColorFormat::HEX3 || format == ColorFormat::HEX6
        || format == ColorFormat::NAME
}

/// How a color recorded in `format` is written, given whether its alpha is
/// below one (`translucent`) and whether it is exactly zero (`clear`). A
/// format that cannot carry alpha gives way to `rgba()` for a translucent
/// color, except that a clear color asked for by name is `transparent`.
pub open spec fn rendering(format: ColorFormat, translucent: bool, clear: bool) -> Rendering {
    if translucent && drops_alpha(format) {
        if format == ColorFormat::NAME && clear {
            Rendering::Transparent
        } else {
            Rendering::Rgb
        }
    } else {
        match format {
            ColorFormat::RGB => Rendering::Rgb,
            ColorFormat::PRGB => Rendering::PercentRgb,
            ColorFormat::HEX3 => Rendering::ShortHex,
            ColorFormat::HEX8 => Rendering::Hex8,
            ColorFormat::NAME => Rendering::Name,
            ColorFormat::HSL => Rendering::Hsl,
            ColorFormat::HSV => Rendering::Hsv,
            ColorFormat::HSB => Rendering::Hsb,
            ColorFormat::LAB => Rendering::Lab,
            ColorFormat::LCH => Rendering::Lch,
            ColorFormat::OKLAB => Rendering::Oklab,
            ColorFormat::OKLCH => Rendering::Oklch,
            ColorFormat::CMYK => Rendering::Cmyk,
            _ => Rendering::Hex,
        }
    }
}

/// How a color recorded in `format` is written; see `rendering`.
pub fn rendering_for(format: ColorFormat, translucent: bool, clear: bool) -> (r: Rendering)
    ensures
        r == rendering(format, translucent, clear),
{
    let drops = format == ColorFormat::HEX || format == ColorFormat::HEX3 || format
        == ColorFormat::HEX6 || format == ColorFormat::NAME;
    if translucent && drops {
        if format == ColorFormat::NAME && clear {
            Rendering::Transparent
        } else {
            Rendering::Rgb
        }
    } else {
        match format {
            ColorFormat::RGB => Rendering::Rgb,
            ColorFormat::PRGB => Rendering::PercentRgb,
            ColorFormat::HEX3 => Rendering::ShortHex,
            ColorFormat::HEX8 => Rendering::Hex8,
            ColorFormat::NAME => Rendering::Name,
            ColorFormat::HSL => Rendering::Hsl,
            ColorFormat::HSV => Rendering::Hsv,
            ColorFormat::HSB => Rendering::Hsb,
            ColorFormat::LAB => Rendering::Lab,
            ColorFormat::LCH => Rendering::Lch,
            ColorFormat::OKLAB => Rendering::Oklab,
            ColorFormat::OKLCH => Rendering::Oklch,
            ColorFormat::CMYK => Rendering::Cmyk,
            _ => Rendering::Hex,
        }
    }
}

} // verus!
