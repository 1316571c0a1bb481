//! Errors of the color parsers.
use vstd::prelude::*;

verus! {

/// Relies on `std::num::ParseFloatError`, carried unread inside
/// `ParseColorError::InvalidNumberFormat`.
#[verifier::external_type_specification]
#[verifier::external_body]
pub struct ExParseFloatError(std::num::ParseFloatError);

/// Possible errors when parsing a color string.
#[derive(Debug, PartialEq)]
pub enum ParseColorError {
    /// Empty color string
    EmptyColorString,
    /// Invalid hex color format
    InvalidHexColor,
    /// Invalid RGB color format
    InvalidRgbColor,
    /// Invalid HSL color format
    InvalidHslColor,
    /// Invalid HSV color format
    InvalidHsvColor,
    /// Invalid HWB color format
    InvalidHwb,
    /// Invalid named color
    InvalidNamedColor,
    /// Invalid CMYK color format
    InvalidCmykColor,
    /// Invalid LAB color format
    InvalidLabColor,
    /// Invalid XYZ color format
    InvalidXyzColor,
    /// Invalid CSS color function
    InvalidColorFunction,
    /// Invalid CSS function
    InvalidFunction,
    /// Invalid number format when parsing a component
    InvalidNumberFormat(std::num::ParseFloatError),
    /// Invalid gradient format
    InvalidGradient,
    /// Invalid value
    InvalidValue,
    /// Invalid unknown format
    InvalidUnknown,
}

impl ParseColorError {
    /// A short description of the error.
    pub fn message(&self) -> (s: &'static str) {
        match self {
            ParseColorError::EmptyColorString => "Empty color string",
            ParseColorError::InvalidHexColor => "Invalid hex color format",
            ParseColorError::InvalidRgbColor => "Invalid RGB color format",
            ParseColorError::InvalidHslColor => "Invalid HSL color format",
            ParseColorError::InvalidHsvColor => "Invalid HSV color format",
            ParseColorError::InvalidHwb => "Invalid HWB color format",
            ParseColorError::InvalidNamedColor => "Invalid color name",
            ParseColorError::InvalidCmykColor => "Invalid CMYK color format",
            ParseColorError::InvalidLabColor => "Invalid LAB color format",
            ParseColorError::InvalidXyzColor => "Invalid XYZ color format",
            ParseColorError::InvalidColorFunction => "Invalid CSS color function",
            ParseColorError::InvalidFunction => "Invalid CSS function",
            ParseColorError::InvalidNumberFormat(_) => "Invalid number format",
            ParseColorError::InvalidGradient => "Invalid gradient format",
            ParseColorError::InvalidValue => "Invalid value",
            ParseColorError::InvalidUnknown => "Invalid unknown format",
        }
    }
}

} // verus!
