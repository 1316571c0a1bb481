//! WCAG 2 readability levels and the contrast each one asks for.
use vstd::prelude::*;

verus! {

/// WCAG2 levels.
#[derive(Debug, Clone, Copy, PartialEq, Eq, Structural)]
pub enum WCAG2Level {
    AA,
    AAA,
}

/// WCAG2 sizes.
#[derive(Debug, Clone, Copy, PartialEq, Eq, Structural)]
pub enum WCAG2Size {
    Small,
    Large,
}

/// WCAG2 parameters.
#[derive(Debug, Clone, Copy, PartialEq, Eq, Structural)]
pub struct WCAG2Params {
    pub level: WCAG2Level,
    pub size: WCAG2Size,
}

/// The parameters used when none are given: level AA, small text.
pub open spec fn default_wcag2() -> WCAG2Params {
    WCAG2Params { level: WCAG2Level::AA, size: WCAG2Size::Small }
}

impl Default for WCAG2Params {
    fn default() -> (r: WCAG2Params)
        ensures
            r == default_wcag2(),
    {
        WCAG2Params { level: WCAG2Level::AA, size: WCAG2Size::Small }
    }
}

/// Arguments for choosing the most readable color.
#[derive(Debug, Clone, Copy, PartialEq, Eq, Structural)]
pub struct MostReadableArgs {
    pub include_fallback_colors: bool,
    pub wcag2: WCAG2Params,
}

impl Default for MostReadableArgs {
    fn default() -> (r: MostReadableArgs)
        ensures
            r == (MostReadableArgs { include_fallback_colors: false, wcag2: default_wcag2() }),
    {
        MostReadableArgs {
            include_fallback_colors: false,
            wcag2: WCAG2Params { level: WCAG2Level::AA, size: WCAG2Size::Small },
        }
    }
}

/// The given parameters, or the default ones.
pub fn validate_wcag2_params(params: Option<WCAG2Params>) -> (r: WCAG2Params)
    ensures
        r == (match params {
            Some(p) => p,
            None => default_wcag2(),
        }),
{
    match params {
        Some(p) => p,
        None => WCAG2Params { level: WCAG2Level::AA, size: WCAG2Size::Small },
    }
}

/// The contrast ratio, in tenths, that the parameters ask for: 4.5 for AA
/// small and AAA large text, 3 for AA large text, 7 for AAA small text.
pub open spec fn required_contrast(p: WCAG2Params) -> nat {
    match (p.level, p.size) {
        (WCAG2Level::AA, WCAG2Size::Large) => 30,
        (WCAG2Level::AAA, WCAG2Size::Small) => 70,
        _ => 45,
    }
}

/// The contrast ratio, in tenths, that readable text needs under the given
/// parameters (the default ones when none are given).
pub fn required_contrast_tenths(params: Option<WCAG2Params>) -> (r: u32)
    ensures
        r == required_contrast(
            match params {
                Some(p) => p,
                None => default_wcag2(),
            },
        ),
{
    let p = validate_wcag2_params(params);
    match (p.level, p.size) {
        (WCAG2Level::AA, WCAG2Size::Large) => 30,
        (WCAG2Level::AAA, WCAG2Size::Small) => 70,
        _ => 45,
    }
}

} // verus!
