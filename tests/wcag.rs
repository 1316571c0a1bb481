use bigcolor::wcag::{
    required_contrast_tenths, validate_wcag2_params, MostReadableArgs, WCAG2Level, WCAG2Params, WCAG2Size,
};

#[test]
fn defaults_are_aa_small() {
    let p = WCAG2Params::default();
    assert_eq!(p, WCAG2Params { level: WCAG2Level::AA, size: WCAG2Size::Small });
    assert_eq!(validate_wcag2_params(None), p);
    let a = MostReadableArgs::default();
    assert!(!a.include_fallback_colors);
    assert_eq!(a.wcag2, p);
}

#[test]
fn contrast_needed_per_level_and_size() {
    let p = |level, size| Some(WCAG2Params { level, size });
    assert_eq!(required_contrast_tenths(None), 45);
    assert_eq!(required_contrast_tenths(p(WCAG2Level::AA, WCAG2Size::Small)), 45);
    assert_eq!(required_contrast_tenths(p(WCAG2Level::AA, WCAG2Size::Large)), 30);
    assert_eq!(required_contrast_tenths(p(WCAG2Level::AAA, WCAG2Size::Small)), 70);
    assert_eq!(required_contrast_tenths(p(WCAG2Level::AAA, WCAG2Size::Large)), 45);
}
