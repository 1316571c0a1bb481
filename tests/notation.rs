use bigcolor::hex::to_hex_string;
use bigcolor::error::ParseColorError;
use bigcolor::model::{ColorFormat, Rgba8};
use bigcolor::names::{named_color, named_color_hex};
use bigcolor::notation::{parse_notation, ColorFunction, ColorSyntax, Component};
use bigcolor::syntax::Unit;

fn numbers(cs: &[Component]) -> Vec<(String, Unit)> {
    cs.iter().map(|c| (c.number.clone(), c.unit)).collect()
}

fn function_parts(s: &str) -> (ColorFunction, Vec<(String, Unit)>, Option<String>) {
    match parse_notation(s) {
        Ok(ColorSyntax::Function(f, cs, alpha)) => (f, numbers(&cs), alpha),
        other => panic!("not a function notation: {:?}", other),
    }
}

fn plain(s: &str) -> (String, Unit) {
    (s.to_string(), Unit::Plain)
}

fn pct(s: &str) -> (String, Unit) {
    (s.to_string(), Unit::Percent)
}

#[test]
fn red_in_hex_and_by_name() {
    let red = Rgba8 { r: 255, g: 0, b: 0, a: 255 };
    match parse_notation("#ff0000") {
        Ok(ColorSyntax::Hex(c, false)) => assert_eq!(c, red),
        other => panic!("{:?}", other),
    }
    match parse_notation("red") {
        Ok(ColorSyntax::Named(c)) => assert_eq!(c, red),
        other => panic!("{:?}", other),
    }
    match parse_notation("  RED ") {
        Ok(ColorSyntax::Named(c)) => assert_eq!(c, red),
        other => panic!("{:?}", other),
    }
}

#[test]
fn red_as_rgb_and_hsl_functions() {
    assert_eq!(
        function_parts("rgb(255,0,0)"),
        (ColorFunction::Rgb, vec![plain("255"), plain("0"), plain("0")], None)
    );
    assert_eq!(
        function_parts("hsl(0,100%,50%)"),
        (ColorFunction::Hsl, vec![plain("0"), pct("100"), pct("50")], None)
    );
}

#[test]
fn garbage_alpha_is_kept_as_text() {
    assert_eq!(
        function_parts("rgba(255,0,0,garbage)"),
        (ColorFunction::Rgb, vec![plain("255"), plain("0"), plain("0")], Some("garbage".to_string()))
    );
    assert_eq!(
        function_parts("rgb(255 0 0 / nonsense)"),
        (ColorFunction::Rgb, vec![plain("255"), plain("0"), plain("0")], Some("nonsense".to_string()))
    );
}

#[test]
fn not_a_color_is_an_error() {
    assert_eq!(parse_notation("not-a-color").err(), Some(ParseColorError::InvalidUnknown));
}

#[test]
fn empty_and_blank_strings() {
    assert_eq!(parse_notation("").err(), Some(ParseColorError::EmptyColorString));
    assert_eq!(parse_notation("   ").err(), Some(ParseColorError::EmptyColorString));
}

#[test]
fn transparent_and_hex_forms() {
    assert!(matches!(parse_notation("transparent"), Ok(ColorSyntax::Transparent)));
    match parse_notation("#f008") {
        Ok(ColorSyntax::Hex(c, true)) => assert_eq!(c, Rgba8 { r: 255, g: 0, b: 0, a: 0x88 }),
        other => panic!("{:?}", other),
    }
    match parse_notation("bad") {
        Ok(ColorSyntax::Hex(c, false)) => assert_eq!(c, Rgba8 { r: 0xbb, g: 0xaa, b: 0xdd, a: 255 }),
        other => panic!("{:?}", other),
    }
    assert_eq!(parse_notation("#ff00zz").err(), Some(ParseColorError::InvalidHexColor));
}

#[test]
fn errors_name_the_notation() {
    assert_eq!(parse_notation("rgb(1,2)").err(), Some(ParseColorError::InvalidRgbColor));
    assert_eq!(parse_notation("rgb(100%,0,0)").err(), Some(ParseColorError::InvalidRgbColor));
    assert_eq!(parse_notation("hsl(1)").err(), Some(ParseColorError::InvalidHslColor));
    assert_eq!(parse_notation("hsb(1,2)").err(), Some(ParseColorError::InvalidHsvColor));
    assert_eq!(parse_notation("lab(1,2)").err(), Some(ParseColorError::InvalidLabColor));
    assert_eq!(parse_notation("cmyk(1%,2%,3%)").err(), Some(ParseColorError::InvalidCmykColor));
    assert_eq!(parse_notation("foo(1,2,3)").err(), Some(ParseColorError::InvalidFunction));
}

#[test]
fn units_and_separators() {
    assert_eq!(
        function_parts("hsla(120deg 50% 25% / 0.5)"),
        (
            ColorFunction::Hsl,
            vec![("120".to_string(), Unit::Deg), pct("50"), pct("25")],
            Some("0.5".to_string())
        )
    );
    assert_eq!(
        function_parts("hsv(100grad, 1rad, 0.25turn)"),
        (
            ColorFunction::Hsv,
            vec![("100".to_string(), Unit::Grad), ("1".to_string(), Unit::Rad), ("0.25".to_string(), Unit::Turn)],
            None
        )
    );
    assert_eq!(
        function_parts("cmyk(0%, 100%, 100%, 0%, 0.5)"),
        (ColorFunction::Cmyk, vec![pct("0"), pct("100"), pct("100"), pct("0")], Some("0.5".to_string()))
    );
}

#[test]
fn hsl_shorthand_is_recognised() {
    match parse_notation("210 40% 96%") {
        Ok(ColorSyntax::HslShorthand(cs)) => {
            assert_eq!(numbers(&cs), vec![plain("210"), pct("40"), pct("96")])
        }
        other => panic!("{:?}", other),
    }
    assert_eq!(parse_notation("210 40 96").err(), Some(ParseColorError::InvalidUnknown));
}

#[test]
fn formats_recorded() {
    assert_eq!(parse_notation("red").unwrap().format(), ColorFormat::NAME);
    assert_eq!(parse_notation("#abc").unwrap().format(), ColorFormat::HEX);
    assert_eq!(parse_notation("#abcd").unwrap().format(), ColorFormat::HEX8);
    assert_eq!(parse_notation("oklch(50% 0.1 0)").unwrap().format(), ColorFormat::OKLCH);
    assert_eq!(parse_notation("hsb(1, 2%, 3%)").unwrap().format(), ColorFormat::HSV);
}

#[test]
fn named_table_lookups() {
    assert_eq!(named_color_hex("cornflowerblue"), Some("6495ed"));
    assert_eq!(named_color("aqua"), Some(Rgba8 { r: 0, g: 255, b: 255, a: 255 }));
    assert_eq!(named_color("white"), Some(Rgba8 { r: 255, g: 255, b: 255, a: 255 }));
    assert_eq!(named_color("notacolor"), None);
}

#[test]
fn hex_strings_parse_back_to_their_color() {
    for c in [
        Rgba8 { r: 18, g: 110, b: 245, a: 255 },
        Rgba8 { r: 26, g: 110, b: 245, a: 128 },
        Rgba8 { r: 0, g: 0, b: 0, a: 0 },
        Rgba8 { r: 255, g: 255, b: 255, a: 255 },
    ] {
        match parse_notation(&to_hex_string(c)) {
            Ok(ColorSyntax::Hex(back, has_alpha)) => {
                assert_eq!(back, c);
                assert_eq!(has_alpha, c.a < 255);
            }
            other => panic!("{:?}", other),
        }
    }
}
