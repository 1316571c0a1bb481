use bigcolor::model::{rendering_for, ColorFormat, Rendering};
use bigcolor::names::name_of_hex;

#[test]
fn opaque_colors_keep_their_format() {
    assert_eq!(rendering_for(ColorFormat::HEX, false, false), Rendering::Hex);
    assert_eq!(rendering_for(ColorFormat::HEX6, false, false), Rendering::Hex);
    assert_eq!(rendering_for(ColorFormat::HEX3, false, false), Rendering::ShortHex);
    assert_eq!(rendering_for(ColorFormat::NAME, false, false), Rendering::Name);
    assert_eq!(rendering_for(ColorFormat::OKLCH, false, false), Rendering::Oklch);
    assert_eq!(rendering_for(ColorFormat::PRGB, false, false), Rendering::PercentRgb);
    assert_eq!(rendering_for(ColorFormat::INVALID, false, false), Rendering::Hex);
}

#[test]
fn translucent_colors_fall_back_to_rgba() {
    assert_eq!(rendering_for(ColorFormat::HEX, true, false), Rendering::Rgb);
    assert_eq!(rendering_for(ColorFormat::HEX3, true, false), Rendering::Rgb);
    assert_eq!(rendering_for(ColorFormat::NAME, true, false), Rendering::Rgb);
    assert_eq!(rendering_for(ColorFormat::HEX8, true, false), Rendering::Hex8);
    assert_eq!(rendering_for(ColorFormat::HSL, true, false), Rendering::Hsl);
}

#[test]
fn clear_color_by_name_is_transparent() {
    assert_eq!(rendering_for(ColorFormat::NAME, true, true), Rendering::Transparent);
    assert_eq!(rendering_for(ColorFormat::HEX, true, true), Rendering::Rgb);
}

#[test]
fn names_of_hex_digits() {
    assert_eq!(name_of_hex("f00"), Some("red"));
    assert_eq!(name_of_hex("0ff"), Some("aqua"));
    assert_eq!(name_of_hex("6495ed"), Some("cornflowerblue"));
    assert_eq!(name_of_hex("123456"), None);
}
