use bigcolor::hex::{pad2, parse_hex, rgb_to_hex, rgba_to_argb_hex, rgba_to_hex, to_hex_string};
use bigcolor::error::ParseColorError;
use bigcolor::model::Rgba8;

#[test]
fn hex_of_rgba8_channels() {
    let c = |r, g, b, a| Rgba8 { r, g, b, a };
    assert_eq!(to_hex_string(c(26, 110, 245, 255)), "#1a6ef5");
    assert_eq!(to_hex_string(c(18, 110, 245, 255)), "#126ef5");
    assert_eq!(to_hex_string(c(18, 110, 245, 128)), "#126ef580");
    assert_eq!(format!("#{}", rgb_to_hex(26, 110, 245, false)), "#1a6ef5");
}

#[test]
fn hex_long_form_when_short_not_allowed() {
    assert_eq!(rgb_to_hex(255, 0, 0, false), "ff0000");
    assert_eq!(rgb_to_hex(0, 0, 0, false), "000000");
}

#[test]
fn hex_short_form_when_every_channel_doubles() {
    assert_eq!(rgb_to_hex(255, 0, 0, true), "f00");
    assert_eq!(rgb_to_hex(0x11, 0x22, 0x33, true), "123");
    assert_eq!(rgb_to_hex(0x11, 0x22, 0x34, true), "112234");
}

#[test]
fn hex_with_alpha() {
    assert_eq!(rgba_to_hex(255, 0, 0, 255, false), "ff0000ff");
    assert_eq!(rgba_to_hex(255, 0, 0, 255, true), "f00f");
    assert_eq!(rgba_to_hex(255, 0, 0, 0x80, true), "ff000080");
    assert_eq!(rgba_to_argb_hex(0x12, 0x34, 0x56, 0x78), "78123456");
}

#[test]
fn pad2_pads_single_digits() {
    assert_eq!(pad2("f"), "0f");
    assert_eq!(pad2("ff"), "ff");
    assert_eq!(pad2(""), "");
}

#[test]
fn parse_hex_forms() {
    assert_eq!(parse_hex("ff0000"), Ok(Rgba8 { r: 255, g: 0, b: 0, a: 255 }));
    assert_eq!(parse_hex("f00"), Ok(Rgba8 { r: 255, g: 0, b: 0, a: 255 }));
    assert_eq!(parse_hex("f008"), Ok(Rgba8 { r: 255, g: 0, b: 0, a: 0x88 }));
    assert_eq!(parse_hex("1a6ef580"), Ok(Rgba8 { r: 0x1a, g: 0x6e, b: 0xf5, a: 0x80 }));
}

#[test]
fn parse_hex_rejects_bad_digits_and_lengths() {
    assert_eq!(parse_hex("ff00"), Ok(Rgba8 { r: 255, g: 255, b: 0, a: 0 }));
    assert_eq!(parse_hex("ff000"), Err(ParseColorError::InvalidHexColor));
    assert_eq!(parse_hex("gg0000"), Err(ParseColorError::InvalidHexColor));
    assert_eq!(parse_hex("FF0000"), Err(ParseColorError::InvalidHexColor));
    assert_eq!(parse_hex(""), Err(ParseColorError::InvalidHexColor));
}

#[test]
fn hex_round_trip_every_gray() {
    for v in 0..=255u8 {
        let s = rgb_to_hex(v, v, v, true);
        assert_eq!(parse_hex(&s), Ok(Rgba8 { r: v, g: v, b: v, a: 255 }));
    }
}
