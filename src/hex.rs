//! Hexadecimal encoding and decoding of 8-bit color channels.
use vstd::prelude::*;
use vstd::string::StringSliceAdditionalSpecFns;
use crate::error::ParseColorError;
use crate::model::Rgba8;

verus! {

/// The sixteen lowercase hexadecimal digits, in order of value.
pub open spec fn hex_digits() -> Seq<char> {
    seq!['0', '1', '2', '3', '4', '5', '6', '7', '8', '9', 'a', 'b', 'c', 'd', 'e', 'f']
}

/// The lowercase digit that writes `d` (for `0 <= d < 16`).
pub open spec fn hex_char(d: int) -> char {
    hex_digits()[d]
}

/// A lowercase hexadecimal digit.
pub open spec fn is_hex_digit(c: char) -> bool {
    ('0' <= c && c <= '9') || ('a' <= c && c <= 'f')
}

/// The value of a lowercase hexadecimal digit.
pub open spec fn hex_value(c: char) -> int {
    if '0' <= c && c <= '9' {
        (c as int) - ('0' as int)
    } else {
        (c as int) - ('a' as int) + 10
    }
}

/// The two digits that write a byte, most significant first.
pub open spec fn hex2(v: u8) -> Seq<char> {
    seq![hex_char(v as int / 16), hex_char(v as int % 16)]
}

pub proof fn lemma_hex_char_digit(d: int)
    requires
        0 <= d < 16,
    ensures
        is_hex_digit(hex_char(d)),
        hex_value(hex_char(d)) == d,
{
}

/// The digit that writes `d`.
pub fn hex_digit_char(d: u8) -> (c: char)
    requires
        d < 16,
    ensures
        c == hex_char(d as int),
{
    match d {
        0 => '0',
        1 => '1',
        2 => '2',
        3 => '3',
        4 => '4',
        5 => '5',
        6 => '6',
        7 => '7',
        8 => '8',
        9 => '9',
        10 => 'a',
        11 => 'b',
        12 => 'c',
        13 => 'd',
        14 => 'e',
        _ => 'f',
    }
}

/// The value of `c` as a lowercase hexadecimal digit, if it is one.
pub fn hex_digit_value(c: char) -> (r: Option<u8>)
    ensures
        r.is_some() == is_hex_digit(c),
        r.is_some() ==> r.unwrap() as int == hex_value(c) && r.unwrap() < 16,
{
    if '0' <= c && c <= '9' {
        Some(((c as u32) - ('0' as u32)) as u8)
    } else if 'a' <= c && c <= 'f' {
        Some(((c as u32) - ('a' as u32) + 10) as u8)
    } else {
        None
    }
}


/// Whether both hex digits of `v` are the same digit.
pub open spec fn doubled(v: u8) -> bool {
    v as int / 16 == v as int % 16
}

/// The one digit that writes a doubled byte in short form.
pub open spec fn hex1(v: u8) -> Seq<char> {
    seq![hex_char(v as int % 16)]
}

/// Six hex digits for `(r, g, b)`, or three when `allow_short` holds and
/// every channel is doubled.
pub open spec fn rgb_hex(r: u8, g: u8, b: u8, allow_short: bool) -> Seq<char> {
    if allow_short && doubled(r) && doubled(g) && doubled(b) {
        hex1(r) + hex1(g) + hex1(b)
    } else {
        hex2(r) + hex2(g) + hex2(b)
    }
}

/// Eight hex digits for `(r, g, b, a)`, or four when `allow_short` holds
/// and every channel is doubled.
pub open spec fn rgba_hex(r: u8, g: u8, b: u8, a: u8, allow_short: bool) -> Seq<char> {
    if allow_short && doubled(r) && doubled(g) && doubled(b) && doubled(a) {
        hex1(r) + hex1(g) + hex1(b) + hex1(a)
    } else {
        hex2(r) + hex2(g) + hex2(b) + hex2(a)
    }
}

/// Eight hex digits with the alpha byte first.
pub open spec fn argb_hex(r: u8, g: u8, b: u8, a: u8) -> Seq<char> {
    hex2(a) + hex2(r) + hex2(g) + hex2(b)
}

fn push_hex2(v: &mut Vec<char>, x: u8)
    ensures
        final(v)@ == old(v)@ + hex2(x),
{
    v.push(hex_digit_char(x / 16));
    v.push(hex_digit_char(x % 16));
    assert(final(v)@ =~= old(v)@ + hex2(x));
}

fn push_hex1(v: &mut Vec<char>, x: u8)
    ensures
        final(v)@ == old(v)@ + hex1(x),
{
    v.push(hex_digit_char(x % 16));
    assert(final(v)@ =~= old(v)@ + hex1(x));
}

fn is_doubled(x: u8) -> (r: bool)
    ensures
        r == doubled(x),
{
    x / 16 == x % 16
}

/// Two-digit lowercase hex of the channels, compacted to one digit per
/// channel when `allow_3_char` holds and every channel allows it.
pub fn rgb_to_hex(r: u8, g: u8, b: u8, allow_3_char: bool) -> (s: String)
    ensures
        s@ == rgb_hex(r, g, b, allow_3_char),
{
    let mut v: Vec<char> = Vec::new();
    if allow_3_char && is_doubled(r) && is_doubled(g) && is_doubled(b) {
        push_hex1(&mut v, r);
        push_hex1(&mut v, g);
        push_hex1(&mut v, b);
    } else {
        push_hex2(&mut v, r);
        push_hex2(&mut v, g);
        push_hex2(&mut v, b);
    }
    assert(v@ =~= rgb_hex(r, g, b, allow_3_char));
    crate::text::string_of_chars(&v)
}

/// Two-digit lowercase hex of the channels and the alpha byte, compacted to
/// one digit per channel when `allow_4_char` holds and every channel allows it.
pub fn rgba_to_hex(r: u8, g: u8, b: u8, a: u8, allow_4_char: bool) -> (s: String)
    ensures
        s@ == rgba_hex(r, g, b, a, allow_4_char),
{
    let mut v: Vec<char> = Vec::new();
    if allow_4_char && is_doubled(r) && is_doubled(g) && is_doubled(b) && is_doubled(a) {
        push_hex1(&mut v, r);
        push_hex1(&mut v, g);
        push_hex1(&mut v, b);
        push_hex1(&mut v, a);
    } else {
        push_hex2(&mut v, r);
        push_hex2(&mut v, g);
        push_hex2(&mut v, b);
        push_hex2(&mut v, a);
    }
    assert(v@ =~= rgba_hex(r, g, b, a, allow_4_char));
    crate::text::string_of_chars(&v)
}

/// Eight lowercase hex digits, alpha byte first.
pub fn rgba_to_argb_hex(r: u8, g: u8, b: u8, a: u8) -> (s: String)
    ensures
        s@ == argb_hex(r, g, b, a),
{
    let mut v: Vec<char> = Vec::new();
    push_hex2(&mut v, a);
    push_hex2(&mut v, r);
    push_hex2(&mut v, g);
    push_hex2(&mut v, b);
    assert(v@ =~= argb_hex(r, g, b, a));
    crate::text::string_of_chars(&v)
}

/// `c` with a leading `'0'` when it is a single byte long.
pub fn pad2(c: &str) -> (s: String)
    ensures
        s@ == (if c.spec_bytes().len() == 1 { seq!['0'] + c@ } else { c@ }),
{
    if c.as_bytes().len() == 1 {
        let zero = String::from_str("0");
        proof {
            reveal_strlit("0");
        }
        assert(zero@ =~= seq!['0']);
        zero.concat(c)
    } else {
        c.to_owned()
    }
}


/// Every character is a lowercase hex digit.
pub open spec fn all_hex_digits(s: Seq<char>) -> bool {
    forall|i: int| 0 <= i < s.len() ==> #[trigger] is_hex_digit(s[i])
}

/// A channel written with one digit: the digit repeated.
pub open spec fn short_channel(c: char) -> u8 {
    (hex_value(c) * 17) as u8
}

/// A channel written with two digits, most significant first.
pub open spec fn long_channel(hi: char, lo: char) -> u8 {
    (hex_value(hi) * 16 + hex_value(lo)) as u8
}

/// The color that 3, 4, 6 or 8 lowercase hex digits write (no `#`); alpha
/// is opaque where the digits give none.
pub open spec fn hex_rgba(s: Seq<char>) -> Option<Rgba8> {
    if !all_hex_digits(s) {
        None
    } else if s.len() == 3 {
        Some(Rgba8 { r: short_channel(s[0]), g: short_channel(s[1]), b: short_channel(s[2]), a: 255 })
    } else if s.len() == 4 {
        Some(
            Rgba8 {
                r: short_channel(s[0]),
                g: short_channel(s[1]),
                b: short_channel(s[2]),
                a: short_channel(s[3]),
            },
        )
    } else if s.len() == 6 {
        Some(
            Rgba8 {
                r: long_channel(s[0], s[1]),
                g: long_channel(s[2], s[3]),
                b: long_channel(s[4], s[5]),
                a: 255,
            },
        )
    } else if s.len() == 8 {
        Some(
            Rgba8 {
                r: long_channel(s[0], s[1]),
                g: long_channel(s[2], s[3]),
                b: long_channel(s[4], s[5]),
                a: long_channel(s[6], s[7]),
            },
        )
    } else {
        None
    }
}

fn short_at(v: &Vec<char>, i: usize) -> (r: u8)
    requires
        i < v@.len(),
        is_hex_digit(v@[i as int]),
    ensures
        r == short_channel(v@[i as int]),
{
    let d = hex_digit_value(v[i]).unwrap();
    d * 17
}

fn long_at(v: &Vec<char>, i: usize) -> (r: u8)
    requires
        i < 8,
        i + 1 < v@.len(),
        is_hex_digit(v@[i as int]),
        is_hex_digit(v@[i + 1]),
    ensures
        r == long_channel(v@[i as int], v@[i + 1]),
{
    let hi = hex_digit_value(v[i]).unwrap();
    let lo = hex_digit_value(v[i + 1]).unwrap();
    hi * 16 + lo
}

/// Decodes 3, 4, 6 or 8 lowercase hex digits (the text after `#`).
pub fn parse_hex(s: &str) -> (r: Result<Rgba8, ParseColorError>)
    ensures
        match hex_rgba(s@) {
            Some(c) => r == Ok::<Rgba8, ParseColorError>(c),
            None => r == Err::<Rgba8, ParseColorError>(ParseColorError::InvalidHexColor),
        },
{
    let v = crate::text::chars_of(s);
    decode_hex(&v)
}

/// Decodes 3, 4, 6 or 8 lowercase hex digits.
pub fn decode_hex(v: &Vec<char>) -> (r: Result<Rgba8, ParseColorError>)
    ensures
        match hex_rgba(v@) {
            Some(c) => r == Ok::<Rgba8, ParseColorError>(c),
            None => r == Err::<Rgba8, ParseColorError>(ParseColorError::InvalidHexColor),
        },
{
    let n = v.len();
    if n != 3 && n != 4 && n != 6 && n != 8 {
        return Err(ParseColorError::InvalidHexColor);
    }
    let mut i: usize = 0;
    while i < n
        invariant
            n == v@.len(),
            i <= n,
            forall|j: int| 0 <= j < i ==> #[trigger] is_hex_digit(v@[j]),
        decreases n - i,
    {
        if hex_digit_value(v[i]).is_none() {
            assert(!is_hex_digit(v@[i as int]));
            return Err(ParseColorError::InvalidHexColor);
        }
        i = i + 1;
    }
    if n == 3 {
        Ok(Rgba8 { r: short_at(&v, 0), g: short_at(&v, 1), b: short_at(&v, 2), a: 255 })
    } else if n == 4 {
        Ok(Rgba8 { r: short_at(&v, 0), g: short_at(&v, 1), b: short_at(&v, 2), a: short_at(&v, 3) })
    } else if n == 6 {
        Ok(Rgba8 { r: long_at(&v, 0), g: long_at(&v, 2), b: long_at(&v, 4), a: 255 })
    } else {
        Ok(Rgba8 { r: long_at(&v, 0), g: long_at(&v, 2), b: long_at(&v, 4), a: long_at(&v, 6) })
    }
}


proof fn lemma_byte_digits(v: u8)
    ensures
        long_channel(hex_char(v as int / 16), hex_char(v as int % 16)) == v,
        doubled(v) ==> short_channel(hex_char(v as int % 16)) == v,
        all_hex_digits(hex2(v)),
        all_hex_digits(hex1(v)),
{
    lemma_hex_char_digit(v as int / 16);
    lemma_hex_char_digit(v as int % 16);
    assert(v as int == 16 * (v as int / 16) + v as int % 16);
}

/// Decoding the digits that `rgb_to_hex` writes gives back the channels,
/// opaque, in long and in short form.
pub proof fn lemma_rgb_hex_round_trip(r: u8, g: u8, b: u8, allow_short: bool)
    ensures
        hex_rgba(rgb_hex(r, g, b, allow_short)) == Some(Rgba8 { r, g, b, a: 255 }),
{
    lemma_byte_digits(r);
    lemma_byte_digits(g);
    lemma_byte_digits(b);
    let s = rgb_hex(r, g, b, allow_short);
    assert(all_hex_digits(s));
}

/// Decoding the digits that `rgba_to_hex` writes gives back the channels and
/// the alpha byte, in long and in short form.
pub proof fn lemma_rgba_hex_round_trip(r: u8, g: u8, b: u8, a: u8, allow_short: bool)
    ensures
        hex_rgba(rgba_hex(r, g, b, a, allow_short)) == Some(Rgba8 { r, g, b, a }),
{
    lemma_byte_digits(r);
    lemma_byte_digits(g);
    lemma_byte_digits(b);
    lemma_byte_digits(a);
    let s = rgba_hex(r, g, b, a, allow_short);
    assert(all_hex_digits(s));
}


/// `#` and two digits per channel, with the alpha byte only when the color
/// is not opaque.
pub open spec fn rgba8_hex_string(c: Rgba8) -> Seq<char> {
    if c.a < 255 {
        seq!['#'] + rgba_hex(c.r, c.g, c.b, c.a, false)
    } else {
        seq!['#'] + rgb_hex(c.r, c.g, c.b, false)
    }
}

/// The CSS hex string of an 8-bit color: `#rrggbb`, or `#rrggbbaa` when
/// the color is not opaque.
pub fn to_hex_string(c: Rgba8) -> (s: String)
    ensures
        s@ == rgba8_hex_string(c),
{
    let mut v: Vec<char> = Vec::new();
    v.push('#');
    push_hex2(&mut v, c.r);
    push_hex2(&mut v, c.g);
    push_hex2(&mut v, c.b);
    if c.a < 255 {
        push_hex2(&mut v, c.a);
    }
    assert(v@ =~= rgba8_hex_string(c));
    crate::text::string_of_chars(&v)
}

} // verus!
