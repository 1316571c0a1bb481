//! The CSS/SVG named-color table.
use vstd::prelude::*;
use crate::hex::{hex_rgba, parse_hex};
use crate::model::Rgba8;

verus! {

/// The hex digits (no `#`) that the table gives for a lowercase color name.
pub open spec fn named_hex(name: Seq<char>) -> Option<Seq<char>> {
    if name == "aliceblue"@ {
        Some("f0f8ff"@)
    } else if name == "antiquewhite"@ {
        Some("faebd7"@)
    } else if name == "aqua"@ {
        Some("0ff"@)
    } else if name == "aquamarine"@ {
        Some("7fffd4"@)
    } else if name == "azure"@ {
        Some("f0ffff"@)
    } else if name == "beige"@ {
        Some("f5f5dc"@)
    } else if name == "bisque"@ {
        Some("ffe4c4"@)
    } else if name == "black"@ {
        Some("000"@)
    } else if name == "blanchedalmond"@ {
        Some("ffebcd"@)
    } else if name == "blue"@ {
        Some("00f"@)
    } else if name == "blueviolet"@ {
        Some("8a2be2"@)
    } else if name == "brown"@ {
        Some("a52a2a"@)
    } else if name == "burlywood"@ {
        Some("deb887"@)
    } else if name == "burntsienna"@ {
        Some("ea7e5d"@)
    } else if name == "cadetblue"@ {
        Some("5f9ea0"@)
    } else if name == "chartreuse"@ {
        Some("7fff00"@)
    } else if name == "chocolate"@ {
        Some("d2691e"@)
    } else if name == "coral"@ {
        Some("ff7f50"@)
    } else if name == "cornflowerblue"@ {
        Some("6495ed"@)
    } else if name == "cornsilk"@ {
        Some("fff8dc"@)
    } else if name == "crimson"@ {
        Some("dc143c"@)
    } else if name == "cyan"@ {
        Some("0ff"@)
    } else if name == "darkblue"@ {
        Some("00008b"@)
    } else if name == "darkcyan"@ {
        Some("008b8b"@)
    } else if name == "darkgoldenrod"@ {
        Some("b8860b"@)
    } else if name == "darkgray"@ {
        Some("a9a9a9"@)
    } else if name == "darkgreen"@ {
        Some("006400"@)
    } else if name == "darkgrey"@ {
        Some("a9a9a9"@)
    } else if name == "darkkhaki"@ {
        Some("bdb76b"@)
    } else if name == "darkmagenta"@ {
        Some("8b008b"@)
    } else if name == "darkolivegreen"@ {
        Some("556b2f"@)
    } else if name == "darkorange"@ {
        Some("ff8c00"@)
    } else if name == "darkorchid"@ {
        Some("9932cc"@)
    } else if name == "darkred"@ {
        Some("8b0000"@)
    } else if name == "darksalmon"@ {
        Some("e9967a"@)
    } else if name == "darkseagreen"@ {
        Some("8fbc8f"@)
    } else if name == "darkslateblue"@ {
        Some("483d8b"@)
    } else if name == "darkslategray"@ {
        Some("2f4f4f"@)
    } else if name == "darkslategrey"@ {
        Some("2f4f4f"@)
    } else if name == "darkturquoise"@ {
        Some("00ced1"@)
    } else if name == "darkviolet"@ {
        Some("9400d3"@)
    } else if name == "deeppink"@ {
        Some("ff1493"@)
    } else if name == "deepskyblue"@ {
        Some("00bfff"@)
    } else if name == "dimgray"@ {
        Some("696969"@)
    } else if name == "dimgrey"@ {
        Some("696969"@)
    } else if name == "dodgerblue"@ {
        Some("1e90ff"@)
    } else if name == "firebrick"@ {
        Some("b22222"@)
    } else if name == "floralwhite"@ {
        Some("fffaf0"@)
    } else if name == "forestgreen"@ {
        Some("228b22"@)
    } else if name == "fuchsia"@ {
        Some("f0f"@)
    } else if name == "gainsboro"@ {
        Some("dcdcdc"@)
    } else if name == "ghostwhite"@ {
        Some("f8f8ff"@)
    } else if name == "gold"@ {
        Some("ffd700"@)
    } else if name == "goldenrod"@ {
        Some("daa520"@)
    } else if name == "gray"@ {
        Some("808080"@)
    } else if name == "green"@ {
        Some("008000"@)
    } else if name == "greenyellow"@ {
        Some("adff2f"@)
    } else if name == "grey"@ {
        Some("808080"@)
    } else if name == "honeydew"@ {
        Some("f0fff0"@)
    } else if name == "hotpink"@ {
        Some("ff69b4"@)
    } else if name == "indianred"@ {
        Some("cd5c5c"@)
    } else if name == "indigo"@ {
        Some("4b0082"@)
    } else if name == "ivory"@ {
        Some("fffff0"@)
    } else if name == "khaki"@ {
        Some("f0e68c"@)
    } else if name == "lavender"@ {
        Some("e6e6fa"@)
    } else if name == "lavenderblush"@ {
        Some("fff0f5"@)
    } else if name == "lawngreen"@ {
        Some("7cfc00"@)
    } else if name == "lemonchiffon"@ {
        Some("fffacd"@)
    } else if name == "lightblue"@ {
        Some("add8e6"@)
    } else if name == "lightcoral"@ {
        Some("f08080"@)
    } else if name == "lightcyan"@ {
        Some("e0ffff"@)
    } else if name == "lightgoldenrodyellow"@ {
        Some("fafad2"@)
    } else if name == "lightgray"@ {
        Some("d3d3d3"@)
    } else if name == "lightgreen"@ {
        Some("90ee90"@)
    } else if name == "lightgrey"@ {
        Some("d3d3d3"@)
    } else if name == "lightpink"@ {
        Some("ffb6c1"@)
    } else if name == "lightsalmon"@ {
        Some("ffa07a"@)
    } else if name == "lightseagreen"@ {
        Some("20b2aa"@)
    } else if name == "lightskyblue"@ {
        Some("87cefa"@)
    } else if name == "lightslategray"@ {
        Some("789"@)
    } else if name == "lightslategrey"@ {
        Some("789"@)
    } else if name == "lightsteelblue"@ {
        Some("b0c4de"@)
    } else if name == "lightyellow"@ {
        Some("ffffe0"@)
    } else if name == "lime"@ {
        Some("0f0"@)
    } else if name == "limegreen"@ {
        Some("32cd32"@)
    } else if name == "linen"@ {
        Some("faf0e6"@)
    } else if name == "magenta"@ {
        Some("f0f"@)
    } else if name == "maroon"@ {
        Some("800000"@)
    } else if name == "mediumaquamarine"@ {
        Some("66cdaa"@)
    } else if name == "mediumblue"@ {
        Some("0000cd"@)
    } else if name == "mediumorchid"@ {
        Some("ba55d3"@)
    } else if name == "mediumpurple"@ {
        Some("9370db"@)
    } else if name == "mediumseagreen"@ {
        Some("3cb371"@)
    } else if name == "mediumslateblue"@ {
        Some("7b68ee"@)
    } else if name == "mediumspringgreen"@ {
        Some("00fa9a"@)
    } else if name == "mediumturquoise"@ {
        Some("48d1cc"@)
    } else if name == "mediumvioletred"@ {
        Some("c71585"@)
    } else if name == "midnightblue"@ {
        Some("191970"@)
    } else if name == "mintcream"@ {
        Some("f5fffa"@)
    } else if name == "mistyrose"@ {
        Some("ffe4e1"@)
    } else if name == "moccasin"@ {
        Some("ffe4b5"@)
    } else if name == "navajowhite"@ {
        Some("ffdead"@)
    } else if name == "navy"@ {
        Some("000080"@)
    } else if name == "oldlace"@ {
        Some("fdf5e6"@)
    } else if name == "olive"@ {
        Some("808000"@)
    } else if name == "olivedrab"@ {
        Some("6b8e23"@)
    } else if name == "orange"@ {
        Some("ffa500"@)
    } else if name == "orangered"@ {
        Some("ff4500"@)
    } else if name == "orchid"@ {
        Some("da70d6"@)
    } else if name == "palegoldenrod"@ {
        Some("eee8aa"@)
    } else if name == "palegreen"@ {
        Some("98fb98"@)
    } else if name == "paleturquoise"@ {
        Some("afeeee"@)
    } else if name == "palevioletred"@ {
        Some("db7093"@)
    } else if name == "papayawhip"@ {
        Some("ffefd5"@)
    } else if name == "peachpuff"@ {
        Some("ffdab9"@)
    } else if name == "peru"@ {
        Some("cd853f"@)
    } else if name == "pink"@ {
        Some("ffc0cb"@)
    } else if name == "plum"@ {
        Some("dda0dd"@)
    } else if name == "powderblue"@ {
        Some("b0e0e6"@)
    } else if name == "purple"@ {
        Some("800080"@)
    } else if name == "rebeccapurple"@ {
        Some("663399"@)
    } else if name == "red"@ {
        Some("f00"@)
    } else if name == "rosybrown"@ {
        Some("bc8f8f"@)
    } else if name == "royalblue"@ {
        Some("4169e1"@)
    } else if name == "saddlebrown"@ {
        Some("8b4513"@)
    } else if name == "salmon"@ {
        Some("fa8072"@)
    } else if name == "sandybrown"@ {
        Some("f4a460"@)
    } else if name == "seagreen"@ {
        Some("2e8b57"@)
    } else if name == "seashell"@ {
        Some("fff5ee"@)
    } else if name == "sienna"@ {
        Some("a0522d"@)
    } else if name == "silver"@ {
        Some("c0c0c0"@)
    } else if name == "skyblue"@ {
        Some("87ceeb"@)
    } else if name == "slateblue"@ {
        Some("6a5acd"@)
    } else if name == "slategray"@ {
        Some("708090"@)
    } else if name == "slategrey"@ {
        Some("708090"@)
    } else if name == "snow"@ {
        Some("fffafa"@)
    } else if name == "springgreen"@ {
        Some("00ff7f"@)
    } else if name == "steelblue"@ {
        Some("4682b4"@)
    } else if name == "tan"@ {
        Some("d2b48c"@)
    } else if name == "teal"@ {
        Some("008080"@)
    } else if name == "thistle"@ {
        Some("d8bfd8"@)
    } else if name == "tomato"@ {
        Some("ff6347"@)
    } else if name == "turquoise"@ {
        Some("40e0d0"@)
    } else if name == "violet"@ {
        Some("ee82ee"@)
    } else if name == "wheat"@ {
        Some("f5deb3"@)
    } else if name == "white"@ {
        Some("fff"@)
    } else if name == "whitesmoke"@ {
        Some("f5f5f5"@)
    } else if name == "yellow"@ {
        Some("ff0"@)
    } else if name == "yellowgreen"@ {
        Some("9acd32"@)
    } else {
        None
    }
}

/// Whether the characters in `v` are those of `t`.
pub fn chars_equal(v: &Vec<char>, t: &str) -> (r: bool)
    ensures
        r == (v@ == t@),
{
    let n = t.unicode_len();
    if v.len() != n {
        return false;
    }
    let mut i: usize = 0;
    while i < n
        invariant
            n == t@.len(),
            n == v@.len(),
            i <= n,
            v@.subrange(0, i as int) == t@.subrange(0, i as int),
        decreases n - i,
    {
        if v[i] != t.get_char(i) {
            assert(v@[i as int] != t@[i as int]);
            return false;
        }
        assert(v@.subrange(0, i + 1) =~= v@.subrange(0, i as int).push(v@[i as int]));
        assert(t@.subrange(0, i + 1) =~= t@.subrange(0, i as int).push(t@[i as int]));
        i = i + 1;
    }
    assert(v@ =~= v@.subrange(0, n as int));
    assert(t@ =~= t@.subrange(0, n as int));
    true
}

/// The hex digits that the table gives for a lowercase color name.
pub fn named_color_hex(name: &str) -> (r: Option<&'static str>)
    ensures
        match named_hex(name@) {
            Some(h) => r.is_some() && r.unwrap()@ == h,
            None => r.is_none(),
        },
{
    let v = crate::text::chars_of(name);
    lookup_hex(&v)
}

/// The hex digits that the table gives for the lowercase name in `v`.
pub fn lookup_hex(v: &Vec<char>) -> (r: Option<&'static str>)
    ensures
        match named_hex(v@) {
            Some(h) => r.is_some() && r.unwrap()@ == h,
            None => r.is_none(),
        },
{
    if chars_equal(v, "aliceblue") {
        Some("f0f8ff")
    } else if chars_equal(v, "antiquewhite") {
        Some("faebd7")
    } else if chars_equal(v, "aqua") {
        Some("0ff")
    } else if chars_equal(v, "aquamarine") {
        Some("7fffd4")
    } else if chars_equal(v, "azure") {
        Some("f0ffff")
    } else if chars_equal(v, "beige") {
        Some("f5f5dc")
    } else if chars_equal(v, "bisque") {
        Some("ffe4c4")
    } else if chars_equal(v, "black") {
        Some("000")
    } else if chars_equal(v, "blanchedalmond") {
        Some("ffebcd")
    } else if chars_equal(v, "blue") {
        Some("00f")
    } else if chars_equal(v, "blueviolet") {
        Some("8a2be2")
    } else if chars_equal(v, "brown") {
        Some("a52a2a")
    } else if chars_equal(v, "burlywood") {
        Some("deb887")
    } else if chars_equal(v, "burntsienna") {
        Some("ea7e5d")
    } else if chars_equal(v, "cadetblue") {
        Some("5f9ea0")
    } else if chars_equal(v, "chartreuse") {
        Some("7fff00")
    } else if chars_equal(v, "chocolate") {
        Some("d2691e")
    } else if chars_equal(v, "coral") {
        Some("ff7f50")
    } else if chars_equal(v, "cornflowerblue") {
        Some("6495ed")
    } else if chars_equal(v, "cornsilk") {
        Some("fff8dc")
    } else if chars_equal(v, "crimson") {
        Some("dc143c")
    } else if chars_equal(v, "cyan") {
        Some("0ff")
    } else if chars_equal(v, "darkblue") {
        Some("00008b")
    } else if chars_equal(v, "darkcyan") {
        Some("008b8b")
    } else if chars_equal(v, "darkgoldenrod") {
        Some("b8860b")
    } else if chars_equal(v, "darkgray") {
        Some("a9a9a9")
    } else if chars_equal(v, "darkgreen") {
        Some("006400")
    } else if chars_equal(v, "darkgrey") {
        Some("a9a9a9")
    } else if chars_equal(v, "darkkhaki") {
        Some("bdb76b")
    } else if chars_equal(v, "darkmagenta") {
        Some("8b008b")
    } else if chars_equal(v, "darkolivegreen") {
        Some("556b2f")
    } else if chars_equal(v, "darkorange") {
        Some("ff8c00")
    } else if chars_equal(v, "darkorchid") {
        Some("9932cc")
    } else if chars_equal(v, "darkred") {
        Some("8b0000")
    } else if chars_equal(v, "darksalmon") {
        Some("e9967a")
    } else if chars_equal(v, "darkseagreen") {
        Some("8fbc8f")
    } else if chars_equal(v, "darkslateblue") {
        Some("483d8b")
    } else if chars_equal(v, "darkslategray") {
        Some("2f4f4f")
    } else if chars_equal(v, "darkslategrey") {
        Some("2f4f4f")
    } else if chars_equal(v, "darkturquoise") {
        Some("00ced1")
    } else if chars_equal(v, "darkviolet") {
        Some("9400d3")
    } else if chars_equal(v, "deeppink") {
        Some("ff1493")
    } else if chars_equal(v, "deepskyblue") {
        Some("00bfff")
    } else if chars_equal(v, "dimgray") {
        Some("696969")
    } else if chars_equal(v, "dimgrey") {
        Some("696969")
    } else if chars_equal(v, "dodgerblue") {
        Some("1e90ff")
    } else if chars_equal(v, "firebrick") {
        Some("b22222")
    } else if chars_equal(v, "floralwhite") {
        Some("fffaf0")
    } else if chars_equal(v, "forestgreen") {
        Some("228b22")
    } else if chars_equal(v, "fuchsia") {
        Some("f0f")
    } else if chars_equal(v, "gainsboro") {
        Some("dcdcdc")
    } else if chars_equal(v, "ghostwhite") {
        Some("f8f8ff")
    } else if chars_equal(v, "gold") {
        Some("ffd700")
    } else if chars_equal(v, "goldenrod") {
        Some("daa520")
    } else if chars_equal(v, "gray") {
        Some("808080")
    } else if chars_equal(v, "green") {
        Some("008000")
    } else if chars_equal(v, "greenyellow") {
        Some("adff2f")
    } else if chars_equal(v, "grey") {
        Some("808080")
    } else if chars_equal(v, "honeydew") {
        Some("f0fff0")
    } else if chars_equal(v, "hotpink") {
        Some("ff69b4")
    } else if chars_equal(v, "indianred") {
        Some("cd5c5c")
    } else if chars_equal(v, "indigo") {
        Some("4b0082")
    } else if chars_equal(v, "ivory") {
        Some("fffff0")
    } else if chars_equal(v, "khaki") {
        Some("f0e68c")
    } else if chars_equal(v, "lavender") {
        Some("e6e6fa")
    } else if chars_equal(v, "lavenderblush") {
        Some("fff0f5")
    } else if chars_equal(v, "lawngreen") {
        Some("7cfc00")
    } else if chars_equal(v, "lemonchiffon") {
        Some("fffacd")
    } else if chars_equal(v, "lightblue") {
        Some("add8e6")
    } else if chars_equal(v, "lightcoral") {
        Some("f08080")
    } else if chars_equal(v, "lightcyan") {
        Some("e0ffff")
    } else if chars_equal(v, "lightgoldenrodyellow") {
        Some("fafad2")
    } else if chars_equal(v, "lightgray") {
        Some("d3d3d3")
    } else if chars_equal(v, "lightgreen") {
        Some("90ee90")
    } else if chars_equal(v, "lightgrey") {
        Some("d3d3d3")
    } else if chars_equal(v, "lightpink") {
        Some("ffb6c1")
    } else if chars_equal(v, "lightsalmon") {
        Some("ffa07a")
    } else if chars_equal(v, "lightseagreen") {
        Some("20b2aa")
    } else if chars_equal(v, "lightskyblue") {
        Some("87cefa")
    } else if chars_equal(v, "lightslategray") {
        Some("789")
    } else if chars_equal(v, "lightslategrey") {
        Some("789")
    } else if chars_equal(v, "lightsteelblue") {
        Some("b0c4de")
    } else if chars_equal(v, "lightyellow") {
        Some("ffffe0")
    } else if chars_equal(v, "lime") {
        Some("0f0")
    } else if chars_equal(v, "limegreen") {
        Some("32cd32")
    } else if chars_equal(v, "linen") {
        Some("faf0e6")
    } else if chars_equal(v, "magenta") {
        Some("f0f")
    } else if chars_equal(v, "maroon") {
        Some("800000")
    } else if chars_equal(v, "mediumaquamarine") {
        Some("66cdaa")
    } else if chars_equal(v, "mediumblue") {
        Some("0000cd")
    } else if chars_equal(v, "mediumorchid") {
        Some("ba55d3")
    } else if chars_equal(v, "mediumpurple") {
        Some("9370db")
    } else if chars_equal(v, "mediumseagreen") {
        Some("3cb371")
    } else if chars_equal(v, "mediumslateblue") {
        Some("7b68ee")
    } else if chars_equal(v, "mediumspringgreen") {
        Some("00fa9a")
    } else if chars_equal(v, "mediumturquoise") {
        Some("48d1cc")
    } else if chars_equal(v, "mediumvioletred") {
        Some("c71585")
    } else if chars_equal(v, "midnightblue") {
        Some("191970")
    } else if chars_equal(v, "mintcream") {
        Some("f5fffa")
    } else if chars_equal(v, "mistyrose") {
        Some("ffe4e1")
    } else if chars_equal(v, "moccasin") {
        Some("ffe4b5")
    } else if chars_equal(v, "navajowhite") {
        Some("ffdead")
    } else if chars_equal(v, "navy") {
        Some("000080")
    } else if chars_equal(v, "oldlace") {
        Some("fdf5e6")
    } else if chars_equal(v, "olive") {
        Some("808000")
    } else if chars_equal(v, "olivedrab") {
        Some("6b8e23")
    } else if chars_equal(v, "orange") {
        Some("ffa500")
    } else if chars_equal(v, "orangered") {
        Some("ff4500")
    } else if chars_equal(v, "orchid") {
        Some("da70d6")
    } else if chars_equal(v, "palegoldenrod") {
        Some("eee8aa")
    } else if chars_equal(v, "palegreen") {
        Some("98fb98")
    } else if chars_equal(v, "paleturquoise") {
        Some("afeeee")
    } else if chars_equal(v, "palevioletred") {
        Some("db7093")
    } else if chars_equal(v, "papayawhip") {
        Some("ffefd5")
    } else if chars_equal(v, "peachpuff") {
        Some("ffdab9")
    } else if chars_equal(v, "peru") {
        Some("cd853f")
    } else if chars_equal(v, "pink") {
        Some("ffc0cb")
    } else if chars_equal(v, "plum") {
        Some("dda0dd")
    } else if chars_equal(v, "powderblue") {
        Some("b0e0e6")
    } else if chars_equal(v, "purple") {
        Some("800080")
    } else if chars_equal(v, "rebeccapurple") {
        Some("663399")
    } else if chars_equal(v, "red") {
        Some("f00")
    } else if chars_equal(v, "rosybrown") {
        Some("bc8f8f")
    } else if chars_equal(v, "royalblue") {
        Some("4169e1")
    } else if chars_equal(v, "saddlebrown") {
        Some("8b4513")
    } else if chars_equal(v, "salmon") {
        Some("fa8072")
    } else if chars_equal(v, "sandybrown") {
        Some("f4a460")
    } else if chars_equal(v, "seagreen") {
        Some("2e8b57")
    } else if chars_equal(v, "seashell") {
        Some("fff5ee")
    } else if chars_equal(v, "sienna") {
        Some("a0522d")
    } else if chars_equal(v, "silver") {
        Some("c0c0c0")
    } else if chars_equal(v, "skyblue") {
        Some("87ceeb")
    } else if chars_equal(v, "slateblue") {
        Some("6a5acd")
    } else if chars_equal(v, "slategray") {
        Some("708090")
    } else if chars_equal(v, "slategrey") {
        Some("708090")
    } else if chars_equal(v, "snow") {
        Some("fffafa")
    } else if chars_equal(v, "springgreen") {
        Some("00ff7f")
    } else if chars_equal(v, "steelblue") {
        Some("4682b4")
    } else if chars_equal(v, "tan") {
        Some("d2b48c")
    } else if chars_equal(v, "teal") {
        Some("008080")
    } else if chars_equal(v, "thistle") {
        Some("d8bfd8")
    } else if chars_equal(v, "tomato") {
        Some("ff6347")
    } else if chars_equal(v, "turquoise") {
        Some("40e0d0")
    } else if chars_equal(v, "violet") {
        Some("ee82ee")
    } else if chars_equal(v, "wheat") {
        Some("f5deb3")
    } else if chars_equal(v, "white") {
        Some("fff")
    } else if chars_equal(v, "whitesmoke") {
        Some("f5f5f5")
    } else if chars_equal(v, "yellow") {
        Some("ff0")
    } else if chars_equal(v, "yellowgreen") {
        Some("9acd32")
    } else {
        None
    }
}


/// The color that the table gives for a lowercase name.
pub open spec fn named_rgba(name: Seq<char>) -> Option<Rgba8> {
    match named_hex(name) {
        Some(h) => hex_rgba(h),
        None => None,
    }
}

/// Looks a lowercase color name up in the table.
pub fn named_color(name: &str) -> (r: Option<Rgba8>)
    ensures
        r == named_rgba(name@),
{
    let v = crate::text::chars_of(name);
    lookup_named(&v)
}

/// Looks the lowercase name in `v` up in the table.
pub fn lookup_named(v: &Vec<char>) -> (r: Option<Rgba8>)
    ensures
        r == named_rgba(v@),
{
    match lookup_hex(v) {
        Some(h) => match parse_hex(h) {
            Ok(c) => Some(c),
            Err(_) => None,
        },
        None => None,
    }
}


/// The name that the table gives for hex digits as the table writes them;
/// where several names share the digits, the first in alphabetical order.
pub open spec fn hex_name(hex: Seq<char>) -> Option<Seq<char>> {
    if hex == "f0f8ff"@ {
        Some("aliceblue"@)
    } else if hex == "faebd7"@ {
        Some("antiquewhite"@)
    } else if hex == "0ff"@ {
        Some("aqua"@)
    } else if hex == "7fffd4"@ {
        Some("aquamarine"@)
    } else if hex == "f0ffff"@ {
        Some("azure"@)
    } else if hex == "f5f5dc"@ {
        Some("beige"@)
    } else if hex == "ffe4c4"@ {
        Some("bisque"@)
    } else if hex == "000"@ {
        Some("black"@)
    } else if hex == "ffebcd"@ {
        Some("blanchedalmond"@)
    } else if hex == "00f"@ {
        Some("blue"@)
    } else if hex == "8a2be2"@ {
        Some("blueviolet"@)
    } else if hex == "a52a2a"@ {
        Some("brown"@)
    } else if hex == "deb887"@ {
        Some("burlywood"@)
    } else if hex == "ea7e5d"@ {
        Some("burntsienna"@)
    } else if hex == "5f9ea0"@ {
        Some("cadetblue"@)
    } else if hex == "7fff00"@ {
        Some("chartreuse"@)
    } else if hex == "d2691e"@ {
        Some("chocolate"@)
    } else if hex == "ff7f50"@ {
        Some("coral"@)
    } else if hex == "6495ed"@ {
        Some("cornflowerblue"@)
    } else if hex == "fff8dc"@ {
        Some("cornsilk"@)
    } else if hex == "dc143c"@ {
        Some("crimson"@)
    } else if hex == "00008b"@ {
        Some("darkblue"@)
    } else if hex == "008b8b"@ {
        Some("darkcyan"@)
    } else if hex == "b8860b"@ {
        Some("darkgoldenrod"@)
    } else if hex == "a9a9a9"@ {
        Some("darkgray"@)
    } else if hex == "006400"@ {
        Some("darkgreen"@)
    } else if hex == "bdb76b"@ {
        Some("darkkhaki"@)
    } else if hex == "8b008b"@ {
        Some("darkmagenta"@)
    } else if hex == "556b2f"@ {
        Some("darkolivegreen"@)
    } else if hex == "ff8c00"@ {
        Some("darkorange"@)
    } else if hex == "9932cc"@ {
        Some("darkorchid"@)
    } else if hex == "8b0000"@ {
        Some("darkred"@)
    } else if hex == "e9967a"@ {
        Some("darksalmon"@)
    } else if hex == "8fbc8f"@ {
        Some("darkseagreen"@)
    } else if hex == "483d8b"@ {
        Some("darkslateblue"@)
    } else if hex == "2f4f4f"@ {
        Some("darkslategray"@)
    } else if hex == "00ced1"@ {
        Some("darkturquoise"@)
    } else if hex == "9400d3"@ {
        Some("darkviolet"@)
    } else if hex == "ff1493"@ {
        Some("deeppink"@)
    } else if hex == "00bfff"@ {
        Some("deepskyblue"@)
    } else if hex == "696969"@ {
        Some("dimgray"@)
    } else if hex == "1e90ff"@ {
        Some("dodgerblue"@)
    } else if hex == "b22222"@ {
        Some("firebrick"@)
    } else if hex == "fffaf0"@ {
        Some("floralwhite"@)
    } else if hex == "228b22"@ {
        Some("forestgreen"@)
    } else if hex == "f0f"@ {
        Some("fuchsia"@)
    } else if hex == "dcdcdc"@ {
        Some("gainsboro"@)
    } else if hex == "f8f8ff"@ {
        Some("ghostwhite"@)
    } else if hex == "ffd700"@ {
        Some("gold"@)
    } else if hex == "daa520"@ {
        Some("goldenrod"@)
    } else if hex == "808080"@ {
        Some("gray"@)
    } else if hex == "008000"@ {
        Some("green"@)
    } else if hex == "adff2f"@ {
        Some("greenyellow"@)
    } else if hex == "f0fff0"@ {
        Some("honeydew"@)
    } else if hex == "ff69b4"@ {
        Some("hotpink"@)
    } else if hex == "cd5c5c"@ {
        Some("indianred"@)
    } else if hex == "4b0082"@ {
        Some("indigo"@)
    } else if hex == "fffff0"@ {
        Some("ivory"@)
    } else if hex == "f0e68c"@ {
        Some("khaki"@)
    } else if hex == "e6e6fa"@ {
        Some("lavender"@)
    } else if hex == "fff0f5"@ {
        Some("lavenderblush"@)
    } else if hex == "7cfc00"@ {
        Some("lawngreen"@)
    } else if hex == "fffacd"@ {
        Some("lemonchiffon"@)
    } else if hex == "add8e6"@ {
        Some("lightblue"@)
    } else if hex == "f08080"@ {
        Some("lightcoral"@)
    } else if hex == "e0ffff"@ {
        Some("lightcyan"@)
    } else if hex == "fafad2"@ {
        Some("lightgoldenrodyellow"@)
    } else if hex == "d3d3d3"@ {
        Some("lightgray"@)
    } else if hex == "90ee90"@ {
        Some("lightgreen"@)
    } else if hex == "ffb6c1"@ {
        Some("lightpink"@)
    } else if hex == "ffa07a"@ {
        Some("lightsalmon"@)
    } else if hex == "20b2aa"@ {
        Some("lightseagreen"@)
    } else if hex == "87cefa"@ {
        Some("lightskyblue"@)
    } else if hex == "789"@ {
        Some("lightslategray"@)
    } else if hex == "b0c4de"@ {
        Some("lightsteelblue"@)
    } else if hex == "ffffe0"@ {
        Some("lightyellow"@)
    } else if hex == "0f0"@ {
        Some("lime"@)
    } else if hex == "32cd32"@ {
        Some("limegreen"@)
    } else if hex == "faf0e6"@ {
        Some("linen"@)
    } else if hex == "800000"@ {
        Some("maroon"@)
    } else if hex == "66cdaa"@ {
        Some("mediumaquamarine"@)
    } else if hex == "0000cd"@ {
        Some("mediumblue"@)
    } else if hex == "ba55d3"@ {
        Some("mediumorchid"@)
    } else if hex == "9370db"@ {
        Some("mediumpurple"@)
    } else if hex == "3cb371"@ {
        Some("mediumseagreen"@)
    } else if hex == "7b68ee"@ {
        Some("mediumslateblue"@)
    } else if hex == "00fa9a"@ {
        Some("mediumspringgreen"@)
    } else if hex == "48d1cc"@ {
        Some("mediumturquoise"@)
    } else if hex == "c71585"@ {
        Some("mediumvioletred"@)
    } else if hex == "191970"@ {
        Some("midnightblue"@)
    } else if hex == "f5fffa"@ {
        Some("mintcream"@)
    } else if hex == "ffe4e1"@ {
        Some("mistyrose"@)
    } else if hex == "ffe4b5"@ {
        Some("moccasin"@)
    } else if hex == "ffdead"@ {
        Some("navajowhite"@)
    } else if hex == "000080"@ {
        Some("navy"@)
    } else if hex == "fdf5e6"@ {
        Some("oldlace"@)
    } else if hex == "808000"@ {
        Some("olive"@)
    } else if hex == "6b8e23"@ {
        Some("olivedrab"@)
    } else if hex == "ffa500"@ {
        Some("orange"@)
    } else if hex == "ff4500"@ {
        Some("orangered"@)
    } else if hex == "da70d6"@ {
        Some("orchid"@)
    } else if hex == "eee8aa"@ {
        Some("palegoldenrod"@)
    } else if hex == "98fb98"@ {
        Some("palegreen"@)
    } else if hex == "afeeee"@ {
        Some("paleturquoise"@)
    } else if hex == "db7093"@ {
        Some("palevioletred"@)
    } else if hex == "ffefd5"@ {
        Some("papayawhip"@)
    } else if hex == "ffdab9"@ {
        Some("peachpuff"@)
    } else if hex == "cd853f"@ {
        Some("peru"@)
    } else if hex == "ffc0cb"@ {
        Some("pink"@)
    } else if hex == "dda0dd"@ {
        Some("plum"@)
    } else if hex == "b0e0e6"@ {
        Some("powderblue"@)
    } else if hex == "800080"@ {
        Some("purple"@)
    } else if hex == "663399"@ {
        Some("rebeccapurple"@)
    } else if hex == "f00"@ {
        Some("red"@)
    } else if hex == "bc8f8f"@ {
        Some("rosybrown"@)
    } else if hex == "4169e1"@ {
        Some("royalblue"@)
    } else if hex == "8b4513"@ {
        Some("saddlebrown"@)
    } else if hex == "fa8072"@ {
        Some("salmon"@)
    } else if hex == "f4a460"@ {
        Some("sandybrown"@)
    } else if hex == "2e8b57"@ {
        Some("seagreen"@)
    } else if hex == "fff5ee"@ {
        Some("seashell"@)
    } else if hex == "a0522d"@ {
        Some("sienna"@)
    } else if hex == "c0c0c0"@ {
        Some("silver"@)
    } else if hex == "87ceeb"@ {
        Some("skyblue"@)
    } else if hex == "6a5acd"@ {
        Some("slateblue"@)
    } else if hex == "708090"@ {
        Some("slategray"@)
    } else if hex == "fffafa"@ {
        Some("snow"@)
    } else if hex == "00ff7f"@ {
        Some("springgreen"@)
    } else if hex == "4682b4"@ {
        Some("steelblue"@)
    } else if hex == "d2b48c"@ {
        Some("tan"@)
    } else if hex == "008080"@ {
        Some("teal"@)
    } else if hex == "d8bfd8"@ {
        Some("thistle"@)
    } else if hex == "ff6347"@ {
        Some("tomato"@)
    } else if hex == "40e0d0"@ {
        Some("turquoise"@)
    } else if hex == "ee82ee"@ {
        Some("violet"@)
    } else if hex == "f5deb3"@ {
        Some("wheat"@)
    } else if hex == "fff"@ {
        Some("white"@)
    } else if hex == "f5f5f5"@ {
        Some("whitesmoke"@)
    } else if hex == "ff0"@ {
        Some("yellow"@)
    } else if hex == "9acd32"@ {
        Some("yellowgreen"@)
    } else {
        None
    }
}

/// The name that the table gives for hex digits as the table writes them
/// (short form where the digits allow it).
pub fn name_of_hex(hex: &str) -> (r: Option<&'static str>)
    ensures
        match hex_name(hex@) {
            Some(n) => r.is_some() && r.unwrap()@ == n,
            None => r.is_none(),
        },
{
    let v = crate::text::chars_of(hex);
    if chars_equal(&v, "f0f8ff") {
        Some("aliceblue")
    } else if chars_equal(&v, "faebd7") {
        Some("antiquewhite")
    } else if chars_equal(&v, "0ff") {
        Some("aqua")
    } else if chars_equal(&v, "7fffd4") {
        Some("aquamarine")
    } else if chars_equal(&v, "f0ffff") {
        Some("azure")
    } else if chars_equal(&v, "f5f5dc") {
        Some("beige")
    } else if chars_equal(&v, "ffe4c4") {
        Some("bisque")
    } else if chars_equal(&v, "000") {
        Some("black")
    } else if chars_equal(&v, "ffebcd") {
        Some("blanchedalmond")
    } else if chars_equal(&v, "00f") {
        Some("blue")
    } else if chars_equal(&v, "8a2be2") {
        Some("blueviolet")
    } else if chars_equal(&v, "a52a2a") {
        Some("brown")
    } else if chars_equal(&v, "deb887") {
        Some("burlywood")
    } else if chars_equal(&v, "ea7e5d") {
        Some("burntsienna")
    } else if chars_equal(&v, "5f9ea0") {
        Some("cadetblue")
    } else if chars_equal(&v, "7fff00") {
        Some("chartreuse")
    } else if chars_equal(&v, "d2691e") {
        Some("chocolate")
    } else if chars_equal(&v, "ff7f50") {
        Some("coral")
    } else if chars_equal(&v, "6495ed") {
        Some("cornflowerblue")
    } else if chars_equal(&v, "fff8dc") {
        Some("cornsilk")
    } else if chars_equal(&v, "dc143c") {
        Some("crimson")
    } else if chars_equal(&v, "00008b") {
        Some("darkblue")
    } else if chars_equal(&v, "008b8b") {
        Some("darkcyan")
    } else if chars_equal(&v, "b8860b") {
        Some("darkgoldenrod")
    } else if chars_equal(&v, "a9a9a9") {
        Some("darkgray")
    } else if chars_equal(&v, "006400") {
        Some("darkgreen")
    } else if chars_equal(&v, "bdb76b") {
        Some("darkkhaki")
    } else if chars_equal(&v, "8b008b") {
        Some("darkmagenta")
    } else if chars_equal(&v, "556b2f") {
        Some("darkolivegreen")
    } else if chars_equal(&v, "ff8c00") {
        Some("darkorange")
    } else if chars_equal(&v, "9932cc") {
        Some("darkorchid")
    } else if chars_equal(&v, "8b0000") {
        Some("darkred")
    } else if chars_equal(&v, "e9967a") {
        Some("darksalmon")
    } else if chars_equal(&v, "8fbc8f") {
        Some("darkseagreen")
    } else if chars_equal(&v, "483d8b") {
        Some("darkslateblue")
    } else if chars_equal(&v, "2f4f4f") {
        Some("darkslategray")
    } else if chars_equal(&v, "00ced1") {
        Some("darkturquoise")
    } else if chars_equal(&v, "9400d3") {
        Some("darkviolet")
    } else if chars_equal(&v, "ff1493") {
        Some("deeppink")
    } else if chars_equal(&v, "00bfff") {
        Some("deepskyblue")
    } else if chars_equal(&v, "696969") {
        Some("dimgray")
    } else if chars_equal(&v, "1e90ff") {
        Some("dodgerblue")
    } else if chars_equal(&v, "b22222") {
        Some("firebrick")
    } else if chars_equal(&v, "fffaf0") {
        Some("floralwhite")
    } else if chars_equal(&v, "228b22") {
        Some("forestgreen")
    } else if chars_equal(&v, "f0f") {
        Some("fuchsia")
    } else if chars_equal(&v, "dcdcdc") {
        Some("gainsboro")
    } else if chars_equal(&v, "f8f8ff") {
        Some("ghostwhite")
    } else if chars_equal(&v, "ffd700") {
        Some("gold")
    } else if chars_equal(&v, "daa520") {
        Some("goldenrod")
    } else if chars_equal(&v, "808080") {
        Some("gray")
    } else if chars_equal(&v, "008000") {
        Some("green")
    } else if chars_equal(&v, "adff2f") {
        Some("greenyellow")
    } else if chars_equal(&v, "f0fff0") {
        Some("honeydew")
    } else if chars_equal(&v, "ff69b4") {
        Some("hotpink")
    } else if chars_equal(&v, "cd5c5c") {
        Some("indianred")
    } else if chars_equal(&v, "4b0082") {
        Some("indigo")
    } else if chars_equal(&v, "fffff0") {
        Some("ivory")
    } else if chars_equal(&v, "f0e68c") {
        Some("khaki")
    } else if chars_equal(&v, "e6e6fa") {
        Some("lavender")
    } else if chars_equal(&v, "fff0f5") {
        Some("lavenderblush")
    } else if chars_equal(&v, "7cfc00") {
        Some("lawngreen")
    } else if chars_equal(&v, "fffacd") {
        Some("lemonchiffon")
    } else if chars_equal(&v, "add8e6") {
        Some("lightblue")
    } else if chars_equal(&v, "f08080") {
        Some("lightcoral")
    } else if chars_equal(&v, "e0ffff") {
        Some("lightcyan")
    } else if chars_equal(&v, "fafad2") {
        Some("lightgoldenrodyellow")
    } else if chars_equal(&v, "d3d3d3") {
        Some("lightgray")
    } else if chars_equal(&v, "90ee90") {
        Some("lightgreen")
    } else if chars_equal(&v, "ffb6c1") {
        Some("lightpink")
    } else if chars_equal(&v, "ffa07a") {
        Some("lightsalmon")
    } else if chars_equal(&v, "20b2aa") {
        Some("lightseagreen")
    } else if chars_equal(&v, "87cefa") {
        Some("lightskyblue")
    } else if chars_equal(&v, "789") {
        Some("lightslategray")
    } else if chars_equal(&v, "b0c4de") {
        Some("lightsteelblue")
    } else if chars_equal(&v, "ffffe0") {
        Some("lightyellow")
    } else if chars_equal(&v, "0f0") {
        Some("lime")
    } else if chars_equal(&v, "32cd32") {
        Some("limegreen")
    } else if chars_equal(&v, "faf0e6") {
        Some("linen")
    } else if chars_equal(&v, "800000") {
        Some("maroon")
    } else if chars_equal(&v, "66cdaa") {
        Some("mediumaquamarine")
    } else if chars_equal(&v, "0000cd") {
        Some("mediumblue")
    } else if chars_equal(&v, "ba55d3") {
        Some("mediumorchid")
    } else if chars_equal(&v, "9370db") {
        Some("mediumpurple")
    } else if chars_equal(&v, "3cb371") {
        Some("mediumseagreen")
    } else if chars_equal(&v, "7b68ee") {
        Some("mediumslateblue")
    } else if chars_equal(&v, "00fa9a") {
        Some("mediumspringgreen")
    } else if chars_equal(&v, "48d1cc") {
        Some("mediumturquoise")
    } else if chars_equal(&v, "c71585") {
        Some("mediumvioletred")
    } else if chars_equal(&v, "191970") {
        Some("midnightblue")
    } else if chars_equal(&v, "f5fffa") {
        Some("mintcream")
    } else if chars_equal(&v, "ffe4e1") {
        Some("mistyrose")
    } else if chars_equal(&v, "ffe4b5") {
        Some("moccasin")
    } else if chars_equal(&v, "ffdead") {
        Some("navajowhite")
    } else if chars_equal(&v, "000080") {
        Some("navy")
    } else if chars_equal(&v, "fdf5e6") {
        Some("oldlace")
    } else if chars_equal(&v, "808000") {
        Some("olive")
    } else if chars_equal(&v, "6b8e23") {
        Some("olivedrab")
    } else if chars_equal(&v, "ffa500") {
        Some("orange")
    } else if chars_equal(&v, "ff4500") {
        Some("orangered")
    } else if chars_equal(&v, "da70d6") {
        Some("orchid")
    } else if chars_equal(&v, "eee8aa") {
        Some("palegoldenrod")
    } else if chars_equal(&v, "98fb98") {
        Some("palegreen")
    } else if chars_equal(&v, "afeeee") {
        Some("paleturquoise")
    } else if chars_equal(&v, "db7093") {
        Some("palevioletred")
    } else if chars_equal(&v, "ffefd5") {
        Some("papayawhip")
    } else if chars_equal(&v, "ffdab9") {
        Some("peachpuff")
    } else if chars_equal(&v, "cd853f") {
        Some("peru")
    } else if chars_equal(&v, "ffc0cb") {
        Some("pink")
    } else if chars_equal(&v, "dda0dd") {
        Some("plum")
    } else if chars_equal(&v, "b0e0e6") {
        Some("powderblue")
    } else if chars_equal(&v, "800080") {
        Some("purple")
    } else if chars_equal(&v, "663399") {
        Some("rebeccapurple")
    } else if chars_equal(&v, "f00") {
        Some("red")
    } else if chars_equal(&v, "bc8f8f") {
        Some("rosybrown")
    } else if chars_equal(&v, "4169e1") {
        Some("royalblue")
    } else if chars_equal(&v, "8b4513") {
        Some("saddlebrown")
    } else if chars_equal(&v, "fa8072") {
        Some("salmon")
    } else if chars_equal(&v, "f4a460") {
        Some("sandybrown")
    } else if chars_equal(&v, "2e8b57") {
        Some("seagreen")
    } else if chars_equal(&v, "fff5ee") {
        Some("seashell")
    } else if chars_equal(&v, "a0522d") {
        Some("sienna")
    } else if chars_equal(&v, "c0c0c0") {
        Some("silver")
    } else if chars_equal(&v, "87ceeb") {
        Some("skyblue")
    } else if chars_equal(&v, "6a5acd") {
        Some("slateblue")
    } else if chars_equal(&v, "708090") {
        Some("slategray")
    } else if chars_equal(&v, "fffafa") {
        Some("snow")
    } else if chars_equal(&v, "00ff7f") {
        Some("springgreen")
    } else if chars_equal(&v, "4682b4") {
        Some("steelblue")
    } else if chars_equal(&v, "d2b48c") {
        Some("tan")
    } else if chars_equal(&v, "008080") {
        Some("teal")
    } else if chars_equal(&v, "d8bfd8") {
        Some("thistle")
    } else if chars_equal(&v, "ff6347") {
        Some("tomato")
    } else if chars_equal(&v, "40e0d0") {
        Some("turquoise")
    } else if chars_equal(&v, "ee82ee") {
        Some("violet")
    } else if chars_equal(&v, "f5deb3") {
        Some("wheat")
    } else if chars_equal(&v, "fff") {
        Some("white")
    } else if chars_equal(&v, "f5f5f5") {
        Some("whitesmoke")
    } else if chars_equal(&v, "ff0") {
        Some("yellow")
    } else if chars_equal(&v, "9acd32") {
        Some("yellowgreen")
    } else {
        None
    }
}

} // verus!

verus! {

/// No name of the table starts with `#`.
pub proof fn lemma_no_name_starts_with_hash(t: Seq<char>)
    requires
        t.len() > 0,
        t[0] == '#',
    ensures
        named_hex(t) is None,
{
    reveal_strlit("aliceblue");
    reveal_strlit("antiquewhite");
    reveal_strlit("aqua");
    reveal_strlit("aquamarine");
    reveal_strlit("azure");
    reveal_strlit("beige");
    reveal_strlit("bisque");
    reveal_strlit("black");
    reveal_strlit("blanchedalmond");
    reveal_strlit("blue");
    reveal_strlit("blueviolet");
    reveal_strlit("brown");
    reveal_strlit("burlywood");
    reveal_strlit("burntsienna");
    reveal_strlit("cadetblue");
    reveal_strlit("chartreuse");
    reveal_strlit("chocolate");
    reveal_strlit("coral");
    reveal_strlit("cornflowerblue");
    reveal_strlit("cornsilk");
    reveal_strlit("crimson");
    reveal_strlit("cyan");
    reveal_strlit("darkblue");
    reveal_strlit("darkcyan");
    reveal_strlit("darkgoldenrod");
    reveal_strlit("darkgray");
    reveal_strlit("darkgreen");
    reveal_strlit("darkgrey");
    reveal_strlit("darkkhaki");
    reveal_strlit("darkmagenta");
    reveal_strlit("darkolivegreen");
    reveal_strlit("darkorange");
    reveal_strlit("darkorchid");
    reveal_strlit("darkred");
    reveal_strlit("darksalmon");
    reveal_strlit("darkseagreen");
    reveal_strlit("darkslateblue");
    reveal_strlit("darkslategray");
    reveal_strlit("darkslategrey");
    reveal_strlit("darkturquoise");
    reveal_strlit("darkviolet");
    reveal_strlit("deeppink");
    reveal_strlit("deepskyblue");
    reveal_strlit("dimgray");
    reveal_strlit("dimgrey");
    reveal_strlit("dodgerblue");
    reveal_strlit("firebrick");
    reveal_strlit("floralwhite");
    reveal_strlit("forestgreen");
    reveal_strlit("fuchsia");
    reveal_strlit("gainsboro");
    reveal_strlit("ghostwhite");
    reveal_strlit("gold");
    reveal_strlit("goldenrod");
    reveal_strlit("gray");
    reveal_strlit("green");
    reveal_strlit("greenyellow");
    reveal_strlit("grey");
    reveal_strlit("honeydew");
    reveal_strlit("hotpink");
    reveal_strlit("indianred");
    reveal_strlit("indigo");
    reveal_strlit("ivory");
    reveal_strlit("khaki");
    reveal_strlit("lavender");
    reveal_strlit("lavenderblush");
    reveal_strlit("lawngreen");
    reveal_strlit("lemonchiffon");
    reveal_strlit("lightblue");
    reveal_strlit("lightcoral");
    reveal_strlit("lightcyan");
    reveal_strlit("lightgoldenrodyellow");
    reveal_strlit("lightgray");
    reveal_strlit("lightgreen");
    reveal_strlit("lightgrey");
    reveal_strlit("lightpink");
    reveal_strlit("lightsalmon");
    reveal_strlit("lightseagreen");
    reveal_strlit("lightskyblue");
    reveal_strlit("lightslategray");
    reveal_strlit("lightslategrey");
    reveal_strlit("lightsteelblue");
    reveal_strlit("lightyellow");
    reveal_strlit("lime");
    reveal_strlit("limegreen");
    reveal_strlit("linen");
    reveal_strlit("magenta");
    reveal_strlit("maroon");
    reveal_strlit("mediumaquamarine");
    reveal_strlit("mediumblue");
    reveal_strlit("mediumorchid");
    reveal_strlit("mediumpurple");
    reveal_strlit("mediumseagreen");
    reveal_strlit("mediumslateblue");
    reveal_strlit("mediumspringgreen");
    reveal_strlit("mediumturquoise");
    reveal_strlit("mediumvioletred");
    reveal_strlit("midnightblue");
    reveal_strlit("mintcream");
    reveal_strlit("mistyrose");
    reveal_strlit("moccasin");
    reveal_strlit("navajowhite");
    reveal_strlit("navy");
    reveal_strlit("oldlace");
    reveal_strlit("olive");
    reveal_strlit("olivedrab");
    reveal_strlit("orange");
    reveal_strlit("orangered");
    reveal_strlit("orchid");
    reveal_strlit("palegoldenrod");
    reveal_strlit("palegreen");
    reveal_strlit("paleturquoise");
    reveal_strlit("palevioletred");
    reveal_strlit("papayawhip");
    reveal_strlit("peachpuff");
    reveal_strlit("peru");
    reveal_strlit("pink");
    reveal_strlit("plum");
    reveal_strlit("powderblue");
    reveal_strlit("purple");
    reveal_strlit("rebeccapurple");
    reveal_strlit("red");
    reveal_strlit("rosybrown");
    reveal_strlit("royalblue");
    reveal_strlit("saddlebrown");
    reveal_strlit("salmon");
    reveal_strlit("sandybrown");
    reveal_strlit("seagreen");
    reveal_strlit("seashell");
    reveal_strlit("sienna");
    reveal_strlit("silver");
    reveal_strlit("skyblue");
    reveal_strlit("slateblue");
    reveal_strlit("slategray");
    reveal_strlit("slategrey");
    reveal_strlit("snow");
    reveal_strlit("springgreen");
    reveal_strlit("steelblue");
    reveal_strlit("tan");
    reveal_strlit("teal");
    reveal_strlit("thistle");
    reveal_strlit("tomato");
    reveal_strlit("turquoise");
    reveal_strlit("violet");
    reveal_strlit("wheat");
    reveal_strlit("white");
    reveal_strlit("whitesmoke");
    reveal_strlit("yellow");
    reveal_strlit("yellowgreen");
}

} // verus!
