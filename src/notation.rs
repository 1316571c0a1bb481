//! The color notation grammar: named colors, `transparent`, hex digits,
//! functional notations and the bare HSL shorthand, recognised on
//! characters. Numbers stay text; their values are read by the caller.
use vstd::prelude::*;
use crate::error::ParseColorError;
use crate::hex::{
    decode_hex, hex_rgba, lemma_rgb_hex_round_trip, lemma_rgba_hex_round_trip, rgb_hex, rgba8_hex_string,
    rgba_hex,
};
use crate::model::{ColorFormat, Rgba8};
use crate::names::{chars_equal, lemma_no_name_starts_with_hash, lookup_named, named_rgba};
use crate::syntax::{slice_chars, split_tokens, split_unit, split_unit_chars, tokens, Unit};
use crate::text::{chars_of, lowercase, string_of_chars, trim, lower_of, trim_of};

verus! {

/// The functional notations that the parser knows.
#[derive(Debug, Clone, Copy, PartialEq, Eq, Structural)]
pub enum ColorFunction {
    /// `rgb()` / `rgba()`
    Rgb,
    /// `hsl()` / `hsla()`
    Hsl,
    /// `hsv()` / `hsva()` / `hsb()` / `hsba()`
    Hsv,
    /// `lab()`
    Lab,
    /// `lch()`
    Lch,
    /// `oklab()`
    Oklab,
    /// `oklch()`
    Oklch,
    /// `cmyk()`
    Cmyk,
}

/// The notation that a function name selects.
pub open spec fn function_named(name: Seq<char>) -> Option<ColorFunction> {
    if name == "rgb"@ || name == "rgba"@ {
        Some(ColorFunction::Rgb)
    } else if name == "hsl"@ || name == "hsla"@ {
        Some(ColorFunction::Hsl)
    } else if name == "hsv"@ || name == "hsva"@ || name == "hsb"@ || name == "hsba"@ {
        Some(ColorFunction::Hsv)
    } else if name == "lab"@ {
        Some(ColorFunction::Lab)
    } else if name == "lch"@ {
        Some(ColorFunction::Lch)
    } else if name == "oklab"@ {
        Some(ColorFunction::Oklab)
    } else if name == "oklch"@ {
        Some(ColorFunction::Oklch)
    } else if name == "cmyk"@ {
        Some(ColorFunction::Cmyk)
    } else {
        None
    }
}

/// The number of components that a notation takes, alpha aside.
pub open spec fn arity(f: ColorFunction) -> nat {
    if f == ColorFunction::Cmyk {
        4
    } else {
        3
    }
}

/// The error that a malformed argument list of the notation gives.
pub open spec fn notation_error(f: ColorFunction) -> ParseColorError {
    match f {
        ColorFunction::Rgb => ParseColorError::InvalidRgbColor,
        ColorFunction::Hsl => ParseColorError::InvalidHslColor,
        ColorFunction::Hsv => ParseColorError::InvalidHsvColor,
        ColorFunction::Cmyk => ParseColorError::InvalidCmykColor,
        _ => ParseColorError::InvalidLabColor,
    }
}

/// The notation that a function name selects.
pub fn function_of(name: &Vec<char>) -> (r: Option<ColorFunction>)
    ensures
        r == function_named(name@),
{
    if chars_equal(name, "rgb") || chars_equal(name, "rgba") {
        Some(ColorFunction::Rgb)
    } else if chars_equal(name, "hsl") || chars_equal(name, "hsla") {
        Some(ColorFunction::Hsl)
    } else if chars_equal(name, "hsv") || chars_equal(name, "hsva") || chars_equal(name, "hsb")
        || chars_equal(name, "hsba") {
        Some(ColorFunction::Hsv)
    } else if chars_equal(name, "lab") {
        Some(ColorFunction::Lab)
    } else if chars_equal(name, "lch") {
        Some(ColorFunction::Lch)
    } else if chars_equal(name, "oklab") {
        Some(ColorFunction::Oklab)
    } else if chars_equal(name, "oklch") {
        Some(ColorFunction::Oklch)
    } else if chars_equal(name, "cmyk") {
        Some(ColorFunction::Cmyk)
    } else {
        None
    }
}

fn arity_of(f: ColorFunction) -> (n: usize)
    ensures
        n == arity(f),
{
    if f == ColorFunction::Cmyk {
        4
    } else {
        3
    }
}

fn error_of(f: ColorFunction) -> (e: ParseColorError)
    ensures
        e == notation_error(f),
{
    match f {
        ColorFunction::Rgb => ParseColorError::InvalidRgbColor,
        ColorFunction::Hsl => ParseColorError::InvalidHslColor,
        ColorFunction::Hsv => ParseColorError::InvalidHsvColor,
        ColorFunction::Cmyk => ParseColorError::InvalidCmykColor,
        _ => ParseColorError::InvalidLabColor,
    }
}

/// The index of the first `c` in `s`, or the length of `s`.
pub open spec fn find_from(s: Seq<char>, c: char, i: int) -> int
    decreases s.len() - i,
{
    if i < 0 || i >= s.len() {
        s.len() as int
    } else if s[i] == c {
        i
    } else {
        find_from(s, c, i + 1)
    }
}

/// The index of the first `c` in `s`, or the length of `s`.
pub open spec fn find_char(s: Seq<char>, c: char) -> int {
    find_from(s, c, 0)
}

/// The index of the first `c` in `v`, or its length.
pub fn find_char_in(v: &Vec<char>, c: char) -> (r: usize)
    ensures
        r == find_char(v@, c),
        r <= v@.len(),
        r < v@.len() ==> v@[r as int] == c,
{
    let mut i: usize = 0;
    while i < v.len()
        invariant
            i <= v@.len(),
            find_from(v@, c, 0) == find_from(v@, c, i as int),
        decreases v@.len() - i,
    {
        if v[i] == c {
            return i;
        }
        i = i + 1;
    }
    i
}


/// One argument of a notation: the number as written and its unit.
#[derive(Debug)]
pub struct Component {
    pub number: String,
    pub unit: Unit,
}

impl View for Component {
    type V = (Seq<char>, Unit);

    open spec fn view(&self) -> (Seq<char>, Unit) {
        (self.number@, self.unit)
    }
}

/// What a color string says, before any number is read.
#[derive(Debug)]
pub enum ColorSyntax {
    /// A name of the table
    Named(Rgba8),
    /// `transparent`
    Transparent,
    /// Hex digits; the flag tells whether they gave an alpha channel
    Hex(Rgba8, bool),
    /// A functional notation, its components and the alpha text if any
    Function(ColorFunction, Vec<Component>, Option<String>),
    /// `<number> <number>% <number>%`
    HslShorthand(Vec<Component>),
}

/// The mathematical content of a `ColorSyntax`.
pub enum SyntaxModel {
    Named(Rgba8),
    Transparent,
    Hex(Rgba8, bool),
    Function(ColorFunction, Seq<(Seq<char>, Unit)>, Option<Seq<char>>),
    HslShorthand(Seq<(Seq<char>, Unit)>),
}

/// The views of the components, in order.
pub open spec fn components_view(v: Seq<Component>) -> Seq<(Seq<char>, Unit)> {
    v.map_values(|c: Component| c@)
}

impl View for ColorSyntax {
    type V = SyntaxModel;

    open spec fn view(&self) -> SyntaxModel {
        match self {
            ColorSyntax::Named(c) => SyntaxModel::Named(*c),
            ColorSyntax::Transparent => SyntaxModel::Transparent,
            ColorSyntax::Hex(c, a) => SyntaxModel::Hex(*c, *a),
            ColorSyntax::Function(f, cs, alpha) => SyntaxModel::Function(
                *f,
                components_view(cs@),
                match alpha {
                    Some(a) => Some(a@),
                    None => None,
                },
            ),
            ColorSyntax::HslShorthand(cs) => SyntaxModel::HslShorthand(components_view(cs@)),
        }
    }
}

/// `r` is the outcome that `m` describes.
pub open spec fn outcome_is(
    r: Result<ColorSyntax, ParseColorError>,
    m: Result<SyntaxModel, ParseColorError>,
) -> bool {
    match r {
        Ok(x) => m is Ok && x@ == m->Ok_0,
        Err(e) => m is Err && e == m->Err_0,
    }
}

/// Each token split into number text and unit.
pub open spec fn components_of(toks: Seq<Seq<char>>) -> Seq<(Seq<char>, Unit)> {
    toks.map_values(|t: Seq<char>| split_unit(t))
}

/// All components bare numbers, or all percentages.
pub open spec fn uniform_rgb_units(cs: Seq<(Seq<char>, Unit)>) -> bool {
    (forall|i: int| 0 <= i < cs.len() ==> (#[trigger] cs[i]).1 == Unit::Plain) || (forall|i: int|
        0 <= i < cs.len() ==> (#[trigger] cs[i]).1 == Unit::Percent)
}

/// The argument tokens of a notation and its alpha text. After a `/` the
/// alpha is the one token that follows, or else all the text that follows;
/// without one, a token beyond the notation's count is the alpha.
pub open spec fn split_arguments(f: ColorFunction, inner: Seq<char>) -> (
    Seq<Seq<char>>,
    Option<Seq<char>>,
) {
    let k = find_char(inner, '/');
    if k < inner.len() {
        let after = inner.subrange(k + 1, inner.len() as int);
        let rest = tokens(after);
        (tokens(inner.subrange(0, k)), Some(if rest.len() == 1 { rest[0] } else { after }))
    } else {
        let all = tokens(inner);
        if all.len() == arity(f) + 1 {
            (all.take(arity(f) as int), Some(all.last()))
        } else {
            (all, None)
        }
    }
}

/// What the text between the parentheses of notation `f` says.
pub open spec fn function_syntax(f: ColorFunction, inner: Seq<char>) -> Result<
    SyntaxModel,
    ParseColorError,
> {
    let (toks, alpha) = split_arguments(f, inner);
    let cs = components_of(toks);
    if toks.len() != arity(f) {
        Err(notation_error(f))
    } else if f == ColorFunction::Rgb && !uniform_rgb_units(cs) {
        Err(ParseColorError::InvalidRgbColor)
    } else {
        Ok(SyntaxModel::Function(f, cs, alpha))
    }
}

/// Splits tokens into components.
fn components_from(toks: &Vec<Vec<char>>) -> (r: Vec<Component>)
    ensures
        components_view(r@) == components_of(toks.deep_view()),
{
    let mut r: Vec<Component> = Vec::new();
    let mut i: usize = 0;
    while i < toks.len()
        invariant
            i <= toks@.len(),
            components_view(r@) == components_of(toks.deep_view().take(i as int)),
        decreases toks@.len() - i,
    {
        let (num, unit) = split_unit_chars(&toks[i]);
        let c = Component { number: string_of_chars(&num), unit };
        let ghost prev = r@;
        r.push(c);
        proof {
            assert(toks[i as int].deep_view() =~= toks[i as int]@);
            assert(toks.deep_view().take(i + 1) =~= toks.deep_view().take(i as int).push(
                toks.deep_view()[i as int],
            ));
            assert(components_view(r@) =~= components_view(prev).push(c@));
            assert(components_of(toks.deep_view().take(i + 1)) =~= components_of(
                toks.deep_view().take(i as int),
            ).push(split_unit(toks.deep_view()[i as int])));
        }
        i = i + 1;
    }
    assert(toks.deep_view().take(toks@.len() as int) =~= toks.deep_view());
    r
}

fn rgb_units_uniform(cs: &Vec<Component>) -> (r: bool)
    ensures
        r == uniform_rgb_units(components_view(cs@)),
{
    let n = cs.len();
    let mut all_plain = true;
    let mut all_percent = true;
    let mut i: usize = 0;
    while i < n
        invariant
            n == cs@.len(),
            i <= n,
            all_plain == (forall|j: int| 0 <= j < i ==> (#[trigger] cs@[j]).unit == Unit::Plain),
            all_percent == (forall|j: int| 0 <= j < i ==> (#[trigger] cs@[j]).unit == Unit::Percent),
        decreases n - i,
    {
        if cs[i].unit != Unit::Plain {
            all_plain = false;
        }
        if cs[i].unit != Unit::Percent {
            all_percent = false;
        }
        i = i + 1;
    }
    let ghost cv = components_view(cs@);
    assert(forall|j: int|
        #![trigger cv[j]]
        #![trigger cs@[j]]
        0 <= j < n ==> cv[j].1 == cs@[j].unit);
    all_plain || all_percent
}


/// The first `n` tokens.
fn take_tokens(toks: Vec<Vec<char>>, n: usize) -> (r: Vec<Vec<char>>)
    requires
        n <= toks@.len(),
    ensures
        r.deep_view() == toks.deep_view().take(n as int),
{
    let mut r: Vec<Vec<char>> = Vec::new();
    let mut i: usize = 0;
    while i < n
        invariant
            i <= n,
            n <= toks@.len(),
            r.deep_view() == toks.deep_view().take(i as int),
        decreases n - i,
    {
        let t = slice_chars(&toks[i], 0, toks[i].len());
        let ghost prev = r.deep_view();
        r.push(t);
        proof {
            assert(t@ =~= toks[i as int]@);
            assert(t.deep_view() =~= t@);
            assert(toks[i as int].deep_view() =~= toks[i as int]@);
            assert(r.deep_view() =~= prev.push(t.deep_view()));
            assert(toks.deep_view().take(i + 1) =~= toks.deep_view().take(i as int).push(
                toks.deep_view()[i as int],
            ));
        }
        i = i + 1;
    }
    r
}

/// Reads the arguments of notation `f` from the text between its parentheses.
pub fn parse_function(f: ColorFunction, inner: &Vec<char>) -> (r: Result<
    ColorSyntax,
    ParseColorError,
>)
    ensures
        outcome_is(r, function_syntax(f, inner@)),
{
    let n = inner.len();
    let k = find_char_in(inner, '/');
    let arity = arity_of(f);
    let toks: Vec<Vec<char>>;
    let alpha: Option<String>;
    if k < n {
        let after = slice_chars(inner, k + 1, n);
        let rest = split_tokens(&after);
        toks = split_tokens(&slice_chars(inner, 0, k));
        if rest.len() == 1 {
            proof {
                assert(rest[0].deep_view() =~= rest[0]@);
            }
            alpha = Some(string_of_chars(&rest[0]));
        } else {
            alpha = Some(string_of_chars(&after));
        }
    } else {
        let all = split_tokens(inner);
        if all.len() == arity + 1 {
            proof {
                assert(all[arity as int].deep_view() =~= all[arity as int]@);
            }
            alpha = Some(string_of_chars(&all[arity]));
            toks = take_tokens(all, arity);
        } else {
            alpha = None;
            toks = all;
        }
    }
    if toks.len() != arity {
        return Err(error_of(f));
    }
    let cs = components_from(&toks);
    if f == ColorFunction::Rgb && !rgb_units_uniform(&cs) {
        return Err(ParseColorError::InvalidRgbColor);
    }
    Ok(ColorSyntax::Function(f, cs, alpha))
}


/// The function name and the text between the parentheses, where `t` has
/// the shape `name(...)`: a `(` after at least one character and a final `)`.
pub open spec fn call_parts(t: Seq<char>) -> Option<(Seq<char>, Seq<char>)> {
    let i = find_char(t, '(');
    if 0 < i < t.len() && t.last() == ')' {
        Some((t.subrange(0, i), t.subrange(i + 1, t.len() - 1)))
    } else {
        None
    }
}

/// The bare HSL shorthand: three tokens, a number and two percentages.
pub open spec fn hsl_shorthand(t: Seq<char>) -> Option<Seq<(Seq<char>, Unit)>> {
    let cs = components_of(tokens(t));
    if cs.len() == 3 && cs[0].1 == Unit::Plain && cs[1].1 == Unit::Percent && cs[2].1
        == Unit::Percent {
        Some(cs)
    } else {
        None
    }
}

/// Whether hex digits of this count give an alpha channel.
pub open spec fn hex_has_alpha(n: nat) -> bool {
    n == 4 || n == 8
}

/// What a trimmed, lowercase color string says. Tried in order: the named
/// table, `transparent`, `#` and hex digits, bare hex digits, a functional
/// notation, the HSL shorthand.
pub open spec fn syntax_of(t: Seq<char>) -> Result<SyntaxModel, ParseColorError> {
    if t.len() == 0 {
        Err(ParseColorError::EmptyColorString)
    } else if named_rgba(t) is Some {
        Ok(SyntaxModel::Named(named_rgba(t)->Some_0))
    } else if t == "transparent"@ {
        Ok(SyntaxModel::Transparent)
    } else if t[0] == '#' {
        match hex_rgba(t.drop_first()) {
            Some(c) => Ok(SyntaxModel::Hex(c, hex_has_alpha((t.len() - 1) as nat))),
            None => Err(ParseColorError::InvalidHexColor),
        }
    } else if hex_rgba(t) is Some {
        Ok(SyntaxModel::Hex(hex_rgba(t)->Some_0, hex_has_alpha(t.len())))
    } else if call_parts(t) is Some {
        let (name, inner) = call_parts(t)->Some_0;
        match function_named(name) {
            Some(f) => function_syntax(f, inner),
            None => Err(ParseColorError::InvalidFunction),
        }
    } else if hsl_shorthand(t) is Some {
        Ok(SyntaxModel::HslShorthand(hsl_shorthand(t)->Some_0))
    } else {
        Err(ParseColorError::InvalidUnknown)
    }
}

/// Recognises a trimmed, lowercase color string.
pub fn parse_syntax_chars(v: &Vec<char>) -> (r: Result<ColorSyntax, ParseColorError>)
    ensures
        outcome_is(r, syntax_of(v@)),
{
    let n = v.len();
    if n == 0 {
        return Err(ParseColorError::EmptyColorString);
    }
    if let Some(c) = lookup_named(v) {
        return Ok(ColorSyntax::Named(c));
    }
    if chars_equal(v, "transparent") {
        return Ok(ColorSyntax::Transparent);
    }
    if v[0] == '#' {
        let h = slice_chars(v, 1, n);
        assert(h@ =~= v@.drop_first());
        return match decode_hex(&h) {
            Ok(c) => Ok(ColorSyntax::Hex(c, n - 1 == 4 || n - 1 == 8)),
            Err(e) => Err(e),
        };
    }
    if let Ok(c) = decode_hex(v) {
        return Ok(ColorSyntax::Hex(c, n == 4 || n == 8));
    }
    let i = find_char_in(v, '(');
    if 0 < i && i < n && v[n - 1] == ')' {
        let name = slice_chars(v, 0, i);
        let inner = slice_chars(v, i + 1, n - 1);
        return match function_of(&name) {
            Some(f) => parse_function(f, &inner),
            None => Err(ParseColorError::InvalidFunction),
        };
    }
    let toks = split_tokens(v);
    let cs = components_from(&toks);
    if cs.len() == 3 && cs[0].unit == Unit::Plain && cs[1].unit == Unit::Percent && cs[2].unit
        == Unit::Percent {
        return Ok(ColorSyntax::HslShorthand(cs));
    }
    Err(ParseColorError::InvalidUnknown)
}

/// Recognises a trimmed, lowercase color string.
pub fn parse_syntax(t: &str) -> (r: Result<ColorSyntax, ParseColorError>)
    ensures
        outcome_is(r, syntax_of(t@)),
{
    let v = chars_of(t);
    parse_syntax_chars(&v)
}

/// Recognises a color string after trimming it and folding it to lowercase.
pub fn parse_notation(s: &str) -> (r: Result<ColorSyntax, ParseColorError>)
    ensures
        outcome_is(r, syntax_of(lower_of(trim_of(s@)))),
{
    let t = lowercase(trim(s));
    parse_syntax(t.as_str())
}


/// The format that a recognised string is recorded under.
pub open spec fn format_of(m: SyntaxModel) -> ColorFormat {
    match m {
        SyntaxModel::Named(_) => ColorFormat::NAME,
        SyntaxModel::Transparent => ColorFormat::RGB,
        SyntaxModel::Hex(_, has_alpha) => if has_alpha {
            ColorFormat::HEX8
        } else {
            ColorFormat::HEX
        },
        SyntaxModel::Function(f, _, _) => match f {
            ColorFunction::Rgb => ColorFormat::RGB,
            ColorFunction::Hsl => ColorFormat::HSL,
            ColorFunction::Hsv => ColorFormat::HSV,
            ColorFunction::Lab => ColorFormat::LAB,
            ColorFunction::Lch => ColorFormat::LCH,
            ColorFunction::Oklab => ColorFormat::OKLAB,
            ColorFunction::Oklch => ColorFormat::OKLCH,
            ColorFunction::Cmyk => ColorFormat::CMYK,
        },
        SyntaxModel::HslShorthand(_) => ColorFormat::HSL,
    }
}

impl ColorSyntax {
    /// The format that this string is recorded under.
    pub fn format(&self) -> (r: ColorFormat)
        ensures
            r == format_of(self@),
    {
        match self {
            ColorSyntax::Named(_) => ColorFormat::NAME,
            ColorSyntax::Transparent => ColorFormat::RGB,
            ColorSyntax::Hex(_, has_alpha) => if *has_alpha {
                ColorFormat::HEX8
            } else {
                ColorFormat::HEX
            },
            ColorSyntax::Function(f, _, _) => match f {
                ColorFunction::Rgb => ColorFormat::RGB,
                ColorFunction::Hsl => ColorFormat::HSL,
                ColorFunction::Hsv => ColorFormat::HSV,
                ColorFunction::Lab => ColorFormat::LAB,
                ColorFunction::Lch => ColorFormat::LCH,
                ColorFunction::Oklab => ColorFormat::OKLAB,
                ColorFunction::Oklch => ColorFormat::OKLCH,
                ColorFunction::Cmyk => ColorFormat::CMYK,
            },
            ColorSyntax::HslShorthand(_) => ColorFormat::HSL,
        }
    }
}


proof fn lemma_find_past(s: Seq<char>, c: char, i: int, k: int)
    requires
        0 <= i <= k <= s.len(),
        forall|j: int| i <= j < k ==> s[j] != c,
        k == s.len() || s[k] == c,
    ensures
        find_from(s, c, i) == k,
    decreases k - i,
{
    if i < k {
        lemma_find_past(s, c, i + 1, k);
    }
}

/// The alpha text that follows a `/`.
pub open spec fn slash_alpha(after: Seq<char>) -> Seq<char> {
    if tokens(after).len() == 1 {
        tokens(after)[0]
    } else {
        after
    }
}

/// The alpha part never decides whether a notation is accepted: with the
/// right number of components, it is accepted with a `/` and any text after
/// it exactly when it is accepted without, with the same components, and
/// the text after the `/` is handed on as the alpha.
pub proof fn lemma_alpha_never_decides(f: ColorFunction, main: Seq<char>, after: Seq<char>)
    requires
        !main.contains('/'),
        tokens(main).len() == arity(f),
    ensures
        (function_syntax(f, main + seq!['/'] + after) is Ok) == (function_syntax(f, main) is Ok),
        function_syntax(f, main) is Ok ==> function_syntax(f, main) == Ok::<
            SyntaxModel,
            ParseColorError,
        >(SyntaxModel::Function(f, components_of(tokens(main)), None)),
        function_syntax(f, main + seq!['/'] + after) is Ok ==> function_syntax(
            f,
            main + seq!['/'] + after,
        ) == Ok::<SyntaxModel, ParseColorError>(
            SyntaxModel::Function(f, components_of(tokens(main)), Some(slash_alpha(after))),
        ),
{
    let s = main + seq!['/'] + after;
    let k = main.len() as int;
    assert forall|j: int| 0 <= j < k implies s[j] != '/' by {
        assert(s[j] == main[j]);
        if main[j] == '/' {
            assert(main.contains('/'));
        }
    }
    lemma_find_past(s, '/', 0, k);
    assert forall|j: int| 0 <= j < k implies main[j] != '/' by {
        if main[j] == '/' {
            assert(main.contains('/'));
        }
    }
    lemma_find_past(main, '/', 0, k);
    assert(s.subrange(0, k) =~= main);
    assert(s.subrange(k + 1, s.len() as int) =~= after);
}

/// The string that `to_hex_string` writes for a color is read back by the
/// grammar as that same color, with an alpha channel exactly when the color
/// is not opaque.
pub proof fn lemma_hex_string_parses_back(c: Rgba8)
    ensures
        syntax_of(rgba8_hex_string(c)) == Ok::<SyntaxModel, ParseColorError>(
            SyntaxModel::Hex(c, c.a < 255),
        ),
{
    let t = rgba8_hex_string(c);
    lemma_no_name_starts_with_hash(t);
    reveal_strlit("transparent");
    if c.a < 255 {
        lemma_rgba_hex_round_trip(c.r, c.g, c.b, c.a, false);
        assert(t.drop_first() =~= rgba_hex(c.r, c.g, c.b, c.a, false));
    } else {
        lemma_rgb_hex_round_trip(c.r, c.g, c.b, false);
        assert(t.drop_first() =~= rgb_hex(c.r, c.g, c.b, false));
    }
}

/// Without a `/`, one token beyond the notation's count is its alpha, and
/// whether the notation is accepted depends on the other tokens alone.
pub proof fn lemma_extra_token_is_alpha(f: ColorFunction, inner: Seq<char>)
    requires
        !inner.contains('/'),
        tokens(inner).len() == arity(f) + 1,
    ensures
        ({
            let main = components_of(tokens(inner).take(arity(f) as int));
            function_syntax(f, inner) == if f == ColorFunction::Rgb && !uniform_rgb_units(main) {
                Err::<SyntaxModel, ParseColorError>(ParseColorError::InvalidRgbColor)
            } else {
                Ok(SyntaxModel::Function(f, main, Some(tokens(inner).last())))
            }
        }),
{
    assert forall|j: int| 0 <= j < inner.len() implies inner[j] != '/' by {
        if inner[j] == '/' {
            assert(inner.contains('/'));
        }
    }
    lemma_find_past(inner, '/', 0, inner.len() as int);
}

} // verus!
